//! Decoding of `key=value&key=value` form bodies, and the choice of lookup.
use vstd::prelude::*;
use crate::text::same_text;

verus! {

/// The pieces of `s` between `&` separators, in order; an empty text is one
/// empty piece.
pub open spec fn split_segments(s: Seq<char>) -> Seq<Seq<char>>
    decreases s.len(),
{
    if s.len() == 0 {
        seq![Seq::empty()]
    } else {
        let prev = split_segments(s.drop_last());
        if s.last() == '&' {
            prev.push(Seq::empty())
        } else {
            prev.update(prev.len() - 1, prev.last().push(s.last()))
        }
    }
}

/// The index of the first `=` in `s`, if there is one.
pub open spec fn first_eq_sign(s: Seq<char>) -> Option<int>
    decreases s.len(),
{
    if s.len() == 0 {
        None
    } else {
        match first_eq_sign(s.drop_last()) {
            Some(i) => Some(i),
            None => if s.last() == '=' { Some(s.len() - 1) } else { None },
        }
    }
}

/// A piece split at its first `=` into key and value; `None` when it has no `=`.
pub open spec fn key_value(seg: Seq<char>) -> Option<(Seq<char>, Seq<char>)> {
    match first_eq_sign(seg) {
        Some(i) => Some((seg.subrange(0, i), seg.subrange(i + 1, seg.len() as int))),
        None => None,
    }
}

/// The map that the pieces give when each pair is entered in order, so that a
/// later pair overrides an earlier one with the same key.
pub open spec fn segments_map(segs: Seq<Seq<char>>) -> Map<Seq<char>, Seq<char>>
    decreases segs.len(),
{
    if segs.len() == 0 {
        Map::empty()
    } else {
        match key_value(segs.last()) {
            Some(kv) => segments_map(segs.drop_last()).insert(kv.0, kv.1),
            None => segments_map(segs.drop_last()),
        }
    }
}

/// The fields a form body decodes to. Values are taken literally: no
/// percent-decoding is done.
pub open spec fn form_map(s: Seq<char>) -> Map<Seq<char>, Seq<char>> {
    segments_map(split_segments(s))
}

/// The map that the pairs give when entered in order.
pub open spec fn pairs_map(p: Seq<(String, String)>) -> Map<Seq<char>, Seq<char>>
    decreases p.len(),
{
    if p.len() == 0 {
        Map::empty()
    } else {
        pairs_map(p.drop_last()).insert(p.last().0@, p.last().1@)
    }
}

/// Decoded form fields: a map from key to value.
pub struct FormData {
    pairs: Vec<(String, String)>,
}

impl View for FormData {
    type V = Map<Seq<char>, Seq<char>>;

    closed spec fn view(&self) -> Map<Seq<char>, Seq<char>> {
        pairs_map(self.pairs@)
    }
}

/// Splits a piece at its first `=`.
fn split_pair(seg: &str) -> (r: Option<(String, String)>)
    ensures
        match r {
            Some(kv) => key_value(seg@) == Some((kv.0@, kv.1@)),
            None => key_value(seg@).is_none(),
        },
{
    let n = seg.unicode_len();
    let mut i: usize = 0;
    while i < n
        invariant
            i <= n,
            n == seg@.len(),
            first_eq_sign(seg@.subrange(0, i as int)).is_none(),
        decreases n - i,
    {
        let ghost pre = seg@.subrange(0, i + 1);
        assert(pre.drop_last() =~= seg@.subrange(0, i as int));
        if seg.get_char(i) == '=' {
            proof {
                lemma_first_eq_sign_extends(seg@, i as int);
            }
            let key = String::from_str(seg.substring_char(0, i));
            let value = String::from_str(seg.substring_char(i + 1, n));
            return Some((key, value));
        }
        i = i + 1;
    }
    assert(seg@.subrange(0, n as int) =~= seg@);
    None
}

/// Where `s[..i]` has no `=` and `s[i]` is one, `i` is the first.
proof fn lemma_first_eq_sign_extends(s: Seq<char>, i: int)
    requires
        0 <= i < s.len(),
        first_eq_sign(s.subrange(0, i)).is_none(),
        s[i] == '=',
    ensures
        first_eq_sign(s) == Some(i),
    decreases s.len(),
{
    if i < s.len() - 1 {
        assert(s.drop_last().subrange(0, i) =~= s.subrange(0, i));
        lemma_first_eq_sign_extends(s.drop_last(), i);
    } else {
        assert(s.drop_last() =~= s.subrange(0, i));
    }
}

/// Decodes a form body: the pieces between `&` that hold an `=` give a key
/// (before the first `=`) and a value (after it); a later key overrides an
/// earlier one, and pieces without `=` are ignored.
pub fn parse_form_data(content: &str) -> (r: FormData)
    ensures
        r@ == form_map(content@),
{
    let n = content.unicode_len();
    let mut pairs: Vec<(String, String)> = Vec::new();
    let mut start: usize = 0;
    let mut i: usize = 0;
    let ghost mut done: Seq<Seq<char>> = Seq::empty();
    assert(content@.subrange(0, 0) =~= Seq::<char>::empty());
    assert(split_segments(Seq::<char>::empty()) =~= done.push(content@.subrange(0, 0)));
    while i < n
        invariant
            n == content@.len(),
            start <= i <= n,
            split_segments(content@.subrange(0, i as int)) == done.push(content@.subrange(start as int, i as int)),
            pairs_map(pairs@) == segments_map(done),
        decreases n - i,
    {
        let ghost pre = content@.subrange(0, i + 1);
        assert(pre.drop_last() =~= content@.subrange(0, i as int));
        if content.get_char(i) == '&' {
            let seg = content.substring_char(start, i);
            proof {
                assert(split_segments(pre) =~= done.push(seg@).push(Seq::empty()));
                assert(done.push(seg@).drop_last() =~= done);
            }
            match split_pair(seg) {
                Some(kv) => {
                    let ghost before = pairs@;
                    pairs.push(kv);
                    proof {
                        assert(pairs@.drop_last() =~= before);
                    }
                },
                None => {},
            }
            proof {
                done = done.push(seg@);
                assert(content@.subrange(i + 1, i + 1) =~= Seq::<char>::empty());
            }
            start = i + 1;
        } else {
            proof {
                assert(content@.subrange(start as int, i + 1) =~= content@.subrange(start as int, i as int).push(content@[i as int]));
                assert(split_segments(pre) =~= done.push(content@.subrange(start as int, i + 1)));
            }
        }
        i = i + 1;
    }
    let seg = content.substring_char(start, n);
    assert(content@.subrange(0, n as int) =~= content@);
    proof {
        assert(done.push(seg@).drop_last() =~= done);
    }
    match split_pair(seg) {
        Some(kv) => {
            let ghost before = pairs@;
            pairs.push(kv);
            proof {
                assert(pairs@.drop_last() =~= before);
            }
        },
        None => {},
    }
    FormData { pairs }
}

impl FormData {
    /// The value recorded for `key`, if any.
    pub fn get(&self, key: &str) -> (r: Option<String>)
        ensures
            match r {
                Some(v) => self@.contains_key(key@) && self@[key@] == v@,
                None => !self@.contains_key(key@),
            },
    {
        let mut j: usize = self.pairs.len();
        assert(self.pairs@.subrange(0, j as int) =~= self.pairs@);
        while j > 0
            invariant
                j <= self.pairs@.len(),
                pairs_map(self.pairs@).contains_key(key@) == pairs_map(self.pairs@.subrange(0, j as int)).contains_key(key@),
                pairs_map(self.pairs@).contains_key(key@) ==> pairs_map(self.pairs@)[key@] == pairs_map(self.pairs@.subrange(0, j as int))[key@],
            decreases j,
        {
            let ghost sub = self.pairs@.subrange(0, j as int);
            assert(sub.drop_last() =~= self.pairs@.subrange(0, j - 1));
            if same_text(self.pairs[j - 1].0.as_str(), key) {
                return Some(self.pairs[j - 1].1.clone());
            }
            j = j - 1;
        }
        assert(self.pairs@.subrange(0, 0) =~= Seq::<(String, String)>::empty());
        None
    }
}

/// A column that a lookup may filter on.
#[derive(Debug, Clone, Copy, PartialEq, Eq, Structural)]
pub enum Field {
    Phone,
    Qq,
    Email,
}

/// A lookup of the rows whose column equals a value.
pub struct Lookup {
    pub field: Field,
    pub value: String,
}

/// The statement that a lookup on the field runs, with the value bound as `?1`.
pub open spec fn lookup_sql_text(f: Field) -> Seq<char> {
    match f {
        Field::Phone => "SELECT email, phone, qq FROM users WHERE phone = ?1"@,
        Field::Qq => "SELECT email, phone, qq FROM users WHERE qq = ?1"@,
        Field::Email => "SELECT email, phone, qq FROM users WHERE email = ?1"@,
    }
}

impl Field {
    /// The statement a lookup on this field runs.
    pub fn lookup_sql(&self) -> (r: &'static str)
        ensures
            r@ == lookup_sql_text(*self),
    {
        match self {
            Field::Phone => "SELECT email, phone, qq FROM users WHERE phone = ?1",
            Field::Qq => "SELECT email, phone, qq FROM users WHERE qq = ?1",
            Field::Email => "SELECT email, phone, qq FROM users WHERE email = ?1",
        }
    }
}

/// The lookup that decoded form fields ask for: the first of `phone`, `qq`
/// and `email` that is present decides, and only that one is used.
pub open spec fn chosen_lookup(m: Map<Seq<char>, Seq<char>>) -> Option<(Field, Seq<char>)> {
    if m.contains_key("phone"@) {
        Some((Field::Phone, m["phone"@]))
    } else if m.contains_key("qq"@) {
        Some((Field::Qq, m["qq"@]))
    } else if m.contains_key("email"@) {
        Some((Field::Email, m["email"@]))
    } else {
        None
    }
}

/// The view of a planned lookup.
pub open spec fn lookup_view(l: Option<Lookup>) -> Option<(Field, Seq<char>)> {
    match l {
        Some(q) => Some((q.field, q.value@)),
        None => None,
    }
}

/// Chooses the one lookup that the fields ask for, by the precedence phone,
/// then qq, then email; `None` when none of them is present.
pub fn plan_lookup(form: &FormData) -> (r: Option<Lookup>)
    ensures
        lookup_view(r) == chosen_lookup(form@),
{
    if let Some(v) = form.get("phone") {
        Some(Lookup { field: Field::Phone, value: v })
    } else if let Some(v) = form.get("qq") {
        Some(Lookup { field: Field::Qq, value: v })
    } else if let Some(v) = form.get("email") {
        Some(Lookup { field: Field::Email, value: v })
    } else {
        None
    }
}

/// A body that names none of `phone`, `qq` and `email` asks for no lookup,
/// so the store is not consulted.
pub proof fn lemma_no_known_field_no_lookup(body: Seq<char>)
    requires
        !form_map(body).contains_key("phone"@),
        !form_map(body).contains_key("qq"@),
        !form_map(body).contains_key("email"@),
    ensures
        chosen_lookup(form_map(body)).is_none(),
{
}

} // verus!
