//! User records as read from the store, and their JSON form.
use vstd::prelude::*;
use crate::json::{json_string_text, lemma_plain_text_unescaped, array_json, array_text, nullable_json, nullable_text, opt_view, texts_view};

verus! {

/// One stored row: the email, phone and identifier columns, each of which may
/// be null. The identifier column is named `qq` in the stored schema and on
/// the wire.
pub struct UserRecord {
    pub email: Option<String>,
    pub phone: Option<String>,
    pub qq: Option<String>,
}

/// The abstract content of a user record.
pub struct UserView {
    pub email: Option<Seq<char>>,
    pub phone: Option<Seq<char>>,
    pub qq: Option<Seq<char>>,
}

impl View for UserRecord {
    type V = UserView;

    open spec fn view(&self) -> UserView {
        UserView { email: opt_view(self.email), phone: opt_view(self.phone), qq: opt_view(self.qq) }
    }
}

/// The JSON object of a record, with its keys in the order email, phone, qq.
pub open spec fn user_text(u: UserView) -> Seq<char> {
    "{\"email\":"@ + nullable_text(u.email) + ",\"phone\":"@ + nullable_text(u.phone) + ",\"qq\":"@
        + nullable_text(u.qq) + "}"@
}

/// The views of a sequence of records.
pub open spec fn records_view(v: Seq<UserRecord>) -> Seq<UserView> {
    v.map_values(|u: UserRecord| u@)
}

/// The JSON array of the given records, in their order.
pub open spec fn users_text(rows: Seq<UserView>) -> Seq<char> {
    array_text(rows.map_values(|u: UserView| user_text(u)))
}

/// Frames the JSON texts of the three fields as the object of one record.
pub fn user_object(email: &str, phone: &str, qq: &str) -> (r: String)
    ensures
        r@ == "{\"email\":"@ + email@ + ",\"phone\":"@ + phone@ + ",\"qq\":"@ + qq@ + "}"@,
{
    let mut r = String::from_str("{\"email\":");
    r.append(email);
    r.append(",\"phone\":");
    r.append(phone);
    r.append(",\"qq\":");
    r.append(qq);
    r.append("}");
    r
}

impl UserRecord {
    /// The JSON object of this record.
    pub fn to_json(&self) -> (r: String)
        ensures
            r@ == user_text(self@),
    {
        let email = nullable_json(&self.email);
        let phone = nullable_json(&self.phone);
        let qq = nullable_json(&self.qq);
        user_object(email.as_str(), phone.as_str(), qq.as_str())
    }
}

/// The JSON array of the records, in their order; `[]` when there are none.
pub fn users_json(rows: &Vec<UserRecord>) -> (r: String)
    ensures
        r@ == users_text(records_view(rows@)),
        rows@.len() == 0 ==> r@ == "[]"@,
{
    let mut items: Vec<String> = Vec::new();
    let mut i: usize = 0;
    while i < rows.len()
        invariant
            i <= rows@.len(),
            items@.len() == i,
            forall|k: int| 0 <= k < i ==> #[trigger] items@[k]@ == user_text(rows@[k]@),
        decreases rows@.len() - i,
    {
        items.push(rows[i].to_json());
        i = i + 1;
    }
    let r = array_json(&items);
    proof {
        let a = texts_view(items@);
        let b = records_view(rows@).map_values(|u: UserView| user_text(u));
        assert(a =~= b);
        if rows@.len() == 0 {
            reveal_strlit("[]");
            reveal_strlit("[");
            reveal_strlit("]");
            assert(r@ =~= "[]"@);
        }
    }
    r
}

/// A record holding the given values.
pub open spec fn user_of(email: Option<Seq<char>>, phone: Option<Seq<char>>, qq: Option<Seq<char>>) -> UserView {
    UserView { email, phone, qq }
}

/// With no matching row, the lookup answer is the empty JSON array; with
/// exactly one, it is a one-element array that carries each of the row's
/// stored values, absent ones as `null`.
pub proof fn lemma_lookup_answer_shapes(u: UserView)
    ensures
        users_text(Seq::empty()) == "[]"@,
        users_text(seq![u]) == "["@ + "{\"email\":"@ + nullable_text(u.email) + ",\"phone\":"@
            + nullable_text(u.phone) + ",\"qq\":"@ + nullable_text(u.qq) + "}"@ + "]"@,
{
    reveal_strlit("[]");
    reveal_strlit("[");
    reveal_strlit("]");
    let e: Seq<UserView> = Seq::empty();
    assert(e.map_values(|v: UserView| user_text(v)) =~= Seq::empty());
    assert(users_text(e) =~= "[]"@);
    assert(seq![u].map_values(|v: UserView| user_text(v)) =~= seq![user_text(u)]);
}

/// The lookup answer for the row `{email: "a@x.com", phone: "5551234", qq: null}`
/// is exactly `[{"email":"a@x.com","phone":"5551234","qq":null}]`.
pub proof fn lemma_single_row_answer()
    ensures
        users_text(seq![user_of(Some("a@x.com"@), Some("5551234"@), None)])
            == "[{\"email\":\"a@x.com\",\"phone\":\"5551234\",\"qq\":null}]"@,
{
    let u = user_of(Some("a@x.com"@), Some("5551234"@), None);
    lemma_lookup_answer_shapes(u);
    reveal_strlit("a@x.com");
    reveal_strlit("5551234");
    reveal_strlit("[");
    reveal_strlit("]");
    reveal_strlit("null");
    reveal_strlit("{\"email\":");
    reveal_strlit(",\"phone\":");
    reveal_strlit(",\"qq\":");
    reveal_strlit("}");
    reveal_strlit("[{\"email\":\"a@x.com\",\"phone\":\"5551234\",\"qq\":null}]");
    lemma_plain_text_unescaped("a@x.com"@);
    lemma_plain_text_unescaped("5551234"@);
    assert(json_string_text("a@x.com"@) =~= seq!['"'] + "a@x.com"@ + seq!['"']);
    assert(users_text(seq![u]) =~= "[{\"email\":\"a@x.com\",\"phone\":\"5551234\",\"qq\":null}]"@);
}

} // verus!
