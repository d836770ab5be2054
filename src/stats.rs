//! Aggregate counts of the store and the texts that report them.
use vstd::prelude::*;
use crate::records::UserView;
use crate::text::{decimal, decimal_of};

verus! {

/// The four counts that the statistics page shows. A count whose query
/// failed is absent and shown as 0.
pub struct StoreCounts {
    pub total: Option<i64>,
    pub phones: Option<i64>,
    pub qqs: Option<i64>,
    pub emails: Option<i64>,
}

/// A count as shown: 0 when its query failed.
pub open spec fn shown(c: Option<i64>) -> int {
    match c {
        Some(n) => n as int,
        None => 0,
    }
}

/// The statistics fragment for the given total, distinct phones, distinct
/// identifiers and distinct emails.
pub open spec fn stats_text(total: int, phones: int, qqs: int, emails: int) -> Seq<char> {
    "\n        <h2>Database Statistics</h2>\n        <ul>\n            <li>Total Records: "@
        + decimal_of(total) + "</li>\n            <li>Unique Phones: "@ + decimal_of(phones)
        + "</li>\n            <li>Unique QQs: "@ + decimal_of(qqs) + "</li>\n            <li>Unique Emails: "@
        + decimal_of(emails) + "</li>\n        </ul>\n        "@
}

/// The statistics fragment; `None` stands for a store that could not be opened.
pub open spec fn stats_page_text(counts: Option<StoreCounts>) -> Seq<char> {
    match counts {
        Some(c) => stats_text(shown(c.total), shown(c.phones), shown(c.qqs), shown(c.emails)),
        None => stats_unavailable_text(),
    }
}

/// The text shown when the store could not be opened for statistics.
pub open spec fn stats_unavailable_text() -> Seq<char> {
    "Database Error: Could not connect"@
}

fn shown_count(c: Option<i64>) -> (r: i64)
    ensures
        r as int == shown(c),
{
    match c {
        Some(n) => n,
        None => 0,
    }
}

/// The statistics fragment; `None` stands for a store that could not be opened.
pub fn stats_page(counts: &Option<StoreCounts>) -> (r: String)
    ensures
        r@ == stats_page_text(*counts),
{
    match counts {
        Some(c) => {
            let mut r = String::from_str("\n        <h2>Database Statistics</h2>\n        <ul>\n            <li>Total Records: ");
            r.append(decimal(shown_count(c.total)).as_str());
            r.append("</li>\n            <li>Unique Phones: ");
            r.append(decimal(shown_count(c.phones)).as_str());
            r.append("</li>\n            <li>Unique QQs: ");
            r.append(decimal(shown_count(c.qqs)).as_str());
            r.append("</li>\n            <li>Unique Emails: ");
            r.append(decimal(shown_count(c.emails)).as_str());
            r.append("</li>\n        </ul>\n        ");
            r
        },
        None => String::from_str("Database Error: Could not connect"),
    }
}

/// What a diagnostic probe of a store found.
pub enum StoreProbe {
    /// The store opened and holds this many records.
    Counted(i64),
    /// The store opened but counting failed, with the error's description.
    QueryFailed(String),
    /// The store could not be opened, with the error's description.
    OpenFailed(String),
}

/// The report of a diagnostic probe.
pub open spec fn probe_text(p: StoreProbe) -> Seq<char> {
    match p {
        StoreProbe::Counted(n) => "Database OK. Records: "@ + decimal_of(n as int),
        StoreProbe::QueryFailed(e) => "Database query failed: "@ + e@,
        StoreProbe::OpenFailed(e) => "Cannot open database: "@ + e@,
    }
}

/// Describes what a diagnostic probe of a store found.
pub fn probe_report(p: &StoreProbe) -> (r: String)
    ensures
        r@ == probe_text(*p),
{
    match p {
        StoreProbe::Counted(n) => String::from_str("Database OK. Records: ").concat(decimal(*n).as_str()),
        StoreProbe::QueryFailed(e) => String::from_str("Database query failed: ").concat(e.as_str()),
        StoreProbe::OpenFailed(e) => String::from_str("Cannot open database: ").concat(e.as_str()),
    }
}

/// A column of a stored row that may be counted.
#[derive(Debug, Clone, Copy, PartialEq, Eq, Structural)]
pub enum Column {
    Phone,
    Qq,
    Email,
}

/// The value of a column in a row.
pub open spec fn column_value(u: UserView, c: Column) -> Option<Seq<char>> {
    match c {
        Column::Phone => u.phone,
        Column::Qq => u.qq,
        Column::Email => u.email,
    }
}

/// The distinct non-null values of a column over the rows.
pub open spec fn distinct_values(rows: Seq<UserView>, c: Column) -> Set<Seq<char>>
    decreases rows.len(),
{
    if rows.len() == 0 {
        Set::empty()
    } else {
        match column_value(rows.last(), c) {
            Some(v) => distinct_values(rows.drop_last(), c).insert(v),
            None => distinct_values(rows.drop_last(), c),
        }
    }
}

/// The number of rows, as the statistics count them.
pub open spec fn count_all(rows: Seq<UserView>) -> nat {
    rows.len()
}

/// The number of distinct non-null values of a column.
pub open spec fn count_distinct(rows: Seq<UserView>, c: Column) -> nat {
    distinct_values(rows, c).len()
}

/// For any store content and any column, the number of distinct non-null
/// values of the column is at most the number of rows.
pub proof fn lemma_distinct_at_most_total(rows: Seq<UserView>, c: Column)
    ensures
        distinct_values(rows, c).finite(),
        count_distinct(rows, c) <= count_all(rows),
    decreases rows.len(),
{
    if rows.len() > 0 {
        lemma_distinct_at_most_total(rows.drop_last(), c);
    }
}

/// Whether `sub` occurs in `s` starting at index `k`.
pub open spec fn occurs_at(s: Seq<char>, sub: Seq<char>, k: int) -> bool {
    0 <= k && k + sub.len() <= s.len() && s.subrange(k, k + sub.len()) == sub
}

/// The statistics fragment shows the total as `Total Records: <total>` and
/// the distinct phones as `Unique Phones: <phones>`.
pub proof fn lemma_stats_text_shows_counts(total: int, phones: int, qqs: int, emails: int)
    ensures
        occurs_at(stats_text(total, phones, qqs, emails), "Total Records: "@ + decimal_of(total), 67),
        occurs_at(
            stats_text(total, phones, qqs, emails),
            "Unique Phones: "@ + decimal_of(phones),
            104 + decimal_of(total).len() as int,
        ),
{
    let h = "\n        <h2>Database Statistics</h2>\n        <ul>\n            <li>Total Records: "@;
    let m = "</li>\n            <li>Unique Phones: "@;
    reveal_strlit("\n        <h2>Database Statistics</h2>\n        <ul>\n            <li>Total Records: ");
    reveal_strlit("</li>\n            <li>Unique Phones: ");
    reveal_strlit("Total Records: ");
    reveal_strlit("Unique Phones: ");
    let s = stats_text(total, phones, qqs, emails);
    let dt = decimal_of(total);
    let dp = decimal_of(phones);
    assert(h.len() == 82);
    assert(m.len() == 37);
    assert(h.subrange(67, 82) =~= "Total Records: "@);
    assert(m.subrange(22, 37) =~= "Unique Phones: "@);
    assert(s.subrange(67, 82 + dt.len() as int) =~= "Total Records: "@ + dt);
    assert(s.subrange(104 + dt.len() as int, 119 + dt.len() as int + dp.len() as int) =~= "Unique Phones: "@ + dp);
}

/// Counts read from a store whose rows are `rows`: each one that was read
/// is the number the rows give.
pub open spec fn counts_of_rows(c: StoreCounts, rows: Seq<UserView>) -> bool {
    &&& (c.total matches Some(n) ==> n == count_all(rows))
    &&& (c.phones matches Some(n) ==> n == count_distinct(rows, Column::Phone))
    &&& (c.qqs matches Some(n) ==> n == count_distinct(rows, Column::Qq))
    &&& (c.emails matches Some(n) ==> n == count_distinct(rows, Column::Email))
}

/// Where every count was read, the shown distinct counts lie between zero
/// and the shown total.
pub proof fn lemma_shown_counts_ordered(c: StoreCounts, rows: Seq<UserView>)
    requires
        counts_of_rows(c, rows),
        c.total is Some,
        c.phones is Some,
        c.qqs is Some,
        c.emails is Some,
    ensures
        0 <= shown(c.phones) <= shown(c.total),
        0 <= shown(c.qqs) <= shown(c.total),
        0 <= shown(c.emails) <= shown(c.total),
{
    lemma_distinct_at_most_total(rows, Column::Phone);
    lemma_distinct_at_most_total(rows, Column::Qq);
    lemma_distinct_at_most_total(rows, Column::Email);
}

} // verus!
