//! What the handlers learn from the database and what they answer: the
//! failures they tell apart, the outcome of a read, the replies of the JSON
//! API and the answers of the pages.
use vstd::prelude::*;

use crate::status::HttpStatus;
use crate::text::{char_count, join3, opt_str_view, opt_view, owned, same_text, trim_chars, trim_str};

verus! {

/// A failed database statement, as the handlers tell failures apart.
#[derive(Clone, Copy, Debug, PartialEq, Eq, Structural)]
pub enum DbFailure {
    /// SQLSTATE `23505`: a unique index refused the row.
    UniqueViolation,
    /// SQLSTATE `23503`: a foreign key refused the row or the delete.
    ForeignKeyViolation,
    /// Anything else.
    Other,
}

/// The failure that a SQLSTATE code (`None` for an error that does not
/// come from the database) stands for.
pub open spec fn failure_of(code: Option<Seq<char>>) -> DbFailure {
    if code == Some("23505"@) {
        DbFailure::UniqueViolation
    } else if code == Some("23503"@) {
        DbFailure::ForeignKeyViolation
    } else {
        DbFailure::Other
    }
}

/// Whether the SQLSTATE code is that of a unique violation.
pub fn is_unique_violation(code: Option<&str>) -> (r: bool)
    ensures
        r == (opt_str_view(code) == Some("23505"@)),
{
    match code {
        Some(c) => same_text(c, "23505"),
        None => false,
    }
}

/// Whether the SQLSTATE code is that of a foreign key violation.
pub fn is_foreign_key_violation(code: Option<&str>) -> (r: bool)
    ensures
        r == (opt_str_view(code) == Some("23503"@)),
{
    match code {
        Some(c) => same_text(c, "23503"),
        None => false,
    }
}

/// The failure that a SQLSTATE code stands for.
pub fn classify_failure(code: Option<&str>) -> (r: DbFailure)
    ensures
        r == failure_of(opt_str_view(code)),
{
    if is_unique_violation(code) {
        DbFailure::UniqueViolation
    } else if is_foreign_key_violation(code) {
        DbFailure::ForeignKeyViolation
    } else {
        DbFailure::Other
    }
}

/// How the read of one record ended.
#[derive(Clone, Copy, Debug, PartialEq, Eq, Structural)]
pub enum Lookup {
    Found,
    Missing,
    Failed,
}

/// A reply of the JSON API: its status and its message.
pub type Reply = (HttpStatus, String);

/// `r` has this status and this message.
pub open spec fn replies(r: Reply, status: HttpStatus, msg: Seq<char>) -> bool {
    r.0 == status && r.1@ == msg
}

/// A reply with `status` and `msg`.
pub fn reply(status: HttpStatus, msg: &str) -> (r: Reply)
    ensures
        replies(r, status, msg@),
{
    (status, owned(msg))
}

/// A reply with `status` and an owned message.
pub fn reply_with(status: HttpStatus, msg: String) -> (r: Reply)
    ensures
        r.0 == status,
        r.1 == msg,
{
    (status, msg)
}

/// What a page handler does once it has tried a change.
#[derive(Debug)]
pub enum PageAnswer {
    /// Redirect the browser to this address.
    Redirect(String),
    /// Show the page again with this error message.
    Error(String),
}

/// `a` redirects to `to`.
pub open spec fn redirects(a: PageAnswer, to: Seq<char>) -> bool {
    a matches PageAnswer::Redirect(l) && l@ == to
}

/// `a` shows the page again with `msg`.
pub open spec fn shows_error(a: PageAnswer, msg: Seq<char>) -> bool {
    a matches PageAnswer::Error(m) && m@ == msg
}

/// A redirect to `to`.
pub fn redirect(to: &str) -> (a: PageAnswer)
    ensures
        redirects(a, to@),
{
    PageAnswer::Redirect(owned(to))
}

/// The page again, with `msg`.
pub fn error_page(msg: &str) -> (a: PageAnswer)
    ensures
        shows_error(a, msg@),
{
    PageAnswer::Error(owned(msg))
}

} // verus!

verus! {

/// The success message that a page shows for the `ok` flag of its address:
/// `created`, `updated` or `deleted`; any other flag shows nothing.
pub open spec fn flash_of(
    ok: Option<Seq<char>>,
    created: Seq<char>,
    updated: Seq<char>,
    deleted: Seq<char>,
) -> Option<Seq<char>> {
    if ok == Some("created"@) {
        Some(created)
    } else if ok == Some("updated"@) {
        Some(updated)
    } else if ok == Some("deleted"@) {
        Some(deleted)
    } else {
        None
    }
}

/// Computes `flash_of` with the page's three messages.
pub fn flash_message(ok: Option<&str>, created: &str, updated: &str, deleted: &str) -> (r: Option<String>)
    ensures
        opt_view(r) == flash_of(opt_str_view(ok), created@, updated@, deleted@),
{
    match ok {
        Some(flag) => {
            if same_text(flag, "created") {
                Some(owned(created))
            } else if same_text(flag, "updated") {
                Some(owned(updated))
            } else if same_text(flag, "deleted") {
                Some(owned(deleted))
            } else {
                None
            }
        },
        None => None,
    }
}

/// `a` is what a page answers once a write ended with `outcome`: a redirect
/// to `to` on success; otherwise the page again, with the message for a
/// unique violation or a foreign key violation where the page has one, and
/// `other` for any other failure.
pub open spec fn write_answered(
    a: PageAnswer,
    outcome: Result<(), DbFailure>,
    to: Seq<char>,
    unique: Option<Seq<char>>,
    fk: Option<Seq<char>>,
    other: Seq<char>,
) -> bool {
    match outcome {
        Ok(_) => redirects(a, to),
        Err(f) => shows_error(
            a,
            if f == DbFailure::UniqueViolation && unique is Some {
                unique->0
            } else if f == DbFailure::ForeignKeyViolation && fk is Some {
                fk->0
            } else {
                other
            },
        ),
    }
}

/// Computes the answer that `write_answered` describes.
pub fn write_answer(
    outcome: Result<(), DbFailure>,
    to: &str,
    unique: Option<&str>,
    fk: Option<&str>,
    other: &str,
) -> (a: PageAnswer)
    ensures
        write_answered(a, outcome, to@, opt_str_view(unique), opt_str_view(fk), other@),
{
    match outcome {
        Ok(_) => redirect(to),
        Err(f) => {
            match (f, unique, fk) {
                (DbFailure::UniqueViolation, Some(m), _) => error_page(m),
                (DbFailure::ForeignKeyViolation, _, Some(m)) => error_page(m),
                _ => error_page(other),
            }
        },
    }
}

} // verus!

verus! {

/// A live search to run: the trimmed query, and the pattern that matches
/// names containing it.
#[derive(Debug)]
pub struct SearchPlan {
    pub query: String,
    pub pattern: String,
}

/// The search for `q`: nothing for a blank query; otherwise the trimmed
/// query, between `%` signs as the pattern.
pub fn search_plan(q: &str) -> (r: Option<SearchPlan>)
    ensures
        match r {
            None => trim_chars(q@).len() == 0,
            Some(p) => trim_chars(q@).len() > 0 && p.query@ == trim_chars(q@) && p.pattern@ == "%"@
                + trim_chars(q@) + "%"@,
        },
{
    let t = trim_str(q);
    if char_count(t) == 0 {
        None
    } else {
        Some(SearchPlan { query: owned(t), pattern: join3("%", t, "%") })
    }
}

} // verus!

verus! {

/// Failures are told apart by their SQLSTATE code alone: `23505` is a
/// unique violation, `23503` a foreign key violation, and anything else,
/// or no code, is another failure.
pub proof fn law_failure_codes(code: Option<Seq<char>>)
    ensures
        code == Some("23505"@) ==> failure_of(code) == DbFailure::UniqueViolation,
        code == Some("23503"@) ==> failure_of(code) == DbFailure::ForeignKeyViolation,
        code != Some("23505"@) && code != Some("23503"@) ==> failure_of(code) == DbFailure::Other,
{
    reveal_strlit("23505");
    reveal_strlit("23503");
    assert("23503"@[4] != "23505"@[4]);
}

/// A page shows the created, updated or deleted message for exactly those
/// three flags, and nothing for any other flag or none.
pub proof fn law_flash_meaning(ok: Option<Seq<char>>, created: Seq<char>, updated: Seq<char>, deleted: Seq<char>)
    ensures
        ok == Some("created"@) ==> flash_of(ok, created, updated, deleted) == Some(created),
        ok == Some("updated"@) ==> flash_of(ok, created, updated, deleted) == Some(updated),
        ok == Some("deleted"@) ==> flash_of(ok, created, updated, deleted) == Some(deleted),
        ok != Some("created"@) && ok != Some("updated"@) && ok != Some("deleted"@) ==> flash_of(
            ok,
            created,
            updated,
            deleted,
        ) is None,
{
    reveal_strlit("created");
    reveal_strlit("updated");
    reveal_strlit("deleted");
    assert("created"@[0] != "updated"@[0]);
    assert("created"@[0] != "deleted"@[0]);
    assert("updated"@[0] != "deleted"@[0]);
}

/// After a write a page redirects exactly when the write succeeded; a
/// failure shows the page's message for its kind when the page has one,
/// and the general message otherwise.
pub proof fn law_write_answer_meaning(
    a: PageAnswer,
    outcome: Result<(), DbFailure>,
    to: Seq<char>,
    unique: Option<Seq<char>>,
    fk: Option<Seq<char>>,
    other: Seq<char>,
)
    requires
        write_answered(a, outcome, to, unique, fk, other),
    ensures
        outcome is Ok ==> (a matches PageAnswer::Redirect(l) && l@ == to),
        outcome == Err::<(), DbFailure>(DbFailure::UniqueViolation) && unique is Some ==> (a matches PageAnswer::Error(
            m,
        ) && m@ == unique->0),
        outcome == Err::<(), DbFailure>(DbFailure::ForeignKeyViolation) && fk is Some ==> (a matches PageAnswer::Error(
            m,
        ) && m@ == fk->0),
        outcome == Err::<(), DbFailure>(DbFailure::Other) ==> (a matches PageAnswer::Error(m) && m@ == other),
        outcome == Err::<(), DbFailure>(DbFailure::UniqueViolation) && unique is None ==> (a matches PageAnswer::Error(
            m,
        ) && m@ == other),
        outcome == Err::<(), DbFailure>(DbFailure::ForeignKeyViolation) && fk is None ==> (a matches PageAnswer::Error(
            m,
        ) && m@ == other),
{
}

} // verus!
