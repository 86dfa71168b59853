//! The statements sent to the query engine.

use vstd::prelude::*;
use vstd::string::StringExecFns;
use crate::text;

verus! {

/// The name under which the one table of a session is registered.
pub open spec fn spec_table_name() -> Seq<char> {
    "tbl"@
}

/// The statement that lists the columns of the table.
pub open spec fn spec_schema_query() -> Seq<char> {
    "show columns from tbl"@
}

/// Whether a statement is a selection: it is, when its text begins with the
/// word `select`, in upper or lower case or any mixture of the two. The text
/// is taken as it stands, white space included.
pub open spec fn spec_is_select(query: Seq<char>) -> bool {
    text::spec_starts_with_ignore_case(query, "select"@)
}

/// A statement with a limit clause at its end.
pub open spec fn spec_with_limit(query: Seq<char>, limit: usize) -> Seq<char> {
    query + " LIMIT "@ + text::spec_decimal(limit as nat)
}

/// The statement that is run for a query: a selection gets a limit clause
/// appended, any other statement is run as it stands.
pub open spec fn spec_build_query(query: Seq<char>, limit: usize) -> Seq<char> {
    if spec_is_select(query) {
        spec_with_limit(query, limit)
    } else {
        query
    }
}

/// The name under which the one table of a session is registered.
pub fn table_name() -> (name: &'static str)
    ensures
        name@ == spec_table_name(),
{
    "tbl"
}

/// The statement that lists the columns of the table.
pub fn schema_query() -> (query: &'static str)
    ensures
        query@ == spec_schema_query(),
{
    "show columns from tbl"
}

/// Whether a statement is a selection.
pub fn is_select(query: &str) -> (select: bool)
    ensures
        select == spec_is_select(query@),
{
    let q = text::to_chars(query);
    let word = text::to_chars("select");
    text::starts_with_ignore_case(&q, &word)
}

/// Appends a limit clause to a statement, whatever the statement is.
pub fn with_limit(query: &str, limit: usize) -> (full: String)
    ensures
        full@ == spec_with_limit(query@, limit),
{
    let mut full = String::from_str(query);
    full.append(" LIMIT ");
    text::push_decimal(&mut full, limit);
    full
}

/// Builds the statement that is run for a query. The limit clause is
/// appended to the text of a selection without looking further into it: a
/// selection that ends in a limit clause of its own comes out with two.
pub fn build_query(query: &str, limit: usize) -> (full: String)
    ensures
        full@ == spec_build_query(query@, limit),
{
    if is_select(query) {
        with_limit(query, limit)
    } else {
        String::from_str(query)
    }
}

/// A selection comes out with ` LIMIT ` and the limit in decimal behind it.
pub proof fn lemma_select_is_limited(query: Seq<char>, limit: usize)
    requires
        spec_is_select(query),
    ensures
        spec_build_query(query, limit) == query + " LIMIT "@ + text::spec_decimal(limit as nat),
        spec_build_query(query, 50) == query + " LIMIT 50"@,
{
    reveal_strlit(" LIMIT ");
    reveal_strlit(" LIMIT 50");
    text::lemma_decimal_of_two_digits(5, 0);
    assert(text::spec_digit(5) == '5' && text::spec_digit(0) == '0');
    assert(" LIMIT "@ + seq!['5', '0'] =~= " LIMIT 50"@);
    assert(query + " LIMIT "@ + seq!['5', '0'] =~= query + (" LIMIT "@ + seq!['5', '0']));
}

/// A statement that is no selection comes out unchanged, whatever the
/// limit.
pub proof fn lemma_other_statement_is_kept(query: Seq<char>, limit: usize)
    requires
        !spec_is_select(query),
    ensures
        spec_build_query(query, limit) == query,
{
}

} // verus!
