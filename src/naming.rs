//! Table-name derivation, through Inflector's snake case and pluralizer's
//! English plural rules.
use vstd::prelude::*;

verus! {

/// What Inflector's `to_snake_case` returns for a string.
pub uninterp spec fn snake_of(s: Seq<char>) -> Seq<char>;

/// Every character is ASCII.
pub open spec fn is_ascii_text(s: Seq<char>) -> bool {
    forall|i: int| 0 <= i < s.len() ==> (s[i] as u32) < 128
}

/// Relies on `inflector::cases::snakecase::to_snake_case`: its result depends
/// on the characters of its argument alone, and it only lowercases ASCII
/// letters and inserts `_`, so ASCII text stays ASCII.
#[verifier::external_body]
fn to_snake_case(s: &str) -> (r: String)
    ensures
        r@ == snake_of(s@),
        is_ascii_text(s@) ==> is_ascii_text(r@),
{
    inflector::cases::snakecase::to_snake_case(s)
}

/// Relies on `pluralizer::pluralize` with a count of 2 and no count prefix:
/// the English plural of the word. Its rule tables are process-wide and can be
/// extended by pluralizer's `add_*` functions, so nothing is promised of the
/// result. On a word with non-ASCII characters its case restoration slices by
/// byte and can panic; ASCII words are safe.
#[verifier::external_body]
fn pluralize(word: &str) -> (r: String)
    requires
        is_ascii_text(word@),
{
    pluralizer::pluralize(word, 2, false)
}

/// The effective table name of a record type: the override where one is given,
/// else the English plural of the lower snake case of the type's name.
pub fn table_name(struct_name: &str, custom_name: Option<String>) -> (r: String)
    requires
        custom_name is None ==> is_ascii_text(struct_name@),
    ensures
        custom_name matches Some(c) ==> r@ == c@,
{
    match custom_name {
        Some(c) => c,
        None => {
            let snake = to_snake_case(struct_name);
            pluralize(snake.as_str())
        },
    }
}

} // verus!
