use vstd::prelude::*;

verus! {

/// What `str::trim` returns for `s`: `s` without its leading and trailing
/// Unicode white space.
pub uninterp spec fn trimmed_of(s: Seq<char>) -> Seq<char>;

/// What `str::to_lowercase` returns for `s`: its Unicode lower-case mapping.
pub uninterp spec fn lowercase_of(s: Seq<char>) -> Seq<char>;

/// Relies on `str::trim`: drops leading and trailing white space; the result
/// depends on the characters of `s` alone.
#[verifier::external_body]
fn trim_str(s: &str) -> (r: &str)
    ensures
        r@ == trimmed_of(s@),
{
    s.trim()
}

/// Relies on `str::to_lowercase`: maps every character to lower case; the
/// result depends on the characters of `s` alone.
#[verifier::external_body]
fn lowercase_str(s: &str) -> (r: String)
    ensures
        r@ == lowercase_of(s@),
{
    s.to_lowercase()
}

/// A normalised answer means yes when it starts with `y`.
pub open spec fn starts_with_y(s: Seq<char>) -> bool {
    s.len() > 0 && s[0] == 'y'
}

/// An answer means yes when, trimmed and in lower case, it starts with `y`:
/// `y`, `Y`, `yes`, ` Yes ` do; the empty answer does not.
pub open spec fn means_yes(answer: Seq<char>) -> bool {
    starts_with_y(lowercase_of(trimmed_of(answer)))
}

/// Whether an answer that is already trimmed and in lower case means yes.
pub fn normalized_answer_is_yes(normalized: &str) -> (r: bool)
    ensures
        r == starts_with_y(normalized@),
{
    let mut chars = normalized.chars();
    proof {
        broadcast use vstd::string::axiom_spec_iter;
    }
    let first = chars.next();
    proof {
        broadcast use vstd::string::next_postcondition;
    }
    match first {
        Some(c) => c == 'y',
        None => false,
    }
}

/// Whether the answer typed at the initialisation prompt means yes.
pub fn is_yes(answer: &str) -> (r: bool)
    ensures
        r == means_yes(answer@),
{
    let trimmed = trim_str(answer);
    let lower = lowercase_str(trimmed);
    normalized_answer_is_yes(lower.as_str())
}

} // verus!
