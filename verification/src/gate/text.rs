use vstd::prelude::*;
use vstd::string::*;

verus! {

/// The text of an optional string.
pub open spec fn opt_text(o: Option<String>) -> Option<Seq<char>> {
    match o {
        Some(s) => Some(s@),
        None => None,
    }
}

/// The texts of a sequence of strings.
pub open spec fn texts(items: Seq<String>) -> Seq<Seq<char>> {
    Seq::new(items.len(), |i: int| items[i]@)
}

/// Whether `text` begins with `opening`.
pub open spec fn opens_with(text: Seq<char>, opening: Seq<char>) -> bool {
    opening.len() <= text.len() && text.subrange(0, opening.len() as int) == opening
}

/// A text as `std` writes a string for debugging: between double quotes,
/// with the characters that cannot stand there escaped.
pub uninterp spec fn quoted(text: Seq<char>) -> Seq<char>;

/// Writes `text` with `std`'s `Debug` for `str`, through `format!`.
///
/// Trusted: what is written is a function of the text alone.
#[verifier::external_body]
pub(crate) fn debug_quoted(text: &str) -> (out: String)
    ensures
        out@ == quoted(text@),
{
    format!("{:?}", text)
}

/// `prefix` followed by `rest`, as a new string.
pub fn join2(prefix: &str, rest: &str) -> (out: String)
    ensures
        out@ == prefix@ + rest@,
{
    let mut out = String::from_str(prefix);
    out.append(rest);
    out
}

} // verus!
