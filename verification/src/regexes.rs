//! Regular-expression matching for variant detection.
//!
//! The patterns come from the variant table and are written in extended
//! ("insignificant whitespace") syntax, so they are compiled with the
//! regex crate's `ignore_whitespace` option. Whether a pattern compiles,
//! and whether it then matches a given text, are taken as opaque functions
//! of the pattern and the text alone.

use vstd::prelude::*;

verus! {

/// Whether the pattern is accepted by the regex compiler, in extended
/// (whitespace-insensitive) mode.
pub uninterp spec fn regex_compiles(pat: Seq<char>) -> bool;

/// Whether the pattern, compiled in extended mode, matches somewhere in
/// the text.
pub uninterp spec fn regex_matches(pat: Seq<char>, text: Seq<char>) -> bool;

/// Relies on `regex::RegexBuilder::build` and `regex::Regex::is_match`:
/// compilation accepts a pattern, and a compiled pattern matches a text,
/// deterministically — both depend on the pattern and the text alone.
/// On a pattern that does not compile, the compiler's error text is
/// returned.
#[verifier::external_body]
pub fn regex_probe(pattern: &str, text: &str) -> (r: Result<bool, String>)
    ensures
        r is Ok <==> regex_compiles(pattern@),
        r matches Ok(m) ==> m == regex_matches(pattern@, text@),
{
    match regex::RegexBuilder::new(pattern).ignore_whitespace(true).build() {
        Ok(re) => Ok(re.is_match(text)),
        Err(err) => Err(format!("{}", err)),
    }
}

} // verus!
