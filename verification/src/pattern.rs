//! Compiled search patterns and the names of their capture groups.
//!
//! The regular-expression engine is an outside collaborator: compilation and
//! the enumeration of capture-group names happen behind the trusted items
//! here, and everything downstream is stated over `pattern_compiles` and
//! `capture_names_of`.

use vstd::prelude::*;

verus! {

#[verifier::external_type_specification]
#[verifier::external_body]
pub struct ExRegex(regex::Regex);

/// Whether `pattern` is a valid regular expression, that is, whether
/// `regex::Regex::new` accepts it; a function of the pattern text alone.
pub uninterp spec fn pattern_compiles(pattern: Seq<char>) -> bool;

/// The capture-group names of the compiled `pattern`: one entry per capture
/// group, in the order of the groups' opening parentheses, `None` for an
/// unnamed group; a function of the pattern text alone.
pub uninterp spec fn capture_names_of(pattern: Seq<char>) -> Seq<Option<Seq<char>>>;

/// Relies on `regex::Regex::new`, which compiles a pattern and fails exactly
/// on the syntactically invalid ones, and on `regex::Regex::capture_names`,
/// which yields one element per capture group in declaration order, the name
/// for a named group and `None` for an unnamed one.
#[verifier::external_body]
pub(crate) fn compile_pattern(pattern: &str) -> (r: Option<(regex::Regex, Vec<Option<String>>)>)
    ensures
        r is Some <==> pattern_compiles(pattern@),
        r matches Some(p) ==> p.1.deep_view() == capture_names_of(pattern@),
{
    match regex::Regex::new(pattern) {
        Ok(regex) => {
            let names: Vec<Option<String>> =
                regex.capture_names().map(|n| n.map(String::from)).collect();
            Some((regex, names))
        },
        Err(_) => None,
    }
}

/// Relies on `<regex::Regex as Clone>::clone`.
#[verifier::external_body]
pub(crate) fn clone_regex(regex: &regex::Regex) -> regex::Regex {
    regex.clone()
}

} // verus!
