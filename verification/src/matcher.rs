//! The multi-pattern search-and-replace boundary, backed by the aho-corasick
//! crate.
//!
//! The searcher type and the two calls into it are the library's trusted
//! boundary: everything else about variable substitution is verified against
//! the contracts stated here. What one replace-all pass produces is named by
//! [`ac_replaced`] rather than written out; the facts the crate's
//! documentation plainly gives (an input with no occurrence of any pattern
//! comes back unchanged) are captured by the [`replaced`] case split.

use vstd::prelude::*;

verus! {

#[verifier::external_type_specification]
#[verifier::external_body]
pub struct ExAhoCorasick(aho_corasick::AhoCorasick);

#[verifier::external_type_specification]
#[verifier::external_body]
pub struct ExBuildError(aho_corasick::BuildError);

/// The literal patterns a searcher was built from, in index order.
pub uninterp spec fn ac_patterns(ac: aho_corasick::AhoCorasick) -> Seq<Seq<char>>;

/// Whether a searcher was built with the default configuration: standard
/// (leftmost, earliest-ending) match semantics, case-sensitive, and support
/// for unanchored searches. Replacement is only performed on such searchers:
/// it fixes the match semantics and rules out the panic that an
/// anchored-only searcher's replace-all would raise.
pub uninterp spec fn ac_default_config(ac: aho_corasick::AhoCorasick) -> bool;

/// Whether a default-configured searcher can be built from the given
/// literal patterns: false only when the automaton would exceed the
/// building crate's internal size limits. The outcome depends on the
/// patterns alone, so equal pattern lists always agree on it.
pub uninterp spec fn ac_build_ok(patterns: Seq<Seq<char>>) -> bool;

/// The text that one replace-all pass of a default-configured searcher over
/// `patterns` yields on `text`, substituting `values[i]` for each match of
/// `patterns[i]`. The result depends on the patterns, the values and the
/// text alone.
pub uninterp spec fn ac_replaced(
    patterns: Seq<Seq<char>>,
    values: Seq<Seq<char>>,
    text: Seq<char>,
) -> Seq<char>;

/// `needle` occurs in `hay` starting at position `i`.
pub open spec fn occurs_at(hay: Seq<char>, needle: Seq<char>, i: int) -> bool {
    0 <= i && i + needle.len() <= hay.len() && hay.subrange(i, i + needle.len() as int)
        == needle
}

/// `needle` occurs somewhere in `hay`.
pub open spec fn occurs_in(needle: Seq<char>, hay: Seq<char>) -> bool {
    exists|i: int| occurs_at(hay, needle, i)
}

/// No pattern of the set occurs anywhere in `text`.
pub open spec fn no_pattern_occurs(patterns: Seq<Seq<char>>, text: Seq<char>) -> bool {
    forall|i: int| 0 <= i < patterns.len() ==> !occurs_in(#[trigger] patterns[i], text)
}

/// What one replace-all pass yields: text in which no pattern occurs comes
/// back unchanged (in particular, any text under an empty pattern set);
/// otherwise the pass yields [`ac_replaced`].
pub open spec fn replaced(
    patterns: Seq<Seq<char>>,
    values: Seq<Seq<char>>,
    text: Seq<char>,
) -> Seq<char> {
    if no_pattern_occurs(patterns, text) {
        text
    } else {
        ac_replaced(patterns, values, text)
    }
}

/// Relies on aho_corasick::AhoCorasick::new: builds a searcher over the given
/// literal patterns with the default configuration (standard match kind,
/// case-sensitive, unanchored searches supported). Construction fails only
/// when the automaton would exceed the crate's internal size limits — an
/// outcome determined by the patterns alone, named by [`ac_build_ok`] — and
/// an empty pattern set always builds.
#[verifier::external_body]
pub(crate) fn ac_build(patterns: Vec<String>) -> (r: Result<
    aho_corasick::AhoCorasick,
    aho_corasick::BuildError,
>)
    ensures
        r is Ok <==> ac_build_ok(patterns.deep_view()),
        patterns.deep_view().len() == 0 ==> r is Ok,
        r matches Ok(ac) ==> ac_patterns(ac) == patterns.deep_view() && ac_default_config(ac),
{
    aho_corasick::AhoCorasick::new(patterns)
}

/// Relies on aho_corasick::AhoCorasick::replace_all: replaces every match of
/// the searcher's patterns in `text` with the value at the matching pattern's
/// index; text in which no pattern occurs comes back unchanged. The searcher
/// must support unanchored searches and `values` must hold one entry per
/// pattern, else replace_all panics.
#[verifier::external_body]
pub(crate) fn ac_replace_all(
    ac: &aho_corasick::AhoCorasick,
    text: &String,
    values: &Vec<String>,
) -> (r: String)
    requires
        ac_default_config(*ac),
        values.deep_view().len() == ac_patterns(*ac).len(),
    ensures
        r@ == ac_replaced(ac_patterns(*ac), values.deep_view(), text@),
        r@ == replaced(ac_patterns(*ac), values.deep_view(), text@),
{
    ac.replace_all(text.as_str(), values.as_slice())
}

/// Relies on aho_corasick::BuildError's Display implementation, through std's
/// ToString, for a human-readable description of a failed matcher build.
#[verifier::external_body]
pub(crate) fn build_error_message(e: &aho_corasick::BuildError) -> String {
    e.to_string()
}

} // verus!
