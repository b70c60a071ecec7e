//! The variable substitution engine and the configuration document it runs
//! over.
//!
//! A document declares an optional variable table and a forest of raw
//! filters. Substitution builds one multi-pattern searcher from the bracketed
//! variable names and rewrites every predicate's rule text across the whole
//! forest in a single coordinated pass per string; cooking then lowers the
//! forest into the public [`Filter`] shape.

use vstd::prelude::*;
use vstd::string::StringExecFns;

use crate::filter::cook_all;
use crate::filter::cook_forest;
use crate::filter::cooked_forest_view;
use crate::filter::preds_view;
use crate::filter::raw_forest_view;
use crate::filter::raw_node_view;
use crate::filter::Filter;
use crate::filter::FilterRaw;
use crate::filter::FilterRawView;
use crate::filter::FilterView;
use crate::filter::Predicate;
use crate::filter::PredicateView;
use crate::matcher::ac_build;
use crate::matcher::ac_build_ok;
use crate::matcher::ac_default_config;
use crate::matcher::ac_patterns;
use crate::matcher::ac_replace_all;
use crate::matcher::build_error_message;
use crate::matcher::replaced;

verus! {

broadcast use vstd::std_specs::vec::group_vec_axioms, vstd::seq::group_seq_axioms;

/// An error of the configuration pipeline. No other failure exists: cooking
/// and traversal are infallible by construction.
#[derive(Debug)]
pub enum ConfigError {
    /// The input text does not conform to the expected document schema. The
    /// message names the underlying cause.
    DocumentParse(String),

    /// The substitution searcher could not be constructed from the declared
    /// variable names. The message names the underlying cause.
    PatternBuild(String),
}

/// The bracketed search pattern of one variable name.
pub open spec fn brace_key(name: Seq<char>) -> Seq<char> {
    seq!['{'] + name + seq!['}']
}

/// The search patterns of a variable table, in table order.
pub open spec fn table_keys(vars: Seq<(Seq<char>, Seq<char>)>) -> Seq<Seq<char>> {
    vars.map_values(|kv: (Seq<char>, Seq<char>)| brace_key(kv.0))
}

/// The replacement values of a variable table, in table order.
pub open spec fn table_values(vars: Seq<(Seq<char>, Seq<char>)>) -> Seq<Seq<char>> {
    vars.map_values(|kv: (Seq<char>, Seq<char>)| kv.1)
}

/// What substitution does to one predicate: its rule text goes through one
/// replace-all pass, its negation flag stays.
pub open spec fn subst_pred(
    keys: Seq<Seq<char>>,
    vals: Seq<Seq<char>>,
    p: PredicateView,
) -> PredicateView {
    PredicateView { rule: replaced(keys, vals, p.rule), negate: p.negate }
}

/// What substitution does to a predicate list, in order.
pub open spec fn subst_preds(
    keys: Seq<Seq<char>>,
    vals: Seq<Seq<char>>,
    ps: Seq<PredicateView>,
) -> Seq<PredicateView> {
    ps.map_values(|p: PredicateView| subst_pred(keys, vals, p))
}

/// What substitution does to a predicate category: an absent category stays
/// absent, a present one has each of its predicates rewritten.
pub open spec fn subst_opt_preds(
    keys: Seq<Seq<char>>,
    vals: Seq<Seq<char>>,
    o: Option<Seq<PredicateView>>,
) -> Option<Seq<PredicateView>> {
    match o {
        Option::Some(ps) => Option::Some(subst_preds(keys, vals, ps)),
        Option::None => Option::None,
    }
}

/// What substitution does to one raw filter node: both predicate categories
/// are rewritten and every child is rewritten recursively; the name and the
/// shape of the node stay.
pub open spec fn subst_node(
    keys: Seq<Seq<char>>,
    vals: Seq<Seq<char>>,
    n: FilterRawView,
) -> FilterRawView
    decreases n,
{
    FilterRawView {
        name: n.name,
        mailing_lists: subst_opt_preds(keys, vals, n.mailing_lists),
        tos: subst_opt_preds(keys, vals, n.tos),
        children: match n.children {
            Option::Some(cs) => Option::Some(subst_forest(keys, vals, cs)),
            Option::None => Option::None,
        },
    }
}

/// What substitution does to a forest of raw filter nodes, in order.
pub open spec fn subst_forest(
    keys: Seq<Seq<char>>,
    vals: Seq<Seq<char>>,
    s: Seq<FilterRawView>,
) -> Seq<FilterRawView>
    decreases s,
{
    if s.len() == 0 {
        Seq::<FilterRawView>::empty()
    } else {
        seq![subst_node(keys, vals, s[0])] + subst_forest(keys, vals, s.drop_first())
    }
}

/// The result of substituting over a forest, index by index.
pub proof fn lemma_subst_forest_index(
    keys: Seq<Seq<char>>,
    vals: Seq<Seq<char>>,
    s: Seq<FilterRawView>,
)
    ensures
        subst_forest(keys, vals, s).len() == s.len(),
        forall|i: int|
            0 <= i < s.len() ==> subst_forest(keys, vals, s)[i] == subst_node(keys, vals, s[i]),
    decreases s,
{
    if s.len() > 0 {
        lemma_subst_forest_index(keys, vals, s.drop_first());
    }
}

impl Predicate {
    /// Find and replace templates with the provided variables. Does nothing
    /// with unrecognized variables.
    fn inject_variables(&mut self, ac: &aho_corasick::AhoCorasick, values: &Vec<String>)
        requires
            ac_default_config(*ac),
            values.deep_view().len() == ac_patterns(*ac).len(),
        ensures
            final(self)@ == subst_pred(ac_patterns(*ac), values.deep_view(), old(self)@),
    {
        self.rule = ac_replace_all(ac, &self.rule, values);
    }
}

/// Substitute variables into every predicate of one list, in order.
#[verifier::loop_isolation(false)]
fn inject_list(ps: Vec<Predicate>, ac: &aho_corasick::AhoCorasick, values: &Vec<String>) -> (r:
    Vec<Predicate>)
    requires
        ac_default_config(*ac),
        values.deep_view().len() == ac_patterns(*ac).len(),
    ensures
        preds_view(r@) == subst_preds(ac_patterns(*ac), values.deep_view(), preds_view(ps@)),
{
    let ghost ps0 = ps@;
    let mut rest = ps;
    let mut out: Vec<Predicate> = Vec::<Predicate>::new();
    while rest.len() > 0
        invariant
            out@.len() + rest@.len() == ps0.len(),
            rest@ == ps0.subrange(out@.len() as int, ps0.len() as int),
            forall|j: int|
                0 <= j < out@.len() ==> (#[trigger] out@[j])@ == subst_pred(
                    ac_patterns(*ac),
                    values.deep_view(),
                    ps0[j]@,
                ),
        decreases rest@.len(),
    {
        let ghost k: int = out@.len() as int;
        let mut p = rest.remove(0);
        proof {
            assert(p == ps0[k]);
        }
        p.inject_variables(ac, values);
        out.push(p);
    }
    proof {
        assert(preds_view(out@) =~= subst_preds(
            ac_patterns(*ac),
            values.deep_view(),
            preds_view(ps0),
        ));
    }
    out
}

/// Substitute variables into one raw filter node and all its descendants.
#[verifier::loop_isolation(false)]
fn subst_filter(f: FilterRaw, ac: &aho_corasick::AhoCorasick, values: &Vec<String>) -> (r:
    FilterRaw)
    requires
        ac_default_config(*ac),
        values.deep_view().len() == ac_patterns(*ac).len(),
    ensures
        raw_node_view(r) == subst_node(ac_patterns(*ac), values.deep_view(), raw_node_view(f)),
    decreases f,
{
    let ghost f0 = f;
    let FilterRaw { name, mailing_lists, tos, children } = f;

    let mailing_lists = match mailing_lists {
        Option::Some(ps) => Option::Some(inject_list(ps, ac, values)),
        Option::None => Option::None,
    };
    let tos = match tos {
        Option::Some(ps) => Option::Some(inject_list(ps, ac, values)),
        Option::None => Option::None,
    };
    let children = match children {
        Option::Some(cs) => {
            proof {
                assert(f0.children == Option::Some(cs));
                assert(decreases_to!(f0 => cs));
            }
            Option::Some(transform(cs, ac, values))
        },
        Option::None => Option::None,
    };

    let r = FilterRaw { name, mailing_lists, tos, children };
    proof {
        assert(raw_node_view(r) =~= subst_node(
            ac_patterns(*ac),
            values.deep_view(),
            raw_node_view(f0),
        ));
    }
    r
}

/// Recursively substitutes in variables across a whole forest of raw
/// filters, in order.
#[verifier::loop_isolation(false)]
fn transform(filters: Vec<FilterRaw>, ac: &aho_corasick::AhoCorasick, values: &Vec<String>) -> (r:
    Vec<FilterRaw>)
    requires
        ac_default_config(*ac),
        values.deep_view().len() == ac_patterns(*ac).len(),
    ensures
        raw_forest_view(r@) == subst_forest(
            ac_patterns(*ac),
            values.deep_view(),
            raw_forest_view(filters@),
        ),
    decreases filters,
{
    let ghost filters0 = filters;
    let ghost fs0 = filters@;
    let mut rest = filters;
    let mut out: Vec<FilterRaw> = Vec::<FilterRaw>::new();
    while rest.len() > 0
        invariant
            out@.len() + rest@.len() == fs0.len(),
            rest@ == fs0.subrange(out@.len() as int, fs0.len() as int),
            forall|j: int|
                0 <= j < out@.len() ==> raw_node_view(#[trigger] out@[j]) == subst_node(
                    ac_patterns(*ac),
                    values.deep_view(),
                    raw_node_view(fs0[j]),
                ),
        decreases rest@.len(),
    {
        let ghost k: int = out@.len() as int;
        let c = rest.remove(0);
        proof {
            assert(c == fs0[k]);
            assert(decreases_to!(filters0 => fs0));
            assert(decreases_to!(fs0 => c));
            assert(decreases_to!(filters0 => c));
        }
        out.push(subst_filter(c, ac, values));
    }
    proof {
        crate::filter::lemma_raw_forest_view_index(fs0);
        crate::filter::lemma_raw_forest_view_index(out@);
        lemma_subst_forest_index(ac_patterns(*ac), values.deep_view(), raw_forest_view(fs0));
        assert(raw_forest_view(out@) =~= subst_forest(
            ac_patterns(*ac),
            values.deep_view(),
            raw_forest_view(fs0),
        ));
    }
    out
}

/// Build the bracketed search pattern of each variable of the table, in
/// table order.
#[verifier::loop_isolation(false)]
fn build_keys(vars: &Vec<(String, String)>) -> (r: Vec<String>)
    ensures
        r.deep_view() == table_keys(vars.deep_view()),
{
    let mut out: Vec<String> = Vec::<String>::new();
    let mut i: usize = 0;
    while i < vars.len()
        invariant
            i <= vars.len(),
            out@.len() == i,
            forall|j: int|
                0 <= j < i ==> (#[trigger] out@[j])@ == brace_key(vars.deep_view()[j].0),
        decreases vars.len() - i,
    {
        let mut k = String::from_str("{");
        k.append(vars[i].0.as_str());
        k.append("}");
        proof {
            reveal_strlit("{");
            reveal_strlit("}");
            assert(k@ =~= brace_key(vars.deep_view()[i as int].0));
        }
        out.push(k);
        i = i + 1;
    }
    proof {
        assert(out.deep_view() =~= table_keys(vars.deep_view()));
    }
    out
}

/// Collect the replacement value of each variable of the table, in table
/// order.
#[verifier::loop_isolation(false)]
fn build_values(vars: &Vec<(String, String)>) -> (r: Vec<String>)
    ensures
        r.deep_view() == table_values(vars.deep_view()),
{
    let mut out: Vec<String> = Vec::<String>::new();
    let mut i: usize = 0;
    while i < vars.len()
        invariant
            i <= vars.len(),
            out@.len() == i,
            forall|j: int| 0 <= j < i ==> (#[trigger] out@[j])@ == vars.deep_view()[j].1,
        decreases vars.len() - i,
    {
        let v = vars[i].1.clone();
        out.push(v);
        i = i + 1;
    }
    proof {
        assert(out.deep_view() =~= table_values(vars.deep_view()));
    }
    out
}

/// A well-formed variable table: every variable name declared once.
///
/// A table deserialized from a document always satisfies this — a document
/// table cannot declare the same key twice. Substitution does not depend on
/// it: its result is fixed as a function of the pair list, in order, with
/// each bracketed name always paired with its own value.
pub open spec fn table_wf(vars: Seq<(Seq<char>, Seq<char>)>) -> bool {
    forall|i: int, j: int| 0 <= i < j < vars.len() ==> vars[i].0 != vars[j].0
}

/// Immediate representation of a deserialized filter config: an optional
/// variable table and the raw filters read directly from the document.
#[derive(Debug)]
pub struct FiltersFile {
    /// A mapping of variables to search for and replace in predicate values,
    /// if the document declares one. Deserialization yields a table whose
    /// names are distinct, per [`table_wf`]; nothing here depends on that.
    pub vars: Option<Vec<(String, String)>>,

    /// The raw filters read directly from the config file.
    pub filters: Vec<FilterRaw>,
}

/// The mathematical value of a [`FiltersFile`].
#[verifier::ext_equal]
pub struct FiltersFileView {
    /// The variable table as name/value pairs, in table order.
    pub vars: Option<Seq<(Seq<char>, Seq<char>)>>,

    /// The raw filter forest, in document order.
    pub filters: Seq<FilterRawView>,
}

impl View for FiltersFile {
    type V = FiltersFileView;

    open spec fn view(&self) -> FiltersFileView {
        FiltersFileView {
            vars: match self.vars {
                Option::Some(v) => Option::Some(v.deep_view()),
                Option::None => Option::None,
            },
            filters: raw_forest_view(self.filters@),
        }
    }
}

/// The document's forest after variable substitution: with no variable table
/// the forest stays as it is; with one, every rule text of every node goes
/// through one replace-all pass over the table's bracketed names.
pub open spec fn subst_doc(d: FiltersFileView) -> Seq<FilterRawView> {
    match d.vars {
        Option::Some(vs) => subst_forest(table_keys(vs), table_values(vs), d.filters),
        Option::None => d.filters,
    }
}

/// The cooked forest of a whole document: substitution, then cooking.
pub open spec fn cooked_config(d: FiltersFileView) -> Seq<FilterView> {
    cook_forest(subst_doc(d))
}

impl FiltersFile {
    /// Retrieve filters from the file, substituting in variables and baking
    /// the raw nodes down into the public tree.
    ///
    /// Fails exactly when the substitution searcher cannot be built from the
    /// declared variable names; with no variable table, or with an empty
    /// one, it always succeeds.
    pub fn get_filters(self) -> (r: Result<Vec<Filter>, ConfigError>)
        ensures
            (match r {
                Result::Ok(fs) => cooked_forest_view(fs@) == cooked_config(self@),
                Result::Err(e) => e matches ConfigError::PatternBuild(_),
            }),
            r is Err <==> (self@.vars matches Option::Some(vs) && !ac_build_ok(table_keys(vs))),
            self@.vars is None ==> r is Ok,
            (self@.vars matches Option::Some(vs) && vs.len() == 0) ==> r is Ok,
    {
        let ghost self0 = self;
        let FiltersFile { vars, filters } = self;

        let filters = match vars {
            Option::Some(vars) => {
                let keys = build_keys(&vars);
                let values = build_values(&vars);
                let ac = match ac_build(keys) {
                    Result::Ok(ac) => ac,
                    Result::Err(e) => {
                        return Result::Err(ConfigError::PatternBuild(build_error_message(&e)));
                    },
                };
                transform(filters, &ac, &values)
            },
            Option::None => filters,
        };
        proof {
            assert(raw_forest_view(filters@) == subst_doc(self0@));
        }

        let cooked = cook_all(filters);
        Result::Ok(cooked)
    }
}

} // verus!
