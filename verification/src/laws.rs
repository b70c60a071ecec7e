//! Properties of the substitution-and-cooking pipeline, stated over the
//! mathematical models and proved once and for all.

use vstd::prelude::*;

use crate::filter::cook_forest;
use crate::filter::cook_node;
use crate::filter::preds_or_empty;
use crate::filter::FilterRawView;
use crate::filter::FilterView;
use crate::filter::PredicateView;
use crate::matcher::occurs_in;
use crate::matcher::replaced;
use crate::subst::brace_key;
use crate::subst::cooked_config;
use crate::subst::subst_doc;
use crate::subst::subst_forest;
use crate::subst::subst_node;
use crate::subst::subst_pred;
use crate::subst::subst_preds;
use crate::subst::table_keys;
use crate::subst::table_values;
use crate::subst::FiltersFileView;

verus! {

/// Unknown-placeholder preservation: a rule in which no bracketed name of
/// the variable table occurs — in particular one whose placeholders are all
/// unknown to the table — comes out of substitution byte-for-byte unchanged.
pub proof fn lemma_unknown_placeholders_preserved(
    vars: Seq<(Seq<char>, Seq<char>)>,
    rule: Seq<char>,
)
    requires
        forall|i: int| 0 <= i < vars.len() ==> !occurs_in(brace_key(#[trigger] vars[i].0), rule),
    ensures
        replaced(table_keys(vars), table_values(vars), rule) == rule,
{
    assert forall|i: int| 0 <= i < table_keys(vars).len() implies !occurs_in(
        #[trigger] table_keys(vars)[i],
        rule,
    ) by {
        assert(table_keys(vars)[i] == brace_key(vars[i].0));
    }
}

/// Unknown-placeholder preservation at the searcher level: text in which no
/// pattern of the set occurs — whatever values stand beside them — goes
/// through a replace-all pass byte-for-byte unchanged.
pub proof fn lemma_no_occurrence_unchanged(
    keys: Seq<Seq<char>>,
    vals: Seq<Seq<char>>,
    text: Seq<char>,
)
    requires
        forall|i: int| 0 <= i < keys.len() ==> !occurs_in(#[trigger] keys[i], text),
    ensures
        replaced(keys, vals, text) == text,
{
}

/// Substitution under an empty pattern set leaves one predicate unchanged.
pub proof fn lemma_subst_pred_empty(keys: Seq<Seq<char>>, vals: Seq<Seq<char>>, p: PredicateView)
    requires
        keys.len() == 0,
    ensures
        subst_pred(keys, vals, p) == p,
{
}

/// Substitution under an empty pattern set leaves a predicate list
/// unchanged.
pub proof fn lemma_subst_preds_empty(
    keys: Seq<Seq<char>>,
    vals: Seq<Seq<char>>,
    ps: Seq<PredicateView>,
)
    requires
        keys.len() == 0,
    ensures
        subst_preds(keys, vals, ps) == ps,
{
    assert forall|i: int| 0 <= i < ps.len() implies (#[trigger] subst_preds(keys, vals, ps)[i])
        == ps[i] by {
        lemma_subst_pred_empty(keys, vals, ps[i]);
    }
    assert(subst_preds(keys, vals, ps) =~= ps);
}

/// Substitution under an empty pattern set leaves one raw node unchanged.
pub proof fn lemma_subst_node_empty(keys: Seq<Seq<char>>, vals: Seq<Seq<char>>, n: FilterRawView)
    requires
        keys.len() == 0,
    ensures
        subst_node(keys, vals, n) == n,
    decreases n,
{
    match n.mailing_lists {
        Option::Some(ps) => lemma_subst_preds_empty(keys, vals, ps),
        Option::None => (),
    }
    match n.tos {
        Option::Some(ps) => lemma_subst_preds_empty(keys, vals, ps),
        Option::None => (),
    }
    match n.children {
        Option::Some(cs) => lemma_subst_forest_empty(keys, vals, cs),
        Option::None => (),
    }
}

/// Substitution under an empty pattern set leaves a raw forest unchanged.
pub proof fn lemma_subst_forest_empty(
    keys: Seq<Seq<char>>,
    vals: Seq<Seq<char>>,
    s: Seq<FilterRawView>,
)
    requires
        keys.len() == 0,
    ensures
        subst_forest(keys, vals, s) == s,
    decreases s,
{
    if s.len() == 0 {
        assert(subst_forest(keys, vals, s) =~= s);
    } else {
        lemma_subst_node_empty(keys, vals, s[0]);
        lemma_subst_forest_empty(keys, vals, s.drop_first());
        assert(subst_forest(keys, vals, s) =~= s);
    }
}

/// No-variables idempotence: with no variable table, or with an empty one,
/// substitution leaves every rule text of the document unchanged and the
/// forest handed to cooking is the document's own.
pub proof fn lemma_empty_table_idempotent(d: FiltersFileView)
    requires
        d.vars matches Option::Some(vs) ==> vs.len() == 0,
    ensures
        subst_doc(d) == d.filters,
{
    match d.vars {
        Option::Some(vs) => {
            lemma_subst_forest_empty(table_keys(vs), table_values(vs), d.filters);
        },
        Option::None => (),
    }
}

/// One cooked filter reflects one raw node under the given pattern table:
/// the name is carried over, each predicate category is the raw category
/// (an absent one counting as empty) with exactly one replace-all pass
/// applied to each rule, in order, and the children correspond one to one,
/// in order, recursively.
pub open spec fn node_reflects(
    keys: Seq<Seq<char>>,
    vals: Seq<Seq<char>>,
    n: FilterRawView,
    c: FilterView,
) -> bool
    decreases n,
{
    &&& c.filter.name == n.name
    &&& c.filter.mailing_lists == subst_preds(keys, vals, preds_or_empty(n.mailing_lists))
    &&& c.filter.tos == subst_preds(keys, vals, preds_or_empty(n.tos))
    &&& match n.children {
        Option::Some(cs) => forest_reflects(keys, vals, cs, c.children),
        Option::None => c.children.len() == 0,
    }
}

/// A cooked forest reflects a raw forest: same length, and the filters
/// correspond head to head, in order.
pub open spec fn forest_reflects(
    keys: Seq<Seq<char>>,
    vals: Seq<Seq<char>>,
    s: Seq<FilterRawView>,
    cs: Seq<FilterView>,
) -> bool
    decreases s,
{
    &&& cs.len() == s.len()
    &&& s.len() > 0 ==> node_reflects(keys, vals, s[0], cs[0]) && forest_reflects(
        keys,
        vals,
        s.drop_first(),
        cs.drop_first(),
    )
}

/// Cooking the substituted form of one raw node yields a filter that
/// reflects the node.
pub proof fn lemma_cook_subst_node_reflects(
    keys: Seq<Seq<char>>,
    vals: Seq<Seq<char>>,
    n: FilterRawView,
)
    ensures
        node_reflects(keys, vals, n, cook_node(subst_node(keys, vals, n))),
    decreases n,
{
    let sn = subst_node(keys, vals, n);
    let c = cook_node(sn);
    if n.mailing_lists is None {
        assert(subst_preds(keys, vals, preds_or_empty(n.mailing_lists))
            =~= Seq::<PredicateView>::empty());
    }
    if n.tos is None {
        assert(subst_preds(keys, vals, preds_or_empty(n.tos)) =~= Seq::<PredicateView>::empty());
    }
    match n.children {
        Option::Some(cs) => {
            lemma_cook_subst_forest_reflects(keys, vals, cs);
            assert(c.children == cook_forest(subst_forest(keys, vals, cs)));
        },
        Option::None => (),
    }
}

/// Cooking the substituted form of a raw forest yields a forest that
/// reflects it.
pub proof fn lemma_cook_subst_forest_reflects(
    keys: Seq<Seq<char>>,
    vals: Seq<Seq<char>>,
    s: Seq<FilterRawView>,
)
    ensures
        forest_reflects(keys, vals, s, cook_forest(subst_forest(keys, vals, s))),
    decreases s,
{
    let t = subst_forest(keys, vals, s);
    let cs = cook_forest(t);
    if s.len() == 0 {
        assert(cs.len() == 0);
    } else {
        assert(t[0] == subst_node(keys, vals, s[0]));
        assert(t.drop_first() =~= subst_forest(keys, vals, s.drop_first()));
        assert(cs[0] == cook_node(t[0]));
        assert(cs.drop_first() =~= cook_forest(t.drop_first()));
        lemma_cook_subst_node_reflects(keys, vals, s[0]);
        lemma_cook_subst_forest_reflects(keys, vals, s.drop_first());
    }
}

/// The search patterns a document's variable table declares: the bracketed
/// name of each variable, in table order, or none with no table.
pub open spec fn doc_keys(d: FiltersFileView) -> Seq<Seq<char>> {
    match d.vars {
        Option::Some(vs) => table_keys(vs),
        Option::None => Seq::<Seq<char>>::empty(),
    }
}

/// The replacement values a document's variable table declares, in table
/// order, or none with no table.
pub open spec fn doc_values(d: FiltersFileView) -> Seq<Seq<char>> {
    match d.vars {
        Option::Some(vs) => table_values(vs),
        Option::None => Seq::<Seq<char>>::empty(),
    }
}

/// Substitution completeness and order preservation over the whole
/// pipeline: the cooked forest of a document reflects the document's raw
/// forest — the same number of filters in the same order under the same
/// names, every predicate of every node put through exactly one replace-all
/// pass over the table's bracketed names, in order, and children
/// corresponding recursively in order.
pub proof fn lemma_cooked_config_reflects(d: FiltersFileView)
    ensures
        forest_reflects(doc_keys(d), doc_values(d), d.filters, cooked_config(d)),
{
    match d.vars {
        Option::Some(vs) => {
            lemma_cook_subst_forest_reflects(table_keys(vs), table_values(vs), d.filters);
        },
        Option::None => {
            lemma_subst_forest_empty(doc_keys(d), doc_values(d), d.filters);
            lemma_cook_subst_forest_reflects(doc_keys(d), doc_values(d), d.filters);
        },
    }
}

/// Reading a forest correspondence index by index.
pub proof fn lemma_forest_reflects_index(
    keys: Seq<Seq<char>>,
    vals: Seq<Seq<char>>,
    s: Seq<FilterRawView>,
    cs: Seq<FilterView>,
)
    requires
        forest_reflects(keys, vals, s, cs),
    ensures
        cs.len() == s.len(),
        forall|i: int| 0 <= i < s.len() ==> node_reflects(keys, vals, s[i], cs[i]),
    decreases s,
{
    if s.len() > 0 {
        lemma_forest_reflects_index(keys, vals, s.drop_first(), cs.drop_first());
        assert forall|i: int| 0 <= i < s.len() implies node_reflects(
            keys,
            vals,
            s[i],
            #[trigger] cs[i],
        ) by {
            if i > 0 {
                assert(s.drop_first()[i - 1] == s[i]);
                assert(cs.drop_first()[i - 1] == cs[i]);
            }
        }
    }
}

/// The number of filters of a raw forest, descendants included.
pub open spec fn raw_forest_size(s: Seq<FilterRawView>) -> nat
    decreases s,
{
    if s.len() == 0 {
        0
    } else {
        raw_node_size(s[0]) + raw_forest_size(s.drop_first())
    }
}

/// The number of filters of a raw subtree: the node and all its
/// descendants.
pub open spec fn raw_node_size(n: FilterRawView) -> nat
    decreases n,
{
    match n.children {
        Option::Some(cs) => 1 + raw_forest_size(cs),
        Option::None => 1,
    }
}

/// The nesting depth of a raw forest: zero when empty, else the deepest of
/// its subtrees.
pub open spec fn raw_forest_depth(s: Seq<FilterRawView>) -> nat
    decreases s,
{
    if s.len() == 0 {
        0
    } else {
        let head = raw_node_depth(s[0]);
        let rest = raw_forest_depth(s.drop_first());
        if head >= rest {
            head
        } else {
            rest
        }
    }
}

/// The nesting depth of a raw subtree: this node plus its deepest child.
pub open spec fn raw_node_depth(n: FilterRawView) -> nat
    decreases n,
{
    match n.children {
        Option::Some(cs) => 1 + raw_forest_depth(cs),
        Option::None => 1,
    }
}

/// The number of filters of a cooked forest, descendants included.
pub open spec fn cooked_forest_size(cs: Seq<FilterView>) -> nat
    decreases cs,
{
    if cs.len() == 0 {
        0
    } else {
        cooked_node_size(cs[0]) + cooked_forest_size(cs.drop_first())
    }
}

/// The number of filters of a cooked subtree: the node and all its
/// descendants.
pub open spec fn cooked_node_size(c: FilterView) -> nat
    decreases c,
{
    1 + cooked_forest_size(c.children)
}

/// The nesting depth of a cooked forest: zero when empty, else the deepest
/// of its subtrees.
pub open spec fn cooked_forest_depth(cs: Seq<FilterView>) -> nat
    decreases cs,
{
    if cs.len() == 0 {
        0
    } else {
        let head = cooked_node_depth(cs[0]);
        let rest = cooked_forest_depth(cs.drop_first());
        if head >= rest {
            head
        } else {
            rest
        }
    }
}

/// The nesting depth of a cooked subtree: this node plus its deepest child.
pub open spec fn cooked_node_depth(c: FilterView) -> nat
    decreases c,
{
    1 + cooked_forest_depth(c.children)
}

/// Substitution changes neither the size nor the depth of one raw node.
pub proof fn lemma_subst_node_shape(keys: Seq<Seq<char>>, vals: Seq<Seq<char>>, n: FilterRawView)
    ensures
        raw_node_size(subst_node(keys, vals, n)) == raw_node_size(n),
        raw_node_depth(subst_node(keys, vals, n)) == raw_node_depth(n),
    decreases n,
{
    match n.children {
        Option::Some(cs) => lemma_subst_forest_shape(keys, vals, cs),
        Option::None => (),
    }
}

/// Substitution changes neither the size nor the depth of a raw forest.
pub proof fn lemma_subst_forest_shape(
    keys: Seq<Seq<char>>,
    vals: Seq<Seq<char>>,
    s: Seq<FilterRawView>,
)
    ensures
        raw_forest_size(subst_forest(keys, vals, s)) == raw_forest_size(s),
        raw_forest_depth(subst_forest(keys, vals, s)) == raw_forest_depth(s),
    decreases s,
{
    let t = subst_forest(keys, vals, s);
    if s.len() > 0 {
        assert(t[0] == subst_node(keys, vals, s[0]));
        assert(t.drop_first() =~= subst_forest(keys, vals, s.drop_first()));
        lemma_subst_node_shape(keys, vals, s[0]);
        lemma_subst_forest_shape(keys, vals, s.drop_first());
    }
}

/// Cooking carries the size and the depth of one raw node over unchanged.
pub proof fn lemma_cook_node_shape(n: FilterRawView)
    ensures
        cooked_node_size(cook_node(n)) == raw_node_size(n),
        cooked_node_depth(cook_node(n)) == raw_node_depth(n),
    decreases n,
{
    match n.children {
        Option::Some(cs) => lemma_cook_forest_shape(cs),
        Option::None => (),
    }
}

/// Cooking carries the size and the depth of a raw forest over unchanged.
pub proof fn lemma_cook_forest_shape(s: Seq<FilterRawView>)
    ensures
        cooked_forest_size(cook_forest(s)) == raw_forest_size(s),
        cooked_forest_depth(cook_forest(s)) == raw_forest_depth(s),
    decreases s,
{
    let cs = cook_forest(s);
    if s.len() > 0 {
        assert(cs[0] == cook_node(s[0]));
        assert(cs.drop_first() =~= cook_forest(s.drop_first()));
        lemma_cook_node_shape(s[0]);
        lemma_cook_forest_shape(s.drop_first());
    }
}

/// Depth/shape preservation: the cooked forest of a document holds exactly
/// as many filters, nested exactly as deep, as the document's raw forest.
pub proof fn lemma_shape_preserved(d: FiltersFileView)
    ensures
        cooked_forest_size(cooked_config(d)) == raw_forest_size(d.filters),
        cooked_forest_depth(cooked_config(d)) == raw_forest_depth(d.filters),
{
    match d.vars {
        Option::Some(vs) => {
            lemma_subst_forest_shape(table_keys(vs), table_values(vs), d.filters);
            lemma_cook_forest_shape(subst_forest(table_keys(vs), table_values(vs), d.filters));
        },
        Option::None => {
            lemma_cook_forest_shape(d.filters);
        },
    }
}

} // verus!
