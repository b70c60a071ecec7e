//! An internal representation of email filters.
//!
//! A configuration document deserializes into a [`FiltersFile`]: an optional
//! variable table plus a forest of [`FilterRaw`] nodes. After variable
//! substitution, the raw forest is "cooked" into the public [`Filter`] shape.

use vstd::prelude::*;

verus! {

broadcast use vstd::std_specs::vec::group_vec_axioms, vstd::seq::group_seq_axioms;

/// A boolean predicate representing a single filter rule.
///
/// For example, a filter in a mail client for only selecting emails
/// "from:*@example.org" would make a predicate with the rule "*@example.org",
/// and the excluding form would be the same predicate with `negate` set.
#[derive(Debug)]
pub struct Predicate {
    /// Actual predicate to match on.
    pub rule: String,

    /// Whether or not to negate a rule. False if not specified.
    pub negate: bool,
}

/// The mathematical value of a [`Predicate`]: its rule text and negation flag.
#[verifier::ext_equal]
pub struct PredicateView {
    /// The rule text as a sequence of characters.
    pub rule: Seq<char>,

    /// The negation flag.
    pub negate: bool,
}

impl View for Predicate {
    type V = PredicateView;

    open spec fn view(&self) -> PredicateView {
        PredicateView { rule: self.rule@, negate: self.negate }
    }
}

/// Internal representation of a single filter along with its children, as
/// deserialized from a configuration document. Optional fields distinguish an
/// absent category from an empty one; cooking normalizes absent to empty.
#[derive(Debug)]
pub struct FilterRaw {
    /// The name of a given filter. Equivalent to label name in email clients.
    pub name: String,

    /// Mailing lists to filter on.
    pub mailing_lists: Option<Vec<Predicate>>,

    /// "To" addresses to filter on.
    pub tos: Option<Vec<Predicate>>,

    /// Any filters that depend on the parent filter being true.
    pub children: Option<Vec<FilterRaw>>,
}

/// The mathematical value of a [`FilterRaw`] node.
#[verifier::ext_equal]
pub struct FilterRawView {
    /// The filter's name.
    pub name: Seq<char>,

    /// The declared mailing-list predicates, if the category is present.
    pub mailing_lists: Option<Seq<PredicateView>>,

    /// The declared "to" predicates, if the category is present.
    pub tos: Option<Seq<PredicateView>>,

    /// The child nodes, if a children list is present.
    pub children: Option<Seq<FilterRawView>>,
}

/// The values of a sequence of predicates, in order.
pub open spec fn preds_view(ps: Seq<Predicate>) -> Seq<PredicateView> {
    ps.map_values(|p: Predicate| p@)
}

/// The mathematical value of one raw filter node, lowering every owned
/// predicate list and every child node.
pub open spec fn raw_node_view(f: FilterRaw) -> FilterRawView
    decreases f,
{
    FilterRawView {
        name: f.name@,
        mailing_lists: match f.mailing_lists {
            Option::Some(ps) => Option::Some(preds_view(ps@)),
            Option::None => Option::None,
        },
        tos: match f.tos {
            Option::Some(ps) => Option::Some(preds_view(ps@)),
            Option::None => Option::None,
        },
        children: match f.children {
            Option::Some(cs) => Option::Some(raw_forest_view(cs@)),
            Option::None => Option::None,
        },
    }
}

/// The mathematical value of a sequence of raw filter nodes, in order.
pub open spec fn raw_forest_view(s: Seq<FilterRaw>) -> Seq<FilterRawView>
    decreases s,
{
    if s.len() == 0 {
        Seq::<FilterRawView>::empty()
    } else {
        seq![raw_node_view(s[0])] + raw_forest_view(s.drop_first())
    }
}

impl View for FilterRaw {
    type V = FilterRawView;

    open spec fn view(&self) -> FilterRawView {
        raw_node_view(*self)
    }
}

/// The value of a raw forest, index by index.
pub proof fn lemma_raw_forest_view_index(s: Seq<FilterRaw>)
    ensures
        raw_forest_view(s).len() == s.len(),
        forall|i: int| 0 <= i < s.len() ==> raw_forest_view(s)[i] == raw_node_view(s[i]),
    decreases s,
{
    if s.len() > 0 {
        lemma_raw_forest_view_index(s.drop_first());
    }
}

/// A "true" filter, only containing the filter rules themselves. Categories
/// that were absent in the source document are normalized to empty lists.
#[derive(Debug)]
pub struct FilterInner {
    /// The name of a given filter. Equivalent to label name in email clients.
    pub name: String,

    /// Mailing lists to filter on.
    pub mailing_lists: Vec<Predicate>,

    /// "To" addresses to filter on.
    pub tos: Vec<Predicate>,
}

/// The mathematical value of a [`FilterInner`].
#[verifier::ext_equal]
pub struct FilterInnerView {
    /// The filter's name.
    pub name: Seq<char>,

    /// The mailing-list predicates, in source order.
    pub mailing_lists: Seq<PredicateView>,

    /// The "to" predicates, in source order.
    pub tos: Seq<PredicateView>,
}

impl View for FilterInner {
    type V = FilterInnerView;

    open spec fn view(&self) -> FilterInnerView {
        FilterInnerView {
            name: self.name@,
            mailing_lists: preds_view(self.mailing_lists@),
            tos: preds_view(self.tos@),
        }
    }
}

/// Public filter interface, containing a "true" filter and any of its
/// children.
#[derive(Debug)]
pub struct Filter {
    /// Internal filter rules.
    pub filter: FilterInner,

    /// Dependent filters.
    pub children: Vec<Filter>,
}

/// The mathematical value of a [`Filter`] tree.
#[verifier::ext_equal]
pub struct FilterView {
    /// The filter rules of this node.
    pub filter: FilterInnerView,

    /// The child filters, in source order.
    pub children: Seq<FilterView>,
}

/// The mathematical value of one cooked filter node.
pub open spec fn cooked_node_view(f: Filter) -> FilterView
    decreases f,
{
    FilterView { filter: f.filter@, children: cooked_forest_view(f.children@) }
}

/// The mathematical value of a sequence of cooked filters, in order.
pub open spec fn cooked_forest_view(s: Seq<Filter>) -> Seq<FilterView>
    decreases s,
{
    if s.len() == 0 {
        Seq::<FilterView>::empty()
    } else {
        seq![cooked_node_view(s[0])] + cooked_forest_view(s.drop_first())
    }
}

impl View for Filter {
    type V = FilterView;

    open spec fn view(&self) -> FilterView {
        cooked_node_view(*self)
    }
}

/// The value of a cooked forest, index by index.
pub proof fn lemma_cooked_forest_view_index(s: Seq<Filter>)
    ensures
        cooked_forest_view(s).len() == s.len(),
        forall|i: int| 0 <= i < s.len() ==> cooked_forest_view(s)[i] == cooked_node_view(s[i]),
    decreases s,
{
    if s.len() > 0 {
        lemma_cooked_forest_view_index(s.drop_first());
    }
}

/// A present predicate category's contents, or empty for an absent one.
pub open spec fn preds_or_empty(o: Option<Seq<PredicateView>>) -> Seq<PredicateView> {
    match o {
        Option::Some(s) => s,
        Option::None => Seq::<PredicateView>::empty(),
    }
}

/// What cooking one raw node yields: the name and predicate categories carried
/// over verbatim (absent categories becoming empty), and each child cooked
/// recursively, in order.
pub open spec fn cook_node(n: FilterRawView) -> FilterView
    decreases n,
{
    FilterView {
        filter: FilterInnerView {
            name: n.name,
            mailing_lists: preds_or_empty(n.mailing_lists),
            tos: preds_or_empty(n.tos),
        },
        children: match n.children {
            Option::Some(cs) => cook_forest(cs),
            Option::None => Seq::<FilterView>::empty(),
        },
    }
}

/// What cooking a sequence of raw nodes yields, in order.
pub open spec fn cook_forest(s: Seq<FilterRawView>) -> Seq<FilterView>
    decreases s,
{
    if s.len() == 0 {
        Seq::<FilterView>::empty()
    } else {
        seq![cook_node(s[0])] + cook_forest(s.drop_first())
    }
}

/// The result of cooking a forest, index by index.
pub proof fn lemma_cook_forest_index(s: Seq<FilterRawView>)
    ensures
        cook_forest(s).len() == s.len(),
        forall|i: int| 0 <= i < s.len() ==> cook_forest(s)[i] == cook_node(s[i]),
    decreases s,
{
    if s.len() > 0 {
        lemma_cook_forest_index(s.drop_first());
    }
}

impl FilterRaw {
    /// Get a "cooked" filter, baking a raw one down into a more
    /// memory-efficient representation with children separated out and absent
    /// categories normalized to empty lists.
    #[verifier::loop_isolation(false)]
    pub fn cook(self) -> (r: Filter)
        ensures
            r@ == cook_node(self@),
        decreases self,
    {
        let ghost self0 = self;
        let FilterRaw { name, mailing_lists, tos, children } = self;

        let mailing_lists = match mailing_lists {
            Option::Some(ps) => ps,
            Option::None => Vec::<Predicate>::new(),
        };
        let tos = match tos {
            Option::Some(ps) => ps,
            Option::None => Vec::<Predicate>::new(),
        };

        let cooked_children: Vec<Filter> = match children {
            Option::None => Vec::<Filter>::new(),
            Option::Some(cs) => {
                proof {
                    assert(self0.children == Option::Some(cs));
                    assert(decreases_to!(self0 => cs));
                }
                cook_all(cs)
            }
        };

        Filter {
            filter: FilterInner { name, mailing_lists, tos },
            children: cooked_children,
        }
    }
}

/// Cook every raw filter of a forest, in order.
#[verifier::loop_isolation(false)]
pub fn cook_all(filters: Vec<FilterRaw>) -> (r: Vec<Filter>)
    ensures
        cooked_forest_view(r@) == cook_forest(raw_forest_view(filters@)),
    decreases filters,
{
    let ghost filters0 = filters;
    let ghost fs0 = filters@;
    let mut rest = filters;
    let mut out: Vec<Filter> = Vec::<Filter>::new();
    while rest.len() > 0
        invariant
            out@.len() + rest@.len() == fs0.len(),
            rest@ == fs0.subrange(out@.len() as int, fs0.len() as int),
            forall|j: int|
                0 <= j < out@.len() ==> cooked_node_view(#[trigger] out@[j]) == cook_node(
                    raw_node_view(fs0[j]),
                ),
        decreases rest@.len(),
    {
        let ghost k: int = out@.len() as int;
        let c = rest.remove(0);
        proof {
            assert(c == fs0[k]);
            assert(decreases_to!(filters0 => fs0));
            assert(decreases_to!(fs0 => c));
            assert(decreases_to!(filters0 => c));
        }
        out.push(c.cook());
    }
    proof {
        lemma_raw_forest_view_index(fs0);
        lemma_cook_forest_index(raw_forest_view(fs0));
        lemma_cooked_forest_view_index(out@);
        assert(cooked_forest_view(out@) =~= cook_forest(raw_forest_view(fs0)));
    }
    out
}

} // verus!
