//! The equivalence-class metadata protocol: `make`, `merge` and
//! `modify`.
//!
//! Each equivalence class carries a `Meta`: the cheapest expression known
//! to represent the class, together with its cost under the structural
//! cost model. `make` computes the metadata of a freshly inserted node
//! (folding it to a constant when every child is a constant and the
//! evaluator succeeds), `merge` picks the cheaper of two metadata when
//! classes unify (ties favor the first, pre-existing class), and
//! `modify` inserts the best leaf back into the class so that lookups by
//! that literal leaf find it.
use vstd::prelude::*;
use crate::rat::RatModel;
use crate::vocab::{Math, MathModel, is_leaf};
use crate::expr::{
    Expr, ExprModel, expr_cost, expr_wf, op_base, sum_ints, lemma_exprs_cost_sum, lemma_exprs_wf,
};
use crate::eval::{eval, eval_model, rat_models};

verus! {

/// Per-class metadata: the cost of the best known representative and
/// that representative itself.
pub struct Meta {
    pub cost: u64,
    pub best: Expr,
}

/// The mathematical value of a class's metadata.
pub struct MetaModel {
    pub cost: int,
    pub best: ExprModel,
}

impl View for Meta {
    type V = MetaModel;

    open spec fn view(&self) -> MetaModel {
        MetaModel { cost: self.cost as int, best: self.best@ }
    }
}

/// The metadata invariant: the recorded cost is exactly the cost of the
/// recorded best expression, and that expression is well formed.
pub open spec fn meta_inv(m: MetaModel) -> bool {
    &&& m.cost == expr_cost(m.best)
    &&& expr_wf(m.best)
}

/// The models of a sequence of metadata.
pub open spec fn meta_models(s: Seq<Meta>) -> Seq<MetaModel> {
    s.map(|i: int, m: Meta| m@)
}

/// Whether every child's best expression is a constant leaf.
pub open spec fn all_const(cm: Seq<MetaModel>) -> bool {
    forall|i: int| 0 <= i < cm.len() ==> (#[trigger] cm[i].best.op) is Constant
}

/// The constant values of children whose bests are constant leaves.
pub open spec fn const_vals(cm: Seq<MetaModel>) -> Seq<RatModel> {
    Seq::new(cm.len(), |i: int| cm[i].best.op->Constant_0)
}

/// The costs of a sequence of metadata.
pub open spec fn meta_costs(cm: Seq<MetaModel>) -> Seq<int> {
    cm.map(|i: int, m: MetaModel| m.cost)
}

/// The best expressions of a sequence of metadata.
pub open spec fn meta_bests(cm: Seq<MetaModel>) -> Seq<ExprModel> {
    cm.map(|i: int, m: MetaModel| m.best)
}

/// What `make` returns for a node with head `op` and children carrying
/// metadata `cm`: the folded constant (cost 0) when every child is a
/// constant leaf and the evaluator folds, and otherwise the structural
/// composition of the children's bests.
pub open spec fn make_model(op: MathModel, cm: Seq<MetaModel>) -> MetaModel {
    if all_const(cm) && eval_model(op, const_vals(cm)) is Some {
        MetaModel {
            cost: 0,
            best: ExprModel {
                op: MathModel::Constant(eval_model(op, const_vals(cm))->Some_0),
                args: Seq::empty(),
            },
        }
    } else {
        MetaModel {
            cost: op_base(op) + sum_ints(meta_costs(cm)),
            best: ExprModel { op, args: meta_bests(cm) },
        }
    }
}

/// What `merge` returns: the metadata with the lower cost, the first on
/// a tie.
pub open spec fn merge_model(a: MetaModel, b: MetaModel) -> MetaModel {
    if a.cost <= b.cost {
        a
    } else {
        b
    }
}

impl Clone for Meta {
    /// A copy with the same model.
    fn clone(&self) -> (r: Self)
        ensures
            r@ == self@,
    {
        Meta { cost: self.cost, best: self.best.clone() }
    }
}

impl Meta {
    /// Metadata for a freshly inserted node: fold to an exact constant
    /// when possible, otherwise compose the children's best expressions.
    pub fn make(op: &Math, children: &Vec<Meta>) -> (m: Meta)
        requires
            forall|i: int| 0 <= i < children@.len() ==> meta_inv(#[trigger] children@[i]@),
            is_leaf(op@) ==> children@.len() == 0,
            op_base(op@) + sum_ints(meta_costs(meta_models(children@))) <= u64::MAX,
        ensures
            m@ == make_model(op@, meta_models(children@)),
            meta_inv(m@),
    {
        let ghost cm = meta_models(children@);
        let mut vals: Vec<crate::rat::Rat> = Vec::new();
        let mut all: bool = true;
        let mut i: usize = 0;
        while i < children.len() && all
            invariant
                i <= children.len(),
                cm == meta_models(children@),
                cm.len() == children@.len(),
                forall|j: int| 0 <= j < cm.len() ==> cm[j] == children@[j]@,
                all ==> vals@.len() == i as int,
                all ==> forall|j: int| 0 <= j < i ==> (#[trigger] cm[j].best.op) is Constant,
                all ==> forall|j: int| 0 <= j < i ==> vals@[j]@ == cm[j].best.op->Constant_0,
                !all ==> exists|j: int| 0 <= j < cm.len() && !((#[trigger] cm[j].best.op)
                    is Constant),
            decreases children.len() - i + (if all { 1int } else { 0int }),
        {
            let c_opt = match &children[i].best.op {
                Math::Constant(c) => Some(c.clone()),
                _ => None,
            };
            match c_opt {
                Some(c) => {
                    vals.push(c);
                    i += 1;
                },
                None => {
                    all = false;
                    proof {
                        assert(!((cm[i as int].best.op) is Constant));
                    }
                },
            }
        }
        if all {
            proof {
                assert(all_const(cm));
                assert(rat_models(vals@) =~= const_vals(cm));
            }
            match eval(op, vals.as_slice()) {
                Some(c) => {
                    let m = Meta { cost: 0, best: Expr { op: Math::Constant(c), args: Vec::new() } };
                    proof {
                        assert(m@.best.args =~= Seq::<ExprModel>::empty());
                        assert(m@ == make_model(op@, cm));
                    }
                    return m;
                },
                None => {},
            }
            proof {
                assert(eval_model(op@, const_vals(cm)) is None);
            }
        } else {
            proof {
                assert(!all_const(cm));
            }
        }
        Meta::compose(op, children)
    }

    /// Structural composition: the node's head applied to the children's
    /// best expressions, costed by the structural cost model.
    fn compose(op: &Math, children: &Vec<Meta>) -> (m: Meta)
        requires
            forall|i: int| 0 <= i < children@.len() ==> meta_inv(#[trigger] children@[i]@),
            is_leaf(op@) ==> children@.len() == 0,
            op_base(op@) + sum_ints(meta_costs(meta_models(children@))) <= u64::MAX,
        ensures
            m@.cost == op_base(op@) + sum_ints(meta_costs(meta_models(children@))),
            m@.best == (ExprModel { op: op@, args: meta_bests(meta_models(children@)) }),
            meta_inv(m@),
    {
        let ghost cm = meta_models(children@);
        let mut costs: Vec<u64> = Vec::new();
        let mut bests: Vec<Expr> = Vec::new();
        let mut i: usize = 0;
        while i < children.len()
            invariant
                i <= children.len(),
                cm == meta_models(children@),
                cm.len() == children@.len(),
                forall|j: int| 0 <= j < cm.len() ==> cm[j] == children@[j]@,
                costs@.len() == i as int,
                bests@.len() == i as int,
                forall|j: int| 0 <= j < i ==> costs@[j] as int == cm[j].cost,
                forall|j: int| 0 <= j < i ==> bests@[j]@ == cm[j].best,
            decreases children.len() - i,
        {
            costs.push(children[i].cost);
            let b = children[i].best.clone();
            bests.push(b);
            i += 1;
        }
        proof {
            assert(costs@.map(|j: int, c: u64| c as int) =~= meta_costs(cm));
        }
        let cost = op.cost(costs.as_slice());
        let best = Expr { op: op.clone(), args: bests };
        proof {
            Expr::lemma_models(best.args@);
            assert(best@.args =~= meta_bests(cm));
            lemma_exprs_cost_sum(best@.args);
            assert(Seq::new(best@.args.len(), |j: int| expr_cost(best@.args[j]))
                =~= meta_costs(cm));
            lemma_exprs_wf(best@.args);
            assert(forall|j: int| 0 <= j < cm.len() ==> meta_inv(cm[j]));
            assert(expr_wf(best@));
        }
        Meta { cost, best }
    }

    /// The cheaper of the two metadata; on a tie the first — by
    /// convention the metadata of the pre-existing class — wins.
    pub fn merge(&self, other: &Self) -> (r: Self)
        ensures
            r@ == merge_model(self@, other@),
    {
        if self.cost <= other.cost {
            self.clone()
        } else {
            other.clone()
        }
    }
}

/// A node as the hosting engine stores it: a head applied to child
/// equivalence classes, addressed by opaque identifiers.
pub struct Node {
    pub op: Math,
    pub children: Vec<u64>,
}

/// The mathematical value of a stored node.
pub struct NodeModel {
    pub op: MathModel,
    pub children: Seq<u64>,
}

impl View for Node {
    type V = NodeModel;

    open spec fn view(&self) -> NodeModel {
        NodeModel { op: self.op@, children: self.children@ }
    }
}

/// The part of an equivalence class that `modify` touches: its nodes and
/// its metadata.
pub struct EClass {
    pub nodes: Vec<Node>,
    pub metadata: Meta,
}

/// The mathematical value of a class.
pub struct EClassModel {
    pub nodes: Seq<NodeModel>,
    pub metadata: MetaModel,
}

impl View for EClass {
    type V = EClassModel;

    open spec fn view(&self) -> EClassModel {
        EClassModel {
            nodes: self.nodes@.map(|i: int, n: Node| n@),
            metadata: self.metadata@,
        }
    }
}

/// Whether the class already contains a node that is literally the given
/// leaf head applied to nothing.
pub open spec fn has_leaf_node(nodes: Seq<NodeModel>, op: MathModel) -> bool {
    exists|i: int| 0 <= i < nodes.len() && (#[trigger] nodes[i]).op == op && nodes[i].children.len()
        == 0
}

/// What `modify` does to a class: when the best expression is a leaf
/// that the class does not yet contain as a literal node, that leaf node
/// is inserted; otherwise the class is untouched. The metadata never
/// changes, and non-leaf bests are never re-inserted, which keeps the
/// graph bounded.
pub open spec fn modify_model(c: EClassModel) -> EClassModel {
    if is_leaf(c.metadata.best.op) && !has_leaf_node(c.nodes, c.metadata.best.op) {
        EClassModel {
            nodes: c.nodes.push(NodeModel { op: c.metadata.best.op, children: Seq::empty() }),
            metadata: c.metadata,
        }
    } else {
        c
    }
}

impl Meta {
    /// Bounded canonicalization after a maintenance pass.
    pub fn modify(eclass: &mut EClass)
        ensures
            final(eclass)@ == modify_model(old(eclass)@),
    {
        if !eclass.metadata.best.op.leaf() {
            proof {
                assert(eclass@ == modify_model(eclass@));
            }
            return;
        }
        let mut found: bool = false;
        let mut i: usize = 0;
        while i < eclass.nodes.len() && !found
            invariant
                i <= eclass.nodes.len(),
                *eclass == *old(eclass),
                !found ==> forall|j: int| 0 <= j < i ==> !((#[trigger] eclass@.nodes[j]).op
                    == eclass@.metadata.best.op && eclass@.nodes[j].children.len() == 0),
                found ==> has_leaf_node(eclass@.nodes, eclass@.metadata.best.op),
            decreases eclass.nodes.len() - i + (if found { 0int } else { 1int }),
        {
            if eclass.nodes[i].children.len() == 0 && eclass.nodes[i].op.eq_math(
                &eclass.metadata.best.op,
            ) {
                found = true;
                proof {
                    assert(eclass@.nodes[i as int].op == eclass@.metadata.best.op
                        && eclass@.nodes[i as int].children.len() == 0);
                }
            } else {
                i += 1;
            }
        }
        if found {
            proof {
                assert(eclass@ == modify_model(eclass@));
            }
            return;
        }
        proof {
            assert(!has_leaf_node(eclass@.nodes, eclass@.metadata.best.op));
        }
        let leaf_op = eclass.metadata.best.op.clone();
        let ghost before = eclass@;
        eclass.nodes.push(Node { op: leaf_op, children: Vec::new() });
        proof {
            assert(eclass@.nodes =~= modify_model(before).nodes);
            assert(eclass@ == modify_model(before));
        }
    }
}

/// Merging a class's metadata with itself changes nothing: the same
/// union can be proposed again and again without effect.
pub proof fn lemma_merge_idempotent(a: MetaModel)
    ensures
        merge_model(a, a) == a,
{
}

/// The merged cost is exactly the minimum of the two costs — whichever
/// side wins the tie-break — so a class's cost never increases over its
/// lifetime.
pub proof fn lemma_merge_cost(a: MetaModel, b: MetaModel)
    ensures
        merge_model(a, b).cost == if a.cost <= b.cost {
            a.cost
        } else {
            b.cost
        },
        merge_model(a, b).cost <= a.cost,
        merge_model(a, b).cost <= b.cost,
{
}

/// `merge` preserves the metadata invariant.
pub proof fn lemma_merge_inv(a: MetaModel, b: MetaModel)
    requires
        meta_inv(a),
        meta_inv(b),
    ensures
        meta_inv(merge_model(a, b)),
{
}

/// `modify` is idempotent: once the best leaf is present — in particular
/// right after `modify` inserted it — running it again is a no-op.
pub proof fn lemma_modify_idempotent(c: EClassModel)
    ensures
        modify_model(modify_model(c)) == modify_model(c),
{
    let op = c.metadata.best.op;
    if is_leaf(op) && !has_leaf_node(c.nodes, op) {
        let nodes2 = modify_model(c).nodes;
        assert(nodes2[c.nodes.len() as int].op == op);
        assert(nodes2[c.nodes.len() as int].children.len() == 0);
        assert(has_leaf_node(nodes2, op));
    }
}

/// Leaf heads cost nothing.
pub proof fn lemma_cost_leaf(op: MathModel)
    requires
        is_leaf(op),
    ensures
        op_base(op) + sum_ints(Seq::<int>::empty()) == 0,
{
}

/// A non-leaf head costs one more than the sum of its children's costs.
pub proof fn lemma_cost_op(op: MathModel, child_costs: Seq<int>)
    requires
        !is_leaf(op),
    ensures
        op_base(op) + sum_ints(child_costs) == 1 + sum_ints(child_costs),
{
}


/// A leaf node's metadata at insertion: the leaf itself, at cost 0.
pub proof fn lemma_make_leaf(op: MathModel)
    requires
        is_leaf(op),
    ensures
        make_model(op, Seq::empty()) == (MetaModel {
            cost: 0,
            best: ExprModel { op, args: Seq::empty() },
        }),
{
    assert(meta_costs(Seq::empty()) =~= Seq::<int>::empty());
    assert(meta_bests(Seq::empty()) =~= Seq::<ExprModel>::empty());
}

/// Folding to a constant is always strictly cheaper than composing: a
/// composed non-leaf node costs at least 1, while a folded constant
/// costs 0, so `make` never needs to compare the two.
pub proof fn lemma_fold_strictly_cheaper(op: MathModel, cm: Seq<MetaModel>)
    requires
        !is_leaf(op),
        forall|i: int| 0 <= i < cm.len() ==> meta_inv(#[trigger] cm[i]),
    ensures
        op_base(op) + sum_ints(meta_costs(cm)) >= 1,
{
    let costs = meta_costs(cm);
    assert forall|i: int| 0 <= i < costs.len() implies costs[i] >= 0 by {
        assert(costs[i] == cm[i].cost);
        crate::expr::lemma_expr_cost_nonneg(cm[i].best);
    }
    crate::expr::lemma_sum_nonneg(costs);
}


/// Merging is order independent: both orders give the same cost, and
/// whenever the costs differ — so the tie-break never enters — they give
/// the very same metadata. Whichever of two equal nodes was inserted
/// first, the class ends up with the same best cost.
pub proof fn lemma_merge_order_independent(a: MetaModel, b: MetaModel)
    ensures
        merge_model(a, b).cost == merge_model(b, a).cost,
        a.cost != b.cost ==> merge_model(a, b) == merge_model(b, a),
{
}

} // verus!
