//! Expression trees: an operator tag applied to ordered child
//! expressions, used to record the best known representative of an
//! equivalence class, and the structural cost model that ranks them.
//!
//! Leaves (constants, variables, named float constants) cost 0; every
//! other node costs 1 plus the sum of its children's costs, so folding a
//! subtree to a constant is always strictly cheaper than keeping any
//! operator node.
use vstd::prelude::*;
use crate::vocab::{Math, MathModel, is_leaf};

verus! {

/// A snapshot expression tree: a head applied to ordered children.
pub struct Expr {
    pub op: Math,
    pub args: Vec<Expr>,
}

/// The mathematical value of an expression tree.
pub struct ExprModel {
    pub op: MathModel,
    pub args: Seq<ExprModel>,
}

impl Expr {
    pub open spec fn model(self) -> ExprModel
        decreases self, 1int,
    {
        proof {
            broadcast use vstd::std_specs::vec::group_vec_axioms;
            assert(decreases_to!(self => self.args));
            assert(decreases_to!(self.args => self.args@));
        }
        ExprModel { op: self.op@, args: Expr::models(self.args@) }
    }

    pub open spec fn models(s: Seq<Expr>) -> Seq<ExprModel>
        decreases s, 0int,
    {
        if s.len() == 0 {
            Seq::empty()
        } else {
            Expr::models(s.drop_last()).push(s.last().model())
        }
    }

    /// The models of a sequence of trees are the trees' models, in order.
    pub proof fn lemma_models(s: Seq<Expr>)
        ensures
            Expr::models(s).len() == s.len(),
            forall|i: int| 0 <= i < s.len() ==> Expr::models(s)[i] == s[i].model(),
        decreases s.len(),
    {
        if s.len() > 0 {
            Expr::lemma_models(s.drop_last());
        }
    }
}

impl View for Expr {
    type V = ExprModel;

    open spec fn view(&self) -> ExprModel {
        self.model()
    }
}

/// The cost of one head: 0 for a leaf, 1 for an operator.
pub open spec fn op_base(m: MathModel) -> int {
    if is_leaf(m) {
        0
    } else {
        1
    }
}

/// The cost of an expression tree: the head's cost plus the costs of the
/// children.
pub open spec fn expr_cost(e: ExprModel) -> int
    decreases e, 1int,
{
    op_base(e.op) + exprs_cost(e.args)
}

pub open spec fn exprs_cost(s: Seq<ExprModel>) -> int
    decreases s, 0int,
{
    if s.len() == 0 {
        0
    } else {
        exprs_cost(s.drop_last()) + expr_cost(s.last())
    }
}

/// The sum of a sequence of integers.
pub open spec fn sum_ints(s: Seq<int>) -> int
    decreases s.len(),
{
    if s.len() == 0 {
        0
    } else {
        sum_ints(s.drop_last()) + s.last()
    }
}

/// An expression tree is well formed when every leaf head has no
/// children.
pub open spec fn expr_wf(e: ExprModel) -> bool
    decreases e, 1int,
{
    &&& (is_leaf(e.op) ==> e.args.len() == 0)
    &&& exprs_wf(e.args)
}

pub open spec fn exprs_wf(s: Seq<ExprModel>) -> bool
    decreases s, 0int,
{
    if s.len() == 0 {
        true
    } else {
        exprs_wf(s.drop_last()) && expr_wf(s.last())
    }
}

/// A sequence of trees is well formed exactly when each tree is.
pub proof fn lemma_exprs_wf(s: Seq<ExprModel>)
    ensures
        exprs_wf(s) <==> (forall|i: int| 0 <= i < s.len() ==> #[trigger] expr_wf(s[i])),
    decreases s.len(),
{
    if s.len() > 0 {
        lemma_exprs_wf(s.drop_last());
        assert(s.last() == s[s.len() - 1]);
        if exprs_wf(s) {
            assert forall|i: int| 0 <= i < s.len() implies #[trigger] expr_wf(s[i]) by {
                if i < s.len() - 1 {
                    assert(expr_wf(s.drop_last()[i]));
                    assert(s.drop_last()[i] == s[i]);
                }
            }
        }
        if forall|i: int| 0 <= i < s.len() ==> #[trigger] expr_wf(s[i]) {
            assert forall|i: int| 0 <= i < s.drop_last().len() implies #[trigger] expr_wf(
                s.drop_last()[i],
            ) by {
                assert(s.drop_last()[i] == s[i]);
                assert(expr_wf(s[i]));
            }
            assert(expr_wf(s[s.len() - 1]));
            assert(exprs_wf(s));
        }
    }
}

/// The cost of a sequence of trees is the sum of the trees' costs.
pub proof fn lemma_exprs_cost_sum(s: Seq<ExprModel>)
    ensures
        exprs_cost(s) == sum_ints(Seq::new(s.len(), |i: int| expr_cost(s[i]))),
    decreases s.len(),
{
    let costs = Seq::new(s.len(), |i: int| expr_cost(s[i]));
    if s.len() > 0 {
        lemma_exprs_cost_sum(s.drop_last());
        assert(Seq::new(s.drop_last().len(), |i: int| expr_cost(s.drop_last()[i]))
            =~= costs.drop_last());
    }
}

/// Every tree cost is nonnegative.
pub proof fn lemma_expr_cost_nonneg(e: ExprModel)
    ensures
        expr_cost(e) >= 0,
    decreases e, 1int,
{
    lemma_exprs_cost_nonneg(e.args);
}

pub proof fn lemma_exprs_cost_nonneg(s: Seq<ExprModel>)
    ensures
        exprs_cost(s) >= 0,
    decreases s, 0int,
{
    if s.len() > 0 {
        lemma_exprs_cost_nonneg(s.drop_last());
        lemma_expr_cost_nonneg(s.last());
    }
}

/// Splitting a sum at `i`: the whole is the prefix plus the rest.
pub proof fn lemma_sum_split(s: Seq<int>, i: int)
    requires
        0 <= i <= s.len(),
    ensures
        sum_ints(s) == sum_ints(s.take(i)) + sum_ints(s.skip(i)),
    decreases s.len() - i,
{
    if i == s.len() {
        assert(s.take(i) =~= s);
        assert(sum_ints(s.skip(i)) == 0);
    } else {
        lemma_sum_split(s, i + 1);
        assert(s.take(i + 1).drop_last() =~= s.take(i));
        assert(s.take(i + 1).last() == s[i]);
        lemma_sum_skip_first(s, i);
    }
}

/// Peeling the first element off the tail of a sum.
pub proof fn lemma_sum_skip_first(s: Seq<int>, i: int)
    requires
        0 <= i < s.len(),
    ensures
        sum_ints(s.skip(i)) == s[i] + sum_ints(s.skip(i + 1)),
    decreases s.len() - i,
{
    let t = s.skip(i);
    if t.len() == 1 {
        assert(sum_ints(t.drop_last()) == 0);
    } else {
        lemma_sum_skip_first(s.drop_last(), i);
        assert(s.drop_last().skip(i) =~= t.drop_last());
        assert(s.drop_last().skip(i + 1) =~= s.skip(i + 1).drop_last());
        lemma_sum_last(s.skip(i + 1));
    }
}

/// A sum with its last element peeled off.
pub proof fn lemma_sum_last(s: Seq<int>)
    requires
        s.len() > 0,
    ensures
        sum_ints(s) == sum_ints(s.drop_last()) + s.last(),
{
}

/// A sum of nonnegative integers is nonnegative.
pub proof fn lemma_sum_nonneg(s: Seq<int>)
    requires
        forall|i: int| 0 <= i < s.len() ==> s[i] >= 0,
    ensures
        sum_ints(s) >= 0,
    decreases s.len(),
{
    if s.len() > 0 {
        lemma_sum_nonneg(s.drop_last());
    }
}

impl Math {
    /// Structural cost of applying this head to children with the given
    /// costs: 0 for a leaf head, 1 for an operator, plus the children.
    pub fn cost(&self, children: &[u64]) -> (r: u64)
        requires
            op_base(self@) + sum_ints(children@.map(|i: int, c: u64| c as int)) <= u64::MAX,
        ensures
            r as int == op_base(self@) + sum_ints(children@.map(|i: int, c: u64| c as int)),
    {
        let ghost costs = children@.map(|i: int, c: u64| c as int);
        proof {
            assert(forall|i: int| 0 <= i < costs.len() ==> costs[i] >= 0);
        }
        let base: u64 = if self.leaf() {
            0
        } else {
            1
        };
        let mut total: u64 = base;
        let mut i: usize = 0;
        proof {
            assert(costs.take(0) =~= Seq::<int>::empty());
        }
        while i < children.len()
            invariant
                i <= children.len(),
                costs.len() == children.len(),
                forall|j: int| 0 <= j < costs.len() ==> costs[j] == children@[j] as int,
                forall|j: int| 0 <= j < costs.len() ==> costs[j] >= 0,
                total as int == op_base(self@) + sum_ints(costs.take(i as int)),
                op_base(self@) + sum_ints(costs) <= u64::MAX,
            decreases children.len() - i,
        {
            proof {
                lemma_sum_split(costs, i as int);
                lemma_sum_skip_first(costs, i as int);
                lemma_sum_nonneg(costs.skip(i as int + 1));
                assert(costs.take(i as int + 1).drop_last() =~= costs.take(i as int));
            }
            total = total + children[i];
            i = i + 1;
        }
        proof {
            assert(costs.take(children.len() as int) =~= costs);
        }
        total
    }
}

impl Clone for Math {
    /// A copy with the same model.
    fn clone(&self) -> (r: Self)
        ensures
            r@ == self@,
    {
        match self {
            Math::Constant(c) => Math::Constant(c.clone()),
            Math::FPConstant(c) => Math::FPConstant(*c),
            Math::Variable(v) => Math::Variable(v.clone()),
            Math::Op(t) => Math::Op(*t),
        }
    }
}

impl Clone for Expr {
    /// A deep copy with the same model.
    fn clone(&self) -> (r: Self)
        ensures
            r@ == self@,
        decreases *self,
    {
        let mut args: Vec<Expr> = Vec::new();
        let mut i: usize = 0;
        while i < self.args.len()
            invariant
                i <= self.args.len(),
                args@.len() == i as int,
                forall|j: int| 0 <= j < i ==> args@[j]@ == self.args@[j]@,
            decreases self.args.len() - i,
        {
            let c = self.args[i].clone();
            args.push(c);
            i += 1;
        }
        let r = Expr { op: self.op.clone(), args };
        proof {
            Expr::lemma_models(r.args@);
            Expr::lemma_models(self.args@);
            assert(r@.args =~= self@.args);
        }
        r
    }
}

impl Math {
    /// Whether two heads are equal (same tag and equal payload).
    pub fn eq_math(&self, other: &Math) -> (r: bool)
        ensures
            r == (self@ == other@),
    {
        match (self, other) {
            (Math::Constant(a), Math::Constant(b)) => a.eq_value(b),
            (Math::FPConstant(a), Math::FPConstant(b)) => *a == *b,
            (Math::Variable(a), Math::Variable(b)) => a.eq(b),
            (Math::Op(a), Math::Op(b)) => *a == *b,
            _ => false,
        }
    }
}

impl Expr {
    /// Whether two trees are structurally equal.
    pub fn eq_expr(&self, other: &Expr) -> (r: bool)
        ensures
            r == (self@ == other@),
        decreases *self,
    {
        proof {
            Expr::lemma_models(self.args@);
            Expr::lemma_models(other.args@);
        }
        if !self.op.eq_math(&other.op) {
            return false;
        }
        if self.args.len() != other.args.len() {
            return false;
        }
        let mut i: usize = 0;
        while i < self.args.len()
            invariant
                i <= self.args.len(),
                self.args@.len() == other.args@.len(),
                self@.op == other@.op,
                forall|j: int| 0 <= j < i ==> self.args@[j]@ == other.args@[j]@,
                self@.args.len() == self.args@.len(),
                other@.args.len() == other.args@.len(),
                forall|j: int| 0 <= j < self.args@.len() ==> self@.args[j] == self.args@[j]@,
                forall|j: int| 0 <= j < other.args@.len() ==> other@.args[j] == other.args@[j]@,
            decreases self.args.len() - i,
        {
            if !self.args[i].eq_expr(&other.args[i]) {
                proof {
                    assert(self@.args[i as int] != other@.args[i as int]);
                }
                return false;
            }
            i += 1;
        }
        proof {
            assert(self@.args =~= other@.args);
        }
        true
    }
}

} // verus!
