//! The constant-folding evaluator: an exact, partial evaluation of an
//! operator applied to fully rational operands.
//!
//! Only `+`, `-`, `*`, `/` (with a non-zero divisor), `fabs` and the
//! posit width-conversion passthrough fold; every other operator — in
//! particular `pow`, `exp`, `log`, `sqrt`, `cbrt` and the transcendental
//! functions, whose exact results are generally irrational — falls
//! through to structural composition. Missing operands never fault: they
//! simply yield no value.
use vstd::prelude::*;
use crate::rat::{
    Rat, RatModel, rat_add_model, rat_sub_model, rat_mul_model, rat_div_model, rat_neg_model,
};
use crate::vocab::{Math, MathModel, OpTag};

verus! {

/// What the evaluator returns for one operator tag on the given operand
/// values, as a pure function of those values.
pub open spec fn eval_op_model(t: OpTag, args: Seq<RatModel>) -> Option<RatModel> {
    match t {
        OpTag::Add => if args.len() >= 2 {
            Some(rat_add_model(args[0], args[1]))
        } else {
            None
        },
        OpTag::Sub => if args.len() >= 2 {
            Some(rat_sub_model(args[0], args[1]))
        } else {
            None
        },
        OpTag::Mul => if args.len() >= 2 {
            Some(rat_mul_model(args[0], args[1]))
        } else {
            None
        },
        OpTag::Div => if args.len() >= 2 && args[1].num != 0 {
            Some(rat_div_model(args[0], args[1]))
        } else {
            None
        },
        OpTag::Fabs => if args.len() >= 1 {
            if args[0].num < 0 {
                Some(rat_neg_model(args[0]))
            } else {
                Some(args[0])
            }
        } else {
            None
        },
        OpTag::RealToPosit => if args.len() >= 1 {
            Some(args[0])
        } else {
            None
        },
        _ => None,
    }
}

/// What the evaluator returns for a term head: only operator tags fold;
/// applying a leaf head never does.
pub open spec fn eval_model(op: MathModel, args: Seq<RatModel>) -> Option<RatModel> {
    match op {
        MathModel::Op(t) => eval_op_model(t, args),
        _ => None,
    }
}

/// The models of a sequence of rational constants.
pub open spec fn rat_models(s: Seq<Rat>) -> Seq<RatModel> {
    s.map(|i: int, r: Rat| r@)
}

/// The model of an optional rational constant.
pub open spec fn opt_rat_model(r: Option<Rat>) -> Option<RatModel> {
    match r {
        Some(v) => Some(v@),
        None => None,
    }
}

/// Exact constant folding of `op` applied to `args`; `None` when the
/// operator does not fold, an operand is missing, or a division meets an
/// exactly zero divisor.
pub fn eval(op: &Math, args: &[Rat]) -> (r: Option<Rat>)
    ensures
        opt_rat_model(r) == eval_model(op@, rat_models(args@)),
{
    let t = match op {
        Math::Op(t) => *t,
        _ => {
            return None;
        },
    };
    match t {
        OpTag::Add => if args.len() >= 2 {
            Some(Rat::add(&args[0], &args[1]))
        } else {
            None
        },
        OpTag::Sub => if args.len() >= 2 {
            Some(Rat::sub(&args[0], &args[1]))
        } else {
            None
        },
        OpTag::Mul => if args.len() >= 2 {
            Some(Rat::mul(&args[0], &args[1]))
        } else {
            None
        },
        OpTag::Div => if args.len() >= 2 {
            if args[1].is_zero() {
                None
            } else {
                Some(Rat::div(&args[0], &args[1]))
            }
        } else {
            None
        },
        OpTag::Fabs => if args.len() >= 1 {
            if args[0].is_negative() {
                Some(Rat::neg(&args[0]))
            } else {
                Some(args[0].clone())
            }
        } else {
            None
        },
        OpTag::RealToPosit => if args.len() >= 1 {
            Some(args[0].clone())
        } else {
            None
        },
        _ => None,
    }
}

/// The evaluator is deterministic: it is a pure function of the tag and
/// the operand values, so identical inputs always give identical
/// optional results.
pub proof fn lemma_eval_deterministic(
    op1: MathModel,
    op2: MathModel,
    args1: Seq<RatModel>,
    args2: Seq<RatModel>,
)
    requires
        op1 == op2,
        args1 == args2,
    ensures
        eval_model(op1, args1) == eval_model(op2, args2),
{
}

/// Division by an exact zero never folds, whatever the dividend.
pub proof fn lemma_div_by_zero(x: RatModel, z: RatModel)
    requires
        z.num == 0,
    ensures
        eval_model(MathModel::Op(OpTag::Div), seq![x, z]) is None,
{
}

} // verus!
