use eggmath::eval::eval;
use eggmath::expr::Expr;
use eggmath::meta::{EClass, Meta, Node};
use eggmath::rat::Rat;
use eggmath::vocab::{FPConstant, Math, OpTag};

fn rat(n: i64) -> Rat {
    Rat::of_i64(n)
}

fn frac(n: i64, d: i64) -> Rat {
    Rat::of_frac(n, d).unwrap()
}

fn leaf(op: Math) -> Expr {
    Expr { op, args: vec![] }
}

fn leaf_meta(op: Math) -> Meta {
    Meta::make(&op, &Vec::new())
}

#[test]
fn leaf_tags_cost_zero() {
    assert_eq!(Math::Constant(rat(7)).cost(&[]), 0);
    assert_eq!(Math::Variable("x".to_string()).cost(&[]), 0);
    assert_eq!(Math::FPConstant(FPConstant::Pi).cost(&[]), 0);
}

#[test]
fn operator_cost_is_one_plus_children() {
    assert_eq!(Math::Op(OpTag::Add).cost(&[]), 1);
    assert_eq!(Math::Op(OpTag::Add).cost(&[0, 0]), 1);
    assert_eq!(Math::Op(OpTag::Fma).cost(&[2, 3, 5]), 11);
    assert_eq!(Math::Op(OpTag::Sqrt).cost(&[4]), 5);
}

#[test]
fn eval_add_sub_mul() {
    let r = eval(&Math::Op(OpTag::Add), &[rat(1), rat(2)]).unwrap();
    assert!(r.eq_value(&rat(3)));
    let r = eval(&Math::Op(OpTag::Sub), &[rat(5), rat(3)]).unwrap();
    assert!(r.eq_value(&rat(2)));
    let r = eval(&Math::Op(OpTag::Mul), &[frac(2, 3), frac(3, 4)]).unwrap();
    assert!(r.eq_value(&frac(1, 2)));
}

#[test]
fn eval_div_by_zero_is_none() {
    assert!(eval(&Math::Op(OpTag::Div), &[rat(1), rat(0)]).is_none());
    assert!(eval(&Math::Op(OpTag::Div), &[frac(-7, 3), rat(0)]).is_none());
    assert!(eval(&Math::Op(OpTag::Div), &[rat(0), rat(0)]).is_none());
}

#[test]
fn eval_div_exact() {
    let r = eval(&Math::Op(OpTag::Div), &[rat(1), rat(2)]).unwrap();
    assert!(r.eq_value(&frac(1, 2)));
    let r = eval(&Math::Op(OpTag::Div), &[rat(6), rat(3)]).unwrap();
    assert!(r.eq_value(&rat(2)));
}

#[test]
fn eval_fabs_exact() {
    let r = eval(&Math::Op(OpTag::Fabs), &[frac(-3, 4)]).unwrap();
    assert!(r.eq_value(&frac(3, 4)));
    let r = eval(&Math::Op(OpTag::Fabs), &[rat(2)]).unwrap();
    assert!(r.eq_value(&rat(2)));
}

#[test]
fn eval_passthrough_and_unfoldable() {
    let r = eval(&Math::Op(OpTag::RealToPosit), &[frac(5, 7)]).unwrap();
    assert!(r.eq_value(&frac(5, 7)));
    assert!(eval(&Math::Op(OpTag::Sqrt), &[rat(4)]).is_none());
    assert!(eval(&Math::Op(OpTag::Pow), &[rat(2), rat(3)]).is_none());
    assert!(eval(&Math::Op(OpTag::Exp), &[rat(0)]).is_none());
    assert!(eval(&Math::Op(OpTag::Log), &[rat(1)]).is_none());
    assert!(eval(&Math::Op(OpTag::Cbrt), &[rat(8)]).is_none());
    assert!(eval(&Math::FPConstant(FPConstant::Pi), &[]).is_none());
}

#[test]
fn eval_missing_operands_is_none() {
    assert!(eval(&Math::Op(OpTag::Add), &[rat(1)]).is_none());
    assert!(eval(&Math::Op(OpTag::Div), &[rat(1)]).is_none());
    assert!(eval(&Math::Op(OpTag::Fabs), &[]).is_none());
}

#[test]
fn eval_is_deterministic_on_equal_inputs() {
    let a = eval(&Math::Op(OpTag::Add), &[frac(1, 3), frac(1, 6)]).unwrap();
    let b = eval(&Math::Op(OpTag::Add), &[frac(1, 3), frac(1, 6)]).unwrap();
    assert!(a.eq_value(&b));
    assert!(a.eq_value(&frac(1, 2)));
}

#[test]
fn make_folds_constant_addition() {
    let children = vec![leaf_meta(Math::Constant(rat(1))), leaf_meta(Math::Constant(rat(2)))];
    let m = Meta::make(&Math::Op(OpTag::Add), &children);
    assert_eq!(m.cost, 0);
    assert!(m.best.eq_expr(&leaf(Math::Constant(rat(3)))));
}

#[test]
fn make_does_not_fold_sqrt() {
    let children = vec![leaf_meta(Math::Constant(rat(4)))];
    let m = Meta::make(&Math::Op(OpTag::Sqrt), &children);
    assert_eq!(m.cost, 1);
    let expected = Expr {
        op: Math::Op(OpTag::Sqrt),
        args: vec![leaf(Math::Constant(rat(4)))],
    };
    assert!(m.best.eq_expr(&expected));
}

#[test]
fn make_leaf_metadata() {
    let m = leaf_meta(Math::Constant(rat(0)));
    assert_eq!(m.cost, 0);
    assert!(m.best.eq_expr(&leaf(Math::Constant(rat(0)))));
    let m = leaf_meta(Math::Variable("x".to_string()));
    assert_eq!(m.cost, 0);
    assert!(m.best.eq_expr(&leaf(Math::Variable("x".to_string()))));
}

#[test]
fn merge_picks_cheaper_and_is_idempotent() {
    let cheap = leaf_meta(Math::Variable("x".to_string()));
    let children = vec![leaf_meta(Math::Constant(rat(0))), cheap.clone()];
    let costly = Meta::make(&Math::Op(OpTag::Add), &children);
    assert_eq!(costly.cost, 1);

    let w = costly.merge(&cheap);
    assert_eq!(w.cost, 0);
    assert!(w.best.eq_expr(&cheap.best));

    let again = w.merge(&w.clone());
    assert_eq!(again.cost, w.cost);
    assert!(again.best.eq_expr(&w.best));
}

#[test]
fn merge_tie_favors_first() {
    let a = leaf_meta(Math::Variable("a".to_string()));
    let b = leaf_meta(Math::Variable("b".to_string()));
    let w = a.merge(&b);
    assert!(w.best.eq_expr(&a.best));
    let w = b.merge(&a);
    assert!(w.best.eq_expr(&b.best));
}

#[test]
fn merge_order_independent_best() {
    // Insert `Add(Constant(0), Variable(x))` and assert it equal to
    // `Variable(x)`: whichever metadata comes first, the merged class
    // reports `best = Variable(x)` at cost 0.
    let x = leaf_meta(Math::Variable("x".to_string()));
    let children = vec![leaf_meta(Math::Constant(rat(0))), x.clone()];
    let add = Meta::make(&Math::Op(OpTag::Add), &children);
    let expected = leaf(Math::Variable("x".to_string()));

    let first = add.merge(&x);
    assert_eq!(first.cost, 0);
    assert!(first.best.eq_expr(&expected));

    let second = x.merge(&add);
    assert_eq!(second.cost, 0);
    assert!(second.best.eq_expr(&expected));
}

#[test]
fn modify_inserts_leaf_once() {
    let x = Math::Variable("x".to_string());
    let add_node = Node { op: Math::Op(OpTag::Add), children: vec![0, 1] };
    let mut class = EClass { nodes: vec![add_node], metadata: leaf_meta(x.clone()) };

    Meta::modify(&mut class);
    assert_eq!(class.nodes.len(), 2);
    assert!(class.nodes[1].op.eq_math(&x));
    assert!(class.nodes[1].children.is_empty());

    // Idempotence: the leaf is present now, so nothing changes.
    Meta::modify(&mut class);
    assert_eq!(class.nodes.len(), 2);
}

#[test]
fn modify_leaves_operator_best_alone() {
    let children = vec![leaf_meta(Math::Variable("x".to_string()))];
    let sqrt = Meta::make(&Math::Op(OpTag::Sqrt), &children);
    let mut class = EClass { nodes: vec![], metadata: sqrt };
    Meta::modify(&mut class);
    assert_eq!(class.nodes.len(), 0);
}

#[test]
fn rational_constants_are_canonical() {
    assert!(frac(2, 4).eq_value(&frac(1, 2)));
    assert!(frac(1, -2).eq_value(&frac(-1, 2)));
    assert!(!frac(1, 2).eq_value(&frac(1, 3)));
    assert!(Rat::of_frac(1, 0).is_none());
    assert!(rat(0).is_zero());
    assert!(!frac(1, 2).is_zero());
    assert!(frac(-1, 2).is_negative());
    assert!(!rat(3).is_negative());
}

#[test]
fn structural_equality_of_heads_and_trees() {
    assert!(Math::Constant(rat(2)).eq_math(&Math::Constant(frac(4, 2))));
    assert!(!Math::Constant(rat(2)).eq_math(&Math::Constant(rat(3))));
    assert!(Math::Variable("x".to_string()).eq_math(&Math::Variable("x".to_string())));
    assert!(!Math::Variable("x".to_string()).eq_math(&Math::Variable("y".to_string())));
    assert!(!Math::Variable("x".to_string()).eq_math(&Math::Op(OpTag::Add)));
    let a = Expr {
        op: Math::Op(OpTag::Add),
        args: vec![leaf(Math::Constant(rat(1))), leaf(Math::Variable("x".to_string()))],
    };
    assert!(a.eq_expr(&a.clone()));
    let b = Expr {
        op: Math::Op(OpTag::Add),
        args: vec![leaf(Math::Constant(rat(1)))],
    };
    assert!(!a.eq_expr(&b));
}
