use eggmath::pattern::{parse_pattern, Pattern};
use eggmath::rat::Rat;
use eggmath::rules::{math_rules, mk_rules, push_group, RuleError, RuleGroup};
use eggmath::vocab::{fp_text, op_text, FPConstant, Math, OpTag};

#[test]
fn canonical_names() {
    assert_eq!(op_text(OpTag::Add), "+");
    assert_eq!(op_text(OpTag::Div), "/");
    assert_eq!(op_text(OpTag::Sqrt), "sqrt");
    assert_eq!(op_text(OpTag::RealToPosit), "real->posit");
    assert_eq!(op_text(OpTag::PositMul), "*.p16");
    assert_eq!(fp_text(FPConstant::Pi), "PI");
    assert_eq!(fp_text(FPConstant::True), "TRUE");
    assert_eq!(fp_text(FPConstant::Sqrtpi2), "2_SQRTPI");
}

#[test]
fn parse_atoms() {
    match parse_pattern("?x") {
        Some(Pattern::PatVar(v)) => assert_eq!(v, "x"),
        other => panic!("expected a pattern variable, got {:?}", other.is_some()),
    }
    match parse_pattern("+") {
        Some(Pattern::Term(Math::Op(OpTag::Add), args)) => assert!(args.is_empty()),
        _ => panic!("expected the + operator"),
    }
    match parse_pattern("PI") {
        Some(Pattern::Term(Math::FPConstant(FPConstant::Pi), _)) => {}
        _ => panic!("expected the PI constant"),
    }
    match parse_pattern("banana") {
        Some(Pattern::Term(Math::Variable(v), _)) => assert_eq!(v, "banana"),
        _ => panic!("expected a variable leaf"),
    }
}

#[test]
fn parse_numbers() {
    match parse_pattern("42") {
        Some(Pattern::Term(Math::Constant(c), _)) => {
            assert!(c.eq_value(&Rat::of_i64(42)));
        }
        _ => panic!("expected a constant"),
    }
    match parse_pattern("-7") {
        Some(Pattern::Term(Math::Constant(c), _)) => {
            assert!(c.eq_value(&Rat::of_i64(-7)));
        }
        _ => panic!("expected a constant"),
    }
    match parse_pattern("6/4") {
        Some(Pattern::Term(Math::Constant(c), _)) => {
            assert!(c.eq_value(&Rat::of_frac(3, 2).unwrap()));
        }
        _ => panic!("expected a constant"),
    }
    // A fraction with an exactly zero denominator is malformed.
    assert!(parse_pattern("1/0").is_none());
    // Digits with trailing letters fall back to a variable leaf.
    match parse_pattern("1abc") {
        Some(Pattern::Term(Math::Variable(v), _)) => assert_eq!(v, "1abc"),
        _ => panic!("expected a variable leaf"),
    }
}

#[test]
fn parse_terms() {
    match parse_pattern("(+ ?a 1)") {
        Some(Pattern::Term(Math::Op(OpTag::Add), args)) => {
            assert_eq!(args.len(), 2);
            match &args[0] {
                Pattern::PatVar(v) => assert_eq!(v, "a"),
                _ => panic!("expected ?a"),
            }
            match &args[1] {
                Pattern::Term(Math::Constant(c), inner) => {
                    assert!(c.eq_value(&Rat::of_i64(1)));
                    assert!(inner.is_empty());
                }
                _ => panic!("expected the constant 1"),
            }
        }
        _ => panic!("expected an addition term"),
    }
    match parse_pattern("(erf (neg ?x))") {
        Some(Pattern::Term(Math::Op(OpTag::Erf), args)) => {
            assert_eq!(args.len(), 1);
            match &args[0] {
                Pattern::Term(Math::Op(OpTag::Neg), inner) => assert_eq!(inner.len(), 1),
                _ => panic!("expected a negation"),
            }
        }
        _ => panic!("expected an erf term"),
    }
    // Whitespace between tokens is free.
    match parse_pattern(" ( +\t1\n 2 ) ") {
        Some(Pattern::Term(Math::Op(OpTag::Add), args)) => assert_eq!(args.len(), 2),
        _ => panic!("expected an addition term"),
    }
    // Malformed texts parse to nothing.
    assert!(parse_pattern("").is_none());
    assert!(parse_pattern("(+ 1 2").is_none());
    assert!(parse_pattern(")").is_none());
    assert!(parse_pattern("(+ 1 2) extra").is_none());
    assert!(parse_pattern("?").is_none());
}

#[test]
fn mk_rules_builds_rewrites() {
    let tuples = vec![
        ("add-comm", "(+ ?a ?b)", "(+ ?b ?a)"),
        ("mul-one", "(* ?a 1)", "?a"),
    ];
    let rules = mk_rules(tuples.as_slice()).unwrap();
    assert_eq!(rules.len(), 2);
    assert_eq!(rules[0].name, "add-comm");
    assert_eq!(rules[1].name, "mul-one");
}

#[test]
fn mk_rules_rejects_bad_pattern() {
    let tuples = vec![("broken", "(+ ?a", "?a")];
    match mk_rules(tuples.as_slice()) {
        Err(RuleError::BadPattern { rule }) => assert_eq!(rule, "broken"),
        _ => panic!("expected a bad-pattern error"),
    }
}

#[test]
fn mk_rules_rejects_unbound_variable() {
    let tuples = vec![
        ("fine", "(+ ?a ?b)", "(+ ?b ?a)"),
        ("loose", "(+ ?a ?b)", "(+ ?a ?c)"),
    ];
    match mk_rules(tuples.as_slice()) {
        Err(RuleError::UnboundVar { rule }) => assert_eq!(rule, "loose"),
        _ => panic!("expected an unbound-variable error"),
    }
}

#[test]
fn push_group_rejects_duplicate_name() {
    let mut groups: Vec<RuleGroup> = Vec::new();
    let a = mk_rules(vec![("r1", "?x", "?x")].as_slice()).unwrap();
    let b = mk_rules(vec![("r2", "?y", "?y")].as_slice()).unwrap();
    push_group(&mut groups, "basics", a).unwrap();
    match push_group(&mut groups, "basics", b) {
        Err(RuleError::DuplicateGroup { group }) => assert_eq!(group, "basics"),
        _ => panic!("expected a duplicate-group error"),
    }
    assert_eq!(groups.len(), 1);
}

#[test]
fn math_rules_builds_the_whole_corpus() {
    let groups = math_rules().unwrap();
    assert_eq!(groups.len(), 38);
    assert_eq!(groups[0].name, "erf-rules");
    assert_eq!(groups[0].rules.len(), 3);
    assert_eq!(groups[0].rules[0].name, "erf-odd");
    let total: usize = groups.iter().map(|g| g.rules.len()).sum();
    assert_eq!(total, 227);
    // Names are unique across the corpus.
    for i in 0..groups.len() {
        for j in i + 1..groups.len() {
            assert_ne!(groups[i].name, groups[j].name);
        }
    }
}
