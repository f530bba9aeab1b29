//! The built-in rewrite corpus, pinned at the specification level.
//!
//! `corpus_spec` lists every rule group of the corpus in order, each rule
//! the parse of its literal pattern text; `corpus_rules_ok` says that all
//! of those literals are well formed. `math_rules` promises to return
//! exactly this table whenever `corpus_rules_ok` holds, and can fail only
//! where it does not.
use vstd::prelude::*;
use crate::pattern::spec_parse_pattern;
use crate::rules::{RewriteModel, RuleGroupModel, rule_ok, group_names, distinct_seqs};

verus! {

/// The `erf-rules` group of the corpus.
pub open spec fn corpus_group_0() -> RuleGroupModel {
    RuleGroupModel { name: "erf-rules"@, rules: seq![
        RewriteModel {
            name: "erf-odd"@,
            lhs: spec_parse_pattern("(erf (neg ?x))"@)->Some_0,
            rhs: spec_parse_pattern("(neg (erf ?x))"@)->Some_0,
        },
        RewriteModel {
            name: "erf-erfc"@,
            lhs: spec_parse_pattern("(erfc ?x)"@)->Some_0,
            rhs: spec_parse_pattern("(- 1 (erf ?x))"@)->Some_0,
        },
        RewriteModel {
            name: "erfc-erf"@,
            lhs: spec_parse_pattern("(erf ?x)"@)->Some_0,
            rhs: spec_parse_pattern("(- 1 (erfc ?x))"@)->Some_0,
        },
    ] }
}

/// The rule tuples of the `erf-rules` group.
pub open spec fn group_tuples_0() -> Seq<(&'static str, &'static str, &'static str)> {
    seq![
        ("erf-odd", "(erf (neg ?x))", "(neg (erf ?x))"),
        ("erf-erfc", "(erfc ?x)", "(- 1 (erf ?x))"),
        ("erfc-erf", "(erf ?x)", "(- 1 (erfc ?x))"),
    ]
}

/// The `complex-number-basics` group of the corpus.
pub open spec fn corpus_group_1() -> RuleGroupModel {
    RuleGroupModel { name: "complex-number-basics"@, rules: seq![
        RewriteModel {
            name: "real-part"@,
            lhs: spec_parse_pattern("(re (complex ?x ?y))"@)->Some_0,
            rhs: spec_parse_pattern("?x"@)->Some_0,
        },
        RewriteModel {
            name: "imag-part"@,
            lhs: spec_parse_pattern("(im (complex ?x ?y))"@)->Some_0,
            rhs: spec_parse_pattern("?y"@)->Some_0,
        },
        RewriteModel {
            name: "complex-add-def"@,
            lhs: spec_parse_pattern("(+.c (complex ?a ?b) (complex ?c ?d))"@)->Some_0,
            rhs: spec_parse_pattern("(complex (+ ?a ?c) (+ ?b ?d))"@)->Some_0,
        },
        RewriteModel {
            name: "complex-def-add"@,
            lhs: spec_parse_pattern("(complex (+ ?a ?c) (+ ?b ?d))"@)->Some_0,
            rhs: spec_parse_pattern("(+.c (complex ?a ?b) (complex ?c ?d))"@)->Some_0,
        },
        RewriteModel {
            name: "complex-sub-def"@,
            lhs: spec_parse_pattern("(-.c (complex ?a ?b) (complex ?c ?d))"@)->Some_0,
            rhs: spec_parse_pattern("(complex (- ?a ?c) (- ?b ?d))"@)->Some_0,
        },
        RewriteModel {
            name: "complex-def-sub"@,
            lhs: spec_parse_pattern("(complex (- ?a ?c) (- ?b ?d))"@)->Some_0,
            rhs: spec_parse_pattern("(-.c (complex ?a ?b) (complex ?c ?d))"@)->Some_0,
        },
        RewriteModel {
            name: "complex-neg-def"@,
            lhs: spec_parse_pattern("(neg.c (complex ?a ?b))"@)->Some_0,
            rhs: spec_parse_pattern("(complex (neg ?a) (neg ?b))"@)->Some_0,
        },
        RewriteModel {
            name: "complex-def-neg"@,
            lhs: spec_parse_pattern("(complex (neg ?a) (neg ?b))"@)->Some_0,
            rhs: spec_parse_pattern("(neg.c (complex ?a ?b))"@)->Some_0,
        },
        RewriteModel {
            name: "complex-mul-def"@,
            lhs: spec_parse_pattern("(*.c (complex ?a ?b) (complex ?c ?d))"@)->Some_0,
            rhs: spec_parse_pattern("(complex (- (* ?a ?c) (* ?b ?d)) (+ (* ?a ?d) (* ?b ?c)))"@)->Some_0,
        },
        RewriteModel {
            name: "complex-div-def"@,
            lhs: spec_parse_pattern("(/.c (complex ?a ?b) (complex ?c ?d))"@)->Some_0,
            rhs: spec_parse_pattern("(complex (/ (+ (* ?a ?c) (* ?b ?d)) (+ (* ?c ?c) (* ?d ?d))) (/ (- (* ?b ?c) (* ?a ?d)) (+ (* ?c ?c) (* ?d ?d))))"@)->Some_0,
        },
        RewriteModel {
            name: "complex-conj-def"@,
            lhs: spec_parse_pattern("(conj (complex ?a ?b))"@)->Some_0,
            rhs: spec_parse_pattern("(complex ?a (neg ?b))"@)->Some_0,
        },
    ] }
}

/// The rule tuples of the `complex-number-basics` group.
pub open spec fn group_tuples_1() -> Seq<(&'static str, &'static str, &'static str)> {
    seq![
        ("real-part", "(re (complex ?x ?y))", "?x"),
        ("imag-part", "(im (complex ?x ?y))", "?y"),
        ("complex-add-def", "(+.c (complex ?a ?b) (complex ?c ?d))", "(complex (+ ?a ?c) (+ ?b ?d))"),
        ("complex-def-add", "(complex (+ ?a ?c) (+ ?b ?d))", "(+.c (complex ?a ?b) (complex ?c ?d))"),
        ("complex-sub-def", "(-.c (complex ?a ?b) (complex ?c ?d))", "(complex (- ?a ?c) (- ?b ?d))"),
        ("complex-def-sub", "(complex (- ?a ?c) (- ?b ?d))", "(-.c (complex ?a ?b) (complex ?c ?d))"),
        ("complex-neg-def", "(neg.c (complex ?a ?b))", "(complex (neg ?a) (neg ?b))"),
        ("complex-def-neg", "(complex (neg ?a) (neg ?b))", "(neg.c (complex ?a ?b))"),
        ("complex-mul-def", "(*.c (complex ?a ?b) (complex ?c ?d))", "(complex (- (* ?a ?c) (* ?b ?d)) (+ (* ?a ?d) (* ?b ?c)))"),
        ("complex-div-def", "(/.c (complex ?a ?b) (complex ?c ?d))", "(complex (/ (+ (* ?a ?c) (* ?b ?d)) (+ (* ?c ?c) (* ?d ?d))) (/ (- (* ?b ?c) (* ?a ?d)) (+ (* ?c ?c) (* ?d ?d))))"),
        ("complex-conj-def", "(conj (complex ?a ?b))", "(complex ?a (neg ?b))"),
    ]
}

/// The `branch-reduce` group of the corpus.
pub open spec fn corpus_group_2() -> RuleGroupModel {
    RuleGroupModel { name: "branch-reduce"@, rules: seq![
        RewriteModel {
            name: "if-true"@,
            lhs: spec_parse_pattern("(if TRUE ?x ?y)"@)->Some_0,
            rhs: spec_parse_pattern("?x"@)->Some_0,
        },
        RewriteModel {
            name: "if-false"@,
            lhs: spec_parse_pattern("(if FALSE ?x ?y)"@)->Some_0,
            rhs: spec_parse_pattern("?y"@)->Some_0,
        },
        RewriteModel {
            name: "if-same"@,
            lhs: spec_parse_pattern("(if ?a ?x ?x)"@)->Some_0,
            rhs: spec_parse_pattern("?x"@)->Some_0,
        },
        RewriteModel {
            name: "if-not"@,
            lhs: spec_parse_pattern("(if (not ?a) ?x ?y)"@)->Some_0,
            rhs: spec_parse_pattern("(if ?a ?y ?x)"@)->Some_0,
        },
        RewriteModel {
            name: "if-if-or"@,
            lhs: spec_parse_pattern("(if ?a ?x (if ?b ?x ?y))"@)->Some_0,
            rhs: spec_parse_pattern("(if (or ?a ?b) ?x ?y)"@)->Some_0,
        },
        RewriteModel {
            name: "if-if-or-not"@,
            lhs: spec_parse_pattern("(if ?a ?x (if ?b ?y ?x))"@)->Some_0,
            rhs: spec_parse_pattern("(if (or ?a (not ?b)) ?x ?y)"@)->Some_0,
        },
        RewriteModel {
            name: "if-if-and"@,
            lhs: spec_parse_pattern("(if ?a (if ?b ?x ?y) ?y)"@)->Some_0,
            rhs: spec_parse_pattern("(if (and ?a ?b) ?x ?y)"@)->Some_0,
        },
        RewriteModel {
            name: "if-if-and-not"@,
            lhs: spec_parse_pattern("(if ?a (if ?b ?y ?x) ?y)"@)->Some_0,
            rhs: spec_parse_pattern("(if (and ?a (not ?b)) ?x ?y)"@)->Some_0,
        },
    ] }
}

/// The rule tuples of the `branch-reduce` group.
pub open spec fn group_tuples_2() -> Seq<(&'static str, &'static str, &'static str)> {
    seq![
        ("if-true", "(if TRUE ?x ?y)", "?x"),
        ("if-false", "(if FALSE ?x ?y)", "?y"),
        ("if-same", "(if ?a ?x ?x)", "?x"),
        ("if-not", "(if (not ?a) ?x ?y)", "(if ?a ?y ?x)"),
        ("if-if-or", "(if ?a ?x (if ?b ?x ?y))", "(if (or ?a ?b) ?x ?y)"),
        ("if-if-or-not", "(if ?a ?x (if ?b ?y ?x))", "(if (or ?a (not ?b)) ?x ?y)"),
        ("if-if-and", "(if ?a (if ?b ?x ?y) ?y)", "(if (and ?a ?b) ?x ?y)"),
        ("if-if-and-not", "(if ?a (if ?b ?y ?x) ?y)", "(if (and ?a (not ?b)) ?x ?y)"),
    ]
}

/// The `compare-reduce` group of the corpus.
pub open spec fn corpus_group_3() -> RuleGroupModel {
    RuleGroupModel { name: "compare-reduce"@, rules: seq![
        RewriteModel {
            name: "lt-same"@,
            lhs: spec_parse_pattern("(< ?x ?x)"@)->Some_0,
            rhs: spec_parse_pattern("FALSE"@)->Some_0,
        },
        RewriteModel {
            name: "gt-same"@,
            lhs: spec_parse_pattern("(> ?x ?x)"@)->Some_0,
            rhs: spec_parse_pattern("FALSE"@)->Some_0,
        },
        RewriteModel {
            name: "lte-same"@,
            lhs: spec_parse_pattern("(<= ?x ?x)"@)->Some_0,
            rhs: spec_parse_pattern("TRUE"@)->Some_0,
        },
        RewriteModel {
            name: "gte-same"@,
            lhs: spec_parse_pattern("(>= ?x ?x)"@)->Some_0,
            rhs: spec_parse_pattern("TRUE"@)->Some_0,
        },
        RewriteModel {
            name: "not-lt"@,
            lhs: spec_parse_pattern("(not (< ?x ?y))"@)->Some_0,
            rhs: spec_parse_pattern("(>= ?x ?y)"@)->Some_0,
        },
        RewriteModel {
            name: "not-gt"@,
            lhs: spec_parse_pattern("(not (> ?x ?y))"@)->Some_0,
            rhs: spec_parse_pattern("(<= ?x ?y)"@)->Some_0,
        },
        RewriteModel {
            name: "not-lte"@,
            lhs: spec_parse_pattern("(not (<= ?x ?y))"@)->Some_0,
            rhs: spec_parse_pattern("(> ?x ?y)"@)->Some_0,
        },
        RewriteModel {
            name: "not-gte"@,
            lhs: spec_parse_pattern("(not (>= ?x ?y))"@)->Some_0,
            rhs: spec_parse_pattern("(< ?x ?y)"@)->Some_0,
        },
    ] }
}

/// The rule tuples of the `compare-reduce` group.
pub open spec fn group_tuples_3() -> Seq<(&'static str, &'static str, &'static str)> {
    seq![
        ("lt-same", "(< ?x ?x)", "FALSE"),
        ("gt-same", "(> ?x ?x)", "FALSE"),
        ("lte-same", "(<= ?x ?x)", "TRUE"),
        ("gte-same", "(>= ?x ?x)", "TRUE"),
        ("not-lt", "(not (< ?x ?y))", "(>= ?x ?y)"),
        ("not-gt", "(not (> ?x ?y))", "(<= ?x ?y)"),
        ("not-lte", "(not (<= ?x ?y))", "(> ?x ?y)"),
        ("not-gte", "(not (>= ?x ?y))", "(< ?x ?y)"),
    ]
}

/// The `bool-reduce` group of the corpus.
pub open spec fn corpus_group_4() -> RuleGroupModel {
    RuleGroupModel { name: "bool-reduce"@, rules: seq![
        RewriteModel {
            name: "not-true"@,
            lhs: spec_parse_pattern("(not TRUE)"@)->Some_0,
            rhs: spec_parse_pattern("FALSE"@)->Some_0,
        },
        RewriteModel {
            name: "not-false"@,
            lhs: spec_parse_pattern("(not FALSE)"@)->Some_0,
            rhs: spec_parse_pattern("TRUE"@)->Some_0,
        },
        RewriteModel {
            name: "not-not"@,
            lhs: spec_parse_pattern("(not (not ?a))"@)->Some_0,
            rhs: spec_parse_pattern("?a"@)->Some_0,
        },
        RewriteModel {
            name: "not-and"@,
            lhs: spec_parse_pattern("(not (and ?a ?b))"@)->Some_0,
            rhs: spec_parse_pattern("(or (not ?a) (not ?b))"@)->Some_0,
        },
        RewriteModel {
            name: "not-or"@,
            lhs: spec_parse_pattern("(not (or ?a ?b))"@)->Some_0,
            rhs: spec_parse_pattern("(and (not ?a) (not ?b))"@)->Some_0,
        },
        RewriteModel {
            name: "and-true-l"@,
            lhs: spec_parse_pattern("(and TRUE ?a)"@)->Some_0,
            rhs: spec_parse_pattern("?a"@)->Some_0,
        },
        RewriteModel {
            name: "and-true-r"@,
            lhs: spec_parse_pattern("(and ?a TRUE)"@)->Some_0,
            rhs: spec_parse_pattern("?a"@)->Some_0,
        },
        RewriteModel {
            name: "and-false-l"@,
            lhs: spec_parse_pattern("(and FALSE ?a)"@)->Some_0,
            rhs: spec_parse_pattern("FALSE"@)->Some_0,
        },
        RewriteModel {
            name: "and-false-r"@,
            lhs: spec_parse_pattern("(and ?a FALSE)"@)->Some_0,
            rhs: spec_parse_pattern("FALSE"@)->Some_0,
        },
        RewriteModel {
            name: "and-same"@,
            lhs: spec_parse_pattern("(and ?a ?a)"@)->Some_0,
            rhs: spec_parse_pattern("?a"@)->Some_0,
        },
        RewriteModel {
            name: "or-true-l"@,
            lhs: spec_parse_pattern("(or TRUE ?a)"@)->Some_0,
            rhs: spec_parse_pattern("TRUE"@)->Some_0,
        },
        RewriteModel {
            name: "or-true-r"@,
            lhs: spec_parse_pattern("(or ?a TRUE)"@)->Some_0,
            rhs: spec_parse_pattern("TRUE"@)->Some_0,
        },
        RewriteModel {
            name: "or-false-l"@,
            lhs: spec_parse_pattern("(or FALSE ?a)"@)->Some_0,
            rhs: spec_parse_pattern("?a"@)->Some_0,
        },
        RewriteModel {
            name: "or-false-r"@,
            lhs: spec_parse_pattern("(or ?a FALSE)"@)->Some_0,
            rhs: spec_parse_pattern("?a"@)->Some_0,
        },
        RewriteModel {
            name: "or-same"@,
            lhs: spec_parse_pattern("(or ?a ?a)"@)->Some_0,
            rhs: spec_parse_pattern("?a"@)->Some_0,
        },
    ] }
}

/// The rule tuples of the `bool-reduce` group.
pub open spec fn group_tuples_4() -> Seq<(&'static str, &'static str, &'static str)> {
    seq![
        ("not-true", "(not TRUE)", "FALSE"),
        ("not-false", "(not FALSE)", "TRUE"),
        ("not-not", "(not (not ?a))", "?a"),
        ("not-and", "(not (and ?a ?b))", "(or (not ?a) (not ?b))"),
        ("not-or", "(not (or ?a ?b))", "(and (not ?a) (not ?b))"),
        ("and-true-l", "(and TRUE ?a)", "?a"),
        ("and-true-r", "(and ?a TRUE)", "?a"),
        ("and-false-l", "(and FALSE ?a)", "FALSE"),
        ("and-false-r", "(and ?a FALSE)", "FALSE"),
        ("and-same", "(and ?a ?a)", "?a"),
        ("or-true-l", "(or TRUE ?a)", "TRUE"),
        ("or-true-r", "(or ?a TRUE)", "TRUE"),
        ("or-false-l", "(or FALSE ?a)", "?a"),
        ("or-false-r", "(or ?a FALSE)", "?a"),
        ("or-same", "(or ?a ?a)", "?a"),
    ]
}

/// The `htrig-reduce` group of the corpus.
pub open spec fn corpus_group_5() -> RuleGroupModel {
    RuleGroupModel { name: "htrig-reduce"@, rules: seq![
        RewriteModel {
            name: "sinh-def"@,
            lhs: spec_parse_pattern("(sinh ?x)"@)->Some_0,
            rhs: spec_parse_pattern("(/ (- (exp ?x) (exp (neg ?x))) 2)"@)->Some_0,
        },
        RewriteModel {
            name: "cosh-def"@,
            lhs: spec_parse_pattern("(cosh ?x)"@)->Some_0,
            rhs: spec_parse_pattern("(/ (+ (exp ?x) (exp (neg ?x))) 2)"@)->Some_0,
        },
        RewriteModel {
            name: "tanh-def1"@,
            lhs: spec_parse_pattern("(tanh ?x)"@)->Some_0,
            rhs: spec_parse_pattern("(/ (- (exp ?x) (exp (neg ?x))) (+ (exp ?x) (exp (neg ?x))))"@)->Some_0,
        },
        RewriteModel {
            name: "tanh-def2"@,
            lhs: spec_parse_pattern("(tanh ?x)"@)->Some_0,
            rhs: spec_parse_pattern("(/ (- (exp (* 2 ?x)) 1) (+ (exp (* 2 ?x)) 1))"@)->Some_0,
        },
        RewriteModel {
            name: "tanh-def3"@,
            lhs: spec_parse_pattern("(tanh ?x)"@)->Some_0,
            rhs: spec_parse_pattern("(/ (- 1 (exp (* -2 ?x))) (+ 1 (exp (* -2 ?x))))"@)->Some_0,
        },
        RewriteModel {
            name: "sinh-cosh"@,
            lhs: spec_parse_pattern("(- (* (cosh ?x) (cosh ?x)) (* (sinh ?x) (sinh ?x)))"@)->Some_0,
            rhs: spec_parse_pattern("1"@)->Some_0,
        },
        RewriteModel {
            name: "sinh-+-cosh"@,
            lhs: spec_parse_pattern("(+ (cosh ?x) (sinh ?x))"@)->Some_0,
            rhs: spec_parse_pattern("(exp ?x)"@)->Some_0,
        },
        RewriteModel {
            name: "sinh---cosh"@,
            lhs: spec_parse_pattern("(- (cosh ?x) (sinh ?x))"@)->Some_0,
            rhs: spec_parse_pattern("(exp (neg ?x))"@)->Some_0,
        },
    ] }
}

/// The rule tuples of the `htrig-reduce` group.
pub open spec fn group_tuples_5() -> Seq<(&'static str, &'static str, &'static str)> {
    seq![
        ("sinh-def", "(sinh ?x)", "(/ (- (exp ?x) (exp (neg ?x))) 2)"),
        ("cosh-def", "(cosh ?x)", "(/ (+ (exp ?x) (exp (neg ?x))) 2)"),
        ("tanh-def1", "(tanh ?x)", "(/ (- (exp ?x) (exp (neg ?x))) (+ (exp ?x) (exp (neg ?x))))"),
        ("tanh-def2", "(tanh ?x)", "(/ (- (exp (* 2 ?x)) 1) (+ (exp (* 2 ?x)) 1))"),
        ("tanh-def3", "(tanh ?x)", "(/ (- 1 (exp (* -2 ?x))) (+ 1 (exp (* -2 ?x))))"),
        ("sinh-cosh", "(- (* (cosh ?x) (cosh ?x)) (* (sinh ?x) (sinh ?x)))", "1"),
        ("sinh-+-cosh", "(+ (cosh ?x) (sinh ?x))", "(exp ?x)"),
        ("sinh---cosh", "(- (cosh ?x) (sinh ?x))", "(exp (neg ?x))"),
    ]
}

/// The `trig-reduce-fp-sound-nan` group of the corpus.
pub open spec fn corpus_group_6() -> RuleGroupModel {
    RuleGroupModel { name: "trig-reduce-fp-sound-nan"@, rules: seq![
        RewriteModel {
            name: "sin-neg"@,
            lhs: spec_parse_pattern("(sin (neg ?x))"@)->Some_0,
            rhs: spec_parse_pattern("(neg (sin ?x))"@)->Some_0,
        },
        RewriteModel {
            name: "cos-neg"@,
            lhs: spec_parse_pattern("(cos (neg ?x))"@)->Some_0,
            rhs: spec_parse_pattern("(cos ?x)"@)->Some_0,
        },
        RewriteModel {
            name: "tan-neg"@,
            lhs: spec_parse_pattern("(tan (neg ?x))"@)->Some_0,
            rhs: spec_parse_pattern("(neg (tan ?x))"@)->Some_0,
        },
    ] }
}

/// The rule tuples of the `trig-reduce-fp-sound-nan` group.
pub open spec fn group_tuples_6() -> Seq<(&'static str, &'static str, &'static str)> {
    seq![
        ("sin-neg", "(sin (neg ?x))", "(neg (sin ?x))"),
        ("cos-neg", "(cos (neg ?x))", "(cos ?x)"),
        ("tan-neg", "(tan (neg ?x))", "(neg (tan ?x))"),
    ]
}

/// The `trig-reduce-fp-sound` group of the corpus.
pub open spec fn corpus_group_7() -> RuleGroupModel {
    RuleGroupModel { name: "trig-reduce-fp-sound"@, rules: seq![
        RewriteModel {
            name: "sin-0"@,
            lhs: spec_parse_pattern("(sin 0)"@)->Some_0,
            rhs: spec_parse_pattern("0"@)->Some_0,
        },
        RewriteModel {
            name: "cos-0"@,
            lhs: spec_parse_pattern("(cos 0)"@)->Some_0,
            rhs: spec_parse_pattern("1"@)->Some_0,
        },
        RewriteModel {
            name: "tan-0"@,
            lhs: spec_parse_pattern("(tan 0)"@)->Some_0,
            rhs: spec_parse_pattern("0"@)->Some_0,
        },
    ] }
}

/// The rule tuples of the `trig-reduce-fp-sound` group.
pub open spec fn group_tuples_7() -> Seq<(&'static str, &'static str, &'static str)> {
    seq![
        ("sin-0", "(sin 0)", "0"),
        ("cos-0", "(cos 0)", "1"),
        ("tan-0", "(tan 0)", "0"),
    ]
}

/// The `trig-reduce` group of the corpus.
pub open spec fn corpus_group_8() -> RuleGroupModel {
    RuleGroupModel { name: "trig-reduce"@, rules: seq![
        RewriteModel {
            name: "cos-sin-sum"@,
            lhs: spec_parse_pattern("(+ (* (cos ?a) (cos ?a)) (* (sin ?a) (sin ?a)))"@)->Some_0,
            rhs: spec_parse_pattern("1"@)->Some_0,
        },
        RewriteModel {
            name: "1-sub-cos"@,
            lhs: spec_parse_pattern("(- 1 (* (cos ?a) (cos ?a)))"@)->Some_0,
            rhs: spec_parse_pattern("(* (sin ?a) (sin ?a))"@)->Some_0,
        },
        RewriteModel {
            name: "1-sub-sin"@,
            lhs: spec_parse_pattern("(- 1 (* (sin ?a) (sin ?a)))"@)->Some_0,
            rhs: spec_parse_pattern("(* (cos ?a) (cos ?a))"@)->Some_0,
        },
        RewriteModel {
            name: "-1-add-cos"@,
            lhs: spec_parse_pattern("(+ (* (cos ?a) (cos ?a)) -1)"@)->Some_0,
            rhs: spec_parse_pattern("(neg (* (sin ?a) (sin ?a)))"@)->Some_0,
        },
        RewriteModel {
            name: "-1-add-sin"@,
            lhs: spec_parse_pattern("(+ (* (sin ?a) (sin ?a)) -1)"@)->Some_0,
            rhs: spec_parse_pattern("(neg (* (cos ?a) (cos ?a)))"@)->Some_0,
        },
        RewriteModel {
            name: "sub-1-cos"@,
            lhs: spec_parse_pattern("(- (* (cos ?a) (cos ?a)) 1)"@)->Some_0,
            rhs: spec_parse_pattern("(neg (* (sin ?a) (sin ?a)))"@)->Some_0,
        },
        RewriteModel {
            name: "sub-1-sin"@,
            lhs: spec_parse_pattern("(- (* (sin ?a) (sin ?a)) 1)"@)->Some_0,
            rhs: spec_parse_pattern("(neg (* (cos ?a) (cos ?a)))"@)->Some_0,
        },
        RewriteModel {
            name: "sin-PI/6"@,
            lhs: spec_parse_pattern("(sin (/ PI 6))"@)->Some_0,
            rhs: spec_parse_pattern("1/2"@)->Some_0,
        },
        RewriteModel {
            name: "sin-PI/4"@,
            lhs: spec_parse_pattern("(sin (/ PI 4))"@)->Some_0,
            rhs: spec_parse_pattern("(/ (sqrt 2) 2)"@)->Some_0,
        },
        RewriteModel {
            name: "sin-PI/3"@,
            lhs: spec_parse_pattern("(sin (/ PI 3))"@)->Some_0,
            rhs: spec_parse_pattern("(/ (sqrt 3) 2)"@)->Some_0,
        },
        RewriteModel {
            name: "sin-PI/2"@,
            lhs: spec_parse_pattern("(sin (/ PI 2))"@)->Some_0,
            rhs: spec_parse_pattern("1"@)->Some_0,
        },
        RewriteModel {
            name: "sin-PI"@,
            lhs: spec_parse_pattern("(sin PI)"@)->Some_0,
            rhs: spec_parse_pattern("0"@)->Some_0,
        },
        RewriteModel {
            name: "sin-+PI"@,
            lhs: spec_parse_pattern("(sin (+ ?x PI))"@)->Some_0,
            rhs: spec_parse_pattern("(neg (sin ?x))"@)->Some_0,
        },
        RewriteModel {
            name: "sin-+PI/2"@,
            lhs: spec_parse_pattern("(sin (+ ?x (/ PI 2)))"@)->Some_0,
            rhs: spec_parse_pattern("(cos ?x)"@)->Some_0,
        },
        RewriteModel {
            name: "cos-PI/6"@,
            lhs: spec_parse_pattern("(cos (/ PI 6))"@)->Some_0,
            rhs: spec_parse_pattern("(/ (sqrt 3) 2)"@)->Some_0,
        },
        RewriteModel {
            name: "cos-PI/4"@,
            lhs: spec_parse_pattern("(cos (/ PI 4))"@)->Some_0,
            rhs: spec_parse_pattern("(/ (sqrt 2) 2)"@)->Some_0,
        },
        RewriteModel {
            name: "cos-PI/3"@,
            lhs: spec_parse_pattern("(cos (/ PI 3))"@)->Some_0,
            rhs: spec_parse_pattern("1/2"@)->Some_0,
        },
        RewriteModel {
            name: "cos-PI/2"@,
            lhs: spec_parse_pattern("(cos (/ PI 2))"@)->Some_0,
            rhs: spec_parse_pattern("0"@)->Some_0,
        },
        RewriteModel {
            name: "cos-PI"@,
            lhs: spec_parse_pattern("(cos PI)"@)->Some_0,
            rhs: spec_parse_pattern("-1"@)->Some_0,
        },
        RewriteModel {
            name: "cos-+PI"@,
            lhs: spec_parse_pattern("(cos (+ ?x PI))"@)->Some_0,
            rhs: spec_parse_pattern("(neg (cos ?x))"@)->Some_0,
        },
        RewriteModel {
            name: "cos-+PI/2"@,
            lhs: spec_parse_pattern("(cos (+ ?x (/ PI 2)))"@)->Some_0,
            rhs: spec_parse_pattern("(neg (sin ?x))"@)->Some_0,
        },
        RewriteModel {
            name: "tan-PI/6"@,
            lhs: spec_parse_pattern("(tan (/ PI 6))"@)->Some_0,
            rhs: spec_parse_pattern("(/ 1 (sqrt 3))"@)->Some_0,
        },
        RewriteModel {
            name: "tan-PI/4"@,
            lhs: spec_parse_pattern("(tan (/ PI 4))"@)->Some_0,
            rhs: spec_parse_pattern("1"@)->Some_0,
        },
        RewriteModel {
            name: "tan-PI/3"@,
            lhs: spec_parse_pattern("(tan (/ PI 3))"@)->Some_0,
            rhs: spec_parse_pattern("(sqrt 3)"@)->Some_0,
        },
        RewriteModel {
            name: "tan-PI"@,
            lhs: spec_parse_pattern("(tan PI)"@)->Some_0,
            rhs: spec_parse_pattern("0"@)->Some_0,
        },
        RewriteModel {
            name: "tan-+PI"@,
            lhs: spec_parse_pattern("(tan (+ ?x PI))"@)->Some_0,
            rhs: spec_parse_pattern("(tan ?x)"@)->Some_0,
        },
        RewriteModel {
            name: "tan-+PI/2"@,
            lhs: spec_parse_pattern("(tan (+ ?x (/ PI 2)))"@)->Some_0,
            rhs: spec_parse_pattern("(neg (/ 1 (tan ?x)))"@)->Some_0,
        },
        RewriteModel {
            name: "hang-0p-tan"@,
            lhs: spec_parse_pattern("(/ (sin ?a) (+ 1 (cos ?a)))"@)->Some_0,
            rhs: spec_parse_pattern("(tan (/ ?a 2))"@)->Some_0,
        },
        RewriteModel {
            name: "hang-0m-tan"@,
            lhs: spec_parse_pattern("(/ (neg (sin ?a)) (+ 1 (cos ?a)))"@)->Some_0,
            rhs: spec_parse_pattern("(tan (/ (neg ?a) 2))"@)->Some_0,
        },
        RewriteModel {
            name: "hang-p0-tan"@,
            lhs: spec_parse_pattern("(/ (- 1 (cos ?a)) (sin ?a))"@)->Some_0,
            rhs: spec_parse_pattern("(tan (/ ?a 2))"@)->Some_0,
        },
        RewriteModel {
            name: "hang-m0-tan"@,
            lhs: spec_parse_pattern("(/ (- 1 (cos ?a)) (neg (sin ?a)))"@)->Some_0,
            rhs: spec_parse_pattern("(tan (/ (neg ?a) 2))"@)->Some_0,
        },
        RewriteModel {
            name: "hang-p-tan"@,
            lhs: spec_parse_pattern("(/ (+ (sin ?a) (sin ?b)) (+ (cos ?a) (cos ?b)))"@)->Some_0,
            rhs: spec_parse_pattern("(tan (/ (+ ?a ?b) 2))"@)->Some_0,
        },
        RewriteModel {
            name: "hang-m-tan"@,
            lhs: spec_parse_pattern("(/ (- (sin ?a) (sin ?b)) (+ (cos ?a) (cos ?b)))"@)->Some_0,
            rhs: spec_parse_pattern("(tan (/ (- ?a ?b) 2))"@)->Some_0,
        },
    ] }
}

/// The rule tuples of the `trig-reduce` group.
pub open spec fn group_tuples_8() -> Seq<(&'static str, &'static str, &'static str)> {
    seq![
        ("cos-sin-sum", "(+ (* (cos ?a) (cos ?a)) (* (sin ?a) (sin ?a)))", "1"),
        ("1-sub-cos", "(- 1 (* (cos ?a) (cos ?a)))", "(* (sin ?a) (sin ?a))"),
        ("1-sub-sin", "(- 1 (* (sin ?a) (sin ?a)))", "(* (cos ?a) (cos ?a))"),
        ("-1-add-cos", "(+ (* (cos ?a) (cos ?a)) -1)", "(neg (* (sin ?a) (sin ?a)))"),
        ("-1-add-sin", "(+ (* (sin ?a) (sin ?a)) -1)", "(neg (* (cos ?a) (cos ?a)))"),
        ("sub-1-cos", "(- (* (cos ?a) (cos ?a)) 1)", "(neg (* (sin ?a) (sin ?a)))"),
        ("sub-1-sin", "(- (* (sin ?a) (sin ?a)) 1)", "(neg (* (cos ?a) (cos ?a)))"),
        ("sin-PI/6", "(sin (/ PI 6))", "1/2"),
        ("sin-PI/4", "(sin (/ PI 4))", "(/ (sqrt 2) 2)"),
        ("sin-PI/3", "(sin (/ PI 3))", "(/ (sqrt 3) 2)"),
        ("sin-PI/2", "(sin (/ PI 2))", "1"),
        ("sin-PI", "(sin PI)", "0"),
        ("sin-+PI", "(sin (+ ?x PI))", "(neg (sin ?x))"),
        ("sin-+PI/2", "(sin (+ ?x (/ PI 2)))", "(cos ?x)"),
        ("cos-PI/6", "(cos (/ PI 6))", "(/ (sqrt 3) 2)"),
        ("cos-PI/4", "(cos (/ PI 4))", "(/ (sqrt 2) 2)"),
        ("cos-PI/3", "(cos (/ PI 3))", "1/2"),
        ("cos-PI/2", "(cos (/ PI 2))", "0"),
        ("cos-PI", "(cos PI)", "-1"),
        ("cos-+PI", "(cos (+ ?x PI))", "(neg (cos ?x))"),
        ("cos-+PI/2", "(cos (+ ?x (/ PI 2)))", "(neg (sin ?x))"),
        ("tan-PI/6", "(tan (/ PI 6))", "(/ 1 (sqrt 3))"),
        ("tan-PI/4", "(tan (/ PI 4))", "1"),
        ("tan-PI/3", "(tan (/ PI 3))", "(sqrt 3)"),
        ("tan-PI", "(tan PI)", "0"),
        ("tan-+PI", "(tan (+ ?x PI))", "(tan ?x)"),
        ("tan-+PI/2", "(tan (+ ?x (/ PI 2)))", "(neg (/ 1 (tan ?x)))"),
        ("hang-0p-tan", "(/ (sin ?a) (+ 1 (cos ?a)))", "(tan (/ ?a 2))"),
        ("hang-0m-tan", "(/ (neg (sin ?a)) (+ 1 (cos ?a)))", "(tan (/ (neg ?a) 2))"),
        ("hang-p0-tan", "(/ (- 1 (cos ?a)) (sin ?a))", "(tan (/ ?a 2))"),
        ("hang-m0-tan", "(/ (- 1 (cos ?a)) (neg (sin ?a)))", "(tan (/ (neg ?a) 2))"),
        ("hang-p-tan", "(/ (+ (sin ?a) (sin ?b)) (+ (cos ?a) (cos ?b)))", "(tan (/ (+ ?a ?b) 2))"),
        ("hang-m-tan", "(/ (- (sin ?a) (sin ?b)) (+ (cos ?a) (cos ?b)))", "(tan (/ (- ?a ?b) 2))"),
    ]
}

/// The `log-distribute-fp-safe` group of the corpus.
pub open spec fn corpus_group_9() -> RuleGroupModel {
    RuleGroupModel { name: "log-distribute-fp-safe"@, rules: seq![
        RewriteModel {
            name: "log-E"@,
            lhs: spec_parse_pattern("(log E)"@)->Some_0,
            rhs: spec_parse_pattern("1"@)->Some_0,
        },
    ] }
}

/// The rule tuples of the `log-distribute-fp-safe` group.
pub open spec fn group_tuples_9() -> Seq<(&'static str, &'static str, &'static str)> {
    seq![
        ("log-E", "(log E)", "1"),
    ]
}

/// The `log-distribute` group of the corpus.
pub open spec fn corpus_group_10() -> RuleGroupModel {
    RuleGroupModel { name: "log-distribute"@, rules: seq![
        RewriteModel {
            name: "log-prod"@,
            lhs: spec_parse_pattern("(log (* ?a ?b))"@)->Some_0,
            rhs: spec_parse_pattern("(+ (log ?a) (log ?b))"@)->Some_0,
        },
        RewriteModel {
            name: "log-div"@,
            lhs: spec_parse_pattern("(log (/ ?a ?b))"@)->Some_0,
            rhs: spec_parse_pattern("(- (log ?a) (log ?b))"@)->Some_0,
        },
        RewriteModel {
            name: "log-rec"@,
            lhs: spec_parse_pattern("(log (/ 1 ?a))"@)->Some_0,
            rhs: spec_parse_pattern("(neg (log ?a))"@)->Some_0,
        },
        RewriteModel {
            name: "log-pow"@,
            lhs: spec_parse_pattern("(log (pow ?a ?b))"@)->Some_0,
            rhs: spec_parse_pattern("(* ?b (log ?a))"@)->Some_0,
        },
    ] }
}

/// The rule tuples of the `log-distribute` group.
pub open spec fn group_tuples_10() -> Seq<(&'static str, &'static str, &'static str)> {
    seq![
        ("log-prod", "(log (* ?a ?b))", "(+ (log ?a) (log ?b))"),
        ("log-div", "(log (/ ?a ?b))", "(- (log ?a) (log ?b))"),
        ("log-rec", "(log (/ 1 ?a))", "(neg (log ?a))"),
        ("log-pow", "(log (pow ?a ?b))", "(* ?b (log ?a))"),
    ]
}

/// The `pow-canonicalize` group of the corpus.
pub open spec fn corpus_group_11() -> RuleGroupModel {
    RuleGroupModel { name: "pow-canonicalize"@, rules: seq![
        RewriteModel {
            name: "exp-to-pow"@,
            lhs: spec_parse_pattern("(exp (* (log ?a) ?b))"@)->Some_0,
            rhs: spec_parse_pattern("(pow ?a ?b)"@)->Some_0,
        },
        RewriteModel {
            name: "pow-plus"@,
            lhs: spec_parse_pattern("(* (pow ?a ?b) ?a)"@)->Some_0,
            rhs: spec_parse_pattern("(pow ?a (+ ?b 1))"@)->Some_0,
        },
        RewriteModel {
            name: "unpow1/2"@,
            lhs: spec_parse_pattern("(pow ?a 1/2)"@)->Some_0,
            rhs: spec_parse_pattern("(sqrt ?a)"@)->Some_0,
        },
        RewriteModel {
            name: "unpow2"@,
            lhs: spec_parse_pattern("(pow ?a 2)"@)->Some_0,
            rhs: spec_parse_pattern("(* ?a ?a)"@)->Some_0,
        },
        RewriteModel {
            name: "unpow3"@,
            lhs: spec_parse_pattern("(pow ?a 3)"@)->Some_0,
            rhs: spec_parse_pattern("(* (* ?a ?a) ?a)"@)->Some_0,
        },
        RewriteModel {
            name: "unpow1/3"@,
            lhs: spec_parse_pattern("(pow ?a 1/3)"@)->Some_0,
            rhs: spec_parse_pattern("(cbrt ?a)"@)->Some_0,
        },
    ] }
}

/// The rule tuples of the `pow-canonicalize` group.
pub open spec fn group_tuples_11() -> Seq<(&'static str, &'static str, &'static str)> {
    seq![
        ("exp-to-pow", "(exp (* (log ?a) ?b))", "(pow ?a ?b)"),
        ("pow-plus", "(* (pow ?a ?b) ?a)", "(pow ?a (+ ?b 1))"),
        ("unpow1/2", "(pow ?a 1/2)", "(sqrt ?a)"),
        ("unpow2", "(pow ?a 2)", "(* ?a ?a)"),
        ("unpow3", "(pow ?a 3)", "(* (* ?a ?a) ?a)"),
        ("unpow1/3", "(pow ?a 1/3)", "(cbrt ?a)"),
    ]
}

/// The `pow-reduce-fp-safe-nan` group of the corpus.
pub open spec fn corpus_group_12() -> RuleGroupModel {
    RuleGroupModel { name: "pow-reduce-fp-safe-nan"@, rules: seq![
        RewriteModel {
            name: "unpow0"@,
            lhs: spec_parse_pattern("(pow ?a 0)"@)->Some_0,
            rhs: spec_parse_pattern("1"@)->Some_0,
        },
        RewriteModel {
            name: "pow-base-1"@,
            lhs: spec_parse_pattern("(pow 1 ?a)"@)->Some_0,
            rhs: spec_parse_pattern("1"@)->Some_0,
        },
    ] }
}

/// The rule tuples of the `pow-reduce-fp-safe-nan` group.
pub open spec fn group_tuples_12() -> Seq<(&'static str, &'static str, &'static str)> {
    seq![
        ("unpow0", "(pow ?a 0)", "1"),
        ("pow-base-1", "(pow 1 ?a)", "1"),
    ]
}

/// The `pow-reduce-fp-safe` group of the corpus.
pub open spec fn corpus_group_13() -> RuleGroupModel {
    RuleGroupModel { name: "pow-reduce-fp-safe"@, rules: seq![
        RewriteModel {
            name: "unpow1"@,
            lhs: spec_parse_pattern("(pow ?a 1)"@)->Some_0,
            rhs: spec_parse_pattern("?a"@)->Some_0,
        },
    ] }
}

/// The rule tuples of the `pow-reduce-fp-safe` group.
pub open spec fn group_tuples_13() -> Seq<(&'static str, &'static str, &'static str)> {
    seq![
        ("unpow1", "(pow ?a 1)", "?a"),
    ]
}

/// The `pow-reduce` group of the corpus.
pub open spec fn corpus_group_14() -> RuleGroupModel {
    RuleGroupModel { name: "pow-reduce"@, rules: seq![
        RewriteModel {
            name: "unpow-1"@,
            lhs: spec_parse_pattern("(pow ?a -1)"@)->Some_0,
            rhs: spec_parse_pattern("(/ 1 ?a)"@)->Some_0,
        },
    ] }
}

/// The rule tuples of the `pow-reduce` group.
pub open spec fn group_tuples_14() -> Seq<(&'static str, &'static str, &'static str)> {
    seq![
        ("unpow-1", "(pow ?a -1)", "(/ 1 ?a)"),
    ]
}

/// The `exp-factor` group of the corpus.
pub open spec fn corpus_group_15() -> RuleGroupModel {
    RuleGroupModel { name: "exp-factor"@, rules: seq![
        RewriteModel {
            name: "prod-exp"@,
            lhs: spec_parse_pattern("(* (exp ?a) (exp ?b))"@)->Some_0,
            rhs: spec_parse_pattern("(exp (+ ?a ?b))"@)->Some_0,
        },
        RewriteModel {
            name: "rec-exp"@,
            lhs: spec_parse_pattern("(/ 1 (exp ?a))"@)->Some_0,
            rhs: spec_parse_pattern("(exp (neg ?a))"@)->Some_0,
        },
        RewriteModel {
            name: "div-exp"@,
            lhs: spec_parse_pattern("(/ (exp ?a) (exp ?b))"@)->Some_0,
            rhs: spec_parse_pattern("(exp (- ?a ?b))"@)->Some_0,
        },
        RewriteModel {
            name: "exp-prod"@,
            lhs: spec_parse_pattern("(exp (* ?a ?b))"@)->Some_0,
            rhs: spec_parse_pattern("(pow (exp ?a) ?b)"@)->Some_0,
        },
        RewriteModel {
            name: "exp-sqrt"@,
            lhs: spec_parse_pattern("(exp (/ ?a 2))"@)->Some_0,
            rhs: spec_parse_pattern("(sqrt (exp ?a))"@)->Some_0,
        },
        RewriteModel {
            name: "exp-cbrt"@,
            lhs: spec_parse_pattern("(exp (/ ?a 3))"@)->Some_0,
            rhs: spec_parse_pattern("(cbrt (exp ?a))"@)->Some_0,
        },
        RewriteModel {
            name: "exp-lft-sqr"@,
            lhs: spec_parse_pattern("(exp (* ?a 2))"@)->Some_0,
            rhs: spec_parse_pattern("(* (exp ?a) (exp ?a))"@)->Some_0,
        },
        RewriteModel {
            name: "exp-lft-cube"@,
            lhs: spec_parse_pattern("(exp (* ?a 3))"@)->Some_0,
            rhs: spec_parse_pattern("(pow (exp ?a) 3)"@)->Some_0,
        },
    ] }
}

/// The rule tuples of the `exp-factor` group.
pub open spec fn group_tuples_15() -> Seq<(&'static str, &'static str, &'static str)> {
    seq![
        ("prod-exp", "(* (exp ?a) (exp ?b))", "(exp (+ ?a ?b))"),
        ("rec-exp", "(/ 1 (exp ?a))", "(exp (neg ?a))"),
        ("div-exp", "(/ (exp ?a) (exp ?b))", "(exp (- ?a ?b))"),
        ("exp-prod", "(exp (* ?a ?b))", "(pow (exp ?a) ?b)"),
        ("exp-sqrt", "(exp (/ ?a 2))", "(sqrt (exp ?a))"),
        ("exp-cbrt", "(exp (/ ?a 3))", "(cbrt (exp ?a))"),
        ("exp-lft-sqr", "(exp (* ?a 2))", "(* (exp ?a) (exp ?a))"),
        ("exp-lft-cube", "(exp (* ?a 3))", "(pow (exp ?a) 3)"),
    ]
}

/// The `exp-distribute` group of the corpus.
pub open spec fn corpus_group_16() -> RuleGroupModel {
    RuleGroupModel { name: "exp-distribute"@, rules: seq![
        RewriteModel {
            name: "exp-sum"@,
            lhs: spec_parse_pattern("(exp (+ ?a ?b))"@)->Some_0,
            rhs: spec_parse_pattern("(* (exp ?a) (exp ?b))"@)->Some_0,
        },
        RewriteModel {
            name: "exp-neg"@,
            lhs: spec_parse_pattern("(exp (neg ?a))"@)->Some_0,
            rhs: spec_parse_pattern("(/ 1 (exp ?a))"@)->Some_0,
        },
        RewriteModel {
            name: "exp-diff"@,
            lhs: spec_parse_pattern("(exp (- ?a ?b))"@)->Some_0,
            rhs: spec_parse_pattern("(/ (exp ?a) (exp ?b))"@)->Some_0,
        },
    ] }
}

/// The rule tuples of the `exp-distribute` group.
pub open spec fn group_tuples_16() -> Seq<(&'static str, &'static str, &'static str)> {
    seq![
        ("exp-sum", "(exp (+ ?a ?b))", "(* (exp ?a) (exp ?b))"),
        ("exp-neg", "(exp (neg ?a))", "(/ 1 (exp ?a))"),
        ("exp-diff", "(exp (- ?a ?b))", "(/ (exp ?a) (exp ?b))"),
    ]
}

/// The `exp-constants` group of the corpus.
pub open spec fn corpus_group_17() -> RuleGroupModel {
    RuleGroupModel { name: "exp-constants"@, rules: seq![
        RewriteModel {
            name: "exp-0"@,
            lhs: spec_parse_pattern("(exp 0)"@)->Some_0,
            rhs: spec_parse_pattern("1"@)->Some_0,
        },
        RewriteModel {
            name: "exp-1-e"@,
            lhs: spec_parse_pattern("(exp 1)"@)->Some_0,
            rhs: spec_parse_pattern("E"@)->Some_0,
        },
        RewriteModel {
            name: "1-exp"@,
            lhs: spec_parse_pattern("1"@)->Some_0,
            rhs: spec_parse_pattern("(exp 0)"@)->Some_0,
        },
        RewriteModel {
            name: "e-exp-1"@,
            lhs: spec_parse_pattern("E"@)->Some_0,
            rhs: spec_parse_pattern("(exp 1)"@)->Some_0,
        },
    ] }
}

/// The rule tuples of the `exp-constants` group.
pub open spec fn group_tuples_17() -> Seq<(&'static str, &'static str, &'static str)> {
    seq![
        ("exp-0", "(exp 0)", "1"),
        ("exp-1-e", "(exp 1)", "E"),
        ("1-exp", "1", "(exp 0)"),
        ("e-exp-1", "E", "(exp 1)"),
    ]
}

/// The `exp-reduce` group of the corpus.
pub open spec fn corpus_group_18() -> RuleGroupModel {
    RuleGroupModel { name: "exp-reduce"@, rules: seq![
        RewriteModel {
            name: "rem-exp-log"@,
            lhs: spec_parse_pattern("(exp (log ?x))"@)->Some_0,
            rhs: spec_parse_pattern("?x"@)->Some_0,
        },
        RewriteModel {
            name: "rem-log-exp"@,
            lhs: spec_parse_pattern("(log (exp ?x))"@)->Some_0,
            rhs: spec_parse_pattern("?x"@)->Some_0,
        },
    ] }
}

/// The rule tuples of the `exp-reduce` group.
pub open spec fn group_tuples_18() -> Seq<(&'static str, &'static str, &'static str)> {
    seq![
        ("rem-exp-log", "(exp (log ?x))", "?x"),
        ("rem-log-exp", "(log (exp ?x))", "?x"),
    ]
}

/// The `cubes-canonicalize` group of the corpus.
pub open spec fn corpus_group_19() -> RuleGroupModel {
    RuleGroupModel { name: "cubes-canonicalize"@, rules: seq![
        RewriteModel {
            name: "cube-unmult"@,
            lhs: spec_parse_pattern("(* ?x (* ?x ?x))"@)->Some_0,
            rhs: spec_parse_pattern("(pow ?x 3)"@)->Some_0,
        },
    ] }
}

/// The rule tuples of the `cubes-canonicalize` group.
pub open spec fn group_tuples_19() -> Seq<(&'static str, &'static str, &'static str)> {
    seq![
        ("cube-unmult", "(* ?x (* ?x ?x))", "(pow ?x 3)"),
    ]
}

/// The `cubes-distribute` group of the corpus.
pub open spec fn corpus_group_20() -> RuleGroupModel {
    RuleGroupModel { name: "cubes-distribute"@, rules: seq![
        RewriteModel {
            name: "cube-prod"@,
            lhs: spec_parse_pattern("(pow (* ?x ?y) 3)"@)->Some_0,
            rhs: spec_parse_pattern("(* (pow ?x 3) (pow ?y 3))"@)->Some_0,
        },
        RewriteModel {
            name: "cube-div"@,
            lhs: spec_parse_pattern("(pow (/ ?x ?y) 3)"@)->Some_0,
            rhs: spec_parse_pattern("(/ (pow ?x 3) (pow ?y 3))"@)->Some_0,
        },
        RewriteModel {
            name: "cube-mult"@,
            lhs: spec_parse_pattern("(pow ?x 3)"@)->Some_0,
            rhs: spec_parse_pattern("(* ?x (* ?x ?x))"@)->Some_0,
        },
    ] }
}

/// The rule tuples of the `cubes-distribute` group.
pub open spec fn group_tuples_20() -> Seq<(&'static str, &'static str, &'static str)> {
    seq![
        ("cube-prod", "(pow (* ?x ?y) 3)", "(* (pow ?x 3) (pow ?y 3))"),
        ("cube-div", "(pow (/ ?x ?y) 3)", "(/ (pow ?x 3) (pow ?y 3))"),
        ("cube-mult", "(pow ?x 3)", "(* ?x (* ?x ?x))"),
    ]
}

/// The `cubes-reduce` group of the corpus.
pub open spec fn corpus_group_21() -> RuleGroupModel {
    RuleGroupModel { name: "cubes-reduce"@, rules: seq![
        RewriteModel {
            name: "rem-cube-cbrt"@,
            lhs: spec_parse_pattern("(pow (cbrt ?x) 3)"@)->Some_0,
            rhs: spec_parse_pattern("?x"@)->Some_0,
        },
        RewriteModel {
            name: "rem-cbrt-cube"@,
            lhs: spec_parse_pattern("(cbrt (pow ?x 3))"@)->Some_0,
            rhs: spec_parse_pattern("?x"@)->Some_0,
        },
        RewriteModel {
            name: "cube-neg"@,
            lhs: spec_parse_pattern("(pow (neg ?x) 3)"@)->Some_0,
            rhs: spec_parse_pattern("(neg (pow ?x 3))"@)->Some_0,
        },
    ] }
}

/// The rule tuples of the `cubes-reduce` group.
pub open spec fn group_tuples_21() -> Seq<(&'static str, &'static str, &'static str)> {
    seq![
        ("rem-cube-cbrt", "(pow (cbrt ?x) 3)", "?x"),
        ("rem-cbrt-cube", "(cbrt (pow ?x 3))", "?x"),
        ("cube-neg", "(pow (neg ?x) 3)", "(neg (pow ?x 3))"),
    ]
}

/// The `squares-reduce-fp-sound` group of the corpus.
pub open spec fn corpus_group_22() -> RuleGroupModel {
    RuleGroupModel { name: "squares-reduce-fp-sound"@, rules: seq![
        RewriteModel {
            name: "sqr-neg"@,
            lhs: spec_parse_pattern("(* (neg ?x) (neg ?x))"@)->Some_0,
            rhs: spec_parse_pattern("(* ?x ?x)"@)->Some_0,
        },
    ] }
}

/// The rule tuples of the `squares-reduce-fp-sound` group.
pub open spec fn group_tuples_22() -> Seq<(&'static str, &'static str, &'static str)> {
    seq![
        ("sqr-neg", "(* (neg ?x) (neg ?x))", "(* ?x ?x)"),
    ]
}

/// The `squares-reduce` group of the corpus.
pub open spec fn corpus_group_23() -> RuleGroupModel {
    RuleGroupModel { name: "squares-reduce"@, rules: seq![
        RewriteModel {
            name: "rem-square-sqrt"@,
            lhs: spec_parse_pattern("(* (sqrt ?x) (sqrt ?x))"@)->Some_0,
            rhs: spec_parse_pattern("?x"@)->Some_0,
        },
        RewriteModel {
            name: "rem-sqrt-square"@,
            lhs: spec_parse_pattern("(sqrt (* ?x ?x))"@)->Some_0,
            rhs: spec_parse_pattern("(fabs ?x)"@)->Some_0,
        },
    ] }
}

/// The rule tuples of the `squares-reduce` group.
pub open spec fn group_tuples_23() -> Seq<(&'static str, &'static str, &'static str)> {
    seq![
        ("rem-square-sqrt", "(* (sqrt ?x) (sqrt ?x))", "?x"),
        ("rem-sqrt-square", "(sqrt (* ?x ?x))", "(fabs ?x)"),
    ]
}

/// The `fractions-distribute.c` group of the corpus.
pub open spec fn corpus_group_24() -> RuleGroupModel {
    RuleGroupModel { name: "fractions-distribute.c"@, rules: seq![
        RewriteModel {
            name: "div-sub.c"@,
            lhs: spec_parse_pattern("(/.c (-.c ?a ?b) ?c)"@)->Some_0,
            rhs: spec_parse_pattern("(-.c (/.c ?a ?c) (/.c ?b ?c))"@)->Some_0,
        },
        RewriteModel {
            name: "times-frac.c"@,
            lhs: spec_parse_pattern("(/.c (*.c ?a ?b) (*.c ?c ?d))"@)->Some_0,
            rhs: spec_parse_pattern("(*.c (/.c ?a ?c) (/.c ?b ?d))"@)->Some_0,
        },
    ] }
}

/// The rule tuples of the `fractions-distribute.c` group.
pub open spec fn group_tuples_24() -> Seq<(&'static str, &'static str, &'static str)> {
    seq![
        ("div-sub.c", "(/.c (-.c ?a ?b) ?c)", "(-.c (/.c ?a ?c) (/.c ?b ?c))"),
        ("times-frac.c", "(/.c (*.c ?a ?b) (*.c ?c ?d))", "(*.c (/.c ?a ?c) (/.c ?b ?d))"),
    ]
}

/// The `fractions-distribute` group of the corpus.
pub open spec fn corpus_group_25() -> RuleGroupModel {
    RuleGroupModel { name: "fractions-distribute"@, rules: seq![
        RewriteModel {
            name: "div-sub"@,
            lhs: spec_parse_pattern("(/ (- ?a ?b) ?c)"@)->Some_0,
            rhs: spec_parse_pattern("(- (/ ?a ?c) (/ ?b ?c))"@)->Some_0,
        },
        RewriteModel {
            name: "times-frac"@,
            lhs: spec_parse_pattern("(/ (* ?a ?b) (* ?c ?d))"@)->Some_0,
            rhs: spec_parse_pattern("(* (/ ?a ?c) (/ ?b ?d))"@)->Some_0,
        },
    ] }
}

/// The rule tuples of the `fractions-distribute` group.
pub open spec fn group_tuples_25() -> Seq<(&'static str, &'static str, &'static str)> {
    seq![
        ("div-sub", "(/ (- ?a ?b) ?c)", "(- (/ ?a ?c) (/ ?b ?c))"),
        ("times-frac", "(/ (* ?a ?b) (* ?c ?d))", "(* (/ ?a ?c) (/ ?b ?d))"),
    ]
}

/// The `id-reduce-fp-safe` group of the corpus.
pub open spec fn corpus_group_26() -> RuleGroupModel {
    RuleGroupModel { name: "id-reduce-fp-safe"@, rules: seq![
        RewriteModel {
            name: "+-lft-identity"@,
            lhs: spec_parse_pattern("(+ 0 ?a)"@)->Some_0,
            rhs: spec_parse_pattern("?a"@)->Some_0,
        },
        RewriteModel {
            name: "+-rgt-identity"@,
            lhs: spec_parse_pattern("(+ ?a 0)"@)->Some_0,
            rhs: spec_parse_pattern("?a"@)->Some_0,
        },
        RewriteModel {
            name: "--rgt-identity"@,
            lhs: spec_parse_pattern("(- ?a 0)"@)->Some_0,
            rhs: spec_parse_pattern("?a"@)->Some_0,
        },
        RewriteModel {
            name: "sub0-neg"@,
            lhs: spec_parse_pattern("(- 0 ?a)"@)->Some_0,
            rhs: spec_parse_pattern("(neg ?a)"@)->Some_0,
        },
        RewriteModel {
            name: "remove-double-neg"@,
            lhs: spec_parse_pattern("(neg (neg ?a))"@)->Some_0,
            rhs: spec_parse_pattern("?a"@)->Some_0,
        },
        RewriteModel {
            name: "*-lft-identity"@,
            lhs: spec_parse_pattern("(* 1 ?a)"@)->Some_0,
            rhs: spec_parse_pattern("?a"@)->Some_0,
        },
        RewriteModel {
            name: "*-rgt-identity"@,
            lhs: spec_parse_pattern("(* ?a 1)"@)->Some_0,
            rhs: spec_parse_pattern("?a"@)->Some_0,
        },
        RewriteModel {
            name: "/-rgt-identity"@,
            lhs: spec_parse_pattern("(/ ?a 1)"@)->Some_0,
            rhs: spec_parse_pattern("?a"@)->Some_0,
        },
        RewriteModel {
            name: "mul-1-neg"@,
            lhs: spec_parse_pattern("(* -1 ?a)"@)->Some_0,
            rhs: spec_parse_pattern("(neg ?a)"@)->Some_0,
        },
    ] }
}

/// The rule tuples of the `id-reduce-fp-safe` group.
pub open spec fn group_tuples_26() -> Seq<(&'static str, &'static str, &'static str)> {
    seq![
        ("+-lft-identity", "(+ 0 ?a)", "?a"),
        ("+-rgt-identity", "(+ ?a 0)", "?a"),
        ("--rgt-identity", "(- ?a 0)", "?a"),
        ("sub0-neg", "(- 0 ?a)", "(neg ?a)"),
        ("remove-double-neg", "(neg (neg ?a))", "?a"),
        ("*-lft-identity", "(* 1 ?a)", "?a"),
        ("*-rgt-identity", "(* ?a 1)", "?a"),
        ("/-rgt-identity", "(/ ?a 1)", "?a"),
        ("mul-1-neg", "(* -1 ?a)", "(neg ?a)"),
    ]
}

/// The `id-reduce-fp-safe-nan` group of the corpus.
pub open spec fn corpus_group_27() -> RuleGroupModel {
    RuleGroupModel { name: "id-reduce-fp-safe-nan"@, rules: seq![
        RewriteModel {
            name: "+-inverses"@,
            lhs: spec_parse_pattern("(- ?a ?a)"@)->Some_0,
            rhs: spec_parse_pattern("0"@)->Some_0,
        },
        RewriteModel {
            name: "*-inverses"@,
            lhs: spec_parse_pattern("(/ ?a ?a)"@)->Some_0,
            rhs: spec_parse_pattern("1"@)->Some_0,
        },
        RewriteModel {
            name: "div0"@,
            lhs: spec_parse_pattern("(/ 0 ?a)"@)->Some_0,
            rhs: spec_parse_pattern("0"@)->Some_0,
        },
        RewriteModel {
            name: "mul0l"@,
            lhs: spec_parse_pattern("(* 0 ?a)"@)->Some_0,
            rhs: spec_parse_pattern("0"@)->Some_0,
        },
        RewriteModel {
            name: "mul0r"@,
            lhs: spec_parse_pattern("(* ?a 0)"@)->Some_0,
            rhs: spec_parse_pattern("0"@)->Some_0,
        },
    ] }
}

/// The rule tuples of the `id-reduce-fp-safe-nan` group.
pub open spec fn group_tuples_27() -> Seq<(&'static str, &'static str, &'static str)> {
    seq![
        ("+-inverses", "(- ?a ?a)", "0"),
        ("*-inverses", "(/ ?a ?a)", "1"),
        ("div0", "(/ 0 ?a)", "0"),
        ("mul0l", "(* 0 ?a)", "0"),
        ("mul0r", "(* ?a 0)", "0"),
    ]
}

/// The `id-reduce` group of the corpus.
pub open spec fn corpus_group_28() -> RuleGroupModel {
    RuleGroupModel { name: "id-reduce"@, rules: seq![
        RewriteModel {
            name: "remove-double-div"@,
            lhs: spec_parse_pattern("(/ 1 (/ 1 ?a))"@)->Some_0,
            rhs: spec_parse_pattern("?a"@)->Some_0,
        },
        RewriteModel {
            name: "rgt-mult-inverse"@,
            lhs: spec_parse_pattern("(* ?a (/ 1 ?a))"@)->Some_0,
            rhs: spec_parse_pattern("1"@)->Some_0,
        },
        RewriteModel {
            name: "lft-mult-inverse"@,
            lhs: spec_parse_pattern("(* (/ 1 ?a) ?a)"@)->Some_0,
            rhs: spec_parse_pattern("1"@)->Some_0,
        },
    ] }
}

/// The rule tuples of the `id-reduce` group.
pub open spec fn group_tuples_28() -> Seq<(&'static str, &'static str, &'static str)> {
    seq![
        ("remove-double-div", "(/ 1 (/ 1 ?a))", "?a"),
        ("rgt-mult-inverse", "(* ?a (/ 1 ?a))", "1"),
        ("lft-mult-inverse", "(* (/ 1 ?a) ?a)", "1"),
    ]
}

/// The `difference-of-squares-canonicalize` group of the corpus.
pub open spec fn corpus_group_29() -> RuleGroupModel {
    RuleGroupModel { name: "difference-of-squares-canonicalize"@, rules: seq![
        RewriteModel {
            name: "swap-sqr"@,
            lhs: spec_parse_pattern("(* (* ?a ?b) (* ?a ?b))"@)->Some_0,
            rhs: spec_parse_pattern("(* (* ?a ?a) (* ?b ?b))"@)->Some_0,
        },
        RewriteModel {
            name: "unswap-sqr"@,
            lhs: spec_parse_pattern("(* (* ?a ?a) (* ?b ?b))"@)->Some_0,
            rhs: spec_parse_pattern("(* (* ?a ?b) (* ?a ?b))"@)->Some_0,
        },
        RewriteModel {
            name: "difference-of-squares"@,
            lhs: spec_parse_pattern("(- (* ?a ?a) (* ?b ?b))"@)->Some_0,
            rhs: spec_parse_pattern("(* (+ ?a ?b) (- ?a ?b))"@)->Some_0,
        },
        RewriteModel {
            name: "difference-of-sqr-1"@,
            lhs: spec_parse_pattern("(- (* ?a ?a) 1)"@)->Some_0,
            rhs: spec_parse_pattern("(* (+ ?a 1) (- ?a 1))"@)->Some_0,
        },
        RewriteModel {
            name: "difference-of-sqr--1"@,
            lhs: spec_parse_pattern("(+ (* ?a ?a) -1)"@)->Some_0,
            rhs: spec_parse_pattern("(* (+ ?a 1) (- ?a 1))"@)->Some_0,
        },
        RewriteModel {
            name: "sqr-pow"@,
            lhs: spec_parse_pattern("(pow ?a ?b)"@)->Some_0,
            rhs: spec_parse_pattern("(* (pow ?a (/ ?b 2)) (pow ?a (/ ?b 2)))"@)->Some_0,
        },
        RewriteModel {
            name: "pow-sqr"@,
            lhs: spec_parse_pattern("(* (pow ?a ?b) (pow ?a ?b))"@)->Some_0,
            rhs: spec_parse_pattern("(pow ?a (* 2 ?b))"@)->Some_0,
        },
    ] }
}

/// The rule tuples of the `difference-of-squares-canonicalize` group.
pub open spec fn group_tuples_29() -> Seq<(&'static str, &'static str, &'static str)> {
    seq![
        ("swap-sqr", "(* (* ?a ?b) (* ?a ?b))", "(* (* ?a ?a) (* ?b ?b))"),
        ("unswap-sqr", "(* (* ?a ?a) (* ?b ?b))", "(* (* ?a ?b) (* ?a ?b))"),
        ("difference-of-squares", "(- (* ?a ?a) (* ?b ?b))", "(* (+ ?a ?b) (- ?a ?b))"),
        ("difference-of-sqr-1", "(- (* ?a ?a) 1)", "(* (+ ?a 1) (- ?a 1))"),
        ("difference-of-sqr--1", "(+ (* ?a ?a) -1)", "(* (+ ?a 1) (- ?a 1))"),
        ("sqr-pow", "(pow ?a ?b)", "(* (pow ?a (/ ?b 2)) (pow ?a (/ ?b 2)))"),
        ("pow-sqr", "(* (pow ?a ?b) (pow ?a ?b))", "(pow ?a (* 2 ?b))"),
    ]
}

/// The `distributivity-fp-safe` group of the corpus.
pub open spec fn corpus_group_30() -> RuleGroupModel {
    RuleGroupModel { name: "distributivity-fp-safe"@, rules: seq![
        RewriteModel {
            name: "distribute-lft-neg-in"@,
            lhs: spec_parse_pattern("(neg (* ?a ?b))"@)->Some_0,
            rhs: spec_parse_pattern("(* (neg ?a) ?b)"@)->Some_0,
        },
        RewriteModel {
            name: "distribute-rgt-neg-in"@,
            lhs: spec_parse_pattern("(neg (* ?a ?b))"@)->Some_0,
            rhs: spec_parse_pattern("(* ?a (neg ?b))"@)->Some_0,
        },
        RewriteModel {
            name: "distribute-lft-neg-out"@,
            lhs: spec_parse_pattern("(* (neg ?a) ?b)"@)->Some_0,
            rhs: spec_parse_pattern("(neg (* ?a ?b))"@)->Some_0,
        },
        RewriteModel {
            name: "distribute-rgt-neg-out"@,
            lhs: spec_parse_pattern("(* ?a (neg ?b))"@)->Some_0,
            rhs: spec_parse_pattern("(neg (* ?a ?b))"@)->Some_0,
        },
        RewriteModel {
            name: "distribute-neg-in"@,
            lhs: spec_parse_pattern("(neg (+ ?a ?b))"@)->Some_0,
            rhs: spec_parse_pattern("(+ (neg ?a) (neg ?b))"@)->Some_0,
        },
        RewriteModel {
            name: "distribute-neg-out"@,
            lhs: spec_parse_pattern("(+ (neg ?a) (neg ?b))"@)->Some_0,
            rhs: spec_parse_pattern("(neg (+ ?a ?b))"@)->Some_0,
        },
        RewriteModel {
            name: "distribute-frac-neg"@,
            lhs: spec_parse_pattern("(/ (neg ?a) ?b)"@)->Some_0,
            rhs: spec_parse_pattern("(neg (/ ?a ?b))"@)->Some_0,
        },
        RewriteModel {
            name: "distribute-neg-frac"@,
            lhs: spec_parse_pattern("(neg (/ ?a ?b))"@)->Some_0,
            rhs: spec_parse_pattern("(/ (neg ?a) ?b)"@)->Some_0,
        },
    ] }
}

/// The rule tuples of the `distributivity-fp-safe` group.
pub open spec fn group_tuples_30() -> Seq<(&'static str, &'static str, &'static str)> {
    seq![
        ("distribute-lft-neg-in", "(neg (* ?a ?b))", "(* (neg ?a) ?b)"),
        ("distribute-rgt-neg-in", "(neg (* ?a ?b))", "(* ?a (neg ?b))"),
        ("distribute-lft-neg-out", "(* (neg ?a) ?b)", "(neg (* ?a ?b))"),
        ("distribute-rgt-neg-out", "(* ?a (neg ?b))", "(neg (* ?a ?b))"),
        ("distribute-neg-in", "(neg (+ ?a ?b))", "(+ (neg ?a) (neg ?b))"),
        ("distribute-neg-out", "(+ (neg ?a) (neg ?b))", "(neg (+ ?a ?b))"),
        ("distribute-frac-neg", "(/ (neg ?a) ?b)", "(neg (/ ?a ?b))"),
        ("distribute-neg-frac", "(neg (/ ?a ?b))", "(/ (neg ?a) ?b)"),
    ]
}

/// The `distributivity.c` group of the corpus.
pub open spec fn corpus_group_31() -> RuleGroupModel {
    RuleGroupModel { name: "distributivity.c"@, rules: seq![
        RewriteModel {
            name: "distribute-lft-in.c"@,
            lhs: spec_parse_pattern("(*.c ?a (+.c ?b ?c))"@)->Some_0,
            rhs: spec_parse_pattern("(+.c (*.c ?a ?b) (*.c ?a ?c))"@)->Some_0,
        },
        RewriteModel {
            name: "distribute-rgt-in.c"@,
            lhs: spec_parse_pattern("(*.c ?a (+.c ?b ?c))"@)->Some_0,
            rhs: spec_parse_pattern("(+.c (*.c ?b ?a) (*.c ?c ?a))"@)->Some_0,
        },
        RewriteModel {
            name: "distribute-lft-out.c"@,
            lhs: spec_parse_pattern("(+.c (*.c ?a ?b) (*.c ?a ?c))"@)->Some_0,
            rhs: spec_parse_pattern("(*.c ?a (+.c ?b ?c))"@)->Some_0,
        },
        RewriteModel {
            name: "distribute-lft-out--.c"@,
            lhs: spec_parse_pattern("(-.c (*.c ?a ?b) (*.c ?a ?c))"@)->Some_0,
            rhs: spec_parse_pattern("(*.c ?a (-.c ?b ?c))"@)->Some_0,
        },
        RewriteModel {
            name: "distribute-rgt-out.c"@,
            lhs: spec_parse_pattern("(+.c (*.c ?b ?a) (*.c ?c ?a))"@)->Some_0,
            rhs: spec_parse_pattern("(*.c ?a (+.c ?b ?c))"@)->Some_0,
        },
        RewriteModel {
            name: "distribute-rgt-out--.c"@,
            lhs: spec_parse_pattern("(-.c (*.c ?b ?a) (*.c ?c ?a))"@)->Some_0,
            rhs: spec_parse_pattern("(*.c ?a (-.c ?b ?c))"@)->Some_0,
        },
        RewriteModel {
            name: "distribute-lft1-in.c"@,
            lhs: spec_parse_pattern("(+.c (*.c ?b ?a) ?a)"@)->Some_0,
            rhs: spec_parse_pattern("(*.c (+.c ?b (complex 1 0)) ?a)"@)->Some_0,
        },
        RewriteModel {
            name: "distribute-rgt1-in.c"@,
            lhs: spec_parse_pattern("(+.c ?a (*.c ?c ?a))"@)->Some_0,
            rhs: spec_parse_pattern("(*.c (+.c ?c (complex 1 0)) ?a)"@)->Some_0,
        },
    ] }
}

/// The rule tuples of the `distributivity.c` group.
pub open spec fn group_tuples_31() -> Seq<(&'static str, &'static str, &'static str)> {
    seq![
        ("distribute-lft-in.c", "(*.c ?a (+.c ?b ?c))", "(+.c (*.c ?a ?b) (*.c ?a ?c))"),
        ("distribute-rgt-in.c", "(*.c ?a (+.c ?b ?c))", "(+.c (*.c ?b ?a) (*.c ?c ?a))"),
        ("distribute-lft-out.c", "(+.c (*.c ?a ?b) (*.c ?a ?c))", "(*.c ?a (+.c ?b ?c))"),
        ("distribute-lft-out--.c", "(-.c (*.c ?a ?b) (*.c ?a ?c))", "(*.c ?a (-.c ?b ?c))"),
        ("distribute-rgt-out.c", "(+.c (*.c ?b ?a) (*.c ?c ?a))", "(*.c ?a (+.c ?b ?c))"),
        ("distribute-rgt-out--.c", "(-.c (*.c ?b ?a) (*.c ?c ?a))", "(*.c ?a (-.c ?b ?c))"),
        ("distribute-lft1-in.c", "(+.c (*.c ?b ?a) ?a)", "(*.c (+.c ?b (complex 1 0)) ?a)"),
        ("distribute-rgt1-in.c", "(+.c ?a (*.c ?c ?a))", "(*.c (+.c ?c (complex 1 0)) ?a)"),
    ]
}

/// The `distributivity` group of the corpus.
pub open spec fn corpus_group_32() -> RuleGroupModel {
    RuleGroupModel { name: "distributivity"@, rules: seq![
        RewriteModel {
            name: "distribute-lft-in"@,
            lhs: spec_parse_pattern("(* ?a (+ ?b ?c))"@)->Some_0,
            rhs: spec_parse_pattern("(+ (* ?a ?b) (* ?a ?c))"@)->Some_0,
        },
        RewriteModel {
            name: "distribute-rgt-in"@,
            lhs: spec_parse_pattern("(* ?a (+ ?b ?c))"@)->Some_0,
            rhs: spec_parse_pattern("(+ (* ?b ?a) (* ?c ?a))"@)->Some_0,
        },
        RewriteModel {
            name: "distribute-lft-out"@,
            lhs: spec_parse_pattern("(+ (* ?a ?b) (* ?a ?c))"@)->Some_0,
            rhs: spec_parse_pattern("(* ?a (+ ?b ?c))"@)->Some_0,
        },
        RewriteModel {
            name: "distribute-lft-out--"@,
            lhs: spec_parse_pattern("(- (* ?a ?b) (* ?a ?c))"@)->Some_0,
            rhs: spec_parse_pattern("(* ?a (- ?b ?c))"@)->Some_0,
        },
        RewriteModel {
            name: "distribute-rgt-out"@,
            lhs: spec_parse_pattern("(+ (* ?b ?a) (* ?c ?a))"@)->Some_0,
            rhs: spec_parse_pattern("(* ?a (+ ?b ?c))"@)->Some_0,
        },
        RewriteModel {
            name: "distribute-rgt-out--"@,
            lhs: spec_parse_pattern("(- (* ?b ?a) (* ?c ?a))"@)->Some_0,
            rhs: spec_parse_pattern("(* ?a (- ?b ?c))"@)->Some_0,
        },
        RewriteModel {
            name: "distribute-lft1-in"@,
            lhs: spec_parse_pattern("(+ (* ?b ?a) ?a)"@)->Some_0,
            rhs: spec_parse_pattern("(* (+ ?b 1) ?a)"@)->Some_0,
        },
        RewriteModel {
            name: "distribute-rgt1-in"@,
            lhs: spec_parse_pattern("(+ ?a (* ?c ?a))"@)->Some_0,
            rhs: spec_parse_pattern("(* (+ ?c 1) ?a)"@)->Some_0,
        },
    ] }
}

/// The rule tuples of the `distributivity` group.
pub open spec fn group_tuples_32() -> Seq<(&'static str, &'static str, &'static str)> {
    seq![
        ("distribute-lft-in", "(* ?a (+ ?b ?c))", "(+ (* ?a ?b) (* ?a ?c))"),
        ("distribute-rgt-in", "(* ?a (+ ?b ?c))", "(+ (* ?b ?a) (* ?c ?a))"),
        ("distribute-lft-out", "(+ (* ?a ?b) (* ?a ?c))", "(* ?a (+ ?b ?c))"),
        ("distribute-lft-out--", "(- (* ?a ?b) (* ?a ?c))", "(* ?a (- ?b ?c))"),
        ("distribute-rgt-out", "(+ (* ?b ?a) (* ?c ?a))", "(* ?a (+ ?b ?c))"),
        ("distribute-rgt-out--", "(- (* ?b ?a) (* ?c ?a))", "(* ?a (- ?b ?c))"),
        ("distribute-lft1-in", "(+ (* ?b ?a) ?a)", "(* (+ ?b 1) ?a)"),
        ("distribute-rgt1-in", "(+ ?a (* ?c ?a))", "(* (+ ?c 1) ?a)"),
    ]
}

/// The `counting` group of the corpus.
pub open spec fn corpus_group_33() -> RuleGroupModel {
    RuleGroupModel { name: "counting"@, rules: seq![
        RewriteModel {
            name: "count-2"@,
            lhs: spec_parse_pattern("(+ ?x ?x)"@)->Some_0,
            rhs: spec_parse_pattern("(* 2 ?x)"@)->Some_0,
        },
    ] }
}

/// The rule tuples of the `counting` group.
pub open spec fn group_tuples_33() -> Seq<(&'static str, &'static str, &'static str)> {
    seq![
        ("count-2", "(+ ?x ?x)", "(* 2 ?x)"),
    ]
}

/// The `associativity.c` group of the corpus.
pub open spec fn corpus_group_34() -> RuleGroupModel {
    RuleGroupModel { name: "associativity.c"@, rules: seq![
        RewriteModel {
            name: "associate-+r+.c"@,
            lhs: spec_parse_pattern("(+.c ?a (+.c ?b ?c))"@)->Some_0,
            rhs: spec_parse_pattern("(+.c (+.c ?a ?b) ?c)"@)->Some_0,
        },
        RewriteModel {
            name: "associate-+l+.c"@,
            lhs: spec_parse_pattern("(+.c (+.c ?a ?b) ?c)"@)->Some_0,
            rhs: spec_parse_pattern("(+.c ?a (+.c ?b ?c))"@)->Some_0,
        },
        RewriteModel {
            name: "associate-+r-.c"@,
            lhs: spec_parse_pattern("(+.c ?a (-.c ?b ?c))"@)->Some_0,
            rhs: spec_parse_pattern("(-.c (+.c ?a ?b) ?c)"@)->Some_0,
        },
        RewriteModel {
            name: "associate-+l-.c"@,
            lhs: spec_parse_pattern("(+.c (-.c ?a ?b) ?c)"@)->Some_0,
            rhs: spec_parse_pattern("(-.c ?a (-.c ?b ?c))"@)->Some_0,
        },
        RewriteModel {
            name: "associate--r+.c"@,
            lhs: spec_parse_pattern("(-.c ?a (+.c ?b ?c))"@)->Some_0,
            rhs: spec_parse_pattern("(-.c (-.c ?a ?b) ?c)"@)->Some_0,
        },
        RewriteModel {
            name: "associate--l+.c"@,
            lhs: spec_parse_pattern("(-.c (+.c ?a ?b) ?c)"@)->Some_0,
            rhs: spec_parse_pattern("(+.c ?a (-.c ?b ?c))"@)->Some_0,
        },
        RewriteModel {
            name: "associate--l-.c"@,
            lhs: spec_parse_pattern("(-.c (-.c ?a ?b) ?c)"@)->Some_0,
            rhs: spec_parse_pattern("(-.c ?a (+.c ?b ?c))"@)->Some_0,
        },
        RewriteModel {
            name: "associate--r-.c"@,
            lhs: spec_parse_pattern("(-.c ?a (-.c ?b ?c))"@)->Some_0,
            rhs: spec_parse_pattern("(+.c (-.c ?a ?b) ?c)"@)->Some_0,
        },
        RewriteModel {
            name: "associate-*r*.c"@,
            lhs: spec_parse_pattern("(*.c ?a (*.c ?b ?c))"@)->Some_0,
            rhs: spec_parse_pattern("(*.c (*.c ?a ?b) ?c)"@)->Some_0,
        },
        RewriteModel {
            name: "associate-*l*.c"@,
            lhs: spec_parse_pattern("(*.c (*.c ?a ?b) ?c)"@)->Some_0,
            rhs: spec_parse_pattern("(*.c ?a (*.c ?b ?c))"@)->Some_0,
        },
        RewriteModel {
            name: "associate-*r/.c"@,
            lhs: spec_parse_pattern("(*.c ?a (/.c ?b ?c))"@)->Some_0,
            rhs: spec_parse_pattern("(/.c (*.c ?a ?b) ?c)"@)->Some_0,
        },
        RewriteModel {
            name: "associate-*l/.c"@,
            lhs: spec_parse_pattern("(*.c (/.c ?a ?b) ?c)"@)->Some_0,
            rhs: spec_parse_pattern("(/.c (*.c ?a ?c) ?b)"@)->Some_0,
        },
        RewriteModel {
            name: "associate-/r*.c"@,
            lhs: spec_parse_pattern("(/.c ?a (*.c ?b ?c))"@)->Some_0,
            rhs: spec_parse_pattern("(/.c (/.c ?a ?b) ?c)"@)->Some_0,
        },
        RewriteModel {
            name: "associate-/l*.c"@,
            lhs: spec_parse_pattern("(/.c (*.c ?b ?c) ?a)"@)->Some_0,
            rhs: spec_parse_pattern("(/.c ?b (/.c ?a ?c))"@)->Some_0,
        },
        RewriteModel {
            name: "associate-/r/.c"@,
            lhs: spec_parse_pattern("(/.c ?a (/.c ?b ?c))"@)->Some_0,
            rhs: spec_parse_pattern("(*.c (/.c ?a ?b) ?c)"@)->Some_0,
        },
        RewriteModel {
            name: "associate-/l/.c"@,
            lhs: spec_parse_pattern("(/.c (/.c ?b ?c) ?a)"@)->Some_0,
            rhs: spec_parse_pattern("(/.c ?b (*.c ?a ?c))"@)->Some_0,
        },
        RewriteModel {
            name: "sub-neg.c"@,
            lhs: spec_parse_pattern("(-.c ?a ?b)"@)->Some_0,
            rhs: spec_parse_pattern("(+.c ?a (neg.c ?b))"@)->Some_0,
        },
        RewriteModel {
            name: "unsub-neg.c"@,
            lhs: spec_parse_pattern("(+.c ?a (neg.c ?b))"@)->Some_0,
            rhs: spec_parse_pattern("(-.c ?a ?b)"@)->Some_0,
        },
    ] }
}

/// The rule tuples of the `associativity.c` group.
pub open spec fn group_tuples_34() -> Seq<(&'static str, &'static str, &'static str)> {
    seq![
        ("associate-+r+.c", "(+.c ?a (+.c ?b ?c))", "(+.c (+.c ?a ?b) ?c)"),
        ("associate-+l+.c", "(+.c (+.c ?a ?b) ?c)", "(+.c ?a (+.c ?b ?c))"),
        ("associate-+r-.c", "(+.c ?a (-.c ?b ?c))", "(-.c (+.c ?a ?b) ?c)"),
        ("associate-+l-.c", "(+.c (-.c ?a ?b) ?c)", "(-.c ?a (-.c ?b ?c))"),
        ("associate--r+.c", "(-.c ?a (+.c ?b ?c))", "(-.c (-.c ?a ?b) ?c)"),
        ("associate--l+.c", "(-.c (+.c ?a ?b) ?c)", "(+.c ?a (-.c ?b ?c))"),
        ("associate--l-.c", "(-.c (-.c ?a ?b) ?c)", "(-.c ?a (+.c ?b ?c))"),
        ("associate--r-.c", "(-.c ?a (-.c ?b ?c))", "(+.c (-.c ?a ?b) ?c)"),
        ("associate-*r*.c", "(*.c ?a (*.c ?b ?c))", "(*.c (*.c ?a ?b) ?c)"),
        ("associate-*l*.c", "(*.c (*.c ?a ?b) ?c)", "(*.c ?a (*.c ?b ?c))"),
        ("associate-*r/.c", "(*.c ?a (/.c ?b ?c))", "(/.c (*.c ?a ?b) ?c)"),
        ("associate-*l/.c", "(*.c (/.c ?a ?b) ?c)", "(/.c (*.c ?a ?c) ?b)"),
        ("associate-/r*.c", "(/.c ?a (*.c ?b ?c))", "(/.c (/.c ?a ?b) ?c)"),
        ("associate-/l*.c", "(/.c (*.c ?b ?c) ?a)", "(/.c ?b (/.c ?a ?c))"),
        ("associate-/r/.c", "(/.c ?a (/.c ?b ?c))", "(*.c (/.c ?a ?b) ?c)"),
        ("associate-/l/.c", "(/.c (/.c ?b ?c) ?a)", "(/.c ?b (*.c ?a ?c))"),
        ("sub-neg.c", "(-.c ?a ?b)", "(+.c ?a (neg.c ?b))"),
        ("unsub-neg.c", "(+.c ?a (neg.c ?b))", "(-.c ?a ?b)"),
    ]
}

/// The `associativity` group of the corpus.
pub open spec fn corpus_group_35() -> RuleGroupModel {
    RuleGroupModel { name: "associativity"@, rules: seq![
        RewriteModel {
            name: "associate-+r+"@,
            lhs: spec_parse_pattern("(+ ?a (+ ?b ?c))"@)->Some_0,
            rhs: spec_parse_pattern("(+ (+ ?a ?b) ?c)"@)->Some_0,
        },
        RewriteModel {
            name: "associate-+l+"@,
            lhs: spec_parse_pattern("(+ (+ ?a ?b) ?c)"@)->Some_0,
            rhs: spec_parse_pattern("(+ ?a (+ ?b ?c))"@)->Some_0,
        },
        RewriteModel {
            name: "associate-+r-"@,
            lhs: spec_parse_pattern("(+ ?a (- ?b ?c))"@)->Some_0,
            rhs: spec_parse_pattern("(- (+ ?a ?b) ?c)"@)->Some_0,
        },
        RewriteModel {
            name: "associate-+l-"@,
            lhs: spec_parse_pattern("(+ (- ?a ?b) ?c)"@)->Some_0,
            rhs: spec_parse_pattern("(- ?a (- ?b ?c))"@)->Some_0,
        },
        RewriteModel {
            name: "associate--r+"@,
            lhs: spec_parse_pattern("(- ?a (+ ?b ?c))"@)->Some_0,
            rhs: spec_parse_pattern("(- (- ?a ?b) ?c)"@)->Some_0,
        },
        RewriteModel {
            name: "associate--l+"@,
            lhs: spec_parse_pattern("(- (+ ?a ?b) ?c)"@)->Some_0,
            rhs: spec_parse_pattern("(+ ?a (- ?b ?c))"@)->Some_0,
        },
        RewriteModel {
            name: "associate--l-"@,
            lhs: spec_parse_pattern("(- (- ?a ?b) ?c)"@)->Some_0,
            rhs: spec_parse_pattern("(- ?a (+ ?b ?c))"@)->Some_0,
        },
        RewriteModel {
            name: "associate--r-"@,
            lhs: spec_parse_pattern("(- ?a (- ?b ?c))"@)->Some_0,
            rhs: spec_parse_pattern("(+ (- ?a ?b) ?c)"@)->Some_0,
        },
        RewriteModel {
            name: "associate-*r*"@,
            lhs: spec_parse_pattern("(* ?a (* ?b ?c))"@)->Some_0,
            rhs: spec_parse_pattern("(* (* ?a ?b) ?c)"@)->Some_0,
        },
        RewriteModel {
            name: "associate-*l*"@,
            lhs: spec_parse_pattern("(* (* ?a ?b) ?c)"@)->Some_0,
            rhs: spec_parse_pattern("(* ?a (* ?b ?c))"@)->Some_0,
        },
        RewriteModel {
            name: "associate-*r/"@,
            lhs: spec_parse_pattern("(* ?a (/ ?b ?c))"@)->Some_0,
            rhs: spec_parse_pattern("(/ (* ?a ?b) ?c)"@)->Some_0,
        },
        RewriteModel {
            name: "associate-*l/"@,
            lhs: spec_parse_pattern("(* (/ ?a ?b) ?c)"@)->Some_0,
            rhs: spec_parse_pattern("(/ (* ?a ?c) ?b)"@)->Some_0,
        },
        RewriteModel {
            name: "associate-/r*"@,
            lhs: spec_parse_pattern("(/ ?a (* ?b ?c))"@)->Some_0,
            rhs: spec_parse_pattern("(/ (/ ?a ?b) ?c)"@)->Some_0,
        },
        RewriteModel {
            name: "associate-/l*"@,
            lhs: spec_parse_pattern("(/ (* ?b ?c) ?a)"@)->Some_0,
            rhs: spec_parse_pattern("(/ ?b (/ ?a ?c))"@)->Some_0,
        },
        RewriteModel {
            name: "associate-/r/"@,
            lhs: spec_parse_pattern("(/ ?a (/ ?b ?c))"@)->Some_0,
            rhs: spec_parse_pattern("(* (/ ?a ?b) ?c)"@)->Some_0,
        },
        RewriteModel {
            name: "associate-/l/"@,
            lhs: spec_parse_pattern("(/ (/ ?b ?c) ?a)"@)->Some_0,
            rhs: spec_parse_pattern("(/ ?b (* ?a ?c))"@)->Some_0,
        },
        RewriteModel {
            name: "sub-neg"@,
            lhs: spec_parse_pattern("(- ?a ?b)"@)->Some_0,
            rhs: spec_parse_pattern("(+ ?a (neg ?b))"@)->Some_0,
        },
        RewriteModel {
            name: "unsub-neg"@,
            lhs: spec_parse_pattern("(+ ?a (neg ?b))"@)->Some_0,
            rhs: spec_parse_pattern("(- ?a ?b)"@)->Some_0,
        },
    ] }
}

/// The rule tuples of the `associativity` group.
pub open spec fn group_tuples_35() -> Seq<(&'static str, &'static str, &'static str)> {
    seq![
        ("associate-+r+", "(+ ?a (+ ?b ?c))", "(+ (+ ?a ?b) ?c)"),
        ("associate-+l+", "(+ (+ ?a ?b) ?c)", "(+ ?a (+ ?b ?c))"),
        ("associate-+r-", "(+ ?a (- ?b ?c))", "(- (+ ?a ?b) ?c)"),
        ("associate-+l-", "(+ (- ?a ?b) ?c)", "(- ?a (- ?b ?c))"),
        ("associate--r+", "(- ?a (+ ?b ?c))", "(- (- ?a ?b) ?c)"),
        ("associate--l+", "(- (+ ?a ?b) ?c)", "(+ ?a (- ?b ?c))"),
        ("associate--l-", "(- (- ?a ?b) ?c)", "(- ?a (+ ?b ?c))"),
        ("associate--r-", "(- ?a (- ?b ?c))", "(+ (- ?a ?b) ?c)"),
        ("associate-*r*", "(* ?a (* ?b ?c))", "(* (* ?a ?b) ?c)"),
        ("associate-*l*", "(* (* ?a ?b) ?c)", "(* ?a (* ?b ?c))"),
        ("associate-*r/", "(* ?a (/ ?b ?c))", "(/ (* ?a ?b) ?c)"),
        ("associate-*l/", "(* (/ ?a ?b) ?c)", "(/ (* ?a ?c) ?b)"),
        ("associate-/r*", "(/ ?a (* ?b ?c))", "(/ (/ ?a ?b) ?c)"),
        ("associate-/l*", "(/ (* ?b ?c) ?a)", "(/ ?b (/ ?a ?c))"),
        ("associate-/r/", "(/ ?a (/ ?b ?c))", "(* (/ ?a ?b) ?c)"),
        ("associate-/l/", "(/ (/ ?b ?c) ?a)", "(/ ?b (* ?a ?c))"),
        ("sub-neg", "(- ?a ?b)", "(+ ?a (neg ?b))"),
        ("unsub-neg", "(+ ?a (neg ?b))", "(- ?a ?b)"),
    ]
}

/// The `commutativity.c` group of the corpus.
pub open spec fn corpus_group_36() -> RuleGroupModel {
    RuleGroupModel { name: "commutativity.c"@, rules: seq![
        RewriteModel {
            name: "+.c-commutative"@,
            lhs: spec_parse_pattern("(+.c ?a ?b)"@)->Some_0,
            rhs: spec_parse_pattern("(+.c ?b ?a)"@)->Some_0,
        },
        RewriteModel {
            name: "*.c-commutative"@,
            lhs: spec_parse_pattern("(*.c ?a ?b)"@)->Some_0,
            rhs: spec_parse_pattern("(*.c ?b ?a)"@)->Some_0,
        },
    ] }
}

/// The rule tuples of the `commutativity.c` group.
pub open spec fn group_tuples_36() -> Seq<(&'static str, &'static str, &'static str)> {
    seq![
        ("+.c-commutative", "(+.c ?a ?b)", "(+.c ?b ?a)"),
        ("*.c-commutative", "(*.c ?a ?b)", "(*.c ?b ?a)"),
    ]
}

/// The `commutativity` group of the corpus.
pub open spec fn corpus_group_37() -> RuleGroupModel {
    RuleGroupModel { name: "commutativity"@, rules: seq![
        RewriteModel {
            name: "+-commutative"@,
            lhs: spec_parse_pattern("(+ ?a ?b)"@)->Some_0,
            rhs: spec_parse_pattern("(+ ?b ?a)"@)->Some_0,
        },
        RewriteModel {
            name: "*-commutative"@,
            lhs: spec_parse_pattern("(* ?a ?b)"@)->Some_0,
            rhs: spec_parse_pattern("(* ?b ?a)"@)->Some_0,
        },
    ] }
}

/// The rule tuples of the `commutativity` group.
pub open spec fn group_tuples_37() -> Seq<(&'static str, &'static str, &'static str)> {
    seq![
        ("+-commutative", "(+ ?a ?b)", "(+ ?b ?a)"),
        ("*-commutative", "(* ?a ?b)", "(* ?b ?a)"),
    ]
}

/// The whole built-in corpus: every rule group, in order, each rule the
/// model that `mk_rules` gives its `(name, left, right)` literals.
pub open spec fn corpus_spec() -> Seq<RuleGroupModel> {
    seq![
        corpus_group_0(),
        corpus_group_1(),
        corpus_group_2(),
        corpus_group_3(),
        corpus_group_4(),
        corpus_group_5(),
        corpus_group_6(),
        corpus_group_7(),
        corpus_group_8(),
        corpus_group_9(),
        corpus_group_10(),
        corpus_group_11(),
        corpus_group_12(),
        corpus_group_13(),
        corpus_group_14(),
        corpus_group_15(),
        corpus_group_16(),
        corpus_group_17(),
        corpus_group_18(),
        corpus_group_19(),
        corpus_group_20(),
        corpus_group_21(),
        corpus_group_22(),
        corpus_group_23(),
        corpus_group_24(),
        corpus_group_25(),
        corpus_group_26(),
        corpus_group_27(),
        corpus_group_28(),
        corpus_group_29(),
        corpus_group_30(),
        corpus_group_31(),
        corpus_group_32(),
        corpus_group_33(),
        corpus_group_34(),
        corpus_group_35(),
        corpus_group_36(),
        corpus_group_37(),
    ]
}

/// Whether every rule tuple of the corpus is well formed: both of its
/// patterns parse over the vocabulary, and its right side only uses
/// variables its left side binds.
pub open spec fn corpus_rules_ok() -> bool {
    (forall|i: int| 0 <= i < group_tuples_0().len() ==> rule_ok(#[trigger] group_tuples_0()[i]))
        && (forall|i: int| 0 <= i < group_tuples_1().len() ==> rule_ok(#[trigger] group_tuples_1()[i]))
        && (forall|i: int| 0 <= i < group_tuples_2().len() ==> rule_ok(#[trigger] group_tuples_2()[i]))
        && (forall|i: int| 0 <= i < group_tuples_3().len() ==> rule_ok(#[trigger] group_tuples_3()[i]))
        && (forall|i: int| 0 <= i < group_tuples_4().len() ==> rule_ok(#[trigger] group_tuples_4()[i]))
        && (forall|i: int| 0 <= i < group_tuples_5().len() ==> rule_ok(#[trigger] group_tuples_5()[i]))
        && (forall|i: int| 0 <= i < group_tuples_6().len() ==> rule_ok(#[trigger] group_tuples_6()[i]))
        && (forall|i: int| 0 <= i < group_tuples_7().len() ==> rule_ok(#[trigger] group_tuples_7()[i]))
        && (forall|i: int| 0 <= i < group_tuples_8().len() ==> rule_ok(#[trigger] group_tuples_8()[i]))
        && (forall|i: int| 0 <= i < group_tuples_9().len() ==> rule_ok(#[trigger] group_tuples_9()[i]))
        && (forall|i: int| 0 <= i < group_tuples_10().len() ==> rule_ok(#[trigger] group_tuples_10()[i]))
        && (forall|i: int| 0 <= i < group_tuples_11().len() ==> rule_ok(#[trigger] group_tuples_11()[i]))
        && (forall|i: int| 0 <= i < group_tuples_12().len() ==> rule_ok(#[trigger] group_tuples_12()[i]))
        && (forall|i: int| 0 <= i < group_tuples_13().len() ==> rule_ok(#[trigger] group_tuples_13()[i]))
        && (forall|i: int| 0 <= i < group_tuples_14().len() ==> rule_ok(#[trigger] group_tuples_14()[i]))
        && (forall|i: int| 0 <= i < group_tuples_15().len() ==> rule_ok(#[trigger] group_tuples_15()[i]))
        && (forall|i: int| 0 <= i < group_tuples_16().len() ==> rule_ok(#[trigger] group_tuples_16()[i]))
        && (forall|i: int| 0 <= i < group_tuples_17().len() ==> rule_ok(#[trigger] group_tuples_17()[i]))
        && (forall|i: int| 0 <= i < group_tuples_18().len() ==> rule_ok(#[trigger] group_tuples_18()[i]))
        && (forall|i: int| 0 <= i < group_tuples_19().len() ==> rule_ok(#[trigger] group_tuples_19()[i]))
        && (forall|i: int| 0 <= i < group_tuples_20().len() ==> rule_ok(#[trigger] group_tuples_20()[i]))
        && (forall|i: int| 0 <= i < group_tuples_21().len() ==> rule_ok(#[trigger] group_tuples_21()[i]))
        && (forall|i: int| 0 <= i < group_tuples_22().len() ==> rule_ok(#[trigger] group_tuples_22()[i]))
        && (forall|i: int| 0 <= i < group_tuples_23().len() ==> rule_ok(#[trigger] group_tuples_23()[i]))
        && (forall|i: int| 0 <= i < group_tuples_24().len() ==> rule_ok(#[trigger] group_tuples_24()[i]))
        && (forall|i: int| 0 <= i < group_tuples_25().len() ==> rule_ok(#[trigger] group_tuples_25()[i]))
        && (forall|i: int| 0 <= i < group_tuples_26().len() ==> rule_ok(#[trigger] group_tuples_26()[i]))
        && (forall|i: int| 0 <= i < group_tuples_27().len() ==> rule_ok(#[trigger] group_tuples_27()[i]))
        && (forall|i: int| 0 <= i < group_tuples_28().len() ==> rule_ok(#[trigger] group_tuples_28()[i]))
        && (forall|i: int| 0 <= i < group_tuples_29().len() ==> rule_ok(#[trigger] group_tuples_29()[i]))
        && (forall|i: int| 0 <= i < group_tuples_30().len() ==> rule_ok(#[trigger] group_tuples_30()[i]))
        && (forall|i: int| 0 <= i < group_tuples_31().len() ==> rule_ok(#[trigger] group_tuples_31()[i]))
        && (forall|i: int| 0 <= i < group_tuples_32().len() ==> rule_ok(#[trigger] group_tuples_32()[i]))
        && (forall|i: int| 0 <= i < group_tuples_33().len() ==> rule_ok(#[trigger] group_tuples_33()[i]))
        && (forall|i: int| 0 <= i < group_tuples_34().len() ==> rule_ok(#[trigger] group_tuples_34()[i]))
        && (forall|i: int| 0 <= i < group_tuples_35().len() ==> rule_ok(#[trigger] group_tuples_35()[i]))
        && (forall|i: int| 0 <= i < group_tuples_36().len() ==> rule_ok(#[trigger] group_tuples_36()[i]))
        && (forall|i: int| 0 <= i < group_tuples_37().len() ==> rule_ok(#[trigger] group_tuples_37()[i]))
}

/// The thirty-eight group names of the corpus are pairwise distinct.
#[verifier::rlimit(100)]
pub proof fn lemma_corpus_names_distinct()
    ensures
        distinct_seqs(group_names(corpus_spec())),
{
    reveal_strlit("erf-rules");
    reveal_strlit("complex-number-basics");
    reveal_strlit("branch-reduce");
    reveal_strlit("compare-reduce");
    reveal_strlit("bool-reduce");
    reveal_strlit("htrig-reduce");
    reveal_strlit("trig-reduce-fp-sound-nan");
    reveal_strlit("trig-reduce-fp-sound");
    reveal_strlit("trig-reduce");
    reveal_strlit("log-distribute-fp-safe");
    reveal_strlit("log-distribute");
    reveal_strlit("pow-canonicalize");
    reveal_strlit("pow-reduce-fp-safe-nan");
    reveal_strlit("pow-reduce-fp-safe");
    reveal_strlit("pow-reduce");
    reveal_strlit("exp-factor");
    reveal_strlit("exp-distribute");
    reveal_strlit("exp-constants");
    reveal_strlit("exp-reduce");
    reveal_strlit("cubes-canonicalize");
    reveal_strlit("cubes-distribute");
    reveal_strlit("cubes-reduce");
    reveal_strlit("squares-reduce-fp-sound");
    reveal_strlit("squares-reduce");
    reveal_strlit("fractions-distribute.c");
    reveal_strlit("fractions-distribute");
    reveal_strlit("id-reduce-fp-safe");
    reveal_strlit("id-reduce-fp-safe-nan");
    reveal_strlit("id-reduce");
    reveal_strlit("difference-of-squares-canonicalize");
    reveal_strlit("distributivity-fp-safe");
    reveal_strlit("distributivity.c");
    reveal_strlit("distributivity");
    reveal_strlit("counting");
    reveal_strlit("associativity.c");
    reveal_strlit("associativity");
    reveal_strlit("commutativity.c");
    reveal_strlit("commutativity");
    assert("erf-rules"@.len() == 9);
    assert("complex-number-basics"@.len() == 21);
    assert("branch-reduce"@.len() == 13);
    assert("compare-reduce"@.len() == 14);
    assert("bool-reduce"@.len() == 11);
    assert("htrig-reduce"@.len() == 12);
    assert("trig-reduce-fp-sound-nan"@.len() == 24);
    assert("trig-reduce-fp-sound"@.len() == 20);
    assert("trig-reduce"@.len() == 11);
    assert("log-distribute-fp-safe"@.len() == 22);
    assert("log-distribute"@.len() == 14);
    assert("pow-canonicalize"@.len() == 16);
    assert("pow-reduce-fp-safe-nan"@.len() == 22);
    assert("pow-reduce-fp-safe"@.len() == 18);
    assert("pow-reduce"@.len() == 10);
    assert("exp-factor"@.len() == 10);
    assert("exp-distribute"@.len() == 14);
    assert("exp-constants"@.len() == 13);
    assert("exp-reduce"@.len() == 10);
    assert("cubes-canonicalize"@.len() == 18);
    assert("cubes-distribute"@.len() == 16);
    assert("cubes-reduce"@.len() == 12);
    assert("squares-reduce-fp-sound"@.len() == 23);
    assert("squares-reduce"@.len() == 14);
    assert("fractions-distribute.c"@.len() == 22);
    assert("fractions-distribute"@.len() == 20);
    assert("id-reduce-fp-safe"@.len() == 17);
    assert("id-reduce-fp-safe-nan"@.len() == 21);
    assert("id-reduce"@.len() == 9);
    assert("difference-of-squares-canonicalize"@.len() == 34);
    assert("distributivity-fp-safe"@.len() == 22);
    assert("distributivity.c"@.len() == 16);
    assert("distributivity"@.len() == 14);
    assert("counting"@.len() == 8);
    assert("associativity.c"@.len() == 15);
    assert("associativity"@.len() == 13);
    assert("commutativity.c"@.len() == 15);
    assert("commutativity"@.len() == 13);
    assert("complex-number-basics"@ != "erf-rules"@);
    assert("branch-reduce"@ != "erf-rules"@);
    assert("branch-reduce"@ != "complex-number-basics"@);
    assert("compare-reduce"@ != "erf-rules"@);
    assert("compare-reduce"@ != "complex-number-basics"@);
    assert("compare-reduce"@ != "branch-reduce"@);
    assert("bool-reduce"@ != "erf-rules"@);
    assert("bool-reduce"@ != "complex-number-basics"@);
    assert("bool-reduce"@ != "branch-reduce"@);
    assert("bool-reduce"@ != "compare-reduce"@);
    assert("htrig-reduce"@ != "erf-rules"@);
    assert("htrig-reduce"@ != "complex-number-basics"@);
    assert("htrig-reduce"@ != "branch-reduce"@);
    assert("htrig-reduce"@ != "compare-reduce"@);
    assert("htrig-reduce"@ != "bool-reduce"@);
    assert("trig-reduce-fp-sound-nan"@ != "erf-rules"@);
    assert("trig-reduce-fp-sound-nan"@ != "complex-number-basics"@);
    assert("trig-reduce-fp-sound-nan"@ != "branch-reduce"@);
    assert("trig-reduce-fp-sound-nan"@ != "compare-reduce"@);
    assert("trig-reduce-fp-sound-nan"@ != "bool-reduce"@);
    assert("trig-reduce-fp-sound-nan"@ != "htrig-reduce"@);
    assert("trig-reduce-fp-sound"@ != "erf-rules"@);
    assert("trig-reduce-fp-sound"@ != "complex-number-basics"@);
    assert("trig-reduce-fp-sound"@ != "branch-reduce"@);
    assert("trig-reduce-fp-sound"@ != "compare-reduce"@);
    assert("trig-reduce-fp-sound"@ != "bool-reduce"@);
    assert("trig-reduce-fp-sound"@ != "htrig-reduce"@);
    assert("trig-reduce-fp-sound"@ != "trig-reduce-fp-sound-nan"@);
    assert("trig-reduce"@ != "erf-rules"@);
    assert("trig-reduce"@ != "complex-number-basics"@);
    assert("trig-reduce"@ != "branch-reduce"@);
    assert("trig-reduce"@ != "compare-reduce"@);
    assert("trig-reduce"@[0] != "bool-reduce"@[0]);
    assert("trig-reduce"@ != "bool-reduce"@);
    assert("trig-reduce"@ != "htrig-reduce"@);
    assert("trig-reduce"@ != "trig-reduce-fp-sound-nan"@);
    assert("trig-reduce"@ != "trig-reduce-fp-sound"@);
    assert("log-distribute-fp-safe"@ != "erf-rules"@);
    assert("log-distribute-fp-safe"@ != "complex-number-basics"@);
    assert("log-distribute-fp-safe"@ != "branch-reduce"@);
    assert("log-distribute-fp-safe"@ != "compare-reduce"@);
    assert("log-distribute-fp-safe"@ != "bool-reduce"@);
    assert("log-distribute-fp-safe"@ != "htrig-reduce"@);
    assert("log-distribute-fp-safe"@ != "trig-reduce-fp-sound-nan"@);
    assert("log-distribute-fp-safe"@ != "trig-reduce-fp-sound"@);
    assert("log-distribute-fp-safe"@ != "trig-reduce"@);
    assert("log-distribute"@ != "erf-rules"@);
    assert("log-distribute"@ != "complex-number-basics"@);
    assert("log-distribute"@ != "branch-reduce"@);
    assert("log-distribute"@[0] != "compare-reduce"@[0]);
    assert("log-distribute"@ != "compare-reduce"@);
    assert("log-distribute"@ != "bool-reduce"@);
    assert("log-distribute"@ != "htrig-reduce"@);
    assert("log-distribute"@ != "trig-reduce-fp-sound-nan"@);
    assert("log-distribute"@ != "trig-reduce-fp-sound"@);
    assert("log-distribute"@ != "trig-reduce"@);
    assert("log-distribute"@ != "log-distribute-fp-safe"@);
    assert("pow-canonicalize"@ != "erf-rules"@);
    assert("pow-canonicalize"@ != "complex-number-basics"@);
    assert("pow-canonicalize"@ != "branch-reduce"@);
    assert("pow-canonicalize"@ != "compare-reduce"@);
    assert("pow-canonicalize"@ != "bool-reduce"@);
    assert("pow-canonicalize"@ != "htrig-reduce"@);
    assert("pow-canonicalize"@ != "trig-reduce-fp-sound-nan"@);
    assert("pow-canonicalize"@ != "trig-reduce-fp-sound"@);
    assert("pow-canonicalize"@ != "trig-reduce"@);
    assert("pow-canonicalize"@ != "log-distribute-fp-safe"@);
    assert("pow-canonicalize"@ != "log-distribute"@);
    assert("pow-reduce-fp-safe-nan"@ != "erf-rules"@);
    assert("pow-reduce-fp-safe-nan"@ != "complex-number-basics"@);
    assert("pow-reduce-fp-safe-nan"@ != "branch-reduce"@);
    assert("pow-reduce-fp-safe-nan"@ != "compare-reduce"@);
    assert("pow-reduce-fp-safe-nan"@ != "bool-reduce"@);
    assert("pow-reduce-fp-safe-nan"@ != "htrig-reduce"@);
    assert("pow-reduce-fp-safe-nan"@ != "trig-reduce-fp-sound-nan"@);
    assert("pow-reduce-fp-safe-nan"@ != "trig-reduce-fp-sound"@);
    assert("pow-reduce-fp-safe-nan"@ != "trig-reduce"@);
    assert("pow-reduce-fp-safe-nan"@[0] != "log-distribute-fp-safe"@[0]);
    assert("pow-reduce-fp-safe-nan"@ != "log-distribute-fp-safe"@);
    assert("pow-reduce-fp-safe-nan"@ != "log-distribute"@);
    assert("pow-reduce-fp-safe-nan"@ != "pow-canonicalize"@);
    assert("pow-reduce-fp-safe"@ != "erf-rules"@);
    assert("pow-reduce-fp-safe"@ != "complex-number-basics"@);
    assert("pow-reduce-fp-safe"@ != "branch-reduce"@);
    assert("pow-reduce-fp-safe"@ != "compare-reduce"@);
    assert("pow-reduce-fp-safe"@ != "bool-reduce"@);
    assert("pow-reduce-fp-safe"@ != "htrig-reduce"@);
    assert("pow-reduce-fp-safe"@ != "trig-reduce-fp-sound-nan"@);
    assert("pow-reduce-fp-safe"@ != "trig-reduce-fp-sound"@);
    assert("pow-reduce-fp-safe"@ != "trig-reduce"@);
    assert("pow-reduce-fp-safe"@ != "log-distribute-fp-safe"@);
    assert("pow-reduce-fp-safe"@ != "log-distribute"@);
    assert("pow-reduce-fp-safe"@ != "pow-canonicalize"@);
    assert("pow-reduce-fp-safe"@ != "pow-reduce-fp-safe-nan"@);
    assert("pow-reduce"@ != "erf-rules"@);
    assert("pow-reduce"@ != "complex-number-basics"@);
    assert("pow-reduce"@ != "branch-reduce"@);
    assert("pow-reduce"@ != "compare-reduce"@);
    assert("pow-reduce"@ != "bool-reduce"@);
    assert("pow-reduce"@ != "htrig-reduce"@);
    assert("pow-reduce"@ != "trig-reduce-fp-sound-nan"@);
    assert("pow-reduce"@ != "trig-reduce-fp-sound"@);
    assert("pow-reduce"@ != "trig-reduce"@);
    assert("pow-reduce"@ != "log-distribute-fp-safe"@);
    assert("pow-reduce"@ != "log-distribute"@);
    assert("pow-reduce"@ != "pow-canonicalize"@);
    assert("pow-reduce"@ != "pow-reduce-fp-safe-nan"@);
    assert("pow-reduce"@ != "pow-reduce-fp-safe"@);
    assert("exp-factor"@ != "erf-rules"@);
    assert("exp-factor"@ != "complex-number-basics"@);
    assert("exp-factor"@ != "branch-reduce"@);
    assert("exp-factor"@ != "compare-reduce"@);
    assert("exp-factor"@ != "bool-reduce"@);
    assert("exp-factor"@ != "htrig-reduce"@);
    assert("exp-factor"@ != "trig-reduce-fp-sound-nan"@);
    assert("exp-factor"@ != "trig-reduce-fp-sound"@);
    assert("exp-factor"@ != "trig-reduce"@);
    assert("exp-factor"@ != "log-distribute-fp-safe"@);
    assert("exp-factor"@ != "log-distribute"@);
    assert("exp-factor"@ != "pow-canonicalize"@);
    assert("exp-factor"@ != "pow-reduce-fp-safe-nan"@);
    assert("exp-factor"@ != "pow-reduce-fp-safe"@);
    assert("exp-factor"@[0] != "pow-reduce"@[0]);
    assert("exp-factor"@ != "pow-reduce"@);
    assert("exp-distribute"@ != "erf-rules"@);
    assert("exp-distribute"@ != "complex-number-basics"@);
    assert("exp-distribute"@ != "branch-reduce"@);
    assert("exp-distribute"@[0] != "compare-reduce"@[0]);
    assert("exp-distribute"@ != "compare-reduce"@);
    assert("exp-distribute"@ != "bool-reduce"@);
    assert("exp-distribute"@ != "htrig-reduce"@);
    assert("exp-distribute"@ != "trig-reduce-fp-sound-nan"@);
    assert("exp-distribute"@ != "trig-reduce-fp-sound"@);
    assert("exp-distribute"@ != "trig-reduce"@);
    assert("exp-distribute"@ != "log-distribute-fp-safe"@);
    assert("exp-distribute"@[0] != "log-distribute"@[0]);
    assert("exp-distribute"@ != "log-distribute"@);
    assert("exp-distribute"@ != "pow-canonicalize"@);
    assert("exp-distribute"@ != "pow-reduce-fp-safe-nan"@);
    assert("exp-distribute"@ != "pow-reduce-fp-safe"@);
    assert("exp-distribute"@ != "pow-reduce"@);
    assert("exp-distribute"@ != "exp-factor"@);
    assert("exp-constants"@ != "erf-rules"@);
    assert("exp-constants"@ != "complex-number-basics"@);
    assert("exp-constants"@[0] != "branch-reduce"@[0]);
    assert("exp-constants"@ != "branch-reduce"@);
    assert("exp-constants"@ != "compare-reduce"@);
    assert("exp-constants"@ != "bool-reduce"@);
    assert("exp-constants"@ != "htrig-reduce"@);
    assert("exp-constants"@ != "trig-reduce-fp-sound-nan"@);
    assert("exp-constants"@ != "trig-reduce-fp-sound"@);
    assert("exp-constants"@ != "trig-reduce"@);
    assert("exp-constants"@ != "log-distribute-fp-safe"@);
    assert("exp-constants"@ != "log-distribute"@);
    assert("exp-constants"@ != "pow-canonicalize"@);
    assert("exp-constants"@ != "pow-reduce-fp-safe-nan"@);
    assert("exp-constants"@ != "pow-reduce-fp-safe"@);
    assert("exp-constants"@ != "pow-reduce"@);
    assert("exp-constants"@ != "exp-factor"@);
    assert("exp-constants"@ != "exp-distribute"@);
    assert("exp-reduce"@ != "erf-rules"@);
    assert("exp-reduce"@ != "complex-number-basics"@);
    assert("exp-reduce"@ != "branch-reduce"@);
    assert("exp-reduce"@ != "compare-reduce"@);
    assert("exp-reduce"@ != "bool-reduce"@);
    assert("exp-reduce"@ != "htrig-reduce"@);
    assert("exp-reduce"@ != "trig-reduce-fp-sound-nan"@);
    assert("exp-reduce"@ != "trig-reduce-fp-sound"@);
    assert("exp-reduce"@ != "trig-reduce"@);
    assert("exp-reduce"@ != "log-distribute-fp-safe"@);
    assert("exp-reduce"@ != "log-distribute"@);
    assert("exp-reduce"@ != "pow-canonicalize"@);
    assert("exp-reduce"@ != "pow-reduce-fp-safe-nan"@);
    assert("exp-reduce"@ != "pow-reduce-fp-safe"@);
    assert("exp-reduce"@[0] != "pow-reduce"@[0]);
    assert("exp-reduce"@ != "pow-reduce"@);
    assert("exp-reduce"@[4] != "exp-factor"@[4]);
    assert("exp-reduce"@ != "exp-factor"@);
    assert("exp-reduce"@ != "exp-distribute"@);
    assert("exp-reduce"@ != "exp-constants"@);
    assert("cubes-canonicalize"@ != "erf-rules"@);
    assert("cubes-canonicalize"@ != "complex-number-basics"@);
    assert("cubes-canonicalize"@ != "branch-reduce"@);
    assert("cubes-canonicalize"@ != "compare-reduce"@);
    assert("cubes-canonicalize"@ != "bool-reduce"@);
    assert("cubes-canonicalize"@ != "htrig-reduce"@);
    assert("cubes-canonicalize"@ != "trig-reduce-fp-sound-nan"@);
    assert("cubes-canonicalize"@ != "trig-reduce-fp-sound"@);
    assert("cubes-canonicalize"@ != "trig-reduce"@);
    assert("cubes-canonicalize"@ != "log-distribute-fp-safe"@);
    assert("cubes-canonicalize"@ != "log-distribute"@);
    assert("cubes-canonicalize"@ != "pow-canonicalize"@);
    assert("cubes-canonicalize"@ != "pow-reduce-fp-safe-nan"@);
    assert("cubes-canonicalize"@[0] != "pow-reduce-fp-safe"@[0]);
    assert("cubes-canonicalize"@ != "pow-reduce-fp-safe"@);
    assert("cubes-canonicalize"@ != "pow-reduce"@);
    assert("cubes-canonicalize"@ != "exp-factor"@);
    assert("cubes-canonicalize"@ != "exp-distribute"@);
    assert("cubes-canonicalize"@ != "exp-constants"@);
    assert("cubes-canonicalize"@ != "exp-reduce"@);
    assert("cubes-distribute"@ != "erf-rules"@);
    assert("cubes-distribute"@ != "complex-number-basics"@);
    assert("cubes-distribute"@ != "branch-reduce"@);
    assert("cubes-distribute"@ != "compare-reduce"@);
    assert("cubes-distribute"@ != "bool-reduce"@);
    assert("cubes-distribute"@ != "htrig-reduce"@);
    assert("cubes-distribute"@ != "trig-reduce-fp-sound-nan"@);
    assert("cubes-distribute"@ != "trig-reduce-fp-sound"@);
    assert("cubes-distribute"@ != "trig-reduce"@);
    assert("cubes-distribute"@ != "log-distribute-fp-safe"@);
    assert("cubes-distribute"@ != "log-distribute"@);
    assert("cubes-distribute"@[0] != "pow-canonicalize"@[0]);
    assert("cubes-distribute"@ != "pow-canonicalize"@);
    assert("cubes-distribute"@ != "pow-reduce-fp-safe-nan"@);
    assert("cubes-distribute"@ != "pow-reduce-fp-safe"@);
    assert("cubes-distribute"@ != "pow-reduce"@);
    assert("cubes-distribute"@ != "exp-factor"@);
    assert("cubes-distribute"@ != "exp-distribute"@);
    assert("cubes-distribute"@ != "exp-constants"@);
    assert("cubes-distribute"@ != "exp-reduce"@);
    assert("cubes-distribute"@ != "cubes-canonicalize"@);
    assert("cubes-reduce"@ != "erf-rules"@);
    assert("cubes-reduce"@ != "complex-number-basics"@);
    assert("cubes-reduce"@ != "branch-reduce"@);
    assert("cubes-reduce"@ != "compare-reduce"@);
    assert("cubes-reduce"@ != "bool-reduce"@);
    assert("cubes-reduce"@[0] != "htrig-reduce"@[0]);
    assert("cubes-reduce"@ != "htrig-reduce"@);
    assert("cubes-reduce"@ != "trig-reduce-fp-sound-nan"@);
    assert("cubes-reduce"@ != "trig-reduce-fp-sound"@);
    assert("cubes-reduce"@ != "trig-reduce"@);
    assert("cubes-reduce"@ != "log-distribute-fp-safe"@);
    assert("cubes-reduce"@ != "log-distribute"@);
    assert("cubes-reduce"@ != "pow-canonicalize"@);
    assert("cubes-reduce"@ != "pow-reduce-fp-safe-nan"@);
    assert("cubes-reduce"@ != "pow-reduce-fp-safe"@);
    assert("cubes-reduce"@ != "pow-reduce"@);
    assert("cubes-reduce"@ != "exp-factor"@);
    assert("cubes-reduce"@ != "exp-distribute"@);
    assert("cubes-reduce"@ != "exp-constants"@);
    assert("cubes-reduce"@ != "exp-reduce"@);
    assert("cubes-reduce"@ != "cubes-canonicalize"@);
    assert("cubes-reduce"@ != "cubes-distribute"@);
    assert("squares-reduce-fp-sound"@ != "erf-rules"@);
    assert("squares-reduce-fp-sound"@ != "complex-number-basics"@);
    assert("squares-reduce-fp-sound"@ != "branch-reduce"@);
    assert("squares-reduce-fp-sound"@ != "compare-reduce"@);
    assert("squares-reduce-fp-sound"@ != "bool-reduce"@);
    assert("squares-reduce-fp-sound"@ != "htrig-reduce"@);
    assert("squares-reduce-fp-sound"@ != "trig-reduce-fp-sound-nan"@);
    assert("squares-reduce-fp-sound"@ != "trig-reduce-fp-sound"@);
    assert("squares-reduce-fp-sound"@ != "trig-reduce"@);
    assert("squares-reduce-fp-sound"@ != "log-distribute-fp-safe"@);
    assert("squares-reduce-fp-sound"@ != "log-distribute"@);
    assert("squares-reduce-fp-sound"@ != "pow-canonicalize"@);
    assert("squares-reduce-fp-sound"@ != "pow-reduce-fp-safe-nan"@);
    assert("squares-reduce-fp-sound"@ != "pow-reduce-fp-safe"@);
    assert("squares-reduce-fp-sound"@ != "pow-reduce"@);
    assert("squares-reduce-fp-sound"@ != "exp-factor"@);
    assert("squares-reduce-fp-sound"@ != "exp-distribute"@);
    assert("squares-reduce-fp-sound"@ != "exp-constants"@);
    assert("squares-reduce-fp-sound"@ != "exp-reduce"@);
    assert("squares-reduce-fp-sound"@ != "cubes-canonicalize"@);
    assert("squares-reduce-fp-sound"@ != "cubes-distribute"@);
    assert("squares-reduce-fp-sound"@ != "cubes-reduce"@);
    assert("squares-reduce"@ != "erf-rules"@);
    assert("squares-reduce"@ != "complex-number-basics"@);
    assert("squares-reduce"@ != "branch-reduce"@);
    assert("squares-reduce"@[0] != "compare-reduce"@[0]);
    assert("squares-reduce"@ != "compare-reduce"@);
    assert("squares-reduce"@ != "bool-reduce"@);
    assert("squares-reduce"@ != "htrig-reduce"@);
    assert("squares-reduce"@ != "trig-reduce-fp-sound-nan"@);
    assert("squares-reduce"@ != "trig-reduce-fp-sound"@);
    assert("squares-reduce"@ != "trig-reduce"@);
    assert("squares-reduce"@ != "log-distribute-fp-safe"@);
    assert("squares-reduce"@[0] != "log-distribute"@[0]);
    assert("squares-reduce"@ != "log-distribute"@);
    assert("squares-reduce"@ != "pow-canonicalize"@);
    assert("squares-reduce"@ != "pow-reduce-fp-safe-nan"@);
    assert("squares-reduce"@ != "pow-reduce-fp-safe"@);
    assert("squares-reduce"@ != "pow-reduce"@);
    assert("squares-reduce"@ != "exp-factor"@);
    assert("squares-reduce"@[0] != "exp-distribute"@[0]);
    assert("squares-reduce"@ != "exp-distribute"@);
    assert("squares-reduce"@ != "exp-constants"@);
    assert("squares-reduce"@ != "exp-reduce"@);
    assert("squares-reduce"@ != "cubes-canonicalize"@);
    assert("squares-reduce"@ != "cubes-distribute"@);
    assert("squares-reduce"@ != "cubes-reduce"@);
    assert("squares-reduce"@ != "squares-reduce-fp-sound"@);
    assert("fractions-distribute.c"@ != "erf-rules"@);
    assert("fractions-distribute.c"@ != "complex-number-basics"@);
    assert("fractions-distribute.c"@ != "branch-reduce"@);
    assert("fractions-distribute.c"@ != "compare-reduce"@);
    assert("fractions-distribute.c"@ != "bool-reduce"@);
    assert("fractions-distribute.c"@ != "htrig-reduce"@);
    assert("fractions-distribute.c"@ != "trig-reduce-fp-sound-nan"@);
    assert("fractions-distribute.c"@ != "trig-reduce-fp-sound"@);
    assert("fractions-distribute.c"@ != "trig-reduce"@);
    assert("fractions-distribute.c"@[0] != "log-distribute-fp-safe"@[0]);
    assert("fractions-distribute.c"@ != "log-distribute-fp-safe"@);
    assert("fractions-distribute.c"@ != "log-distribute"@);
    assert("fractions-distribute.c"@ != "pow-canonicalize"@);
    assert("fractions-distribute.c"@[0] != "pow-reduce-fp-safe-nan"@[0]);
    assert("fractions-distribute.c"@ != "pow-reduce-fp-safe-nan"@);
    assert("fractions-distribute.c"@ != "pow-reduce-fp-safe"@);
    assert("fractions-distribute.c"@ != "pow-reduce"@);
    assert("fractions-distribute.c"@ != "exp-factor"@);
    assert("fractions-distribute.c"@ != "exp-distribute"@);
    assert("fractions-distribute.c"@ != "exp-constants"@);
    assert("fractions-distribute.c"@ != "exp-reduce"@);
    assert("fractions-distribute.c"@ != "cubes-canonicalize"@);
    assert("fractions-distribute.c"@ != "cubes-distribute"@);
    assert("fractions-distribute.c"@ != "cubes-reduce"@);
    assert("fractions-distribute.c"@ != "squares-reduce-fp-sound"@);
    assert("fractions-distribute.c"@ != "squares-reduce"@);
    assert("fractions-distribute"@ != "erf-rules"@);
    assert("fractions-distribute"@ != "complex-number-basics"@);
    assert("fractions-distribute"@ != "branch-reduce"@);
    assert("fractions-distribute"@ != "compare-reduce"@);
    assert("fractions-distribute"@ != "bool-reduce"@);
    assert("fractions-distribute"@ != "htrig-reduce"@);
    assert("fractions-distribute"@ != "trig-reduce-fp-sound-nan"@);
    assert("fractions-distribute"@[0] != "trig-reduce-fp-sound"@[0]);
    assert("fractions-distribute"@ != "trig-reduce-fp-sound"@);
    assert("fractions-distribute"@ != "trig-reduce"@);
    assert("fractions-distribute"@ != "log-distribute-fp-safe"@);
    assert("fractions-distribute"@ != "log-distribute"@);
    assert("fractions-distribute"@ != "pow-canonicalize"@);
    assert("fractions-distribute"@ != "pow-reduce-fp-safe-nan"@);
    assert("fractions-distribute"@ != "pow-reduce-fp-safe"@);
    assert("fractions-distribute"@ != "pow-reduce"@);
    assert("fractions-distribute"@ != "exp-factor"@);
    assert("fractions-distribute"@ != "exp-distribute"@);
    assert("fractions-distribute"@ != "exp-constants"@);
    assert("fractions-distribute"@ != "exp-reduce"@);
    assert("fractions-distribute"@ != "cubes-canonicalize"@);
    assert("fractions-distribute"@ != "cubes-distribute"@);
    assert("fractions-distribute"@ != "cubes-reduce"@);
    assert("fractions-distribute"@ != "squares-reduce-fp-sound"@);
    assert("fractions-distribute"@ != "squares-reduce"@);
    assert("fractions-distribute"@ != "fractions-distribute.c"@);
    assert("id-reduce-fp-safe"@ != "erf-rules"@);
    assert("id-reduce-fp-safe"@ != "complex-number-basics"@);
    assert("id-reduce-fp-safe"@ != "branch-reduce"@);
    assert("id-reduce-fp-safe"@ != "compare-reduce"@);
    assert("id-reduce-fp-safe"@ != "bool-reduce"@);
    assert("id-reduce-fp-safe"@ != "htrig-reduce"@);
    assert("id-reduce-fp-safe"@ != "trig-reduce-fp-sound-nan"@);
    assert("id-reduce-fp-safe"@ != "trig-reduce-fp-sound"@);
    assert("id-reduce-fp-safe"@ != "trig-reduce"@);
    assert("id-reduce-fp-safe"@ != "log-distribute-fp-safe"@);
    assert("id-reduce-fp-safe"@ != "log-distribute"@);
    assert("id-reduce-fp-safe"@ != "pow-canonicalize"@);
    assert("id-reduce-fp-safe"@ != "pow-reduce-fp-safe-nan"@);
    assert("id-reduce-fp-safe"@ != "pow-reduce-fp-safe"@);
    assert("id-reduce-fp-safe"@ != "pow-reduce"@);
    assert("id-reduce-fp-safe"@ != "exp-factor"@);
    assert("id-reduce-fp-safe"@ != "exp-distribute"@);
    assert("id-reduce-fp-safe"@ != "exp-constants"@);
    assert("id-reduce-fp-safe"@ != "exp-reduce"@);
    assert("id-reduce-fp-safe"@ != "cubes-canonicalize"@);
    assert("id-reduce-fp-safe"@ != "cubes-distribute"@);
    assert("id-reduce-fp-safe"@ != "cubes-reduce"@);
    assert("id-reduce-fp-safe"@ != "squares-reduce-fp-sound"@);
    assert("id-reduce-fp-safe"@ != "squares-reduce"@);
    assert("id-reduce-fp-safe"@ != "fractions-distribute.c"@);
    assert("id-reduce-fp-safe"@ != "fractions-distribute"@);
    assert("id-reduce-fp-safe-nan"@ != "erf-rules"@);
    assert("id-reduce-fp-safe-nan"@[0] != "complex-number-basics"@[0]);
    assert("id-reduce-fp-safe-nan"@ != "complex-number-basics"@);
    assert("id-reduce-fp-safe-nan"@ != "branch-reduce"@);
    assert("id-reduce-fp-safe-nan"@ != "compare-reduce"@);
    assert("id-reduce-fp-safe-nan"@ != "bool-reduce"@);
    assert("id-reduce-fp-safe-nan"@ != "htrig-reduce"@);
    assert("id-reduce-fp-safe-nan"@ != "trig-reduce-fp-sound-nan"@);
    assert("id-reduce-fp-safe-nan"@ != "trig-reduce-fp-sound"@);
    assert("id-reduce-fp-safe-nan"@ != "trig-reduce"@);
    assert("id-reduce-fp-safe-nan"@ != "log-distribute-fp-safe"@);
    assert("id-reduce-fp-safe-nan"@ != "log-distribute"@);
    assert("id-reduce-fp-safe-nan"@ != "pow-canonicalize"@);
    assert("id-reduce-fp-safe-nan"@ != "pow-reduce-fp-safe-nan"@);
    assert("id-reduce-fp-safe-nan"@ != "pow-reduce-fp-safe"@);
    assert("id-reduce-fp-safe-nan"@ != "pow-reduce"@);
    assert("id-reduce-fp-safe-nan"@ != "exp-factor"@);
    assert("id-reduce-fp-safe-nan"@ != "exp-distribute"@);
    assert("id-reduce-fp-safe-nan"@ != "exp-constants"@);
    assert("id-reduce-fp-safe-nan"@ != "exp-reduce"@);
    assert("id-reduce-fp-safe-nan"@ != "cubes-canonicalize"@);
    assert("id-reduce-fp-safe-nan"@ != "cubes-distribute"@);
    assert("id-reduce-fp-safe-nan"@ != "cubes-reduce"@);
    assert("id-reduce-fp-safe-nan"@ != "squares-reduce-fp-sound"@);
    assert("id-reduce-fp-safe-nan"@ != "squares-reduce"@);
    assert("id-reduce-fp-safe-nan"@ != "fractions-distribute.c"@);
    assert("id-reduce-fp-safe-nan"@ != "fractions-distribute"@);
    assert("id-reduce-fp-safe-nan"@ != "id-reduce-fp-safe"@);
    assert("id-reduce"@[0] != "erf-rules"@[0]);
    assert("id-reduce"@ != "erf-rules"@);
    assert("id-reduce"@ != "complex-number-basics"@);
    assert("id-reduce"@ != "branch-reduce"@);
    assert("id-reduce"@ != "compare-reduce"@);
    assert("id-reduce"@ != "bool-reduce"@);
    assert("id-reduce"@ != "htrig-reduce"@);
    assert("id-reduce"@ != "trig-reduce-fp-sound-nan"@);
    assert("id-reduce"@ != "trig-reduce-fp-sound"@);
    assert("id-reduce"@ != "trig-reduce"@);
    assert("id-reduce"@ != "log-distribute-fp-safe"@);
    assert("id-reduce"@ != "log-distribute"@);
    assert("id-reduce"@ != "pow-canonicalize"@);
    assert("id-reduce"@ != "pow-reduce-fp-safe-nan"@);
    assert("id-reduce"@ != "pow-reduce-fp-safe"@);
    assert("id-reduce"@ != "pow-reduce"@);
    assert("id-reduce"@ != "exp-factor"@);
    assert("id-reduce"@ != "exp-distribute"@);
    assert("id-reduce"@ != "exp-constants"@);
    assert("id-reduce"@ != "exp-reduce"@);
    assert("id-reduce"@ != "cubes-canonicalize"@);
    assert("id-reduce"@ != "cubes-distribute"@);
    assert("id-reduce"@ != "cubes-reduce"@);
    assert("id-reduce"@ != "squares-reduce-fp-sound"@);
    assert("id-reduce"@ != "squares-reduce"@);
    assert("id-reduce"@ != "fractions-distribute.c"@);
    assert("id-reduce"@ != "fractions-distribute"@);
    assert("id-reduce"@ != "id-reduce-fp-safe"@);
    assert("id-reduce"@ != "id-reduce-fp-safe-nan"@);
    assert("difference-of-squares-canonicalize"@ != "erf-rules"@);
    assert("difference-of-squares-canonicalize"@ != "complex-number-basics"@);
    assert("difference-of-squares-canonicalize"@ != "branch-reduce"@);
    assert("difference-of-squares-canonicalize"@ != "compare-reduce"@);
    assert("difference-of-squares-canonicalize"@ != "bool-reduce"@);
    assert("difference-of-squares-canonicalize"@ != "htrig-reduce"@);
    assert("difference-of-squares-canonicalize"@ != "trig-reduce-fp-sound-nan"@);
    assert("difference-of-squares-canonicalize"@ != "trig-reduce-fp-sound"@);
    assert("difference-of-squares-canonicalize"@ != "trig-reduce"@);
    assert("difference-of-squares-canonicalize"@ != "log-distribute-fp-safe"@);
    assert("difference-of-squares-canonicalize"@ != "log-distribute"@);
    assert("difference-of-squares-canonicalize"@ != "pow-canonicalize"@);
    assert("difference-of-squares-canonicalize"@ != "pow-reduce-fp-safe-nan"@);
    assert("difference-of-squares-canonicalize"@ != "pow-reduce-fp-safe"@);
    assert("difference-of-squares-canonicalize"@ != "pow-reduce"@);
    assert("difference-of-squares-canonicalize"@ != "exp-factor"@);
    assert("difference-of-squares-canonicalize"@ != "exp-distribute"@);
    assert("difference-of-squares-canonicalize"@ != "exp-constants"@);
    assert("difference-of-squares-canonicalize"@ != "exp-reduce"@);
    assert("difference-of-squares-canonicalize"@ != "cubes-canonicalize"@);
    assert("difference-of-squares-canonicalize"@ != "cubes-distribute"@);
    assert("difference-of-squares-canonicalize"@ != "cubes-reduce"@);
    assert("difference-of-squares-canonicalize"@ != "squares-reduce-fp-sound"@);
    assert("difference-of-squares-canonicalize"@ != "squares-reduce"@);
    assert("difference-of-squares-canonicalize"@ != "fractions-distribute.c"@);
    assert("difference-of-squares-canonicalize"@ != "fractions-distribute"@);
    assert("difference-of-squares-canonicalize"@ != "id-reduce-fp-safe"@);
    assert("difference-of-squares-canonicalize"@ != "id-reduce-fp-safe-nan"@);
    assert("difference-of-squares-canonicalize"@ != "id-reduce"@);
    assert("distributivity-fp-safe"@ != "erf-rules"@);
    assert("distributivity-fp-safe"@ != "complex-number-basics"@);
    assert("distributivity-fp-safe"@ != "branch-reduce"@);
    assert("distributivity-fp-safe"@ != "compare-reduce"@);
    assert("distributivity-fp-safe"@ != "bool-reduce"@);
    assert("distributivity-fp-safe"@ != "htrig-reduce"@);
    assert("distributivity-fp-safe"@ != "trig-reduce-fp-sound-nan"@);
    assert("distributivity-fp-safe"@ != "trig-reduce-fp-sound"@);
    assert("distributivity-fp-safe"@ != "trig-reduce"@);
    assert("distributivity-fp-safe"@[0] != "log-distribute-fp-safe"@[0]);
    assert("distributivity-fp-safe"@ != "log-distribute-fp-safe"@);
    assert("distributivity-fp-safe"@ != "log-distribute"@);
    assert("distributivity-fp-safe"@ != "pow-canonicalize"@);
    assert("distributivity-fp-safe"@[0] != "pow-reduce-fp-safe-nan"@[0]);
    assert("distributivity-fp-safe"@ != "pow-reduce-fp-safe-nan"@);
    assert("distributivity-fp-safe"@ != "pow-reduce-fp-safe"@);
    assert("distributivity-fp-safe"@ != "pow-reduce"@);
    assert("distributivity-fp-safe"@ != "exp-factor"@);
    assert("distributivity-fp-safe"@ != "exp-distribute"@);
    assert("distributivity-fp-safe"@ != "exp-constants"@);
    assert("distributivity-fp-safe"@ != "exp-reduce"@);
    assert("distributivity-fp-safe"@ != "cubes-canonicalize"@);
    assert("distributivity-fp-safe"@ != "cubes-distribute"@);
    assert("distributivity-fp-safe"@ != "cubes-reduce"@);
    assert("distributivity-fp-safe"@ != "squares-reduce-fp-sound"@);
    assert("distributivity-fp-safe"@ != "squares-reduce"@);
    assert("distributivity-fp-safe"@[0] != "fractions-distribute.c"@[0]);
    assert("distributivity-fp-safe"@ != "fractions-distribute.c"@);
    assert("distributivity-fp-safe"@ != "fractions-distribute"@);
    assert("distributivity-fp-safe"@ != "id-reduce-fp-safe"@);
    assert("distributivity-fp-safe"@ != "id-reduce-fp-safe-nan"@);
    assert("distributivity-fp-safe"@ != "id-reduce"@);
    assert("distributivity-fp-safe"@ != "difference-of-squares-canonicalize"@);
    assert("distributivity.c"@ != "erf-rules"@);
    assert("distributivity.c"@ != "complex-number-basics"@);
    assert("distributivity.c"@ != "branch-reduce"@);
    assert("distributivity.c"@ != "compare-reduce"@);
    assert("distributivity.c"@ != "bool-reduce"@);
    assert("distributivity.c"@ != "htrig-reduce"@);
    assert("distributivity.c"@ != "trig-reduce-fp-sound-nan"@);
    assert("distributivity.c"@ != "trig-reduce-fp-sound"@);
    assert("distributivity.c"@ != "trig-reduce"@);
    assert("distributivity.c"@ != "log-distribute-fp-safe"@);
    assert("distributivity.c"@ != "log-distribute"@);
    assert("distributivity.c"@[0] != "pow-canonicalize"@[0]);
    assert("distributivity.c"@ != "pow-canonicalize"@);
    assert("distributivity.c"@ != "pow-reduce-fp-safe-nan"@);
    assert("distributivity.c"@ != "pow-reduce-fp-safe"@);
    assert("distributivity.c"@ != "pow-reduce"@);
    assert("distributivity.c"@ != "exp-factor"@);
    assert("distributivity.c"@ != "exp-distribute"@);
    assert("distributivity.c"@ != "exp-constants"@);
    assert("distributivity.c"@ != "exp-reduce"@);
    assert("distributivity.c"@ != "cubes-canonicalize"@);
    assert("distributivity.c"@[0] != "cubes-distribute"@[0]);
    assert("distributivity.c"@ != "cubes-distribute"@);
    assert("distributivity.c"@ != "cubes-reduce"@);
    assert("distributivity.c"@ != "squares-reduce-fp-sound"@);
    assert("distributivity.c"@ != "squares-reduce"@);
    assert("distributivity.c"@ != "fractions-distribute.c"@);
    assert("distributivity.c"@ != "fractions-distribute"@);
    assert("distributivity.c"@ != "id-reduce-fp-safe"@);
    assert("distributivity.c"@ != "id-reduce-fp-safe-nan"@);
    assert("distributivity.c"@ != "id-reduce"@);
    assert("distributivity.c"@ != "difference-of-squares-canonicalize"@);
    assert("distributivity.c"@ != "distributivity-fp-safe"@);
    assert("distributivity"@ != "erf-rules"@);
    assert("distributivity"@ != "complex-number-basics"@);
    assert("distributivity"@ != "branch-reduce"@);
    assert("distributivity"@[0] != "compare-reduce"@[0]);
    assert("distributivity"@ != "compare-reduce"@);
    assert("distributivity"@ != "bool-reduce"@);
    assert("distributivity"@ != "htrig-reduce"@);
    assert("distributivity"@ != "trig-reduce-fp-sound-nan"@);
    assert("distributivity"@ != "trig-reduce-fp-sound"@);
    assert("distributivity"@ != "trig-reduce"@);
    assert("distributivity"@ != "log-distribute-fp-safe"@);
    assert("distributivity"@[0] != "log-distribute"@[0]);
    assert("distributivity"@ != "log-distribute"@);
    assert("distributivity"@ != "pow-canonicalize"@);
    assert("distributivity"@ != "pow-reduce-fp-safe-nan"@);
    assert("distributivity"@ != "pow-reduce-fp-safe"@);
    assert("distributivity"@ != "pow-reduce"@);
    assert("distributivity"@ != "exp-factor"@);
    assert("distributivity"@[0] != "exp-distribute"@[0]);
    assert("distributivity"@ != "exp-distribute"@);
    assert("distributivity"@ != "exp-constants"@);
    assert("distributivity"@ != "exp-reduce"@);
    assert("distributivity"@ != "cubes-canonicalize"@);
    assert("distributivity"@ != "cubes-distribute"@);
    assert("distributivity"@ != "cubes-reduce"@);
    assert("distributivity"@ != "squares-reduce-fp-sound"@);
    assert("distributivity"@[0] != "squares-reduce"@[0]);
    assert("distributivity"@ != "squares-reduce"@);
    assert("distributivity"@ != "fractions-distribute.c"@);
    assert("distributivity"@ != "fractions-distribute"@);
    assert("distributivity"@ != "id-reduce-fp-safe"@);
    assert("distributivity"@ != "id-reduce-fp-safe-nan"@);
    assert("distributivity"@ != "id-reduce"@);
    assert("distributivity"@ != "difference-of-squares-canonicalize"@);
    assert("distributivity"@ != "distributivity-fp-safe"@);
    assert("distributivity"@ != "distributivity.c"@);
    assert("counting"@ != "erf-rules"@);
    assert("counting"@ != "complex-number-basics"@);
    assert("counting"@ != "branch-reduce"@);
    assert("counting"@ != "compare-reduce"@);
    assert("counting"@ != "bool-reduce"@);
    assert("counting"@ != "htrig-reduce"@);
    assert("counting"@ != "trig-reduce-fp-sound-nan"@);
    assert("counting"@ != "trig-reduce-fp-sound"@);
    assert("counting"@ != "trig-reduce"@);
    assert("counting"@ != "log-distribute-fp-safe"@);
    assert("counting"@ != "log-distribute"@);
    assert("counting"@ != "pow-canonicalize"@);
    assert("counting"@ != "pow-reduce-fp-safe-nan"@);
    assert("counting"@ != "pow-reduce-fp-safe"@);
    assert("counting"@ != "pow-reduce"@);
    assert("counting"@ != "exp-factor"@);
    assert("counting"@ != "exp-distribute"@);
    assert("counting"@ != "exp-constants"@);
    assert("counting"@ != "exp-reduce"@);
    assert("counting"@ != "cubes-canonicalize"@);
    assert("counting"@ != "cubes-distribute"@);
    assert("counting"@ != "cubes-reduce"@);
    assert("counting"@ != "squares-reduce-fp-sound"@);
    assert("counting"@ != "squares-reduce"@);
    assert("counting"@ != "fractions-distribute.c"@);
    assert("counting"@ != "fractions-distribute"@);
    assert("counting"@ != "id-reduce-fp-safe"@);
    assert("counting"@ != "id-reduce-fp-safe-nan"@);
    assert("counting"@ != "id-reduce"@);
    assert("counting"@ != "difference-of-squares-canonicalize"@);
    assert("counting"@ != "distributivity-fp-safe"@);
    assert("counting"@ != "distributivity.c"@);
    assert("counting"@ != "distributivity"@);
    assert("associativity.c"@ != "erf-rules"@);
    assert("associativity.c"@ != "complex-number-basics"@);
    assert("associativity.c"@ != "branch-reduce"@);
    assert("associativity.c"@ != "compare-reduce"@);
    assert("associativity.c"@ != "bool-reduce"@);
    assert("associativity.c"@ != "htrig-reduce"@);
    assert("associativity.c"@ != "trig-reduce-fp-sound-nan"@);
    assert("associativity.c"@ != "trig-reduce-fp-sound"@);
    assert("associativity.c"@ != "trig-reduce"@);
    assert("associativity.c"@ != "log-distribute-fp-safe"@);
    assert("associativity.c"@ != "log-distribute"@);
    assert("associativity.c"@ != "pow-canonicalize"@);
    assert("associativity.c"@ != "pow-reduce-fp-safe-nan"@);
    assert("associativity.c"@ != "pow-reduce-fp-safe"@);
    assert("associativity.c"@ != "pow-reduce"@);
    assert("associativity.c"@ != "exp-factor"@);
    assert("associativity.c"@ != "exp-distribute"@);
    assert("associativity.c"@ != "exp-constants"@);
    assert("associativity.c"@ != "exp-reduce"@);
    assert("associativity.c"@ != "cubes-canonicalize"@);
    assert("associativity.c"@ != "cubes-distribute"@);
    assert("associativity.c"@ != "cubes-reduce"@);
    assert("associativity.c"@ != "squares-reduce-fp-sound"@);
    assert("associativity.c"@ != "squares-reduce"@);
    assert("associativity.c"@ != "fractions-distribute.c"@);
    assert("associativity.c"@ != "fractions-distribute"@);
    assert("associativity.c"@ != "id-reduce-fp-safe"@);
    assert("associativity.c"@ != "id-reduce-fp-safe-nan"@);
    assert("associativity.c"@ != "id-reduce"@);
    assert("associativity.c"@ != "difference-of-squares-canonicalize"@);
    assert("associativity.c"@ != "distributivity-fp-safe"@);
    assert("associativity.c"@ != "distributivity.c"@);
    assert("associativity.c"@ != "distributivity"@);
    assert("associativity.c"@ != "counting"@);
    assert("associativity"@ != "erf-rules"@);
    assert("associativity"@ != "complex-number-basics"@);
    assert("associativity"@[0] != "branch-reduce"@[0]);
    assert("associativity"@ != "branch-reduce"@);
    assert("associativity"@ != "compare-reduce"@);
    assert("associativity"@ != "bool-reduce"@);
    assert("associativity"@ != "htrig-reduce"@);
    assert("associativity"@ != "trig-reduce-fp-sound-nan"@);
    assert("associativity"@ != "trig-reduce-fp-sound"@);
    assert("associativity"@ != "trig-reduce"@);
    assert("associativity"@ != "log-distribute-fp-safe"@);
    assert("associativity"@ != "log-distribute"@);
    assert("associativity"@ != "pow-canonicalize"@);
    assert("associativity"@ != "pow-reduce-fp-safe-nan"@);
    assert("associativity"@ != "pow-reduce-fp-safe"@);
    assert("associativity"@ != "pow-reduce"@);
    assert("associativity"@ != "exp-factor"@);
    assert("associativity"@ != "exp-distribute"@);
    assert("associativity"@[0] != "exp-constants"@[0]);
    assert("associativity"@ != "exp-constants"@);
    assert("associativity"@ != "exp-reduce"@);
    assert("associativity"@ != "cubes-canonicalize"@);
    assert("associativity"@ != "cubes-distribute"@);
    assert("associativity"@ != "cubes-reduce"@);
    assert("associativity"@ != "squares-reduce-fp-sound"@);
    assert("associativity"@ != "squares-reduce"@);
    assert("associativity"@ != "fractions-distribute.c"@);
    assert("associativity"@ != "fractions-distribute"@);
    assert("associativity"@ != "id-reduce-fp-safe"@);
    assert("associativity"@ != "id-reduce-fp-safe-nan"@);
    assert("associativity"@ != "id-reduce"@);
    assert("associativity"@ != "difference-of-squares-canonicalize"@);
    assert("associativity"@ != "distributivity-fp-safe"@);
    assert("associativity"@ != "distributivity.c"@);
    assert("associativity"@ != "distributivity"@);
    assert("associativity"@ != "counting"@);
    assert("associativity"@ != "associativity.c"@);
    assert("commutativity.c"@ != "erf-rules"@);
    assert("commutativity.c"@ != "complex-number-basics"@);
    assert("commutativity.c"@ != "branch-reduce"@);
    assert("commutativity.c"@ != "compare-reduce"@);
    assert("commutativity.c"@ != "bool-reduce"@);
    assert("commutativity.c"@ != "htrig-reduce"@);
    assert("commutativity.c"@ != "trig-reduce-fp-sound-nan"@);
    assert("commutativity.c"@ != "trig-reduce-fp-sound"@);
    assert("commutativity.c"@ != "trig-reduce"@);
    assert("commutativity.c"@ != "log-distribute-fp-safe"@);
    assert("commutativity.c"@ != "log-distribute"@);
    assert("commutativity.c"@ != "pow-canonicalize"@);
    assert("commutativity.c"@ != "pow-reduce-fp-safe-nan"@);
    assert("commutativity.c"@ != "pow-reduce-fp-safe"@);
    assert("commutativity.c"@ != "pow-reduce"@);
    assert("commutativity.c"@ != "exp-factor"@);
    assert("commutativity.c"@ != "exp-distribute"@);
    assert("commutativity.c"@ != "exp-constants"@);
    assert("commutativity.c"@ != "exp-reduce"@);
    assert("commutativity.c"@ != "cubes-canonicalize"@);
    assert("commutativity.c"@ != "cubes-distribute"@);
    assert("commutativity.c"@ != "cubes-reduce"@);
    assert("commutativity.c"@ != "squares-reduce-fp-sound"@);
    assert("commutativity.c"@ != "squares-reduce"@);
    assert("commutativity.c"@ != "fractions-distribute.c"@);
    assert("commutativity.c"@ != "fractions-distribute"@);
    assert("commutativity.c"@ != "id-reduce-fp-safe"@);
    assert("commutativity.c"@ != "id-reduce-fp-safe-nan"@);
    assert("commutativity.c"@ != "id-reduce"@);
    assert("commutativity.c"@ != "difference-of-squares-canonicalize"@);
    assert("commutativity.c"@ != "distributivity-fp-safe"@);
    assert("commutativity.c"@ != "distributivity.c"@);
    assert("commutativity.c"@ != "distributivity"@);
    assert("commutativity.c"@ != "counting"@);
    assert("commutativity.c"@[0] != "associativity.c"@[0]);
    assert("commutativity.c"@ != "associativity.c"@);
    assert("commutativity.c"@ != "associativity"@);
    assert("commutativity"@ != "erf-rules"@);
    assert("commutativity"@ != "complex-number-basics"@);
    assert("commutativity"@[0] != "branch-reduce"@[0]);
    assert("commutativity"@ != "branch-reduce"@);
    assert("commutativity"@ != "compare-reduce"@);
    assert("commutativity"@ != "bool-reduce"@);
    assert("commutativity"@ != "htrig-reduce"@);
    assert("commutativity"@ != "trig-reduce-fp-sound-nan"@);
    assert("commutativity"@ != "trig-reduce-fp-sound"@);
    assert("commutativity"@ != "trig-reduce"@);
    assert("commutativity"@ != "log-distribute-fp-safe"@);
    assert("commutativity"@ != "log-distribute"@);
    assert("commutativity"@ != "pow-canonicalize"@);
    assert("commutativity"@ != "pow-reduce-fp-safe-nan"@);
    assert("commutativity"@ != "pow-reduce-fp-safe"@);
    assert("commutativity"@ != "pow-reduce"@);
    assert("commutativity"@ != "exp-factor"@);
    assert("commutativity"@ != "exp-distribute"@);
    assert("commutativity"@[0] != "exp-constants"@[0]);
    assert("commutativity"@ != "exp-constants"@);
    assert("commutativity"@ != "exp-reduce"@);
    assert("commutativity"@ != "cubes-canonicalize"@);
    assert("commutativity"@ != "cubes-distribute"@);
    assert("commutativity"@ != "cubes-reduce"@);
    assert("commutativity"@ != "squares-reduce-fp-sound"@);
    assert("commutativity"@ != "squares-reduce"@);
    assert("commutativity"@ != "fractions-distribute.c"@);
    assert("commutativity"@ != "fractions-distribute"@);
    assert("commutativity"@ != "id-reduce-fp-safe"@);
    assert("commutativity"@ != "id-reduce-fp-safe-nan"@);
    assert("commutativity"@ != "id-reduce"@);
    assert("commutativity"@ != "difference-of-squares-canonicalize"@);
    assert("commutativity"@ != "distributivity-fp-safe"@);
    assert("commutativity"@ != "distributivity.c"@);
    assert("commutativity"@ != "distributivity"@);
    assert("commutativity"@ != "counting"@);
    assert("commutativity"@ != "associativity.c"@);
    assert("commutativity"@[0] != "associativity"@[0]);
    assert("commutativity"@ != "associativity"@);
    assert("commutativity"@ != "commutativity.c"@);
    assert(group_names(corpus_spec()) =~= seq!["erf-rules"@, "complex-number-basics"@, "branch-reduce"@, "compare-reduce"@, "bool-reduce"@, "htrig-reduce"@, "trig-reduce-fp-sound-nan"@, "trig-reduce-fp-sound"@, "trig-reduce"@, "log-distribute-fp-safe"@, "log-distribute"@, "pow-canonicalize"@, "pow-reduce-fp-safe-nan"@, "pow-reduce-fp-safe"@, "pow-reduce"@, "exp-factor"@, "exp-distribute"@, "exp-constants"@, "exp-reduce"@, "cubes-canonicalize"@, "cubes-distribute"@, "cubes-reduce"@, "squares-reduce-fp-sound"@, "squares-reduce"@, "fractions-distribute.c"@, "fractions-distribute"@, "id-reduce-fp-safe"@, "id-reduce-fp-safe-nan"@, "id-reduce"@, "difference-of-squares-canonicalize"@, "distributivity-fp-safe"@, "distributivity.c"@, "distributivity"@, "counting"@, "associativity.c"@, "associativity"@, "commutativity.c"@, "commutativity"@]);
    assert forall|i: int, j: int| 0 <= i < j < group_names(corpus_spec()).len() implies
        group_names(corpus_spec())[i] != group_names(corpus_spec())[j] by {}
}

} // verus!
