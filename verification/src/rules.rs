//! Named rewrite rules: parsing rule tuples into patterns, checking
//! that every right-hand variable is bound on the left, and grouping
//! rules into a validated, order-preserving table whose group names are
//! unique.
//!
//! Nothing here aborts: a malformed pattern, an unbound variable or a
//! duplicated group name is reported as a structured error carrying the
//! offending name.
use vstd::prelude::*;
use crate::pattern::{Pattern, PatternModel, parse_pattern, spec_parse_pattern};

verus! {

/// A named rewrite: when the left pattern matches, the right pattern is
/// asserted equal.
pub struct Rewrite {
    pub name: String,
    pub lhs: Pattern,
    pub rhs: Pattern,
}

/// The value of a rewrite.
pub struct RewriteModel {
    pub name: Seq<char>,
    pub lhs: PatternModel,
    pub rhs: PatternModel,
}

impl View for Rewrite {
    type V = RewriteModel;

    open spec fn view(&self) -> RewriteModel {
        RewriteModel { name: self.name@, lhs: self.lhs@, rhs: self.rhs@ }
    }
}

pub open spec fn rewrite_models(s: Seq<Rewrite>) -> Seq<RewriteModel> {
    s.map(|i: int, r: Rewrite| r@)
}

/// A configuration error in the rule corpus, reported with the
/// offending name.
#[derive(Debug)]
pub enum RuleError {
    /// A rule's pattern text does not parse over the vocabulary.
    BadPattern { rule: String },
    /// A rule's right side uses a variable its left side never binds.
    UnboundVar { rule: String },
    /// Two rule groups share one name.
    DuplicateGroup { group: String },
}

/// The variables of a pattern, left to right (duplicates kept).
pub open spec fn pat_var_list(p: PatternModel) -> Seq<Seq<char>>
    decreases p, 1int,
{
    match p {
        PatternModel::PatVar(v) => seq![v],
        PatternModel::Term(_, args) => pats_var_list(args),
    }
}

pub open spec fn pats_var_list(s: Seq<PatternModel>) -> Seq<Seq<char>>
    decreases s, 0int,
{
    if s.len() == 0 {
        Seq::empty()
    } else {
        pats_var_list(s.drop_last()) + pat_var_list(s.last())
    }
}

/// Every variable of `vs` occurs in `bound`.
pub open spec fn vars_covered(vs: Seq<Seq<char>>, bound: Seq<Seq<char>>) -> bool {
    forall|i: int| 0 <= i < vs.len() ==> bound.contains(#[trigger] vs[i])
}

/// Whether one rule tuple is well formed: both patterns parse, and the
/// right side only uses variables the left side binds.
pub open spec fn rule_ok(t: (&str, &str, &str)) -> bool {
    &&& spec_parse_pattern(t.1@) is Some
    &&& spec_parse_pattern(t.2@) is Some
    &&& vars_covered(
        pat_var_list(spec_parse_pattern(t.2@)->Some_0),
        pat_var_list(spec_parse_pattern(t.1@)->Some_0),
    )
}

/// The rewrite a well-formed rule tuple denotes.
pub open spec fn rule_model(t: (&str, &str, &str)) -> RewriteModel {
    RewriteModel {
        name: t.0@,
        lhs: spec_parse_pattern(t.1@)->Some_0,
        rhs: spec_parse_pattern(t.2@)->Some_0,
    }
}

pub open spec fn string_models(s: Seq<String>) -> Seq<Seq<char>> {
    s.map(|i: int, v: String| v@)
}

/// Append the variables of `p` to `out`, in order.
fn collect_vars(p: &Pattern, out: &mut Vec<String>)
    ensures
        string_models(final(out)@) == string_models(old(out)@) + pat_var_list(p@),
    decreases *p,
{
    match p {
        Pattern::PatVar(v) => {
            out.push(v.clone());
            proof {
                assert(string_models(out@) =~= string_models(old(out)@) + pat_var_list(p@));
            }
        },
        Pattern::Term(_, args) => {
            proof {
                Pattern::lemma_models(args@);
            }
            let mut i: usize = 0;
            proof {
                assert(Pattern::models(args@.take(0)) =~= Seq::<PatternModel>::empty());
                assert(string_models(out@) =~= string_models(old(out)@) + pats_var_list(
                    Pattern::models(args@.take(0)),
                ));
            }
            while i < args.len()
                invariant
                    i <= args.len(),
                    forall|j: int| 0 <= j < args@.len() ==> Pattern::models(args@)[j]
                        == args@[j]@,
                    Pattern::models(args@).len() == args@.len(),
                    *p is Term,
                    p->Term_1 == *args,
                    p@ == PatternModel::Term(p->Term_0@, Pattern::models(args@)),
                    string_models(out@) == string_models(old(out)@) + pats_var_list(
                        Pattern::models(args@.take(i as int)),
                    ),
                decreases args.len() - i,
            {
                let ghost pre = Pattern::models(args@.take(i as int));
                proof {
                    broadcast use vstd::std_specs::vec::group_vec_axioms;
                    assert(decreases_to!(*p => p->Term_1));
                    assert(decreases_to!(*args => args@));
                }
                collect_vars(&args[i], out);
                i += 1;
                proof {
                    let cur = Pattern::models(args@.take(i as int));
                    Pattern::lemma_models(args@.take(i as int));
                    Pattern::lemma_models(args@.take(i as int - 1));
                    assert(cur.drop_last() =~= pre);
                    assert(cur.last() == args@[i as int - 1]@);
                    assert(string_models(out@) =~= string_models(old(out)@) + pats_var_list(cur));
                }
            }
            proof {
                assert(args@.take(i as int) =~= args@);
            }
        },
    }
}

/// Whether `needle` occurs in `hay`.
fn contains_str(hay: &Vec<String>, needle: &String) -> (r: bool)
    ensures
        r == string_models(hay@).contains(needle@),
{
    let mut i: usize = 0;
    while i < hay.len()
        invariant
            i <= hay.len(),
            forall|j: int| 0 <= j < i ==> string_models(hay@)[j] != needle@,
        decreases hay.len() - i,
    {
        if hay[i].eq(needle) {
            proof {
                assert(string_models(hay@)[i as int] == needle@);
            }
            return true;
        }
        i += 1;
    }
    false
}

/// Whether every variable in `vs` occurs in `bound`.
fn covered(vs: &Vec<String>, bound: &Vec<String>) -> (r: bool)
    ensures
        r == vars_covered(string_models(vs@), string_models(bound@)),
{
    let mut i: usize = 0;
    while i < vs.len()
        invariant
            i <= vs.len(),
            forall|j: int| 0 <= j < i ==> string_models(bound@).contains(
                #[trigger] string_models(vs@)[j],
            ),
        decreases vs.len() - i,
    {
        if !contains_str(bound, &vs[i]) {
            proof {
                assert(!string_models(bound@).contains(string_models(vs@)[i as int]));
            }
            return false;
        }
        i += 1;
    }
    true
}

/// Build the rewrites of one rule group from `(name, left, right)`
/// tuples. Every pattern must parse over the term vocabulary and every
/// right-hand variable must be bound on the left; the first rule that
/// breaks this is reported by name.
pub fn mk_rules(tuples: &[(&str, &str, &str)]) -> (r: Result<Vec<Rewrite>, RuleError>)
    ensures
        match r {
            Ok(v) => (forall|i: int| 0 <= i < tuples@.len() ==> rule_ok(#[trigger] tuples@[i]))
                && rewrite_models(v@) == tuples@.map(|i: int, t: (&str, &str, &str)| rule_model(t)),
            Err(e) => exists|i: int|
                {
                    &&& 0 <= i < tuples@.len()
                    &&& !rule_ok(#[trigger] tuples@[i])
                    &&& forall|j: int| 0 <= j < i ==> rule_ok(#[trigger] tuples@[j])
                    &&& match e {
                        RuleError::BadPattern { rule } => rule@ == tuples@[i].0@ && (
                        spec_parse_pattern(tuples@[i].1@) is None || spec_parse_pattern(
                            tuples@[i].2@,
                        ) is None),
                        RuleError::UnboundVar { rule } => rule@ == tuples@[i].0@,
                        RuleError::DuplicateGroup { .. } => false,
                    }
                },
        },
{
    let ghost target = tuples@.map(|i: int, t: (&str, &str, &str)| rule_model(t));
    let mut out: Vec<Rewrite> = Vec::new();
    let mut i: usize = 0;
    while i < tuples.len()
        invariant
            i <= tuples@.len(),
            target == tuples@.map(|k: int, t: (&str, &str, &str)| rule_model(t)),
            forall|j: int| 0 <= j < i ==> rule_ok(#[trigger] tuples@[j]),
            out@.len() == i as int,
            forall|j: int| 0 <= j < i ==> out@[j]@ == target[j],
        decreases tuples.len() - i,
    {
        let (name, left, right) = tuples[i];
        let lhs = match parse_pattern(left) {
            Some(p) => p,
            None => {
                return Err(RuleError::BadPattern { rule: name.to_owned() });
            },
        };
        let rhs = match parse_pattern(right) {
            Some(p) => p,
            None => {
                return Err(RuleError::BadPattern { rule: name.to_owned() });
            },
        };
        let mut lhs_vars: Vec<String> = Vec::new();
        collect_vars(&lhs, &mut lhs_vars);
        let mut rhs_vars: Vec<String> = Vec::new();
        collect_vars(&rhs, &mut rhs_vars);
        proof {
            assert(string_models(lhs_vars@) =~= pat_var_list(lhs@));
            assert(string_models(rhs_vars@) =~= pat_var_list(rhs@));
        }
        if !covered(&rhs_vars, &lhs_vars) {
            return Err(RuleError::UnboundVar { rule: name.to_owned() });
        }
        out.push(Rewrite { name: name.to_owned(), lhs, rhs });
        i += 1;
    }
    proof {
        assert(rewrite_models(out@) =~= target);
    }
    Ok(out)
}

/// One named group of rewrites.
pub struct RuleGroup {
    pub name: String,
    pub rules: Vec<Rewrite>,
}

/// The value of a rule group.
pub struct RuleGroupModel {
    pub name: Seq<char>,
    pub rules: Seq<RewriteModel>,
}

impl View for RuleGroup {
    type V = RuleGroupModel;

    open spec fn view(&self) -> RuleGroupModel {
        RuleGroupModel { name: self.name@, rules: rewrite_models(self.rules@) }
    }
}

pub open spec fn group_models(s: Seq<RuleGroup>) -> Seq<RuleGroupModel> {
    s.map(|i: int, g: RuleGroup| g@)
}

pub open spec fn group_names(s: Seq<RuleGroupModel>) -> Seq<Seq<char>> {
    s.map(|i: int, g: RuleGroupModel| g.name)
}

/// No two entries are equal.
pub open spec fn distinct_seqs(s: Seq<Seq<char>>) -> bool {
    forall|i: int, j: int| 0 <= i < j < s.len() ==> s[i] != s[j]
}

/// Append a named group to the table, refusing a name that is already
/// present; distinct names stay distinct.
pub fn push_group(groups: &mut Vec<RuleGroup>, name: &str, rules: Vec<Rewrite>) -> (r: Result<
    (),
    RuleError,
>)
    ensures
        match r {
            Ok(()) => {
                &&& !group_names(group_models(old(groups)@)).contains(name@)
                &&& group_models(final(groups)@) == group_models(old(groups)@).push(
                    RuleGroupModel { name: name@, rules: rewrite_models(rules@) },
                )
                &&& distinct_seqs(group_names(group_models(old(groups)@))) ==> distinct_seqs(
                    group_names(group_models(final(groups)@)),
                )
            },
            Err(e) => {
                &&& final(groups)@ == old(groups)@
                &&& group_names(group_models(old(groups)@)).contains(name@)
                &&& e matches RuleError::DuplicateGroup { group } && group@ == name@
            },
        },
{
    let name_s = name.to_owned();
    let mut i: usize = 0;
    while i < groups.len()
        invariant
            i <= groups.len(),
            groups@ == old(groups)@,
            name_s@ == name@,
            forall|j: int| 0 <= j < i ==> group_names(group_models(groups@))[j] != name@,
        decreases groups.len() - i,
    {
        if groups[i].name.eq(&name_s) {
            proof {
                assert(group_names(group_models(groups@))[i as int] == name@);
            }
            return Err(RuleError::DuplicateGroup { group: name_s });
        }
        i += 1;
    }
    proof {
        assert(forall|j: int| 0 <= j < group_models(groups@).len() ==> group_names(
            group_models(groups@),
        )[j] != name@);
        assert(!group_names(group_models(groups@)).contains(name@));
    }
    let g = RuleGroup { name: name_s, rules };
    let ghost before = group_models(groups@);
    groups.push(g);
    proof {
        assert(group_models(groups@) =~= before.push(
            RuleGroupModel { name: name@, rules: rewrite_models(rules@) },
        ));
        let after_names = group_names(group_models(groups@));
        let before_names = group_names(before);
        assert(after_names =~= before_names.push(name@));
        if distinct_seqs(before_names) {
            assert forall|x: int, y: int| 0 <= x < y < after_names.len() implies after_names[x]
                != after_names[y] by {
                if y < before_names.len() {
                    assert(before_names[x] != before_names[y]);
                } else {
                    assert(after_names[y] == name@);
                    assert(!before_names.contains(name@));
                    assert(before_names[x] == after_names[x]);
                }
            }
        }
    }
    Ok(())
}


#[verifier::spinoff_prover]
#[verifier::rlimit(100)]
/// Build and append the `erf-rules` group.
fn corpus_push_0(groups: &mut Vec<RuleGroup>) -> (r: Result<(), RuleError>)
    requires
        group_models(old(groups)@) == Seq::<RuleGroupModel>::empty(),
    ensures
        r matches Ok(()) ==> group_models(final(groups)@) == seq![crate::corpus::corpus_group_0()],
        r is Err ==> !crate::corpus::corpus_rules_ok(),
{
    let mut t: Vec<(&str, &str, &str)> = Vec::new();
    t.push(("erf-odd", "(erf (neg ?x))", "(neg (erf ?x))"));
    t.push(("erf-erfc", "(erfc ?x)", "(- 1 (erf ?x))"));
    t.push(("erfc-erf", "(erf ?x)", "(- 1 (erfc ?x))"));
    proof {
        assert(t@.len() == 3);
        assert forall|i: int| 0 <= i < t@.len() implies rule_ok(#[trigger] t@[i])
            == rule_ok(crate::corpus::group_tuples_0()[i]) by {
            if i == 0 {
                assert(t@[0].1@ == crate::corpus::group_tuples_0()[0].1@);
                assert(t@[0].2@ == crate::corpus::group_tuples_0()[0].2@);
            } else if i == 1 {
                assert(t@[1].1@ == crate::corpus::group_tuples_0()[1].1@);
                assert(t@[1].2@ == crate::corpus::group_tuples_0()[1].2@);
            } else if i == 2 {
                assert(t@[2].1@ == crate::corpus::group_tuples_0()[2].1@);
                assert(t@[2].2@ == crate::corpus::group_tuples_0()[2].2@);
            }
        }
    }
    let g = match mk_rules(t.as_slice()) {
        Ok(g) => g,
        Err(e) => {
            proof {
                assert(!(forall|i: int| 0 <= i < crate::corpus::group_tuples_0().len()
                    ==> rule_ok(#[trigger] crate::corpus::group_tuples_0()[i])));
                assert(!crate::corpus::corpus_rules_ok());
            }
            return Err(e);
        },
    };
    proof {
        assert(rewrite_models(g@) =~= crate::corpus::corpus_group_0().rules);
        reveal_strlit("erf-rules");
        assert(group_names(group_models(groups@)) =~= Seq::<Seq<char>>::empty());
        assert forall|j: int| 0 <= j < group_names(group_models(groups@)).len() implies
            group_names(group_models(groups@))[j] != "erf-rules"@ by {}
        assert(!group_names(group_models(groups@)).contains("erf-rules"@));
    }
    match push_group(groups, "erf-rules", g) {
        Ok(()) => {},
        Err(e) => {
            proof { assert(false); }
            return Err(e);
        },
    }
    proof {
        assert(group_models(groups@) =~= seq![crate::corpus::corpus_group_0()]);
    }
    Ok(())
}

#[verifier::spinoff_prover]
#[verifier::rlimit(100)]
/// Build and append the `complex-number-basics` group.
fn corpus_push_1(groups: &mut Vec<RuleGroup>) -> (r: Result<(), RuleError>)
    requires
        group_models(old(groups)@) == seq![crate::corpus::corpus_group_0()],
    ensures
        r matches Ok(()) ==> group_models(final(groups)@) == seq![crate::corpus::corpus_group_0(), crate::corpus::corpus_group_1()],
        r is Err ==> !crate::corpus::corpus_rules_ok(),
{
    let mut t: Vec<(&str, &str, &str)> = Vec::new();
    t.push(("real-part", "(re (complex ?x ?y))", "?x"));
    t.push(("imag-part", "(im (complex ?x ?y))", "?y"));
    t.push(("complex-add-def", "(+.c (complex ?a ?b) (complex ?c ?d))", "(complex (+ ?a ?c) (+ ?b ?d))"));
    t.push(("complex-def-add", "(complex (+ ?a ?c) (+ ?b ?d))", "(+.c (complex ?a ?b) (complex ?c ?d))"));
    t.push(("complex-sub-def", "(-.c (complex ?a ?b) (complex ?c ?d))", "(complex (- ?a ?c) (- ?b ?d))"));
    t.push(("complex-def-sub", "(complex (- ?a ?c) (- ?b ?d))", "(-.c (complex ?a ?b) (complex ?c ?d))"));
    t.push(("complex-neg-def", "(neg.c (complex ?a ?b))", "(complex (neg ?a) (neg ?b))"));
    t.push(("complex-def-neg", "(complex (neg ?a) (neg ?b))", "(neg.c (complex ?a ?b))"));
    t.push(("complex-mul-def", "(*.c (complex ?a ?b) (complex ?c ?d))", "(complex (- (* ?a ?c) (* ?b ?d)) (+ (* ?a ?d) (* ?b ?c)))"));
    t.push(("complex-div-def", "(/.c (complex ?a ?b) (complex ?c ?d))", "(complex (/ (+ (* ?a ?c) (* ?b ?d)) (+ (* ?c ?c) (* ?d ?d))) (/ (- (* ?b ?c) (* ?a ?d)) (+ (* ?c ?c) (* ?d ?d))))"));
    t.push(("complex-conj-def", "(conj (complex ?a ?b))", "(complex ?a (neg ?b))"));
    proof {
        assert(t@.len() == 11);
        assert forall|i: int| 0 <= i < t@.len() implies rule_ok(#[trigger] t@[i])
            == rule_ok(crate::corpus::group_tuples_1()[i]) by {
            if i == 0 {
                assert(t@[0].1@ == crate::corpus::group_tuples_1()[0].1@);
                assert(t@[0].2@ == crate::corpus::group_tuples_1()[0].2@);
            } else if i == 1 {
                assert(t@[1].1@ == crate::corpus::group_tuples_1()[1].1@);
                assert(t@[1].2@ == crate::corpus::group_tuples_1()[1].2@);
            } else if i == 2 {
                assert(t@[2].1@ == crate::corpus::group_tuples_1()[2].1@);
                assert(t@[2].2@ == crate::corpus::group_tuples_1()[2].2@);
            } else if i == 3 {
                assert(t@[3].1@ == crate::corpus::group_tuples_1()[3].1@);
                assert(t@[3].2@ == crate::corpus::group_tuples_1()[3].2@);
            } else if i == 4 {
                assert(t@[4].1@ == crate::corpus::group_tuples_1()[4].1@);
                assert(t@[4].2@ == crate::corpus::group_tuples_1()[4].2@);
            } else if i == 5 {
                assert(t@[5].1@ == crate::corpus::group_tuples_1()[5].1@);
                assert(t@[5].2@ == crate::corpus::group_tuples_1()[5].2@);
            } else if i == 6 {
                assert(t@[6].1@ == crate::corpus::group_tuples_1()[6].1@);
                assert(t@[6].2@ == crate::corpus::group_tuples_1()[6].2@);
            } else if i == 7 {
                assert(t@[7].1@ == crate::corpus::group_tuples_1()[7].1@);
                assert(t@[7].2@ == crate::corpus::group_tuples_1()[7].2@);
            } else if i == 8 {
                assert(t@[8].1@ == crate::corpus::group_tuples_1()[8].1@);
                assert(t@[8].2@ == crate::corpus::group_tuples_1()[8].2@);
            } else if i == 9 {
                assert(t@[9].1@ == crate::corpus::group_tuples_1()[9].1@);
                assert(t@[9].2@ == crate::corpus::group_tuples_1()[9].2@);
            } else if i == 10 {
                assert(t@[10].1@ == crate::corpus::group_tuples_1()[10].1@);
                assert(t@[10].2@ == crate::corpus::group_tuples_1()[10].2@);
            }
        }
    }
    let g = match mk_rules(t.as_slice()) {
        Ok(g) => g,
        Err(e) => {
            proof {
                assert(!(forall|i: int| 0 <= i < crate::corpus::group_tuples_1().len()
                    ==> rule_ok(#[trigger] crate::corpus::group_tuples_1()[i])));
                assert(!crate::corpus::corpus_rules_ok());
            }
            return Err(e);
        },
    };
    proof {
        assert(rewrite_models(g@) =~= crate::corpus::corpus_group_1().rules);
        reveal_strlit("complex-number-basics");
        reveal_strlit("erf-rules");
        assert("complex-number-basics"@.len() == 21);
        assert("erf-rules"@.len() == 9);
        reveal_strlit("erf-rules");
        assert("complex-number-basics"@.len() == 21);
        assert("erf-rules"@.len() == 9);
        assert("complex-number-basics"@ != "erf-rules"@);
        assert(group_names(group_models(groups@)) =~= seq!["erf-rules"@]);
        assert forall|j: int| 0 <= j < group_names(group_models(groups@)).len() implies
            group_names(group_models(groups@))[j] != "complex-number-basics"@ by {}
        assert(!group_names(group_models(groups@)).contains("complex-number-basics"@));
    }
    match push_group(groups, "complex-number-basics", g) {
        Ok(()) => {},
        Err(e) => {
            proof { assert(false); }
            return Err(e);
        },
    }
    proof {
        assert(group_models(groups@) =~= seq![crate::corpus::corpus_group_0(), crate::corpus::corpus_group_1()]);
    }
    Ok(())
}

#[verifier::spinoff_prover]
#[verifier::rlimit(100)]
/// Build and append the `branch-reduce` group.
fn corpus_push_2(groups: &mut Vec<RuleGroup>) -> (r: Result<(), RuleError>)
    requires
        group_models(old(groups)@) == seq![crate::corpus::corpus_group_0(), crate::corpus::corpus_group_1()],
    ensures
        r matches Ok(()) ==> group_models(final(groups)@) == seq![crate::corpus::corpus_group_0(), crate::corpus::corpus_group_1(), crate::corpus::corpus_group_2()],
        r is Err ==> !crate::corpus::corpus_rules_ok(),
{
    let mut t: Vec<(&str, &str, &str)> = Vec::new();
    t.push(("if-true", "(if TRUE ?x ?y)", "?x"));
    t.push(("if-false", "(if FALSE ?x ?y)", "?y"));
    t.push(("if-same", "(if ?a ?x ?x)", "?x"));
    t.push(("if-not", "(if (not ?a) ?x ?y)", "(if ?a ?y ?x)"));
    t.push(("if-if-or", "(if ?a ?x (if ?b ?x ?y))", "(if (or ?a ?b) ?x ?y)"));
    t.push(("if-if-or-not", "(if ?a ?x (if ?b ?y ?x))", "(if (or ?a (not ?b)) ?x ?y)"));
    t.push(("if-if-and", "(if ?a (if ?b ?x ?y) ?y)", "(if (and ?a ?b) ?x ?y)"));
    t.push(("if-if-and-not", "(if ?a (if ?b ?y ?x) ?y)", "(if (and ?a (not ?b)) ?x ?y)"));
    proof {
        assert(t@.len() == 8);
        assert forall|i: int| 0 <= i < t@.len() implies rule_ok(#[trigger] t@[i])
            == rule_ok(crate::corpus::group_tuples_2()[i]) by {
            if i == 0 {
                assert(t@[0].1@ == crate::corpus::group_tuples_2()[0].1@);
                assert(t@[0].2@ == crate::corpus::group_tuples_2()[0].2@);
            } else if i == 1 {
                assert(t@[1].1@ == crate::corpus::group_tuples_2()[1].1@);
                assert(t@[1].2@ == crate::corpus::group_tuples_2()[1].2@);
            } else if i == 2 {
                assert(t@[2].1@ == crate::corpus::group_tuples_2()[2].1@);
                assert(t@[2].2@ == crate::corpus::group_tuples_2()[2].2@);
            } else if i == 3 {
                assert(t@[3].1@ == crate::corpus::group_tuples_2()[3].1@);
                assert(t@[3].2@ == crate::corpus::group_tuples_2()[3].2@);
            } else if i == 4 {
                assert(t@[4].1@ == crate::corpus::group_tuples_2()[4].1@);
                assert(t@[4].2@ == crate::corpus::group_tuples_2()[4].2@);
            } else if i == 5 {
                assert(t@[5].1@ == crate::corpus::group_tuples_2()[5].1@);
                assert(t@[5].2@ == crate::corpus::group_tuples_2()[5].2@);
            } else if i == 6 {
                assert(t@[6].1@ == crate::corpus::group_tuples_2()[6].1@);
                assert(t@[6].2@ == crate::corpus::group_tuples_2()[6].2@);
            } else if i == 7 {
                assert(t@[7].1@ == crate::corpus::group_tuples_2()[7].1@);
                assert(t@[7].2@ == crate::corpus::group_tuples_2()[7].2@);
            }
        }
    }
    let g = match mk_rules(t.as_slice()) {
        Ok(g) => g,
        Err(e) => {
            proof {
                assert(!(forall|i: int| 0 <= i < crate::corpus::group_tuples_2().len()
                    ==> rule_ok(#[trigger] crate::corpus::group_tuples_2()[i])));
                assert(!crate::corpus::corpus_rules_ok());
            }
            return Err(e);
        },
    };
    proof {
        assert(rewrite_models(g@) =~= crate::corpus::corpus_group_2().rules);
        reveal_strlit("branch-reduce");
        reveal_strlit("erf-rules");
        assert("branch-reduce"@.len() == 13);
        assert("erf-rules"@.len() == 9);
        reveal_strlit("erf-rules");
        assert("branch-reduce"@.len() == 13);
        assert("erf-rules"@.len() == 9);
        assert("branch-reduce"@ != "erf-rules"@);
        reveal_strlit("complex-number-basics");
        assert("branch-reduce"@.len() == 13);
        assert("complex-number-basics"@.len() == 21);
        reveal_strlit("complex-number-basics");
        assert("branch-reduce"@.len() == 13);
        assert("complex-number-basics"@.len() == 21);
        assert("branch-reduce"@ != "complex-number-basics"@);
        assert(group_names(group_models(groups@)) =~= seq!["erf-rules"@, "complex-number-basics"@]);
        assert forall|j: int| 0 <= j < group_names(group_models(groups@)).len() implies
            group_names(group_models(groups@))[j] != "branch-reduce"@ by {}
        assert(!group_names(group_models(groups@)).contains("branch-reduce"@));
    }
    match push_group(groups, "branch-reduce", g) {
        Ok(()) => {},
        Err(e) => {
            proof { assert(false); }
            return Err(e);
        },
    }
    proof {
        assert(group_models(groups@) =~= seq![crate::corpus::corpus_group_0(), crate::corpus::corpus_group_1(), crate::corpus::corpus_group_2()]);
    }
    Ok(())
}

#[verifier::spinoff_prover]
#[verifier::rlimit(100)]
/// Build and append the `compare-reduce` group.
fn corpus_push_3(groups: &mut Vec<RuleGroup>) -> (r: Result<(), RuleError>)
    requires
        group_models(old(groups)@) == seq![crate::corpus::corpus_group_0(), crate::corpus::corpus_group_1(), crate::corpus::corpus_group_2()],
    ensures
        r matches Ok(()) ==> group_models(final(groups)@) == seq![crate::corpus::corpus_group_0(), crate::corpus::corpus_group_1(), crate::corpus::corpus_group_2(), crate::corpus::corpus_group_3()],
        r is Err ==> !crate::corpus::corpus_rules_ok(),
{
    let mut t: Vec<(&str, &str, &str)> = Vec::new();
    t.push(("lt-same", "(< ?x ?x)", "FALSE"));
    t.push(("gt-same", "(> ?x ?x)", "FALSE"));
    t.push(("lte-same", "(<= ?x ?x)", "TRUE"));
    t.push(("gte-same", "(>= ?x ?x)", "TRUE"));
    t.push(("not-lt", "(not (< ?x ?y))", "(>= ?x ?y)"));
    t.push(("not-gt", "(not (> ?x ?y))", "(<= ?x ?y)"));
    t.push(("not-lte", "(not (<= ?x ?y))", "(> ?x ?y)"));
    t.push(("not-gte", "(not (>= ?x ?y))", "(< ?x ?y)"));
    proof {
        assert(t@.len() == 8);
        assert forall|i: int| 0 <= i < t@.len() implies rule_ok(#[trigger] t@[i])
            == rule_ok(crate::corpus::group_tuples_3()[i]) by {
            if i == 0 {
                assert(t@[0].1@ == crate::corpus::group_tuples_3()[0].1@);
                assert(t@[0].2@ == crate::corpus::group_tuples_3()[0].2@);
            } else if i == 1 {
                assert(t@[1].1@ == crate::corpus::group_tuples_3()[1].1@);
                assert(t@[1].2@ == crate::corpus::group_tuples_3()[1].2@);
            } else if i == 2 {
                assert(t@[2].1@ == crate::corpus::group_tuples_3()[2].1@);
                assert(t@[2].2@ == crate::corpus::group_tuples_3()[2].2@);
            } else if i == 3 {
                assert(t@[3].1@ == crate::corpus::group_tuples_3()[3].1@);
                assert(t@[3].2@ == crate::corpus::group_tuples_3()[3].2@);
            } else if i == 4 {
                assert(t@[4].1@ == crate::corpus::group_tuples_3()[4].1@);
                assert(t@[4].2@ == crate::corpus::group_tuples_3()[4].2@);
            } else if i == 5 {
                assert(t@[5].1@ == crate::corpus::group_tuples_3()[5].1@);
                assert(t@[5].2@ == crate::corpus::group_tuples_3()[5].2@);
            } else if i == 6 {
                assert(t@[6].1@ == crate::corpus::group_tuples_3()[6].1@);
                assert(t@[6].2@ == crate::corpus::group_tuples_3()[6].2@);
            } else if i == 7 {
                assert(t@[7].1@ == crate::corpus::group_tuples_3()[7].1@);
                assert(t@[7].2@ == crate::corpus::group_tuples_3()[7].2@);
            }
        }
    }
    let g = match mk_rules(t.as_slice()) {
        Ok(g) => g,
        Err(e) => {
            proof {
                assert(!(forall|i: int| 0 <= i < crate::corpus::group_tuples_3().len()
                    ==> rule_ok(#[trigger] crate::corpus::group_tuples_3()[i])));
                assert(!crate::corpus::corpus_rules_ok());
            }
            return Err(e);
        },
    };
    proof {
        assert(rewrite_models(g@) =~= crate::corpus::corpus_group_3().rules);
        reveal_strlit("compare-reduce");
        reveal_strlit("erf-rules");
        assert("compare-reduce"@.len() == 14);
        assert("erf-rules"@.len() == 9);
        reveal_strlit("erf-rules");
        assert("compare-reduce"@.len() == 14);
        assert("erf-rules"@.len() == 9);
        assert("compare-reduce"@ != "erf-rules"@);
        reveal_strlit("complex-number-basics");
        assert("compare-reduce"@.len() == 14);
        assert("complex-number-basics"@.len() == 21);
        reveal_strlit("complex-number-basics");
        assert("compare-reduce"@.len() == 14);
        assert("complex-number-basics"@.len() == 21);
        assert("compare-reduce"@ != "complex-number-basics"@);
        reveal_strlit("branch-reduce");
        assert("compare-reduce"@.len() == 14);
        assert("branch-reduce"@.len() == 13);
        reveal_strlit("branch-reduce");
        assert("compare-reduce"@.len() == 14);
        assert("branch-reduce"@.len() == 13);
        assert("compare-reduce"@ != "branch-reduce"@);
        assert(group_names(group_models(groups@)) =~= seq!["erf-rules"@, "complex-number-basics"@, "branch-reduce"@]);
        assert forall|j: int| 0 <= j < group_names(group_models(groups@)).len() implies
            group_names(group_models(groups@))[j] != "compare-reduce"@ by {}
        assert(!group_names(group_models(groups@)).contains("compare-reduce"@));
    }
    match push_group(groups, "compare-reduce", g) {
        Ok(()) => {},
        Err(e) => {
            proof { assert(false); }
            return Err(e);
        },
    }
    proof {
        assert(group_models(groups@) =~= seq![crate::corpus::corpus_group_0(), crate::corpus::corpus_group_1(), crate::corpus::corpus_group_2(), crate::corpus::corpus_group_3()]);
    }
    Ok(())
}

#[verifier::spinoff_prover]
#[verifier::rlimit(100)]
/// Build and append the `bool-reduce` group.
fn corpus_push_4(groups: &mut Vec<RuleGroup>) -> (r: Result<(), RuleError>)
    requires
        group_models(old(groups)@) == seq![crate::corpus::corpus_group_0(), crate::corpus::corpus_group_1(), crate::corpus::corpus_group_2(), crate::corpus::corpus_group_3()],
    ensures
        r matches Ok(()) ==> group_models(final(groups)@) == seq![crate::corpus::corpus_group_0(), crate::corpus::corpus_group_1(), crate::corpus::corpus_group_2(), crate::corpus::corpus_group_3(), crate::corpus::corpus_group_4()],
        r is Err ==> !crate::corpus::corpus_rules_ok(),
{
    let mut t: Vec<(&str, &str, &str)> = Vec::new();
    t.push(("not-true", "(not TRUE)", "FALSE"));
    t.push(("not-false", "(not FALSE)", "TRUE"));
    t.push(("not-not", "(not (not ?a))", "?a"));
    t.push(("not-and", "(not (and ?a ?b))", "(or (not ?a) (not ?b))"));
    t.push(("not-or", "(not (or ?a ?b))", "(and (not ?a) (not ?b))"));
    t.push(("and-true-l", "(and TRUE ?a)", "?a"));
    t.push(("and-true-r", "(and ?a TRUE)", "?a"));
    t.push(("and-false-l", "(and FALSE ?a)", "FALSE"));
    t.push(("and-false-r", "(and ?a FALSE)", "FALSE"));
    t.push(("and-same", "(and ?a ?a)", "?a"));
    t.push(("or-true-l", "(or TRUE ?a)", "TRUE"));
    t.push(("or-true-r", "(or ?a TRUE)", "TRUE"));
    t.push(("or-false-l", "(or FALSE ?a)", "?a"));
    t.push(("or-false-r", "(or ?a FALSE)", "?a"));
    t.push(("or-same", "(or ?a ?a)", "?a"));
    proof {
        assert(t@.len() == 15);
        assert forall|i: int| 0 <= i < t@.len() implies rule_ok(#[trigger] t@[i])
            == rule_ok(crate::corpus::group_tuples_4()[i]) by {
            if i == 0 {
                assert(t@[0].1@ == crate::corpus::group_tuples_4()[0].1@);
                assert(t@[0].2@ == crate::corpus::group_tuples_4()[0].2@);
            } else if i == 1 {
                assert(t@[1].1@ == crate::corpus::group_tuples_4()[1].1@);
                assert(t@[1].2@ == crate::corpus::group_tuples_4()[1].2@);
            } else if i == 2 {
                assert(t@[2].1@ == crate::corpus::group_tuples_4()[2].1@);
                assert(t@[2].2@ == crate::corpus::group_tuples_4()[2].2@);
            } else if i == 3 {
                assert(t@[3].1@ == crate::corpus::group_tuples_4()[3].1@);
                assert(t@[3].2@ == crate::corpus::group_tuples_4()[3].2@);
            } else if i == 4 {
                assert(t@[4].1@ == crate::corpus::group_tuples_4()[4].1@);
                assert(t@[4].2@ == crate::corpus::group_tuples_4()[4].2@);
            } else if i == 5 {
                assert(t@[5].1@ == crate::corpus::group_tuples_4()[5].1@);
                assert(t@[5].2@ == crate::corpus::group_tuples_4()[5].2@);
            } else if i == 6 {
                assert(t@[6].1@ == crate::corpus::group_tuples_4()[6].1@);
                assert(t@[6].2@ == crate::corpus::group_tuples_4()[6].2@);
            } else if i == 7 {
                assert(t@[7].1@ == crate::corpus::group_tuples_4()[7].1@);
                assert(t@[7].2@ == crate::corpus::group_tuples_4()[7].2@);
            } else if i == 8 {
                assert(t@[8].1@ == crate::corpus::group_tuples_4()[8].1@);
                assert(t@[8].2@ == crate::corpus::group_tuples_4()[8].2@);
            } else if i == 9 {
                assert(t@[9].1@ == crate::corpus::group_tuples_4()[9].1@);
                assert(t@[9].2@ == crate::corpus::group_tuples_4()[9].2@);
            } else if i == 10 {
                assert(t@[10].1@ == crate::corpus::group_tuples_4()[10].1@);
                assert(t@[10].2@ == crate::corpus::group_tuples_4()[10].2@);
            } else if i == 11 {
                assert(t@[11].1@ == crate::corpus::group_tuples_4()[11].1@);
                assert(t@[11].2@ == crate::corpus::group_tuples_4()[11].2@);
            } else if i == 12 {
                assert(t@[12].1@ == crate::corpus::group_tuples_4()[12].1@);
                assert(t@[12].2@ == crate::corpus::group_tuples_4()[12].2@);
            } else if i == 13 {
                assert(t@[13].1@ == crate::corpus::group_tuples_4()[13].1@);
                assert(t@[13].2@ == crate::corpus::group_tuples_4()[13].2@);
            } else if i == 14 {
                assert(t@[14].1@ == crate::corpus::group_tuples_4()[14].1@);
                assert(t@[14].2@ == crate::corpus::group_tuples_4()[14].2@);
            }
        }
    }
    let g = match mk_rules(t.as_slice()) {
        Ok(g) => g,
        Err(e) => {
            proof {
                assert(!(forall|i: int| 0 <= i < crate::corpus::group_tuples_4().len()
                    ==> rule_ok(#[trigger] crate::corpus::group_tuples_4()[i])));
                assert(!crate::corpus::corpus_rules_ok());
            }
            return Err(e);
        },
    };
    proof {
        assert(rewrite_models(g@) =~= crate::corpus::corpus_group_4().rules);
        reveal_strlit("bool-reduce");
        reveal_strlit("erf-rules");
        assert("bool-reduce"@.len() == 11);
        assert("erf-rules"@.len() == 9);
        reveal_strlit("erf-rules");
        assert("bool-reduce"@.len() == 11);
        assert("erf-rules"@.len() == 9);
        assert("bool-reduce"@ != "erf-rules"@);
        reveal_strlit("complex-number-basics");
        assert("bool-reduce"@.len() == 11);
        assert("complex-number-basics"@.len() == 21);
        reveal_strlit("complex-number-basics");
        assert("bool-reduce"@.len() == 11);
        assert("complex-number-basics"@.len() == 21);
        assert("bool-reduce"@ != "complex-number-basics"@);
        reveal_strlit("branch-reduce");
        assert("bool-reduce"@.len() == 11);
        assert("branch-reduce"@.len() == 13);
        reveal_strlit("branch-reduce");
        assert("bool-reduce"@.len() == 11);
        assert("branch-reduce"@.len() == 13);
        assert("bool-reduce"@ != "branch-reduce"@);
        reveal_strlit("compare-reduce");
        assert("bool-reduce"@.len() == 11);
        assert("compare-reduce"@.len() == 14);
        reveal_strlit("compare-reduce");
        assert("bool-reduce"@.len() == 11);
        assert("compare-reduce"@.len() == 14);
        assert("bool-reduce"@ != "compare-reduce"@);
        assert(group_names(group_models(groups@)) =~= seq!["erf-rules"@, "complex-number-basics"@, "branch-reduce"@, "compare-reduce"@]);
        assert forall|j: int| 0 <= j < group_names(group_models(groups@)).len() implies
            group_names(group_models(groups@))[j] != "bool-reduce"@ by {}
        assert(!group_names(group_models(groups@)).contains("bool-reduce"@));
    }
    match push_group(groups, "bool-reduce", g) {
        Ok(()) => {},
        Err(e) => {
            proof { assert(false); }
            return Err(e);
        },
    }
    proof {
        assert(group_models(groups@) =~= seq![crate::corpus::corpus_group_0(), crate::corpus::corpus_group_1(), crate::corpus::corpus_group_2(), crate::corpus::corpus_group_3(), crate::corpus::corpus_group_4()]);
    }
    Ok(())
}

#[verifier::spinoff_prover]
#[verifier::rlimit(100)]
/// Build and append the `htrig-reduce` group.
fn corpus_push_5(groups: &mut Vec<RuleGroup>) -> (r: Result<(), RuleError>)
    requires
        group_models(old(groups)@) == seq![crate::corpus::corpus_group_0(), crate::corpus::corpus_group_1(), crate::corpus::corpus_group_2(), crate::corpus::corpus_group_3(), crate::corpus::corpus_group_4()],
    ensures
        r matches Ok(()) ==> group_models(final(groups)@) == seq![crate::corpus::corpus_group_0(), crate::corpus::corpus_group_1(), crate::corpus::corpus_group_2(), crate::corpus::corpus_group_3(), crate::corpus::corpus_group_4(), crate::corpus::corpus_group_5()],
        r is Err ==> !crate::corpus::corpus_rules_ok(),
{
    let mut t: Vec<(&str, &str, &str)> = Vec::new();
    t.push(("sinh-def", "(sinh ?x)", "(/ (- (exp ?x) (exp (neg ?x))) 2)"));
    t.push(("cosh-def", "(cosh ?x)", "(/ (+ (exp ?x) (exp (neg ?x))) 2)"));
    t.push(("tanh-def1", "(tanh ?x)", "(/ (- (exp ?x) (exp (neg ?x))) (+ (exp ?x) (exp (neg ?x))))"));
    t.push(("tanh-def2", "(tanh ?x)", "(/ (- (exp (* 2 ?x)) 1) (+ (exp (* 2 ?x)) 1))"));
    t.push(("tanh-def3", "(tanh ?x)", "(/ (- 1 (exp (* -2 ?x))) (+ 1 (exp (* -2 ?x))))"));
    t.push(("sinh-cosh", "(- (* (cosh ?x) (cosh ?x)) (* (sinh ?x) (sinh ?x)))", "1"));
    t.push(("sinh-+-cosh", "(+ (cosh ?x) (sinh ?x))", "(exp ?x)"));
    t.push(("sinh---cosh", "(- (cosh ?x) (sinh ?x))", "(exp (neg ?x))"));
    proof {
        assert(t@.len() == 8);
        assert forall|i: int| 0 <= i < t@.len() implies rule_ok(#[trigger] t@[i])
            == rule_ok(crate::corpus::group_tuples_5()[i]) by {
            if i == 0 {
                assert(t@[0].1@ == crate::corpus::group_tuples_5()[0].1@);
                assert(t@[0].2@ == crate::corpus::group_tuples_5()[0].2@);
            } else if i == 1 {
                assert(t@[1].1@ == crate::corpus::group_tuples_5()[1].1@);
                assert(t@[1].2@ == crate::corpus::group_tuples_5()[1].2@);
            } else if i == 2 {
                assert(t@[2].1@ == crate::corpus::group_tuples_5()[2].1@);
                assert(t@[2].2@ == crate::corpus::group_tuples_5()[2].2@);
            } else if i == 3 {
                assert(t@[3].1@ == crate::corpus::group_tuples_5()[3].1@);
                assert(t@[3].2@ == crate::corpus::group_tuples_5()[3].2@);
            } else if i == 4 {
                assert(t@[4].1@ == crate::corpus::group_tuples_5()[4].1@);
                assert(t@[4].2@ == crate::corpus::group_tuples_5()[4].2@);
            } else if i == 5 {
                assert(t@[5].1@ == crate::corpus::group_tuples_5()[5].1@);
                assert(t@[5].2@ == crate::corpus::group_tuples_5()[5].2@);
            } else if i == 6 {
                assert(t@[6].1@ == crate::corpus::group_tuples_5()[6].1@);
                assert(t@[6].2@ == crate::corpus::group_tuples_5()[6].2@);
            } else if i == 7 {
                assert(t@[7].1@ == crate::corpus::group_tuples_5()[7].1@);
                assert(t@[7].2@ == crate::corpus::group_tuples_5()[7].2@);
            }
        }
    }
    let g = match mk_rules(t.as_slice()) {
        Ok(g) => g,
        Err(e) => {
            proof {
                assert(!(forall|i: int| 0 <= i < crate::corpus::group_tuples_5().len()
                    ==> rule_ok(#[trigger] crate::corpus::group_tuples_5()[i])));
                assert(!crate::corpus::corpus_rules_ok());
            }
            return Err(e);
        },
    };
    proof {
        assert(rewrite_models(g@) =~= crate::corpus::corpus_group_5().rules);
        reveal_strlit("htrig-reduce");
        reveal_strlit("erf-rules");
        assert("htrig-reduce"@.len() == 12);
        assert("erf-rules"@.len() == 9);
        reveal_strlit("erf-rules");
        assert("htrig-reduce"@.len() == 12);
        assert("erf-rules"@.len() == 9);
        assert("htrig-reduce"@ != "erf-rules"@);
        reveal_strlit("complex-number-basics");
        assert("htrig-reduce"@.len() == 12);
        assert("complex-number-basics"@.len() == 21);
        reveal_strlit("complex-number-basics");
        assert("htrig-reduce"@.len() == 12);
        assert("complex-number-basics"@.len() == 21);
        assert("htrig-reduce"@ != "complex-number-basics"@);
        reveal_strlit("branch-reduce");
        assert("htrig-reduce"@.len() == 12);
        assert("branch-reduce"@.len() == 13);
        reveal_strlit("branch-reduce");
        assert("htrig-reduce"@.len() == 12);
        assert("branch-reduce"@.len() == 13);
        assert("htrig-reduce"@ != "branch-reduce"@);
        reveal_strlit("compare-reduce");
        assert("htrig-reduce"@.len() == 12);
        assert("compare-reduce"@.len() == 14);
        reveal_strlit("compare-reduce");
        assert("htrig-reduce"@.len() == 12);
        assert("compare-reduce"@.len() == 14);
        assert("htrig-reduce"@ != "compare-reduce"@);
        reveal_strlit("bool-reduce");
        assert("htrig-reduce"@.len() == 12);
        assert("bool-reduce"@.len() == 11);
        reveal_strlit("bool-reduce");
        assert("htrig-reduce"@.len() == 12);
        assert("bool-reduce"@.len() == 11);
        assert("htrig-reduce"@ != "bool-reduce"@);
        assert(group_names(group_models(groups@)) =~= seq!["erf-rules"@, "complex-number-basics"@, "branch-reduce"@, "compare-reduce"@, "bool-reduce"@]);
        assert forall|j: int| 0 <= j < group_names(group_models(groups@)).len() implies
            group_names(group_models(groups@))[j] != "htrig-reduce"@ by {}
        assert(!group_names(group_models(groups@)).contains("htrig-reduce"@));
    }
    match push_group(groups, "htrig-reduce", g) {
        Ok(()) => {},
        Err(e) => {
            proof { assert(false); }
            return Err(e);
        },
    }
    proof {
        assert(group_models(groups@) =~= seq![crate::corpus::corpus_group_0(), crate::corpus::corpus_group_1(), crate::corpus::corpus_group_2(), crate::corpus::corpus_group_3(), crate::corpus::corpus_group_4(), crate::corpus::corpus_group_5()]);
    }
    Ok(())
}

#[verifier::spinoff_prover]
#[verifier::rlimit(100)]
/// Build and append the `trig-reduce-fp-sound-nan` group.
fn corpus_push_6(groups: &mut Vec<RuleGroup>) -> (r: Result<(), RuleError>)
    requires
        group_models(old(groups)@) == seq![crate::corpus::corpus_group_0(), crate::corpus::corpus_group_1(), crate::corpus::corpus_group_2(), crate::corpus::corpus_group_3(), crate::corpus::corpus_group_4(), crate::corpus::corpus_group_5()],
    ensures
        r matches Ok(()) ==> group_models(final(groups)@) == seq![crate::corpus::corpus_group_0(), crate::corpus::corpus_group_1(), crate::corpus::corpus_group_2(), crate::corpus::corpus_group_3(), crate::corpus::corpus_group_4(), crate::corpus::corpus_group_5(), crate::corpus::corpus_group_6()],
        r is Err ==> !crate::corpus::corpus_rules_ok(),
{
    let mut t: Vec<(&str, &str, &str)> = Vec::new();
    t.push(("sin-neg", "(sin (neg ?x))", "(neg (sin ?x))"));
    t.push(("cos-neg", "(cos (neg ?x))", "(cos ?x)"));
    t.push(("tan-neg", "(tan (neg ?x))", "(neg (tan ?x))"));
    proof {
        assert(t@.len() == 3);
        assert forall|i: int| 0 <= i < t@.len() implies rule_ok(#[trigger] t@[i])
            == rule_ok(crate::corpus::group_tuples_6()[i]) by {
            if i == 0 {
                assert(t@[0].1@ == crate::corpus::group_tuples_6()[0].1@);
                assert(t@[0].2@ == crate::corpus::group_tuples_6()[0].2@);
            } else if i == 1 {
                assert(t@[1].1@ == crate::corpus::group_tuples_6()[1].1@);
                assert(t@[1].2@ == crate::corpus::group_tuples_6()[1].2@);
            } else if i == 2 {
                assert(t@[2].1@ == crate::corpus::group_tuples_6()[2].1@);
                assert(t@[2].2@ == crate::corpus::group_tuples_6()[2].2@);
            }
        }
    }
    let g = match mk_rules(t.as_slice()) {
        Ok(g) => g,
        Err(e) => {
            proof {
                assert(!(forall|i: int| 0 <= i < crate::corpus::group_tuples_6().len()
                    ==> rule_ok(#[trigger] crate::corpus::group_tuples_6()[i])));
                assert(!crate::corpus::corpus_rules_ok());
            }
            return Err(e);
        },
    };
    proof {
        assert(rewrite_models(g@) =~= crate::corpus::corpus_group_6().rules);
        reveal_strlit("trig-reduce-fp-sound-nan");
        reveal_strlit("erf-rules");
        assert("trig-reduce-fp-sound-nan"@.len() == 24);
        assert("erf-rules"@.len() == 9);
        reveal_strlit("erf-rules");
        assert("trig-reduce-fp-sound-nan"@.len() == 24);
        assert("erf-rules"@.len() == 9);
        assert("trig-reduce-fp-sound-nan"@ != "erf-rules"@);
        reveal_strlit("complex-number-basics");
        assert("trig-reduce-fp-sound-nan"@.len() == 24);
        assert("complex-number-basics"@.len() == 21);
        reveal_strlit("complex-number-basics");
        assert("trig-reduce-fp-sound-nan"@.len() == 24);
        assert("complex-number-basics"@.len() == 21);
        assert("trig-reduce-fp-sound-nan"@ != "complex-number-basics"@);
        reveal_strlit("branch-reduce");
        assert("trig-reduce-fp-sound-nan"@.len() == 24);
        assert("branch-reduce"@.len() == 13);
        reveal_strlit("branch-reduce");
        assert("trig-reduce-fp-sound-nan"@.len() == 24);
        assert("branch-reduce"@.len() == 13);
        assert("trig-reduce-fp-sound-nan"@ != "branch-reduce"@);
        reveal_strlit("compare-reduce");
        assert("trig-reduce-fp-sound-nan"@.len() == 24);
        assert("compare-reduce"@.len() == 14);
        reveal_strlit("compare-reduce");
        assert("trig-reduce-fp-sound-nan"@.len() == 24);
        assert("compare-reduce"@.len() == 14);
        assert("trig-reduce-fp-sound-nan"@ != "compare-reduce"@);
        reveal_strlit("bool-reduce");
        assert("trig-reduce-fp-sound-nan"@.len() == 24);
        assert("bool-reduce"@.len() == 11);
        reveal_strlit("bool-reduce");
        assert("trig-reduce-fp-sound-nan"@.len() == 24);
        assert("bool-reduce"@.len() == 11);
        assert("trig-reduce-fp-sound-nan"@ != "bool-reduce"@);
        reveal_strlit("htrig-reduce");
        assert("trig-reduce-fp-sound-nan"@.len() == 24);
        assert("htrig-reduce"@.len() == 12);
        reveal_strlit("htrig-reduce");
        assert("trig-reduce-fp-sound-nan"@.len() == 24);
        assert("htrig-reduce"@.len() == 12);
        assert("trig-reduce-fp-sound-nan"@ != "htrig-reduce"@);
        assert(group_names(group_models(groups@)) =~= seq!["erf-rules"@, "complex-number-basics"@, "branch-reduce"@, "compare-reduce"@, "bool-reduce"@, "htrig-reduce"@]);
        assert forall|j: int| 0 <= j < group_names(group_models(groups@)).len() implies
            group_names(group_models(groups@))[j] != "trig-reduce-fp-sound-nan"@ by {}
        assert(!group_names(group_models(groups@)).contains("trig-reduce-fp-sound-nan"@));
    }
    match push_group(groups, "trig-reduce-fp-sound-nan", g) {
        Ok(()) => {},
        Err(e) => {
            proof { assert(false); }
            return Err(e);
        },
    }
    proof {
        assert(group_models(groups@) =~= seq![crate::corpus::corpus_group_0(), crate::corpus::corpus_group_1(), crate::corpus::corpus_group_2(), crate::corpus::corpus_group_3(), crate::corpus::corpus_group_4(), crate::corpus::corpus_group_5(), crate::corpus::corpus_group_6()]);
    }
    Ok(())
}

#[verifier::spinoff_prover]
#[verifier::rlimit(100)]
/// Build and append the `trig-reduce-fp-sound` group.
fn corpus_push_7(groups: &mut Vec<RuleGroup>) -> (r: Result<(), RuleError>)
    requires
        group_models(old(groups)@) == seq![crate::corpus::corpus_group_0(), crate::corpus::corpus_group_1(), crate::corpus::corpus_group_2(), crate::corpus::corpus_group_3(), crate::corpus::corpus_group_4(), crate::corpus::corpus_group_5(), crate::corpus::corpus_group_6()],
    ensures
        r matches Ok(()) ==> group_models(final(groups)@) == seq![crate::corpus::corpus_group_0(), crate::corpus::corpus_group_1(), crate::corpus::corpus_group_2(), crate::corpus::corpus_group_3(), crate::corpus::corpus_group_4(), crate::corpus::corpus_group_5(), crate::corpus::corpus_group_6(), crate::corpus::corpus_group_7()],
        r is Err ==> !crate::corpus::corpus_rules_ok(),
{
    let mut t: Vec<(&str, &str, &str)> = Vec::new();
    t.push(("sin-0", "(sin 0)", "0"));
    t.push(("cos-0", "(cos 0)", "1"));
    t.push(("tan-0", "(tan 0)", "0"));
    proof {
        assert(t@.len() == 3);
        assert forall|i: int| 0 <= i < t@.len() implies rule_ok(#[trigger] t@[i])
            == rule_ok(crate::corpus::group_tuples_7()[i]) by {
            if i == 0 {
                assert(t@[0].1@ == crate::corpus::group_tuples_7()[0].1@);
                assert(t@[0].2@ == crate::corpus::group_tuples_7()[0].2@);
            } else if i == 1 {
                assert(t@[1].1@ == crate::corpus::group_tuples_7()[1].1@);
                assert(t@[1].2@ == crate::corpus::group_tuples_7()[1].2@);
            } else if i == 2 {
                assert(t@[2].1@ == crate::corpus::group_tuples_7()[2].1@);
                assert(t@[2].2@ == crate::corpus::group_tuples_7()[2].2@);
            }
        }
    }
    let g = match mk_rules(t.as_slice()) {
        Ok(g) => g,
        Err(e) => {
            proof {
                assert(!(forall|i: int| 0 <= i < crate::corpus::group_tuples_7().len()
                    ==> rule_ok(#[trigger] crate::corpus::group_tuples_7()[i])));
                assert(!crate::corpus::corpus_rules_ok());
            }
            return Err(e);
        },
    };
    proof {
        assert(rewrite_models(g@) =~= crate::corpus::corpus_group_7().rules);
        reveal_strlit("trig-reduce-fp-sound");
        reveal_strlit("erf-rules");
        assert("trig-reduce-fp-sound"@.len() == 20);
        assert("erf-rules"@.len() == 9);
        reveal_strlit("erf-rules");
        assert("trig-reduce-fp-sound"@.len() == 20);
        assert("erf-rules"@.len() == 9);
        assert("trig-reduce-fp-sound"@ != "erf-rules"@);
        reveal_strlit("complex-number-basics");
        assert("trig-reduce-fp-sound"@.len() == 20);
        assert("complex-number-basics"@.len() == 21);
        reveal_strlit("complex-number-basics");
        assert("trig-reduce-fp-sound"@.len() == 20);
        assert("complex-number-basics"@.len() == 21);
        assert("trig-reduce-fp-sound"@ != "complex-number-basics"@);
        reveal_strlit("branch-reduce");
        assert("trig-reduce-fp-sound"@.len() == 20);
        assert("branch-reduce"@.len() == 13);
        reveal_strlit("branch-reduce");
        assert("trig-reduce-fp-sound"@.len() == 20);
        assert("branch-reduce"@.len() == 13);
        assert("trig-reduce-fp-sound"@ != "branch-reduce"@);
        reveal_strlit("compare-reduce");
        assert("trig-reduce-fp-sound"@.len() == 20);
        assert("compare-reduce"@.len() == 14);
        reveal_strlit("compare-reduce");
        assert("trig-reduce-fp-sound"@.len() == 20);
        assert("compare-reduce"@.len() == 14);
        assert("trig-reduce-fp-sound"@ != "compare-reduce"@);
        reveal_strlit("bool-reduce");
        assert("trig-reduce-fp-sound"@.len() == 20);
        assert("bool-reduce"@.len() == 11);
        reveal_strlit("bool-reduce");
        assert("trig-reduce-fp-sound"@.len() == 20);
        assert("bool-reduce"@.len() == 11);
        assert("trig-reduce-fp-sound"@ != "bool-reduce"@);
        reveal_strlit("htrig-reduce");
        assert("trig-reduce-fp-sound"@.len() == 20);
        assert("htrig-reduce"@.len() == 12);
        reveal_strlit("htrig-reduce");
        assert("trig-reduce-fp-sound"@.len() == 20);
        assert("htrig-reduce"@.len() == 12);
        assert("trig-reduce-fp-sound"@ != "htrig-reduce"@);
        reveal_strlit("trig-reduce-fp-sound-nan");
        assert("trig-reduce-fp-sound"@.len() == 20);
        assert("trig-reduce-fp-sound-nan"@.len() == 24);
        reveal_strlit("trig-reduce-fp-sound-nan");
        assert("trig-reduce-fp-sound"@.len() == 20);
        assert("trig-reduce-fp-sound-nan"@.len() == 24);
        assert("trig-reduce-fp-sound"@ != "trig-reduce-fp-sound-nan"@);
        assert(group_names(group_models(groups@)) =~= seq!["erf-rules"@, "complex-number-basics"@, "branch-reduce"@, "compare-reduce"@, "bool-reduce"@, "htrig-reduce"@, "trig-reduce-fp-sound-nan"@]);
        assert forall|j: int| 0 <= j < group_names(group_models(groups@)).len() implies
            group_names(group_models(groups@))[j] != "trig-reduce-fp-sound"@ by {}
        assert(!group_names(group_models(groups@)).contains("trig-reduce-fp-sound"@));
    }
    match push_group(groups, "trig-reduce-fp-sound", g) {
        Ok(()) => {},
        Err(e) => {
            proof { assert(false); }
            return Err(e);
        },
    }
    proof {
        assert(group_models(groups@) =~= seq![crate::corpus::corpus_group_0(), crate::corpus::corpus_group_1(), crate::corpus::corpus_group_2(), crate::corpus::corpus_group_3(), crate::corpus::corpus_group_4(), crate::corpus::corpus_group_5(), crate::corpus::corpus_group_6(), crate::corpus::corpus_group_7()]);
    }
    Ok(())
}

#[verifier::spinoff_prover]
#[verifier::rlimit(100)]
/// Build and append the `trig-reduce` group.
fn corpus_push_8(groups: &mut Vec<RuleGroup>) -> (r: Result<(), RuleError>)
    requires
        group_models(old(groups)@) == seq![crate::corpus::corpus_group_0(), crate::corpus::corpus_group_1(), crate::corpus::corpus_group_2(), crate::corpus::corpus_group_3(), crate::corpus::corpus_group_4(), crate::corpus::corpus_group_5(), crate::corpus::corpus_group_6(), crate::corpus::corpus_group_7()],
    ensures
        r matches Ok(()) ==> group_models(final(groups)@) == seq![crate::corpus::corpus_group_0(), crate::corpus::corpus_group_1(), crate::corpus::corpus_group_2(), crate::corpus::corpus_group_3(), crate::corpus::corpus_group_4(), crate::corpus::corpus_group_5(), crate::corpus::corpus_group_6(), crate::corpus::corpus_group_7(), crate::corpus::corpus_group_8()],
        r is Err ==> !crate::corpus::corpus_rules_ok(),
{
    let mut t: Vec<(&str, &str, &str)> = Vec::new();
    t.push(("cos-sin-sum", "(+ (* (cos ?a) (cos ?a)) (* (sin ?a) (sin ?a)))", "1"));
    t.push(("1-sub-cos", "(- 1 (* (cos ?a) (cos ?a)))", "(* (sin ?a) (sin ?a))"));
    t.push(("1-sub-sin", "(- 1 (* (sin ?a) (sin ?a)))", "(* (cos ?a) (cos ?a))"));
    t.push(("-1-add-cos", "(+ (* (cos ?a) (cos ?a)) -1)", "(neg (* (sin ?a) (sin ?a)))"));
    t.push(("-1-add-sin", "(+ (* (sin ?a) (sin ?a)) -1)", "(neg (* (cos ?a) (cos ?a)))"));
    t.push(("sub-1-cos", "(- (* (cos ?a) (cos ?a)) 1)", "(neg (* (sin ?a) (sin ?a)))"));
    t.push(("sub-1-sin", "(- (* (sin ?a) (sin ?a)) 1)", "(neg (* (cos ?a) (cos ?a)))"));
    t.push(("sin-PI/6", "(sin (/ PI 6))", "1/2"));
    t.push(("sin-PI/4", "(sin (/ PI 4))", "(/ (sqrt 2) 2)"));
    t.push(("sin-PI/3", "(sin (/ PI 3))", "(/ (sqrt 3) 2)"));
    t.push(("sin-PI/2", "(sin (/ PI 2))", "1"));
    t.push(("sin-PI", "(sin PI)", "0"));
    t.push(("sin-+PI", "(sin (+ ?x PI))", "(neg (sin ?x))"));
    t.push(("sin-+PI/2", "(sin (+ ?x (/ PI 2)))", "(cos ?x)"));
    t.push(("cos-PI/6", "(cos (/ PI 6))", "(/ (sqrt 3) 2)"));
    t.push(("cos-PI/4", "(cos (/ PI 4))", "(/ (sqrt 2) 2)"));
    t.push(("cos-PI/3", "(cos (/ PI 3))", "1/2"));
    t.push(("cos-PI/2", "(cos (/ PI 2))", "0"));
    t.push(("cos-PI", "(cos PI)", "-1"));
    t.push(("cos-+PI", "(cos (+ ?x PI))", "(neg (cos ?x))"));
    t.push(("cos-+PI/2", "(cos (+ ?x (/ PI 2)))", "(neg (sin ?x))"));
    t.push(("tan-PI/6", "(tan (/ PI 6))", "(/ 1 (sqrt 3))"));
    t.push(("tan-PI/4", "(tan (/ PI 4))", "1"));
    t.push(("tan-PI/3", "(tan (/ PI 3))", "(sqrt 3)"));
    t.push(("tan-PI", "(tan PI)", "0"));
    t.push(("tan-+PI", "(tan (+ ?x PI))", "(tan ?x)"));
    t.push(("tan-+PI/2", "(tan (+ ?x (/ PI 2)))", "(neg (/ 1 (tan ?x)))"));
    t.push(("hang-0p-tan", "(/ (sin ?a) (+ 1 (cos ?a)))", "(tan (/ ?a 2))"));
    t.push(("hang-0m-tan", "(/ (neg (sin ?a)) (+ 1 (cos ?a)))", "(tan (/ (neg ?a) 2))"));
    t.push(("hang-p0-tan", "(/ (- 1 (cos ?a)) (sin ?a))", "(tan (/ ?a 2))"));
    t.push(("hang-m0-tan", "(/ (- 1 (cos ?a)) (neg (sin ?a)))", "(tan (/ (neg ?a) 2))"));
    t.push(("hang-p-tan", "(/ (+ (sin ?a) (sin ?b)) (+ (cos ?a) (cos ?b)))", "(tan (/ (+ ?a ?b) 2))"));
    t.push(("hang-m-tan", "(/ (- (sin ?a) (sin ?b)) (+ (cos ?a) (cos ?b)))", "(tan (/ (- ?a ?b) 2))"));
    proof {
        assert(t@.len() == 33);
        assert forall|i: int| 0 <= i < t@.len() implies rule_ok(#[trigger] t@[i])
            == rule_ok(crate::corpus::group_tuples_8()[i]) by {
            if i == 0 {
                assert(t@[0].1@ == crate::corpus::group_tuples_8()[0].1@);
                assert(t@[0].2@ == crate::corpus::group_tuples_8()[0].2@);
            } else if i == 1 {
                assert(t@[1].1@ == crate::corpus::group_tuples_8()[1].1@);
                assert(t@[1].2@ == crate::corpus::group_tuples_8()[1].2@);
            } else if i == 2 {
                assert(t@[2].1@ == crate::corpus::group_tuples_8()[2].1@);
                assert(t@[2].2@ == crate::corpus::group_tuples_8()[2].2@);
            } else if i == 3 {
                assert(t@[3].1@ == crate::corpus::group_tuples_8()[3].1@);
                assert(t@[3].2@ == crate::corpus::group_tuples_8()[3].2@);
            } else if i == 4 {
                assert(t@[4].1@ == crate::corpus::group_tuples_8()[4].1@);
                assert(t@[4].2@ == crate::corpus::group_tuples_8()[4].2@);
            } else if i == 5 {
                assert(t@[5].1@ == crate::corpus::group_tuples_8()[5].1@);
                assert(t@[5].2@ == crate::corpus::group_tuples_8()[5].2@);
            } else if i == 6 {
                assert(t@[6].1@ == crate::corpus::group_tuples_8()[6].1@);
                assert(t@[6].2@ == crate::corpus::group_tuples_8()[6].2@);
            } else if i == 7 {
                assert(t@[7].1@ == crate::corpus::group_tuples_8()[7].1@);
                assert(t@[7].2@ == crate::corpus::group_tuples_8()[7].2@);
            } else if i == 8 {
                assert(t@[8].1@ == crate::corpus::group_tuples_8()[8].1@);
                assert(t@[8].2@ == crate::corpus::group_tuples_8()[8].2@);
            } else if i == 9 {
                assert(t@[9].1@ == crate::corpus::group_tuples_8()[9].1@);
                assert(t@[9].2@ == crate::corpus::group_tuples_8()[9].2@);
            } else if i == 10 {
                assert(t@[10].1@ == crate::corpus::group_tuples_8()[10].1@);
                assert(t@[10].2@ == crate::corpus::group_tuples_8()[10].2@);
            } else if i == 11 {
                assert(t@[11].1@ == crate::corpus::group_tuples_8()[11].1@);
                assert(t@[11].2@ == crate::corpus::group_tuples_8()[11].2@);
            } else if i == 12 {
                assert(t@[12].1@ == crate::corpus::group_tuples_8()[12].1@);
                assert(t@[12].2@ == crate::corpus::group_tuples_8()[12].2@);
            } else if i == 13 {
                assert(t@[13].1@ == crate::corpus::group_tuples_8()[13].1@);
                assert(t@[13].2@ == crate::corpus::group_tuples_8()[13].2@);
            } else if i == 14 {
                assert(t@[14].1@ == crate::corpus::group_tuples_8()[14].1@);
                assert(t@[14].2@ == crate::corpus::group_tuples_8()[14].2@);
            } else if i == 15 {
                assert(t@[15].1@ == crate::corpus::group_tuples_8()[15].1@);
                assert(t@[15].2@ == crate::corpus::group_tuples_8()[15].2@);
            } else if i == 16 {
                assert(t@[16].1@ == crate::corpus::group_tuples_8()[16].1@);
                assert(t@[16].2@ == crate::corpus::group_tuples_8()[16].2@);
            } else if i == 17 {
                assert(t@[17].1@ == crate::corpus::group_tuples_8()[17].1@);
                assert(t@[17].2@ == crate::corpus::group_tuples_8()[17].2@);
            } else if i == 18 {
                assert(t@[18].1@ == crate::corpus::group_tuples_8()[18].1@);
                assert(t@[18].2@ == crate::corpus::group_tuples_8()[18].2@);
            } else if i == 19 {
                assert(t@[19].1@ == crate::corpus::group_tuples_8()[19].1@);
                assert(t@[19].2@ == crate::corpus::group_tuples_8()[19].2@);
            } else if i == 20 {
                assert(t@[20].1@ == crate::corpus::group_tuples_8()[20].1@);
                assert(t@[20].2@ == crate::corpus::group_tuples_8()[20].2@);
            } else if i == 21 {
                assert(t@[21].1@ == crate::corpus::group_tuples_8()[21].1@);
                assert(t@[21].2@ == crate::corpus::group_tuples_8()[21].2@);
            } else if i == 22 {
                assert(t@[22].1@ == crate::corpus::group_tuples_8()[22].1@);
                assert(t@[22].2@ == crate::corpus::group_tuples_8()[22].2@);
            } else if i == 23 {
                assert(t@[23].1@ == crate::corpus::group_tuples_8()[23].1@);
                assert(t@[23].2@ == crate::corpus::group_tuples_8()[23].2@);
            } else if i == 24 {
                assert(t@[24].1@ == crate::corpus::group_tuples_8()[24].1@);
                assert(t@[24].2@ == crate::corpus::group_tuples_8()[24].2@);
            } else if i == 25 {
                assert(t@[25].1@ == crate::corpus::group_tuples_8()[25].1@);
                assert(t@[25].2@ == crate::corpus::group_tuples_8()[25].2@);
            } else if i == 26 {
                assert(t@[26].1@ == crate::corpus::group_tuples_8()[26].1@);
                assert(t@[26].2@ == crate::corpus::group_tuples_8()[26].2@);
            } else if i == 27 {
                assert(t@[27].1@ == crate::corpus::group_tuples_8()[27].1@);
                assert(t@[27].2@ == crate::corpus::group_tuples_8()[27].2@);
            } else if i == 28 {
                assert(t@[28].1@ == crate::corpus::group_tuples_8()[28].1@);
                assert(t@[28].2@ == crate::corpus::group_tuples_8()[28].2@);
            } else if i == 29 {
                assert(t@[29].1@ == crate::corpus::group_tuples_8()[29].1@);
                assert(t@[29].2@ == crate::corpus::group_tuples_8()[29].2@);
            } else if i == 30 {
                assert(t@[30].1@ == crate::corpus::group_tuples_8()[30].1@);
                assert(t@[30].2@ == crate::corpus::group_tuples_8()[30].2@);
            } else if i == 31 {
                assert(t@[31].1@ == crate::corpus::group_tuples_8()[31].1@);
                assert(t@[31].2@ == crate::corpus::group_tuples_8()[31].2@);
            } else if i == 32 {
                assert(t@[32].1@ == crate::corpus::group_tuples_8()[32].1@);
                assert(t@[32].2@ == crate::corpus::group_tuples_8()[32].2@);
            }
        }
    }
    let g = match mk_rules(t.as_slice()) {
        Ok(g) => g,
        Err(e) => {
            proof {
                assert(!(forall|i: int| 0 <= i < crate::corpus::group_tuples_8().len()
                    ==> rule_ok(#[trigger] crate::corpus::group_tuples_8()[i])));
                assert(!crate::corpus::corpus_rules_ok());
            }
            return Err(e);
        },
    };
    proof {
        assert(rewrite_models(g@) =~= crate::corpus::corpus_group_8().rules);
        reveal_strlit("trig-reduce");
        reveal_strlit("erf-rules");
        assert("trig-reduce"@.len() == 11);
        assert("erf-rules"@.len() == 9);
        reveal_strlit("erf-rules");
        assert("trig-reduce"@.len() == 11);
        assert("erf-rules"@.len() == 9);
        assert("trig-reduce"@ != "erf-rules"@);
        reveal_strlit("complex-number-basics");
        assert("trig-reduce"@.len() == 11);
        assert("complex-number-basics"@.len() == 21);
        reveal_strlit("complex-number-basics");
        assert("trig-reduce"@.len() == 11);
        assert("complex-number-basics"@.len() == 21);
        assert("trig-reduce"@ != "complex-number-basics"@);
        reveal_strlit("branch-reduce");
        assert("trig-reduce"@.len() == 11);
        assert("branch-reduce"@.len() == 13);
        reveal_strlit("branch-reduce");
        assert("trig-reduce"@.len() == 11);
        assert("branch-reduce"@.len() == 13);
        assert("trig-reduce"@ != "branch-reduce"@);
        reveal_strlit("compare-reduce");
        assert("trig-reduce"@.len() == 11);
        assert("compare-reduce"@.len() == 14);
        reveal_strlit("compare-reduce");
        assert("trig-reduce"@.len() == 11);
        assert("compare-reduce"@.len() == 14);
        assert("trig-reduce"@ != "compare-reduce"@);
        reveal_strlit("bool-reduce");
        assert("trig-reduce"@[0] != "bool-reduce"@[0]);
        reveal_strlit("bool-reduce");
        assert("trig-reduce"@.len() == 11);
        assert("bool-reduce"@.len() == 11);
        reveal_strlit("bool-reduce");
        assert("trig-reduce"@.len() == 11);
        assert("bool-reduce"@.len() == 11);
        assert("trig-reduce"@ != "bool-reduce"@);
        reveal_strlit("htrig-reduce");
        assert("trig-reduce"@.len() == 11);
        assert("htrig-reduce"@.len() == 12);
        reveal_strlit("htrig-reduce");
        assert("trig-reduce"@.len() == 11);
        assert("htrig-reduce"@.len() == 12);
        assert("trig-reduce"@ != "htrig-reduce"@);
        reveal_strlit("trig-reduce-fp-sound-nan");
        assert("trig-reduce"@.len() == 11);
        assert("trig-reduce-fp-sound-nan"@.len() == 24);
        reveal_strlit("trig-reduce-fp-sound-nan");
        assert("trig-reduce"@.len() == 11);
        assert("trig-reduce-fp-sound-nan"@.len() == 24);
        assert("trig-reduce"@ != "trig-reduce-fp-sound-nan"@);
        reveal_strlit("trig-reduce-fp-sound");
        assert("trig-reduce"@.len() == 11);
        assert("trig-reduce-fp-sound"@.len() == 20);
        reveal_strlit("trig-reduce-fp-sound");
        assert("trig-reduce"@.len() == 11);
        assert("trig-reduce-fp-sound"@.len() == 20);
        assert("trig-reduce"@ != "trig-reduce-fp-sound"@);
        assert(group_names(group_models(groups@)) =~= seq!["erf-rules"@, "complex-number-basics"@, "branch-reduce"@, "compare-reduce"@, "bool-reduce"@, "htrig-reduce"@, "trig-reduce-fp-sound-nan"@, "trig-reduce-fp-sound"@]);
        assert forall|j: int| 0 <= j < group_names(group_models(groups@)).len() implies
            group_names(group_models(groups@))[j] != "trig-reduce"@ by {}
        assert(!group_names(group_models(groups@)).contains("trig-reduce"@));
    }
    match push_group(groups, "trig-reduce", g) {
        Ok(()) => {},
        Err(e) => {
            proof { assert(false); }
            return Err(e);
        },
    }
    proof {
        assert(group_models(groups@) =~= seq![crate::corpus::corpus_group_0(), crate::corpus::corpus_group_1(), crate::corpus::corpus_group_2(), crate::corpus::corpus_group_3(), crate::corpus::corpus_group_4(), crate::corpus::corpus_group_5(), crate::corpus::corpus_group_6(), crate::corpus::corpus_group_7(), crate::corpus::corpus_group_8()]);
    }
    Ok(())
}

#[verifier::spinoff_prover]
#[verifier::rlimit(100)]
/// Build and append the `log-distribute-fp-safe` group.
fn corpus_push_9(groups: &mut Vec<RuleGroup>) -> (r: Result<(), RuleError>)
    requires
        group_models(old(groups)@) == seq![crate::corpus::corpus_group_0(), crate::corpus::corpus_group_1(), crate::corpus::corpus_group_2(), crate::corpus::corpus_group_3(), crate::corpus::corpus_group_4(), crate::corpus::corpus_group_5(), crate::corpus::corpus_group_6(), crate::corpus::corpus_group_7(), crate::corpus::corpus_group_8()],
    ensures
        r matches Ok(()) ==> group_models(final(groups)@) == seq![crate::corpus::corpus_group_0(), crate::corpus::corpus_group_1(), crate::corpus::corpus_group_2(), crate::corpus::corpus_group_3(), crate::corpus::corpus_group_4(), crate::corpus::corpus_group_5(), crate::corpus::corpus_group_6(), crate::corpus::corpus_group_7(), crate::corpus::corpus_group_8(), crate::corpus::corpus_group_9()],
        r is Err ==> !crate::corpus::corpus_rules_ok(),
{
    let mut t: Vec<(&str, &str, &str)> = Vec::new();
    t.push(("log-E", "(log E)", "1"));
    proof {
        assert(t@.len() == 1);
        assert forall|i: int| 0 <= i < t@.len() implies rule_ok(#[trigger] t@[i])
            == rule_ok(crate::corpus::group_tuples_9()[i]) by {
            if i == 0 {
                assert(t@[0].1@ == crate::corpus::group_tuples_9()[0].1@);
                assert(t@[0].2@ == crate::corpus::group_tuples_9()[0].2@);
            }
        }
    }
    let g = match mk_rules(t.as_slice()) {
        Ok(g) => g,
        Err(e) => {
            proof {
                assert(!(forall|i: int| 0 <= i < crate::corpus::group_tuples_9().len()
                    ==> rule_ok(#[trigger] crate::corpus::group_tuples_9()[i])));
                assert(!crate::corpus::corpus_rules_ok());
            }
            return Err(e);
        },
    };
    proof {
        assert(rewrite_models(g@) =~= crate::corpus::corpus_group_9().rules);
        reveal_strlit("log-distribute-fp-safe");
        reveal_strlit("erf-rules");
        assert("log-distribute-fp-safe"@.len() == 22);
        assert("erf-rules"@.len() == 9);
        reveal_strlit("erf-rules");
        assert("log-distribute-fp-safe"@.len() == 22);
        assert("erf-rules"@.len() == 9);
        assert("log-distribute-fp-safe"@ != "erf-rules"@);
        reveal_strlit("complex-number-basics");
        assert("log-distribute-fp-safe"@.len() == 22);
        assert("complex-number-basics"@.len() == 21);
        reveal_strlit("complex-number-basics");
        assert("log-distribute-fp-safe"@.len() == 22);
        assert("complex-number-basics"@.len() == 21);
        assert("log-distribute-fp-safe"@ != "complex-number-basics"@);
        reveal_strlit("branch-reduce");
        assert("log-distribute-fp-safe"@.len() == 22);
        assert("branch-reduce"@.len() == 13);
        reveal_strlit("branch-reduce");
        assert("log-distribute-fp-safe"@.len() == 22);
        assert("branch-reduce"@.len() == 13);
        assert("log-distribute-fp-safe"@ != "branch-reduce"@);
        reveal_strlit("compare-reduce");
        assert("log-distribute-fp-safe"@.len() == 22);
        assert("compare-reduce"@.len() == 14);
        reveal_strlit("compare-reduce");
        assert("log-distribute-fp-safe"@.len() == 22);
        assert("compare-reduce"@.len() == 14);
        assert("log-distribute-fp-safe"@ != "compare-reduce"@);
        reveal_strlit("bool-reduce");
        assert("log-distribute-fp-safe"@.len() == 22);
        assert("bool-reduce"@.len() == 11);
        reveal_strlit("bool-reduce");
        assert("log-distribute-fp-safe"@.len() == 22);
        assert("bool-reduce"@.len() == 11);
        assert("log-distribute-fp-safe"@ != "bool-reduce"@);
        reveal_strlit("htrig-reduce");
        assert("log-distribute-fp-safe"@.len() == 22);
        assert("htrig-reduce"@.len() == 12);
        reveal_strlit("htrig-reduce");
        assert("log-distribute-fp-safe"@.len() == 22);
        assert("htrig-reduce"@.len() == 12);
        assert("log-distribute-fp-safe"@ != "htrig-reduce"@);
        reveal_strlit("trig-reduce-fp-sound-nan");
        assert("log-distribute-fp-safe"@.len() == 22);
        assert("trig-reduce-fp-sound-nan"@.len() == 24);
        reveal_strlit("trig-reduce-fp-sound-nan");
        assert("log-distribute-fp-safe"@.len() == 22);
        assert("trig-reduce-fp-sound-nan"@.len() == 24);
        assert("log-distribute-fp-safe"@ != "trig-reduce-fp-sound-nan"@);
        reveal_strlit("trig-reduce-fp-sound");
        assert("log-distribute-fp-safe"@.len() == 22);
        assert("trig-reduce-fp-sound"@.len() == 20);
        reveal_strlit("trig-reduce-fp-sound");
        assert("log-distribute-fp-safe"@.len() == 22);
        assert("trig-reduce-fp-sound"@.len() == 20);
        assert("log-distribute-fp-safe"@ != "trig-reduce-fp-sound"@);
        reveal_strlit("trig-reduce");
        assert("log-distribute-fp-safe"@.len() == 22);
        assert("trig-reduce"@.len() == 11);
        reveal_strlit("trig-reduce");
        assert("log-distribute-fp-safe"@.len() == 22);
        assert("trig-reduce"@.len() == 11);
        assert("log-distribute-fp-safe"@ != "trig-reduce"@);
        assert(group_names(group_models(groups@)) =~= seq!["erf-rules"@, "complex-number-basics"@, "branch-reduce"@, "compare-reduce"@, "bool-reduce"@, "htrig-reduce"@, "trig-reduce-fp-sound-nan"@, "trig-reduce-fp-sound"@, "trig-reduce"@]);
        assert forall|j: int| 0 <= j < group_names(group_models(groups@)).len() implies
            group_names(group_models(groups@))[j] != "log-distribute-fp-safe"@ by {}
        assert(!group_names(group_models(groups@)).contains("log-distribute-fp-safe"@));
    }
    match push_group(groups, "log-distribute-fp-safe", g) {
        Ok(()) => {},
        Err(e) => {
            proof { assert(false); }
            return Err(e);
        },
    }
    proof {
        assert(group_models(groups@) =~= seq![crate::corpus::corpus_group_0(), crate::corpus::corpus_group_1(), crate::corpus::corpus_group_2(), crate::corpus::corpus_group_3(), crate::corpus::corpus_group_4(), crate::corpus::corpus_group_5(), crate::corpus::corpus_group_6(), crate::corpus::corpus_group_7(), crate::corpus::corpus_group_8(), crate::corpus::corpus_group_9()]);
    }
    Ok(())
}

#[verifier::spinoff_prover]
#[verifier::rlimit(100)]
/// Build and append the `log-distribute` group.
fn corpus_push_10(groups: &mut Vec<RuleGroup>) -> (r: Result<(), RuleError>)
    requires
        group_models(old(groups)@) == seq![crate::corpus::corpus_group_0(), crate::corpus::corpus_group_1(), crate::corpus::corpus_group_2(), crate::corpus::corpus_group_3(), crate::corpus::corpus_group_4(), crate::corpus::corpus_group_5(), crate::corpus::corpus_group_6(), crate::corpus::corpus_group_7(), crate::corpus::corpus_group_8(), crate::corpus::corpus_group_9()],
    ensures
        r matches Ok(()) ==> group_models(final(groups)@) == seq![crate::corpus::corpus_group_0(), crate::corpus::corpus_group_1(), crate::corpus::corpus_group_2(), crate::corpus::corpus_group_3(), crate::corpus::corpus_group_4(), crate::corpus::corpus_group_5(), crate::corpus::corpus_group_6(), crate::corpus::corpus_group_7(), crate::corpus::corpus_group_8(), crate::corpus::corpus_group_9(), crate::corpus::corpus_group_10()],
        r is Err ==> !crate::corpus::corpus_rules_ok(),
{
    let mut t: Vec<(&str, &str, &str)> = Vec::new();
    t.push(("log-prod", "(log (* ?a ?b))", "(+ (log ?a) (log ?b))"));
    t.push(("log-div", "(log (/ ?a ?b))", "(- (log ?a) (log ?b))"));
    t.push(("log-rec", "(log (/ 1 ?a))", "(neg (log ?a))"));
    t.push(("log-pow", "(log (pow ?a ?b))", "(* ?b (log ?a))"));
    proof {
        assert(t@.len() == 4);
        assert forall|i: int| 0 <= i < t@.len() implies rule_ok(#[trigger] t@[i])
            == rule_ok(crate::corpus::group_tuples_10()[i]) by {
            if i == 0 {
                assert(t@[0].1@ == crate::corpus::group_tuples_10()[0].1@);
                assert(t@[0].2@ == crate::corpus::group_tuples_10()[0].2@);
            } else if i == 1 {
                assert(t@[1].1@ == crate::corpus::group_tuples_10()[1].1@);
                assert(t@[1].2@ == crate::corpus::group_tuples_10()[1].2@);
            } else if i == 2 {
                assert(t@[2].1@ == crate::corpus::group_tuples_10()[2].1@);
                assert(t@[2].2@ == crate::corpus::group_tuples_10()[2].2@);
            } else if i == 3 {
                assert(t@[3].1@ == crate::corpus::group_tuples_10()[3].1@);
                assert(t@[3].2@ == crate::corpus::group_tuples_10()[3].2@);
            }
        }
    }
    let g = match mk_rules(t.as_slice()) {
        Ok(g) => g,
        Err(e) => {
            proof {
                assert(!(forall|i: int| 0 <= i < crate::corpus::group_tuples_10().len()
                    ==> rule_ok(#[trigger] crate::corpus::group_tuples_10()[i])));
                assert(!crate::corpus::corpus_rules_ok());
            }
            return Err(e);
        },
    };
    proof {
        assert(rewrite_models(g@) =~= crate::corpus::corpus_group_10().rules);
        reveal_strlit("log-distribute");
        reveal_strlit("erf-rules");
        assert("log-distribute"@.len() == 14);
        assert("erf-rules"@.len() == 9);
        reveal_strlit("erf-rules");
        assert("log-distribute"@.len() == 14);
        assert("erf-rules"@.len() == 9);
        assert("log-distribute"@ != "erf-rules"@);
        reveal_strlit("complex-number-basics");
        assert("log-distribute"@.len() == 14);
        assert("complex-number-basics"@.len() == 21);
        reveal_strlit("complex-number-basics");
        assert("log-distribute"@.len() == 14);
        assert("complex-number-basics"@.len() == 21);
        assert("log-distribute"@ != "complex-number-basics"@);
        reveal_strlit("branch-reduce");
        assert("log-distribute"@.len() == 14);
        assert("branch-reduce"@.len() == 13);
        reveal_strlit("branch-reduce");
        assert("log-distribute"@.len() == 14);
        assert("branch-reduce"@.len() == 13);
        assert("log-distribute"@ != "branch-reduce"@);
        reveal_strlit("compare-reduce");
        assert("log-distribute"@[0] != "compare-reduce"@[0]);
        reveal_strlit("compare-reduce");
        assert("log-distribute"@.len() == 14);
        assert("compare-reduce"@.len() == 14);
        reveal_strlit("compare-reduce");
        assert("log-distribute"@.len() == 14);
        assert("compare-reduce"@.len() == 14);
        assert("log-distribute"@ != "compare-reduce"@);
        reveal_strlit("bool-reduce");
        assert("log-distribute"@.len() == 14);
        assert("bool-reduce"@.len() == 11);
        reveal_strlit("bool-reduce");
        assert("log-distribute"@.len() == 14);
        assert("bool-reduce"@.len() == 11);
        assert("log-distribute"@ != "bool-reduce"@);
        reveal_strlit("htrig-reduce");
        assert("log-distribute"@.len() == 14);
        assert("htrig-reduce"@.len() == 12);
        reveal_strlit("htrig-reduce");
        assert("log-distribute"@.len() == 14);
        assert("htrig-reduce"@.len() == 12);
        assert("log-distribute"@ != "htrig-reduce"@);
        reveal_strlit("trig-reduce-fp-sound-nan");
        assert("log-distribute"@.len() == 14);
        assert("trig-reduce-fp-sound-nan"@.len() == 24);
        reveal_strlit("trig-reduce-fp-sound-nan");
        assert("log-distribute"@.len() == 14);
        assert("trig-reduce-fp-sound-nan"@.len() == 24);
        assert("log-distribute"@ != "trig-reduce-fp-sound-nan"@);
        reveal_strlit("trig-reduce-fp-sound");
        assert("log-distribute"@.len() == 14);
        assert("trig-reduce-fp-sound"@.len() == 20);
        reveal_strlit("trig-reduce-fp-sound");
        assert("log-distribute"@.len() == 14);
        assert("trig-reduce-fp-sound"@.len() == 20);
        assert("log-distribute"@ != "trig-reduce-fp-sound"@);
        reveal_strlit("trig-reduce");
        assert("log-distribute"@.len() == 14);
        assert("trig-reduce"@.len() == 11);
        reveal_strlit("trig-reduce");
        assert("log-distribute"@.len() == 14);
        assert("trig-reduce"@.len() == 11);
        assert("log-distribute"@ != "trig-reduce"@);
        reveal_strlit("log-distribute-fp-safe");
        assert("log-distribute"@.len() == 14);
        assert("log-distribute-fp-safe"@.len() == 22);
        reveal_strlit("log-distribute-fp-safe");
        assert("log-distribute"@.len() == 14);
        assert("log-distribute-fp-safe"@.len() == 22);
        assert("log-distribute"@ != "log-distribute-fp-safe"@);
        assert(group_names(group_models(groups@)) =~= seq!["erf-rules"@, "complex-number-basics"@, "branch-reduce"@, "compare-reduce"@, "bool-reduce"@, "htrig-reduce"@, "trig-reduce-fp-sound-nan"@, "trig-reduce-fp-sound"@, "trig-reduce"@, "log-distribute-fp-safe"@]);
        assert forall|j: int| 0 <= j < group_names(group_models(groups@)).len() implies
            group_names(group_models(groups@))[j] != "log-distribute"@ by {}
        assert(!group_names(group_models(groups@)).contains("log-distribute"@));
    }
    match push_group(groups, "log-distribute", g) {
        Ok(()) => {},
        Err(e) => {
            proof { assert(false); }
            return Err(e);
        },
    }
    proof {
        assert(group_models(groups@) =~= seq![crate::corpus::corpus_group_0(), crate::corpus::corpus_group_1(), crate::corpus::corpus_group_2(), crate::corpus::corpus_group_3(), crate::corpus::corpus_group_4(), crate::corpus::corpus_group_5(), crate::corpus::corpus_group_6(), crate::corpus::corpus_group_7(), crate::corpus::corpus_group_8(), crate::corpus::corpus_group_9(), crate::corpus::corpus_group_10()]);
    }
    Ok(())
}

#[verifier::spinoff_prover]
#[verifier::rlimit(100)]
/// Build and append the `pow-canonicalize` group.
fn corpus_push_11(groups: &mut Vec<RuleGroup>) -> (r: Result<(), RuleError>)
    requires
        group_models(old(groups)@) == seq![crate::corpus::corpus_group_0(), crate::corpus::corpus_group_1(), crate::corpus::corpus_group_2(), crate::corpus::corpus_group_3(), crate::corpus::corpus_group_4(), crate::corpus::corpus_group_5(), crate::corpus::corpus_group_6(), crate::corpus::corpus_group_7(), crate::corpus::corpus_group_8(), crate::corpus::corpus_group_9(), crate::corpus::corpus_group_10()],
    ensures
        r matches Ok(()) ==> group_models(final(groups)@) == seq![crate::corpus::corpus_group_0(), crate::corpus::corpus_group_1(), crate::corpus::corpus_group_2(), crate::corpus::corpus_group_3(), crate::corpus::corpus_group_4(), crate::corpus::corpus_group_5(), crate::corpus::corpus_group_6(), crate::corpus::corpus_group_7(), crate::corpus::corpus_group_8(), crate::corpus::corpus_group_9(), crate::corpus::corpus_group_10(), crate::corpus::corpus_group_11()],
        r is Err ==> !crate::corpus::corpus_rules_ok(),
{
    let mut t: Vec<(&str, &str, &str)> = Vec::new();
    t.push(("exp-to-pow", "(exp (* (log ?a) ?b))", "(pow ?a ?b)"));
    t.push(("pow-plus", "(* (pow ?a ?b) ?a)", "(pow ?a (+ ?b 1))"));
    t.push(("unpow1/2", "(pow ?a 1/2)", "(sqrt ?a)"));
    t.push(("unpow2", "(pow ?a 2)", "(* ?a ?a)"));
    t.push(("unpow3", "(pow ?a 3)", "(* (* ?a ?a) ?a)"));
    t.push(("unpow1/3", "(pow ?a 1/3)", "(cbrt ?a)"));
    proof {
        assert(t@.len() == 6);
        assert forall|i: int| 0 <= i < t@.len() implies rule_ok(#[trigger] t@[i])
            == rule_ok(crate::corpus::group_tuples_11()[i]) by {
            if i == 0 {
                assert(t@[0].1@ == crate::corpus::group_tuples_11()[0].1@);
                assert(t@[0].2@ == crate::corpus::group_tuples_11()[0].2@);
            } else if i == 1 {
                assert(t@[1].1@ == crate::corpus::group_tuples_11()[1].1@);
                assert(t@[1].2@ == crate::corpus::group_tuples_11()[1].2@);
            } else if i == 2 {
                assert(t@[2].1@ == crate::corpus::group_tuples_11()[2].1@);
                assert(t@[2].2@ == crate::corpus::group_tuples_11()[2].2@);
            } else if i == 3 {
                assert(t@[3].1@ == crate::corpus::group_tuples_11()[3].1@);
                assert(t@[3].2@ == crate::corpus::group_tuples_11()[3].2@);
            } else if i == 4 {
                assert(t@[4].1@ == crate::corpus::group_tuples_11()[4].1@);
                assert(t@[4].2@ == crate::corpus::group_tuples_11()[4].2@);
            } else if i == 5 {
                assert(t@[5].1@ == crate::corpus::group_tuples_11()[5].1@);
                assert(t@[5].2@ == crate::corpus::group_tuples_11()[5].2@);
            }
        }
    }
    let g = match mk_rules(t.as_slice()) {
        Ok(g) => g,
        Err(e) => {
            proof {
                assert(!(forall|i: int| 0 <= i < crate::corpus::group_tuples_11().len()
                    ==> rule_ok(#[trigger] crate::corpus::group_tuples_11()[i])));
                assert(!crate::corpus::corpus_rules_ok());
            }
            return Err(e);
        },
    };
    proof {
        assert(rewrite_models(g@) =~= crate::corpus::corpus_group_11().rules);
        reveal_strlit("pow-canonicalize");
        reveal_strlit("erf-rules");
        assert("pow-canonicalize"@.len() == 16);
        assert("erf-rules"@.len() == 9);
        reveal_strlit("erf-rules");
        assert("pow-canonicalize"@.len() == 16);
        assert("erf-rules"@.len() == 9);
        assert("pow-canonicalize"@ != "erf-rules"@);
        reveal_strlit("complex-number-basics");
        assert("pow-canonicalize"@.len() == 16);
        assert("complex-number-basics"@.len() == 21);
        reveal_strlit("complex-number-basics");
        assert("pow-canonicalize"@.len() == 16);
        assert("complex-number-basics"@.len() == 21);
        assert("pow-canonicalize"@ != "complex-number-basics"@);
        reveal_strlit("branch-reduce");
        assert("pow-canonicalize"@.len() == 16);
        assert("branch-reduce"@.len() == 13);
        reveal_strlit("branch-reduce");
        assert("pow-canonicalize"@.len() == 16);
        assert("branch-reduce"@.len() == 13);
        assert("pow-canonicalize"@ != "branch-reduce"@);
        reveal_strlit("compare-reduce");
        assert("pow-canonicalize"@.len() == 16);
        assert("compare-reduce"@.len() == 14);
        reveal_strlit("compare-reduce");
        assert("pow-canonicalize"@.len() == 16);
        assert("compare-reduce"@.len() == 14);
        assert("pow-canonicalize"@ != "compare-reduce"@);
        reveal_strlit("bool-reduce");
        assert("pow-canonicalize"@.len() == 16);
        assert("bool-reduce"@.len() == 11);
        reveal_strlit("bool-reduce");
        assert("pow-canonicalize"@.len() == 16);
        assert("bool-reduce"@.len() == 11);
        assert("pow-canonicalize"@ != "bool-reduce"@);
        reveal_strlit("htrig-reduce");
        assert("pow-canonicalize"@.len() == 16);
        assert("htrig-reduce"@.len() == 12);
        reveal_strlit("htrig-reduce");
        assert("pow-canonicalize"@.len() == 16);
        assert("htrig-reduce"@.len() == 12);
        assert("pow-canonicalize"@ != "htrig-reduce"@);
        reveal_strlit("trig-reduce-fp-sound-nan");
        assert("pow-canonicalize"@.len() == 16);
        assert("trig-reduce-fp-sound-nan"@.len() == 24);
        reveal_strlit("trig-reduce-fp-sound-nan");
        assert("pow-canonicalize"@.len() == 16);
        assert("trig-reduce-fp-sound-nan"@.len() == 24);
        assert("pow-canonicalize"@ != "trig-reduce-fp-sound-nan"@);
        reveal_strlit("trig-reduce-fp-sound");
        assert("pow-canonicalize"@.len() == 16);
        assert("trig-reduce-fp-sound"@.len() == 20);
        reveal_strlit("trig-reduce-fp-sound");
        assert("pow-canonicalize"@.len() == 16);
        assert("trig-reduce-fp-sound"@.len() == 20);
        assert("pow-canonicalize"@ != "trig-reduce-fp-sound"@);
        reveal_strlit("trig-reduce");
        assert("pow-canonicalize"@.len() == 16);
        assert("trig-reduce"@.len() == 11);
        reveal_strlit("trig-reduce");
        assert("pow-canonicalize"@.len() == 16);
        assert("trig-reduce"@.len() == 11);
        assert("pow-canonicalize"@ != "trig-reduce"@);
        reveal_strlit("log-distribute-fp-safe");
        assert("pow-canonicalize"@.len() == 16);
        assert("log-distribute-fp-safe"@.len() == 22);
        reveal_strlit("log-distribute-fp-safe");
        assert("pow-canonicalize"@.len() == 16);
        assert("log-distribute-fp-safe"@.len() == 22);
        assert("pow-canonicalize"@ != "log-distribute-fp-safe"@);
        reveal_strlit("log-distribute");
        assert("pow-canonicalize"@.len() == 16);
        assert("log-distribute"@.len() == 14);
        reveal_strlit("log-distribute");
        assert("pow-canonicalize"@.len() == 16);
        assert("log-distribute"@.len() == 14);
        assert("pow-canonicalize"@ != "log-distribute"@);
        assert(group_names(group_models(groups@)) =~= seq!["erf-rules"@, "complex-number-basics"@, "branch-reduce"@, "compare-reduce"@, "bool-reduce"@, "htrig-reduce"@, "trig-reduce-fp-sound-nan"@, "trig-reduce-fp-sound"@, "trig-reduce"@, "log-distribute-fp-safe"@, "log-distribute"@]);
        assert forall|j: int| 0 <= j < group_names(group_models(groups@)).len() implies
            group_names(group_models(groups@))[j] != "pow-canonicalize"@ by {}
        assert(!group_names(group_models(groups@)).contains("pow-canonicalize"@));
    }
    match push_group(groups, "pow-canonicalize", g) {
        Ok(()) => {},
        Err(e) => {
            proof { assert(false); }
            return Err(e);
        },
    }
    proof {
        assert(group_models(groups@) =~= seq![crate::corpus::corpus_group_0(), crate::corpus::corpus_group_1(), crate::corpus::corpus_group_2(), crate::corpus::corpus_group_3(), crate::corpus::corpus_group_4(), crate::corpus::corpus_group_5(), crate::corpus::corpus_group_6(), crate::corpus::corpus_group_7(), crate::corpus::corpus_group_8(), crate::corpus::corpus_group_9(), crate::corpus::corpus_group_10(), crate::corpus::corpus_group_11()]);
    }
    Ok(())
}

#[verifier::spinoff_prover]
#[verifier::rlimit(100)]
/// Build and append the `pow-reduce-fp-safe-nan` group.
fn corpus_push_12(groups: &mut Vec<RuleGroup>) -> (r: Result<(), RuleError>)
    requires
        group_models(old(groups)@) == seq![crate::corpus::corpus_group_0(), crate::corpus::corpus_group_1(), crate::corpus::corpus_group_2(), crate::corpus::corpus_group_3(), crate::corpus::corpus_group_4(), crate::corpus::corpus_group_5(), crate::corpus::corpus_group_6(), crate::corpus::corpus_group_7(), crate::corpus::corpus_group_8(), crate::corpus::corpus_group_9(), crate::corpus::corpus_group_10(), crate::corpus::corpus_group_11()],
    ensures
        r matches Ok(()) ==> group_models(final(groups)@) == seq![crate::corpus::corpus_group_0(), crate::corpus::corpus_group_1(), crate::corpus::corpus_group_2(), crate::corpus::corpus_group_3(), crate::corpus::corpus_group_4(), crate::corpus::corpus_group_5(), crate::corpus::corpus_group_6(), crate::corpus::corpus_group_7(), crate::corpus::corpus_group_8(), crate::corpus::corpus_group_9(), crate::corpus::corpus_group_10(), crate::corpus::corpus_group_11(), crate::corpus::corpus_group_12()],
        r is Err ==> !crate::corpus::corpus_rules_ok(),
{
    let mut t: Vec<(&str, &str, &str)> = Vec::new();
    t.push(("unpow0", "(pow ?a 0)", "1"));
    t.push(("pow-base-1", "(pow 1 ?a)", "1"));
    proof {
        assert(t@.len() == 2);
        assert forall|i: int| 0 <= i < t@.len() implies rule_ok(#[trigger] t@[i])
            == rule_ok(crate::corpus::group_tuples_12()[i]) by {
            if i == 0 {
                assert(t@[0].1@ == crate::corpus::group_tuples_12()[0].1@);
                assert(t@[0].2@ == crate::corpus::group_tuples_12()[0].2@);
            } else if i == 1 {
                assert(t@[1].1@ == crate::corpus::group_tuples_12()[1].1@);
                assert(t@[1].2@ == crate::corpus::group_tuples_12()[1].2@);
            }
        }
    }
    let g = match mk_rules(t.as_slice()) {
        Ok(g) => g,
        Err(e) => {
            proof {
                assert(!(forall|i: int| 0 <= i < crate::corpus::group_tuples_12().len()
                    ==> rule_ok(#[trigger] crate::corpus::group_tuples_12()[i])));
                assert(!crate::corpus::corpus_rules_ok());
            }
            return Err(e);
        },
    };
    proof {
        assert(rewrite_models(g@) =~= crate::corpus::corpus_group_12().rules);
        reveal_strlit("pow-reduce-fp-safe-nan");
        reveal_strlit("erf-rules");
        assert("pow-reduce-fp-safe-nan"@.len() == 22);
        assert("erf-rules"@.len() == 9);
        reveal_strlit("erf-rules");
        assert("pow-reduce-fp-safe-nan"@.len() == 22);
        assert("erf-rules"@.len() == 9);
        assert("pow-reduce-fp-safe-nan"@ != "erf-rules"@);
        reveal_strlit("complex-number-basics");
        assert("pow-reduce-fp-safe-nan"@.len() == 22);
        assert("complex-number-basics"@.len() == 21);
        reveal_strlit("complex-number-basics");
        assert("pow-reduce-fp-safe-nan"@.len() == 22);
        assert("complex-number-basics"@.len() == 21);
        assert("pow-reduce-fp-safe-nan"@ != "complex-number-basics"@);
        reveal_strlit("branch-reduce");
        assert("pow-reduce-fp-safe-nan"@.len() == 22);
        assert("branch-reduce"@.len() == 13);
        reveal_strlit("branch-reduce");
        assert("pow-reduce-fp-safe-nan"@.len() == 22);
        assert("branch-reduce"@.len() == 13);
        assert("pow-reduce-fp-safe-nan"@ != "branch-reduce"@);
        reveal_strlit("compare-reduce");
        assert("pow-reduce-fp-safe-nan"@.len() == 22);
        assert("compare-reduce"@.len() == 14);
        reveal_strlit("compare-reduce");
        assert("pow-reduce-fp-safe-nan"@.len() == 22);
        assert("compare-reduce"@.len() == 14);
        assert("pow-reduce-fp-safe-nan"@ != "compare-reduce"@);
        reveal_strlit("bool-reduce");
        assert("pow-reduce-fp-safe-nan"@.len() == 22);
        assert("bool-reduce"@.len() == 11);
        reveal_strlit("bool-reduce");
        assert("pow-reduce-fp-safe-nan"@.len() == 22);
        assert("bool-reduce"@.len() == 11);
        assert("pow-reduce-fp-safe-nan"@ != "bool-reduce"@);
        reveal_strlit("htrig-reduce");
        assert("pow-reduce-fp-safe-nan"@.len() == 22);
        assert("htrig-reduce"@.len() == 12);
        reveal_strlit("htrig-reduce");
        assert("pow-reduce-fp-safe-nan"@.len() == 22);
        assert("htrig-reduce"@.len() == 12);
        assert("pow-reduce-fp-safe-nan"@ != "htrig-reduce"@);
        reveal_strlit("trig-reduce-fp-sound-nan");
        assert("pow-reduce-fp-safe-nan"@.len() == 22);
        assert("trig-reduce-fp-sound-nan"@.len() == 24);
        reveal_strlit("trig-reduce-fp-sound-nan");
        assert("pow-reduce-fp-safe-nan"@.len() == 22);
        assert("trig-reduce-fp-sound-nan"@.len() == 24);
        assert("pow-reduce-fp-safe-nan"@ != "trig-reduce-fp-sound-nan"@);
        reveal_strlit("trig-reduce-fp-sound");
        assert("pow-reduce-fp-safe-nan"@.len() == 22);
        assert("trig-reduce-fp-sound"@.len() == 20);
        reveal_strlit("trig-reduce-fp-sound");
        assert("pow-reduce-fp-safe-nan"@.len() == 22);
        assert("trig-reduce-fp-sound"@.len() == 20);
        assert("pow-reduce-fp-safe-nan"@ != "trig-reduce-fp-sound"@);
        reveal_strlit("trig-reduce");
        assert("pow-reduce-fp-safe-nan"@.len() == 22);
        assert("trig-reduce"@.len() == 11);
        reveal_strlit("trig-reduce");
        assert("pow-reduce-fp-safe-nan"@.len() == 22);
        assert("trig-reduce"@.len() == 11);
        assert("pow-reduce-fp-safe-nan"@ != "trig-reduce"@);
        reveal_strlit("log-distribute-fp-safe");
        assert("pow-reduce-fp-safe-nan"@[0] != "log-distribute-fp-safe"@[0]);
        reveal_strlit("log-distribute-fp-safe");
        assert("pow-reduce-fp-safe-nan"@.len() == 22);
        assert("log-distribute-fp-safe"@.len() == 22);
        reveal_strlit("log-distribute-fp-safe");
        assert("pow-reduce-fp-safe-nan"@.len() == 22);
        assert("log-distribute-fp-safe"@.len() == 22);
        assert("pow-reduce-fp-safe-nan"@ != "log-distribute-fp-safe"@);
        reveal_strlit("log-distribute");
        assert("pow-reduce-fp-safe-nan"@.len() == 22);
        assert("log-distribute"@.len() == 14);
        reveal_strlit("log-distribute");
        assert("pow-reduce-fp-safe-nan"@.len() == 22);
        assert("log-distribute"@.len() == 14);
        assert("pow-reduce-fp-safe-nan"@ != "log-distribute"@);
        reveal_strlit("pow-canonicalize");
        assert("pow-reduce-fp-safe-nan"@.len() == 22);
        assert("pow-canonicalize"@.len() == 16);
        reveal_strlit("pow-canonicalize");
        assert("pow-reduce-fp-safe-nan"@.len() == 22);
        assert("pow-canonicalize"@.len() == 16);
        assert("pow-reduce-fp-safe-nan"@ != "pow-canonicalize"@);
        assert(group_names(group_models(groups@)) =~= seq!["erf-rules"@, "complex-number-basics"@, "branch-reduce"@, "compare-reduce"@, "bool-reduce"@, "htrig-reduce"@, "trig-reduce-fp-sound-nan"@, "trig-reduce-fp-sound"@, "trig-reduce"@, "log-distribute-fp-safe"@, "log-distribute"@, "pow-canonicalize"@]);
        assert forall|j: int| 0 <= j < group_names(group_models(groups@)).len() implies
            group_names(group_models(groups@))[j] != "pow-reduce-fp-safe-nan"@ by {}
        assert(!group_names(group_models(groups@)).contains("pow-reduce-fp-safe-nan"@));
    }
    match push_group(groups, "pow-reduce-fp-safe-nan", g) {
        Ok(()) => {},
        Err(e) => {
            proof { assert(false); }
            return Err(e);
        },
    }
    proof {
        assert(group_models(groups@) =~= seq![crate::corpus::corpus_group_0(), crate::corpus::corpus_group_1(), crate::corpus::corpus_group_2(), crate::corpus::corpus_group_3(), crate::corpus::corpus_group_4(), crate::corpus::corpus_group_5(), crate::corpus::corpus_group_6(), crate::corpus::corpus_group_7(), crate::corpus::corpus_group_8(), crate::corpus::corpus_group_9(), crate::corpus::corpus_group_10(), crate::corpus::corpus_group_11(), crate::corpus::corpus_group_12()]);
    }
    Ok(())
}

#[verifier::spinoff_prover]
#[verifier::rlimit(100)]
/// Build and append the `pow-reduce-fp-safe` group.
fn corpus_push_13(groups: &mut Vec<RuleGroup>) -> (r: Result<(), RuleError>)
    requires
        group_models(old(groups)@) == seq![crate::corpus::corpus_group_0(), crate::corpus::corpus_group_1(), crate::corpus::corpus_group_2(), crate::corpus::corpus_group_3(), crate::corpus::corpus_group_4(), crate::corpus::corpus_group_5(), crate::corpus::corpus_group_6(), crate::corpus::corpus_group_7(), crate::corpus::corpus_group_8(), crate::corpus::corpus_group_9(), crate::corpus::corpus_group_10(), crate::corpus::corpus_group_11(), crate::corpus::corpus_group_12()],
    ensures
        r matches Ok(()) ==> group_models(final(groups)@) == seq![crate::corpus::corpus_group_0(), crate::corpus::corpus_group_1(), crate::corpus::corpus_group_2(), crate::corpus::corpus_group_3(), crate::corpus::corpus_group_4(), crate::corpus::corpus_group_5(), crate::corpus::corpus_group_6(), crate::corpus::corpus_group_7(), crate::corpus::corpus_group_8(), crate::corpus::corpus_group_9(), crate::corpus::corpus_group_10(), crate::corpus::corpus_group_11(), crate::corpus::corpus_group_12(), crate::corpus::corpus_group_13()],
        r is Err ==> !crate::corpus::corpus_rules_ok(),
{
    let mut t: Vec<(&str, &str, &str)> = Vec::new();
    t.push(("unpow1", "(pow ?a 1)", "?a"));
    proof {
        assert(t@.len() == 1);
        assert forall|i: int| 0 <= i < t@.len() implies rule_ok(#[trigger] t@[i])
            == rule_ok(crate::corpus::group_tuples_13()[i]) by {
            if i == 0 {
                assert(t@[0].1@ == crate::corpus::group_tuples_13()[0].1@);
                assert(t@[0].2@ == crate::corpus::group_tuples_13()[0].2@);
            }
        }
    }
    let g = match mk_rules(t.as_slice()) {
        Ok(g) => g,
        Err(e) => {
            proof {
                assert(!(forall|i: int| 0 <= i < crate::corpus::group_tuples_13().len()
                    ==> rule_ok(#[trigger] crate::corpus::group_tuples_13()[i])));
                assert(!crate::corpus::corpus_rules_ok());
            }
            return Err(e);
        },
    };
    proof {
        assert(rewrite_models(g@) =~= crate::corpus::corpus_group_13().rules);
        reveal_strlit("pow-reduce-fp-safe");
        reveal_strlit("erf-rules");
        assert("pow-reduce-fp-safe"@.len() == 18);
        assert("erf-rules"@.len() == 9);
        reveal_strlit("erf-rules");
        assert("pow-reduce-fp-safe"@.len() == 18);
        assert("erf-rules"@.len() == 9);
        assert("pow-reduce-fp-safe"@ != "erf-rules"@);
        reveal_strlit("complex-number-basics");
        assert("pow-reduce-fp-safe"@.len() == 18);
        assert("complex-number-basics"@.len() == 21);
        reveal_strlit("complex-number-basics");
        assert("pow-reduce-fp-safe"@.len() == 18);
        assert("complex-number-basics"@.len() == 21);
        assert("pow-reduce-fp-safe"@ != "complex-number-basics"@);
        reveal_strlit("branch-reduce");
        assert("pow-reduce-fp-safe"@.len() == 18);
        assert("branch-reduce"@.len() == 13);
        reveal_strlit("branch-reduce");
        assert("pow-reduce-fp-safe"@.len() == 18);
        assert("branch-reduce"@.len() == 13);
        assert("pow-reduce-fp-safe"@ != "branch-reduce"@);
        reveal_strlit("compare-reduce");
        assert("pow-reduce-fp-safe"@.len() == 18);
        assert("compare-reduce"@.len() == 14);
        reveal_strlit("compare-reduce");
        assert("pow-reduce-fp-safe"@.len() == 18);
        assert("compare-reduce"@.len() == 14);
        assert("pow-reduce-fp-safe"@ != "compare-reduce"@);
        reveal_strlit("bool-reduce");
        assert("pow-reduce-fp-safe"@.len() == 18);
        assert("bool-reduce"@.len() == 11);
        reveal_strlit("bool-reduce");
        assert("pow-reduce-fp-safe"@.len() == 18);
        assert("bool-reduce"@.len() == 11);
        assert("pow-reduce-fp-safe"@ != "bool-reduce"@);
        reveal_strlit("htrig-reduce");
        assert("pow-reduce-fp-safe"@.len() == 18);
        assert("htrig-reduce"@.len() == 12);
        reveal_strlit("htrig-reduce");
        assert("pow-reduce-fp-safe"@.len() == 18);
        assert("htrig-reduce"@.len() == 12);
        assert("pow-reduce-fp-safe"@ != "htrig-reduce"@);
        reveal_strlit("trig-reduce-fp-sound-nan");
        assert("pow-reduce-fp-safe"@.len() == 18);
        assert("trig-reduce-fp-sound-nan"@.len() == 24);
        reveal_strlit("trig-reduce-fp-sound-nan");
        assert("pow-reduce-fp-safe"@.len() == 18);
        assert("trig-reduce-fp-sound-nan"@.len() == 24);
        assert("pow-reduce-fp-safe"@ != "trig-reduce-fp-sound-nan"@);
        reveal_strlit("trig-reduce-fp-sound");
        assert("pow-reduce-fp-safe"@.len() == 18);
        assert("trig-reduce-fp-sound"@.len() == 20);
        reveal_strlit("trig-reduce-fp-sound");
        assert("pow-reduce-fp-safe"@.len() == 18);
        assert("trig-reduce-fp-sound"@.len() == 20);
        assert("pow-reduce-fp-safe"@ != "trig-reduce-fp-sound"@);
        reveal_strlit("trig-reduce");
        assert("pow-reduce-fp-safe"@.len() == 18);
        assert("trig-reduce"@.len() == 11);
        reveal_strlit("trig-reduce");
        assert("pow-reduce-fp-safe"@.len() == 18);
        assert("trig-reduce"@.len() == 11);
        assert("pow-reduce-fp-safe"@ != "trig-reduce"@);
        reveal_strlit("log-distribute-fp-safe");
        assert("pow-reduce-fp-safe"@.len() == 18);
        assert("log-distribute-fp-safe"@.len() == 22);
        reveal_strlit("log-distribute-fp-safe");
        assert("pow-reduce-fp-safe"@.len() == 18);
        assert("log-distribute-fp-safe"@.len() == 22);
        assert("pow-reduce-fp-safe"@ != "log-distribute-fp-safe"@);
        reveal_strlit("log-distribute");
        assert("pow-reduce-fp-safe"@.len() == 18);
        assert("log-distribute"@.len() == 14);
        reveal_strlit("log-distribute");
        assert("pow-reduce-fp-safe"@.len() == 18);
        assert("log-distribute"@.len() == 14);
        assert("pow-reduce-fp-safe"@ != "log-distribute"@);
        reveal_strlit("pow-canonicalize");
        assert("pow-reduce-fp-safe"@.len() == 18);
        assert("pow-canonicalize"@.len() == 16);
        reveal_strlit("pow-canonicalize");
        assert("pow-reduce-fp-safe"@.len() == 18);
        assert("pow-canonicalize"@.len() == 16);
        assert("pow-reduce-fp-safe"@ != "pow-canonicalize"@);
        reveal_strlit("pow-reduce-fp-safe-nan");
        assert("pow-reduce-fp-safe"@.len() == 18);
        assert("pow-reduce-fp-safe-nan"@.len() == 22);
        reveal_strlit("pow-reduce-fp-safe-nan");
        assert("pow-reduce-fp-safe"@.len() == 18);
        assert("pow-reduce-fp-safe-nan"@.len() == 22);
        assert("pow-reduce-fp-safe"@ != "pow-reduce-fp-safe-nan"@);
        assert(group_names(group_models(groups@)) =~= seq!["erf-rules"@, "complex-number-basics"@, "branch-reduce"@, "compare-reduce"@, "bool-reduce"@, "htrig-reduce"@, "trig-reduce-fp-sound-nan"@, "trig-reduce-fp-sound"@, "trig-reduce"@, "log-distribute-fp-safe"@, "log-distribute"@, "pow-canonicalize"@, "pow-reduce-fp-safe-nan"@]);
        assert forall|j: int| 0 <= j < group_names(group_models(groups@)).len() implies
            group_names(group_models(groups@))[j] != "pow-reduce-fp-safe"@ by {}
        assert(!group_names(group_models(groups@)).contains("pow-reduce-fp-safe"@));
    }
    match push_group(groups, "pow-reduce-fp-safe", g) {
        Ok(()) => {},
        Err(e) => {
            proof { assert(false); }
            return Err(e);
        },
    }
    proof {
        assert(group_models(groups@) =~= seq![crate::corpus::corpus_group_0(), crate::corpus::corpus_group_1(), crate::corpus::corpus_group_2(), crate::corpus::corpus_group_3(), crate::corpus::corpus_group_4(), crate::corpus::corpus_group_5(), crate::corpus::corpus_group_6(), crate::corpus::corpus_group_7(), crate::corpus::corpus_group_8(), crate::corpus::corpus_group_9(), crate::corpus::corpus_group_10(), crate::corpus::corpus_group_11(), crate::corpus::corpus_group_12(), crate::corpus::corpus_group_13()]);
    }
    Ok(())
}

#[verifier::spinoff_prover]
#[verifier::rlimit(100)]
/// Build and append the `pow-reduce` group.
fn corpus_push_14(groups: &mut Vec<RuleGroup>) -> (r: Result<(), RuleError>)
    requires
        group_models(old(groups)@) == seq![crate::corpus::corpus_group_0(), crate::corpus::corpus_group_1(), crate::corpus::corpus_group_2(), crate::corpus::corpus_group_3(), crate::corpus::corpus_group_4(), crate::corpus::corpus_group_5(), crate::corpus::corpus_group_6(), crate::corpus::corpus_group_7(), crate::corpus::corpus_group_8(), crate::corpus::corpus_group_9(), crate::corpus::corpus_group_10(), crate::corpus::corpus_group_11(), crate::corpus::corpus_group_12(), crate::corpus::corpus_group_13()],
    ensures
        r matches Ok(()) ==> group_models(final(groups)@) == seq![crate::corpus::corpus_group_0(), crate::corpus::corpus_group_1(), crate::corpus::corpus_group_2(), crate::corpus::corpus_group_3(), crate::corpus::corpus_group_4(), crate::corpus::corpus_group_5(), crate::corpus::corpus_group_6(), crate::corpus::corpus_group_7(), crate::corpus::corpus_group_8(), crate::corpus::corpus_group_9(), crate::corpus::corpus_group_10(), crate::corpus::corpus_group_11(), crate::corpus::corpus_group_12(), crate::corpus::corpus_group_13(), crate::corpus::corpus_group_14()],
        r is Err ==> !crate::corpus::corpus_rules_ok(),
{
    let mut t: Vec<(&str, &str, &str)> = Vec::new();
    t.push(("unpow-1", "(pow ?a -1)", "(/ 1 ?a)"));
    proof {
        assert(t@.len() == 1);
        assert forall|i: int| 0 <= i < t@.len() implies rule_ok(#[trigger] t@[i])
            == rule_ok(crate::corpus::group_tuples_14()[i]) by {
            if i == 0 {
                assert(t@[0].1@ == crate::corpus::group_tuples_14()[0].1@);
                assert(t@[0].2@ == crate::corpus::group_tuples_14()[0].2@);
            }
        }
    }
    let g = match mk_rules(t.as_slice()) {
        Ok(g) => g,
        Err(e) => {
            proof {
                assert(!(forall|i: int| 0 <= i < crate::corpus::group_tuples_14().len()
                    ==> rule_ok(#[trigger] crate::corpus::group_tuples_14()[i])));
                assert(!crate::corpus::corpus_rules_ok());
            }
            return Err(e);
        },
    };
    proof {
        assert(rewrite_models(g@) =~= crate::corpus::corpus_group_14().rules);
        reveal_strlit("pow-reduce");
        reveal_strlit("erf-rules");
        assert("pow-reduce"@.len() == 10);
        assert("erf-rules"@.len() == 9);
        reveal_strlit("erf-rules");
        assert("pow-reduce"@.len() == 10);
        assert("erf-rules"@.len() == 9);
        assert("pow-reduce"@ != "erf-rules"@);
        reveal_strlit("complex-number-basics");
        assert("pow-reduce"@.len() == 10);
        assert("complex-number-basics"@.len() == 21);
        reveal_strlit("complex-number-basics");
        assert("pow-reduce"@.len() == 10);
        assert("complex-number-basics"@.len() == 21);
        assert("pow-reduce"@ != "complex-number-basics"@);
        reveal_strlit("branch-reduce");
        assert("pow-reduce"@.len() == 10);
        assert("branch-reduce"@.len() == 13);
        reveal_strlit("branch-reduce");
        assert("pow-reduce"@.len() == 10);
        assert("branch-reduce"@.len() == 13);
        assert("pow-reduce"@ != "branch-reduce"@);
        reveal_strlit("compare-reduce");
        assert("pow-reduce"@.len() == 10);
        assert("compare-reduce"@.len() == 14);
        reveal_strlit("compare-reduce");
        assert("pow-reduce"@.len() == 10);
        assert("compare-reduce"@.len() == 14);
        assert("pow-reduce"@ != "compare-reduce"@);
        reveal_strlit("bool-reduce");
        assert("pow-reduce"@.len() == 10);
        assert("bool-reduce"@.len() == 11);
        reveal_strlit("bool-reduce");
        assert("pow-reduce"@.len() == 10);
        assert("bool-reduce"@.len() == 11);
        assert("pow-reduce"@ != "bool-reduce"@);
        reveal_strlit("htrig-reduce");
        assert("pow-reduce"@.len() == 10);
        assert("htrig-reduce"@.len() == 12);
        reveal_strlit("htrig-reduce");
        assert("pow-reduce"@.len() == 10);
        assert("htrig-reduce"@.len() == 12);
        assert("pow-reduce"@ != "htrig-reduce"@);
        reveal_strlit("trig-reduce-fp-sound-nan");
        assert("pow-reduce"@.len() == 10);
        assert("trig-reduce-fp-sound-nan"@.len() == 24);
        reveal_strlit("trig-reduce-fp-sound-nan");
        assert("pow-reduce"@.len() == 10);
        assert("trig-reduce-fp-sound-nan"@.len() == 24);
        assert("pow-reduce"@ != "trig-reduce-fp-sound-nan"@);
        reveal_strlit("trig-reduce-fp-sound");
        assert("pow-reduce"@.len() == 10);
        assert("trig-reduce-fp-sound"@.len() == 20);
        reveal_strlit("trig-reduce-fp-sound");
        assert("pow-reduce"@.len() == 10);
        assert("trig-reduce-fp-sound"@.len() == 20);
        assert("pow-reduce"@ != "trig-reduce-fp-sound"@);
        reveal_strlit("trig-reduce");
        assert("pow-reduce"@.len() == 10);
        assert("trig-reduce"@.len() == 11);
        reveal_strlit("trig-reduce");
        assert("pow-reduce"@.len() == 10);
        assert("trig-reduce"@.len() == 11);
        assert("pow-reduce"@ != "trig-reduce"@);
        reveal_strlit("log-distribute-fp-safe");
        assert("pow-reduce"@.len() == 10);
        assert("log-distribute-fp-safe"@.len() == 22);
        reveal_strlit("log-distribute-fp-safe");
        assert("pow-reduce"@.len() == 10);
        assert("log-distribute-fp-safe"@.len() == 22);
        assert("pow-reduce"@ != "log-distribute-fp-safe"@);
        reveal_strlit("log-distribute");
        assert("pow-reduce"@.len() == 10);
        assert("log-distribute"@.len() == 14);
        reveal_strlit("log-distribute");
        assert("pow-reduce"@.len() == 10);
        assert("log-distribute"@.len() == 14);
        assert("pow-reduce"@ != "log-distribute"@);
        reveal_strlit("pow-canonicalize");
        assert("pow-reduce"@.len() == 10);
        assert("pow-canonicalize"@.len() == 16);
        reveal_strlit("pow-canonicalize");
        assert("pow-reduce"@.len() == 10);
        assert("pow-canonicalize"@.len() == 16);
        assert("pow-reduce"@ != "pow-canonicalize"@);
        reveal_strlit("pow-reduce-fp-safe-nan");
        assert("pow-reduce"@.len() == 10);
        assert("pow-reduce-fp-safe-nan"@.len() == 22);
        reveal_strlit("pow-reduce-fp-safe-nan");
        assert("pow-reduce"@.len() == 10);
        assert("pow-reduce-fp-safe-nan"@.len() == 22);
        assert("pow-reduce"@ != "pow-reduce-fp-safe-nan"@);
        reveal_strlit("pow-reduce-fp-safe");
        assert("pow-reduce"@.len() == 10);
        assert("pow-reduce-fp-safe"@.len() == 18);
        reveal_strlit("pow-reduce-fp-safe");
        assert("pow-reduce"@.len() == 10);
        assert("pow-reduce-fp-safe"@.len() == 18);
        assert("pow-reduce"@ != "pow-reduce-fp-safe"@);
        assert(group_names(group_models(groups@)) =~= seq!["erf-rules"@, "complex-number-basics"@, "branch-reduce"@, "compare-reduce"@, "bool-reduce"@, "htrig-reduce"@, "trig-reduce-fp-sound-nan"@, "trig-reduce-fp-sound"@, "trig-reduce"@, "log-distribute-fp-safe"@, "log-distribute"@, "pow-canonicalize"@, "pow-reduce-fp-safe-nan"@, "pow-reduce-fp-safe"@]);
        assert forall|j: int| 0 <= j < group_names(group_models(groups@)).len() implies
            group_names(group_models(groups@))[j] != "pow-reduce"@ by {}
        assert(!group_names(group_models(groups@)).contains("pow-reduce"@));
    }
    match push_group(groups, "pow-reduce", g) {
        Ok(()) => {},
        Err(e) => {
            proof { assert(false); }
            return Err(e);
        },
    }
    proof {
        assert(group_models(groups@) =~= seq![crate::corpus::corpus_group_0(), crate::corpus::corpus_group_1(), crate::corpus::corpus_group_2(), crate::corpus::corpus_group_3(), crate::corpus::corpus_group_4(), crate::corpus::corpus_group_5(), crate::corpus::corpus_group_6(), crate::corpus::corpus_group_7(), crate::corpus::corpus_group_8(), crate::corpus::corpus_group_9(), crate::corpus::corpus_group_10(), crate::corpus::corpus_group_11(), crate::corpus::corpus_group_12(), crate::corpus::corpus_group_13(), crate::corpus::corpus_group_14()]);
    }
    Ok(())
}

#[verifier::spinoff_prover]
#[verifier::rlimit(100)]
/// Build and append the `exp-factor` group.
fn corpus_push_15(groups: &mut Vec<RuleGroup>) -> (r: Result<(), RuleError>)
    requires
        group_models(old(groups)@) == seq![crate::corpus::corpus_group_0(), crate::corpus::corpus_group_1(), crate::corpus::corpus_group_2(), crate::corpus::corpus_group_3(), crate::corpus::corpus_group_4(), crate::corpus::corpus_group_5(), crate::corpus::corpus_group_6(), crate::corpus::corpus_group_7(), crate::corpus::corpus_group_8(), crate::corpus::corpus_group_9(), crate::corpus::corpus_group_10(), crate::corpus::corpus_group_11(), crate::corpus::corpus_group_12(), crate::corpus::corpus_group_13(), crate::corpus::corpus_group_14()],
    ensures
        r matches Ok(()) ==> group_models(final(groups)@) == seq![crate::corpus::corpus_group_0(), crate::corpus::corpus_group_1(), crate::corpus::corpus_group_2(), crate::corpus::corpus_group_3(), crate::corpus::corpus_group_4(), crate::corpus::corpus_group_5(), crate::corpus::corpus_group_6(), crate::corpus::corpus_group_7(), crate::corpus::corpus_group_8(), crate::corpus::corpus_group_9(), crate::corpus::corpus_group_10(), crate::corpus::corpus_group_11(), crate::corpus::corpus_group_12(), crate::corpus::corpus_group_13(), crate::corpus::corpus_group_14(), crate::corpus::corpus_group_15()],
        r is Err ==> !crate::corpus::corpus_rules_ok(),
{
    let mut t: Vec<(&str, &str, &str)> = Vec::new();
    t.push(("prod-exp", "(* (exp ?a) (exp ?b))", "(exp (+ ?a ?b))"));
    t.push(("rec-exp", "(/ 1 (exp ?a))", "(exp (neg ?a))"));
    t.push(("div-exp", "(/ (exp ?a) (exp ?b))", "(exp (- ?a ?b))"));
    t.push(("exp-prod", "(exp (* ?a ?b))", "(pow (exp ?a) ?b)"));
    t.push(("exp-sqrt", "(exp (/ ?a 2))", "(sqrt (exp ?a))"));
    t.push(("exp-cbrt", "(exp (/ ?a 3))", "(cbrt (exp ?a))"));
    t.push(("exp-lft-sqr", "(exp (* ?a 2))", "(* (exp ?a) (exp ?a))"));
    t.push(("exp-lft-cube", "(exp (* ?a 3))", "(pow (exp ?a) 3)"));
    proof {
        assert(t@.len() == 8);
        assert forall|i: int| 0 <= i < t@.len() implies rule_ok(#[trigger] t@[i])
            == rule_ok(crate::corpus::group_tuples_15()[i]) by {
            if i == 0 {
                assert(t@[0].1@ == crate::corpus::group_tuples_15()[0].1@);
                assert(t@[0].2@ == crate::corpus::group_tuples_15()[0].2@);
            } else if i == 1 {
                assert(t@[1].1@ == crate::corpus::group_tuples_15()[1].1@);
                assert(t@[1].2@ == crate::corpus::group_tuples_15()[1].2@);
            } else if i == 2 {
                assert(t@[2].1@ == crate::corpus::group_tuples_15()[2].1@);
                assert(t@[2].2@ == crate::corpus::group_tuples_15()[2].2@);
            } else if i == 3 {
                assert(t@[3].1@ == crate::corpus::group_tuples_15()[3].1@);
                assert(t@[3].2@ == crate::corpus::group_tuples_15()[3].2@);
            } else if i == 4 {
                assert(t@[4].1@ == crate::corpus::group_tuples_15()[4].1@);
                assert(t@[4].2@ == crate::corpus::group_tuples_15()[4].2@);
            } else if i == 5 {
                assert(t@[5].1@ == crate::corpus::group_tuples_15()[5].1@);
                assert(t@[5].2@ == crate::corpus::group_tuples_15()[5].2@);
            } else if i == 6 {
                assert(t@[6].1@ == crate::corpus::group_tuples_15()[6].1@);
                assert(t@[6].2@ == crate::corpus::group_tuples_15()[6].2@);
            } else if i == 7 {
                assert(t@[7].1@ == crate::corpus::group_tuples_15()[7].1@);
                assert(t@[7].2@ == crate::corpus::group_tuples_15()[7].2@);
            }
        }
    }
    let g = match mk_rules(t.as_slice()) {
        Ok(g) => g,
        Err(e) => {
            proof {
                assert(!(forall|i: int| 0 <= i < crate::corpus::group_tuples_15().len()
                    ==> rule_ok(#[trigger] crate::corpus::group_tuples_15()[i])));
                assert(!crate::corpus::corpus_rules_ok());
            }
            return Err(e);
        },
    };
    proof {
        assert(rewrite_models(g@) =~= crate::corpus::corpus_group_15().rules);
        reveal_strlit("exp-factor");
        reveal_strlit("erf-rules");
        assert("exp-factor"@.len() == 10);
        assert("erf-rules"@.len() == 9);
        reveal_strlit("erf-rules");
        assert("exp-factor"@.len() == 10);
        assert("erf-rules"@.len() == 9);
        assert("exp-factor"@ != "erf-rules"@);
        reveal_strlit("complex-number-basics");
        assert("exp-factor"@.len() == 10);
        assert("complex-number-basics"@.len() == 21);
        reveal_strlit("complex-number-basics");
        assert("exp-factor"@.len() == 10);
        assert("complex-number-basics"@.len() == 21);
        assert("exp-factor"@ != "complex-number-basics"@);
        reveal_strlit("branch-reduce");
        assert("exp-factor"@.len() == 10);
        assert("branch-reduce"@.len() == 13);
        reveal_strlit("branch-reduce");
        assert("exp-factor"@.len() == 10);
        assert("branch-reduce"@.len() == 13);
        assert("exp-factor"@ != "branch-reduce"@);
        reveal_strlit("compare-reduce");
        assert("exp-factor"@.len() == 10);
        assert("compare-reduce"@.len() == 14);
        reveal_strlit("compare-reduce");
        assert("exp-factor"@.len() == 10);
        assert("compare-reduce"@.len() == 14);
        assert("exp-factor"@ != "compare-reduce"@);
        reveal_strlit("bool-reduce");
        assert("exp-factor"@.len() == 10);
        assert("bool-reduce"@.len() == 11);
        reveal_strlit("bool-reduce");
        assert("exp-factor"@.len() == 10);
        assert("bool-reduce"@.len() == 11);
        assert("exp-factor"@ != "bool-reduce"@);
        reveal_strlit("htrig-reduce");
        assert("exp-factor"@.len() == 10);
        assert("htrig-reduce"@.len() == 12);
        reveal_strlit("htrig-reduce");
        assert("exp-factor"@.len() == 10);
        assert("htrig-reduce"@.len() == 12);
        assert("exp-factor"@ != "htrig-reduce"@);
        reveal_strlit("trig-reduce-fp-sound-nan");
        assert("exp-factor"@.len() == 10);
        assert("trig-reduce-fp-sound-nan"@.len() == 24);
        reveal_strlit("trig-reduce-fp-sound-nan");
        assert("exp-factor"@.len() == 10);
        assert("trig-reduce-fp-sound-nan"@.len() == 24);
        assert("exp-factor"@ != "trig-reduce-fp-sound-nan"@);
        reveal_strlit("trig-reduce-fp-sound");
        assert("exp-factor"@.len() == 10);
        assert("trig-reduce-fp-sound"@.len() == 20);
        reveal_strlit("trig-reduce-fp-sound");
        assert("exp-factor"@.len() == 10);
        assert("trig-reduce-fp-sound"@.len() == 20);
        assert("exp-factor"@ != "trig-reduce-fp-sound"@);
        reveal_strlit("trig-reduce");
        assert("exp-factor"@.len() == 10);
        assert("trig-reduce"@.len() == 11);
        reveal_strlit("trig-reduce");
        assert("exp-factor"@.len() == 10);
        assert("trig-reduce"@.len() == 11);
        assert("exp-factor"@ != "trig-reduce"@);
        reveal_strlit("log-distribute-fp-safe");
        assert("exp-factor"@.len() == 10);
        assert("log-distribute-fp-safe"@.len() == 22);
        reveal_strlit("log-distribute-fp-safe");
        assert("exp-factor"@.len() == 10);
        assert("log-distribute-fp-safe"@.len() == 22);
        assert("exp-factor"@ != "log-distribute-fp-safe"@);
        reveal_strlit("log-distribute");
        assert("exp-factor"@.len() == 10);
        assert("log-distribute"@.len() == 14);
        reveal_strlit("log-distribute");
        assert("exp-factor"@.len() == 10);
        assert("log-distribute"@.len() == 14);
        assert("exp-factor"@ != "log-distribute"@);
        reveal_strlit("pow-canonicalize");
        assert("exp-factor"@.len() == 10);
        assert("pow-canonicalize"@.len() == 16);
        reveal_strlit("pow-canonicalize");
        assert("exp-factor"@.len() == 10);
        assert("pow-canonicalize"@.len() == 16);
        assert("exp-factor"@ != "pow-canonicalize"@);
        reveal_strlit("pow-reduce-fp-safe-nan");
        assert("exp-factor"@.len() == 10);
        assert("pow-reduce-fp-safe-nan"@.len() == 22);
        reveal_strlit("pow-reduce-fp-safe-nan");
        assert("exp-factor"@.len() == 10);
        assert("pow-reduce-fp-safe-nan"@.len() == 22);
        assert("exp-factor"@ != "pow-reduce-fp-safe-nan"@);
        reveal_strlit("pow-reduce-fp-safe");
        assert("exp-factor"@.len() == 10);
        assert("pow-reduce-fp-safe"@.len() == 18);
        reveal_strlit("pow-reduce-fp-safe");
        assert("exp-factor"@.len() == 10);
        assert("pow-reduce-fp-safe"@.len() == 18);
        assert("exp-factor"@ != "pow-reduce-fp-safe"@);
        reveal_strlit("pow-reduce");
        assert("exp-factor"@[0] != "pow-reduce"@[0]);
        reveal_strlit("pow-reduce");
        assert("exp-factor"@.len() == 10);
        assert("pow-reduce"@.len() == 10);
        reveal_strlit("pow-reduce");
        assert("exp-factor"@.len() == 10);
        assert("pow-reduce"@.len() == 10);
        assert("exp-factor"@ != "pow-reduce"@);
        assert(group_names(group_models(groups@)) =~= seq!["erf-rules"@, "complex-number-basics"@, "branch-reduce"@, "compare-reduce"@, "bool-reduce"@, "htrig-reduce"@, "trig-reduce-fp-sound-nan"@, "trig-reduce-fp-sound"@, "trig-reduce"@, "log-distribute-fp-safe"@, "log-distribute"@, "pow-canonicalize"@, "pow-reduce-fp-safe-nan"@, "pow-reduce-fp-safe"@, "pow-reduce"@]);
        assert forall|j: int| 0 <= j < group_names(group_models(groups@)).len() implies
            group_names(group_models(groups@))[j] != "exp-factor"@ by {}
        assert(!group_names(group_models(groups@)).contains("exp-factor"@));
    }
    match push_group(groups, "exp-factor", g) {
        Ok(()) => {},
        Err(e) => {
            proof { assert(false); }
            return Err(e);
        },
    }
    proof {
        assert(group_models(groups@) =~= seq![crate::corpus::corpus_group_0(), crate::corpus::corpus_group_1(), crate::corpus::corpus_group_2(), crate::corpus::corpus_group_3(), crate::corpus::corpus_group_4(), crate::corpus::corpus_group_5(), crate::corpus::corpus_group_6(), crate::corpus::corpus_group_7(), crate::corpus::corpus_group_8(), crate::corpus::corpus_group_9(), crate::corpus::corpus_group_10(), crate::corpus::corpus_group_11(), crate::corpus::corpus_group_12(), crate::corpus::corpus_group_13(), crate::corpus::corpus_group_14(), crate::corpus::corpus_group_15()]);
    }
    Ok(())
}

#[verifier::spinoff_prover]
#[verifier::rlimit(100)]
/// Build and append the `exp-distribute` group.
fn corpus_push_16(groups: &mut Vec<RuleGroup>) -> (r: Result<(), RuleError>)
    requires
        group_models(old(groups)@) == seq![crate::corpus::corpus_group_0(), crate::corpus::corpus_group_1(), crate::corpus::corpus_group_2(), crate::corpus::corpus_group_3(), crate::corpus::corpus_group_4(), crate::corpus::corpus_group_5(), crate::corpus::corpus_group_6(), crate::corpus::corpus_group_7(), crate::corpus::corpus_group_8(), crate::corpus::corpus_group_9(), crate::corpus::corpus_group_10(), crate::corpus::corpus_group_11(), crate::corpus::corpus_group_12(), crate::corpus::corpus_group_13(), crate::corpus::corpus_group_14(), crate::corpus::corpus_group_15()],
    ensures
        r matches Ok(()) ==> group_models(final(groups)@) == seq![crate::corpus::corpus_group_0(), crate::corpus::corpus_group_1(), crate::corpus::corpus_group_2(), crate::corpus::corpus_group_3(), crate::corpus::corpus_group_4(), crate::corpus::corpus_group_5(), crate::corpus::corpus_group_6(), crate::corpus::corpus_group_7(), crate::corpus::corpus_group_8(), crate::corpus::corpus_group_9(), crate::corpus::corpus_group_10(), crate::corpus::corpus_group_11(), crate::corpus::corpus_group_12(), crate::corpus::corpus_group_13(), crate::corpus::corpus_group_14(), crate::corpus::corpus_group_15(), crate::corpus::corpus_group_16()],
        r is Err ==> !crate::corpus::corpus_rules_ok(),
{
    let mut t: Vec<(&str, &str, &str)> = Vec::new();
    t.push(("exp-sum", "(exp (+ ?a ?b))", "(* (exp ?a) (exp ?b))"));
    t.push(("exp-neg", "(exp (neg ?a))", "(/ 1 (exp ?a))"));
    t.push(("exp-diff", "(exp (- ?a ?b))", "(/ (exp ?a) (exp ?b))"));
    proof {
        assert(t@.len() == 3);
        assert forall|i: int| 0 <= i < t@.len() implies rule_ok(#[trigger] t@[i])
            == rule_ok(crate::corpus::group_tuples_16()[i]) by {
            if i == 0 {
                assert(t@[0].1@ == crate::corpus::group_tuples_16()[0].1@);
                assert(t@[0].2@ == crate::corpus::group_tuples_16()[0].2@);
            } else if i == 1 {
                assert(t@[1].1@ == crate::corpus::group_tuples_16()[1].1@);
                assert(t@[1].2@ == crate::corpus::group_tuples_16()[1].2@);
            } else if i == 2 {
                assert(t@[2].1@ == crate::corpus::group_tuples_16()[2].1@);
                assert(t@[2].2@ == crate::corpus::group_tuples_16()[2].2@);
            }
        }
    }
    let g = match mk_rules(t.as_slice()) {
        Ok(g) => g,
        Err(e) => {
            proof {
                assert(!(forall|i: int| 0 <= i < crate::corpus::group_tuples_16().len()
                    ==> rule_ok(#[trigger] crate::corpus::group_tuples_16()[i])));
                assert(!crate::corpus::corpus_rules_ok());
            }
            return Err(e);
        },
    };
    proof {
        assert(rewrite_models(g@) =~= crate::corpus::corpus_group_16().rules);
        reveal_strlit("exp-distribute");
        reveal_strlit("erf-rules");
        assert("exp-distribute"@.len() == 14);
        assert("erf-rules"@.len() == 9);
        reveal_strlit("erf-rules");
        assert("exp-distribute"@.len() == 14);
        assert("erf-rules"@.len() == 9);
        assert("exp-distribute"@ != "erf-rules"@);
        reveal_strlit("complex-number-basics");
        assert("exp-distribute"@.len() == 14);
        assert("complex-number-basics"@.len() == 21);
        reveal_strlit("complex-number-basics");
        assert("exp-distribute"@.len() == 14);
        assert("complex-number-basics"@.len() == 21);
        assert("exp-distribute"@ != "complex-number-basics"@);
        reveal_strlit("branch-reduce");
        assert("exp-distribute"@.len() == 14);
        assert("branch-reduce"@.len() == 13);
        reveal_strlit("branch-reduce");
        assert("exp-distribute"@.len() == 14);
        assert("branch-reduce"@.len() == 13);
        assert("exp-distribute"@ != "branch-reduce"@);
        reveal_strlit("compare-reduce");
        assert("exp-distribute"@[0] != "compare-reduce"@[0]);
        reveal_strlit("compare-reduce");
        assert("exp-distribute"@.len() == 14);
        assert("compare-reduce"@.len() == 14);
        reveal_strlit("compare-reduce");
        assert("exp-distribute"@.len() == 14);
        assert("compare-reduce"@.len() == 14);
        assert("exp-distribute"@ != "compare-reduce"@);
        reveal_strlit("bool-reduce");
        assert("exp-distribute"@.len() == 14);
        assert("bool-reduce"@.len() == 11);
        reveal_strlit("bool-reduce");
        assert("exp-distribute"@.len() == 14);
        assert("bool-reduce"@.len() == 11);
        assert("exp-distribute"@ != "bool-reduce"@);
        reveal_strlit("htrig-reduce");
        assert("exp-distribute"@.len() == 14);
        assert("htrig-reduce"@.len() == 12);
        reveal_strlit("htrig-reduce");
        assert("exp-distribute"@.len() == 14);
        assert("htrig-reduce"@.len() == 12);
        assert("exp-distribute"@ != "htrig-reduce"@);
        reveal_strlit("trig-reduce-fp-sound-nan");
        assert("exp-distribute"@.len() == 14);
        assert("trig-reduce-fp-sound-nan"@.len() == 24);
        reveal_strlit("trig-reduce-fp-sound-nan");
        assert("exp-distribute"@.len() == 14);
        assert("trig-reduce-fp-sound-nan"@.len() == 24);
        assert("exp-distribute"@ != "trig-reduce-fp-sound-nan"@);
        reveal_strlit("trig-reduce-fp-sound");
        assert("exp-distribute"@.len() == 14);
        assert("trig-reduce-fp-sound"@.len() == 20);
        reveal_strlit("trig-reduce-fp-sound");
        assert("exp-distribute"@.len() == 14);
        assert("trig-reduce-fp-sound"@.len() == 20);
        assert("exp-distribute"@ != "trig-reduce-fp-sound"@);
        reveal_strlit("trig-reduce");
        assert("exp-distribute"@.len() == 14);
        assert("trig-reduce"@.len() == 11);
        reveal_strlit("trig-reduce");
        assert("exp-distribute"@.len() == 14);
        assert("trig-reduce"@.len() == 11);
        assert("exp-distribute"@ != "trig-reduce"@);
        reveal_strlit("log-distribute-fp-safe");
        assert("exp-distribute"@.len() == 14);
        assert("log-distribute-fp-safe"@.len() == 22);
        reveal_strlit("log-distribute-fp-safe");
        assert("exp-distribute"@.len() == 14);
        assert("log-distribute-fp-safe"@.len() == 22);
        assert("exp-distribute"@ != "log-distribute-fp-safe"@);
        reveal_strlit("log-distribute");
        assert("exp-distribute"@[0] != "log-distribute"@[0]);
        reveal_strlit("log-distribute");
        assert("exp-distribute"@.len() == 14);
        assert("log-distribute"@.len() == 14);
        reveal_strlit("log-distribute");
        assert("exp-distribute"@.len() == 14);
        assert("log-distribute"@.len() == 14);
        assert("exp-distribute"@ != "log-distribute"@);
        reveal_strlit("pow-canonicalize");
        assert("exp-distribute"@.len() == 14);
        assert("pow-canonicalize"@.len() == 16);
        reveal_strlit("pow-canonicalize");
        assert("exp-distribute"@.len() == 14);
        assert("pow-canonicalize"@.len() == 16);
        assert("exp-distribute"@ != "pow-canonicalize"@);
        reveal_strlit("pow-reduce-fp-safe-nan");
        assert("exp-distribute"@.len() == 14);
        assert("pow-reduce-fp-safe-nan"@.len() == 22);
        reveal_strlit("pow-reduce-fp-safe-nan");
        assert("exp-distribute"@.len() == 14);
        assert("pow-reduce-fp-safe-nan"@.len() == 22);
        assert("exp-distribute"@ != "pow-reduce-fp-safe-nan"@);
        reveal_strlit("pow-reduce-fp-safe");
        assert("exp-distribute"@.len() == 14);
        assert("pow-reduce-fp-safe"@.len() == 18);
        reveal_strlit("pow-reduce-fp-safe");
        assert("exp-distribute"@.len() == 14);
        assert("pow-reduce-fp-safe"@.len() == 18);
        assert("exp-distribute"@ != "pow-reduce-fp-safe"@);
        reveal_strlit("pow-reduce");
        assert("exp-distribute"@.len() == 14);
        assert("pow-reduce"@.len() == 10);
        reveal_strlit("pow-reduce");
        assert("exp-distribute"@.len() == 14);
        assert("pow-reduce"@.len() == 10);
        assert("exp-distribute"@ != "pow-reduce"@);
        reveal_strlit("exp-factor");
        assert("exp-distribute"@.len() == 14);
        assert("exp-factor"@.len() == 10);
        reveal_strlit("exp-factor");
        assert("exp-distribute"@.len() == 14);
        assert("exp-factor"@.len() == 10);
        assert("exp-distribute"@ != "exp-factor"@);
        assert(group_names(group_models(groups@)) =~= seq!["erf-rules"@, "complex-number-basics"@, "branch-reduce"@, "compare-reduce"@, "bool-reduce"@, "htrig-reduce"@, "trig-reduce-fp-sound-nan"@, "trig-reduce-fp-sound"@, "trig-reduce"@, "log-distribute-fp-safe"@, "log-distribute"@, "pow-canonicalize"@, "pow-reduce-fp-safe-nan"@, "pow-reduce-fp-safe"@, "pow-reduce"@, "exp-factor"@]);
        assert forall|j: int| 0 <= j < group_names(group_models(groups@)).len() implies
            group_names(group_models(groups@))[j] != "exp-distribute"@ by {}
        assert(!group_names(group_models(groups@)).contains("exp-distribute"@));
    }
    match push_group(groups, "exp-distribute", g) {
        Ok(()) => {},
        Err(e) => {
            proof { assert(false); }
            return Err(e);
        },
    }
    proof {
        assert(group_models(groups@) =~= seq![crate::corpus::corpus_group_0(), crate::corpus::corpus_group_1(), crate::corpus::corpus_group_2(), crate::corpus::corpus_group_3(), crate::corpus::corpus_group_4(), crate::corpus::corpus_group_5(), crate::corpus::corpus_group_6(), crate::corpus::corpus_group_7(), crate::corpus::corpus_group_8(), crate::corpus::corpus_group_9(), crate::corpus::corpus_group_10(), crate::corpus::corpus_group_11(), crate::corpus::corpus_group_12(), crate::corpus::corpus_group_13(), crate::corpus::corpus_group_14(), crate::corpus::corpus_group_15(), crate::corpus::corpus_group_16()]);
    }
    Ok(())
}

#[verifier::spinoff_prover]
#[verifier::rlimit(100)]
/// Build and append the `exp-constants` group.
fn corpus_push_17(groups: &mut Vec<RuleGroup>) -> (r: Result<(), RuleError>)
    requires
        group_models(old(groups)@) == seq![crate::corpus::corpus_group_0(), crate::corpus::corpus_group_1(), crate::corpus::corpus_group_2(), crate::corpus::corpus_group_3(), crate::corpus::corpus_group_4(), crate::corpus::corpus_group_5(), crate::corpus::corpus_group_6(), crate::corpus::corpus_group_7(), crate::corpus::corpus_group_8(), crate::corpus::corpus_group_9(), crate::corpus::corpus_group_10(), crate::corpus::corpus_group_11(), crate::corpus::corpus_group_12(), crate::corpus::corpus_group_13(), crate::corpus::corpus_group_14(), crate::corpus::corpus_group_15(), crate::corpus::corpus_group_16()],
    ensures
        r matches Ok(()) ==> group_models(final(groups)@) == seq![crate::corpus::corpus_group_0(), crate::corpus::corpus_group_1(), crate::corpus::corpus_group_2(), crate::corpus::corpus_group_3(), crate::corpus::corpus_group_4(), crate::corpus::corpus_group_5(), crate::corpus::corpus_group_6(), crate::corpus::corpus_group_7(), crate::corpus::corpus_group_8(), crate::corpus::corpus_group_9(), crate::corpus::corpus_group_10(), crate::corpus::corpus_group_11(), crate::corpus::corpus_group_12(), crate::corpus::corpus_group_13(), crate::corpus::corpus_group_14(), crate::corpus::corpus_group_15(), crate::corpus::corpus_group_16(), crate::corpus::corpus_group_17()],
        r is Err ==> !crate::corpus::corpus_rules_ok(),
{
    let mut t: Vec<(&str, &str, &str)> = Vec::new();
    t.push(("exp-0", "(exp 0)", "1"));
    t.push(("exp-1-e", "(exp 1)", "E"));
    t.push(("1-exp", "1", "(exp 0)"));
    t.push(("e-exp-1", "E", "(exp 1)"));
    proof {
        assert(t@.len() == 4);
        assert forall|i: int| 0 <= i < t@.len() implies rule_ok(#[trigger] t@[i])
            == rule_ok(crate::corpus::group_tuples_17()[i]) by {
            if i == 0 {
                assert(t@[0].1@ == crate::corpus::group_tuples_17()[0].1@);
                assert(t@[0].2@ == crate::corpus::group_tuples_17()[0].2@);
            } else if i == 1 {
                assert(t@[1].1@ == crate::corpus::group_tuples_17()[1].1@);
                assert(t@[1].2@ == crate::corpus::group_tuples_17()[1].2@);
            } else if i == 2 {
                assert(t@[2].1@ == crate::corpus::group_tuples_17()[2].1@);
                assert(t@[2].2@ == crate::corpus::group_tuples_17()[2].2@);
            } else if i == 3 {
                assert(t@[3].1@ == crate::corpus::group_tuples_17()[3].1@);
                assert(t@[3].2@ == crate::corpus::group_tuples_17()[3].2@);
            }
        }
    }
    let g = match mk_rules(t.as_slice()) {
        Ok(g) => g,
        Err(e) => {
            proof {
                assert(!(forall|i: int| 0 <= i < crate::corpus::group_tuples_17().len()
                    ==> rule_ok(#[trigger] crate::corpus::group_tuples_17()[i])));
                assert(!crate::corpus::corpus_rules_ok());
            }
            return Err(e);
        },
    };
    proof {
        assert(rewrite_models(g@) =~= crate::corpus::corpus_group_17().rules);
        reveal_strlit("exp-constants");
        reveal_strlit("erf-rules");
        assert("exp-constants"@.len() == 13);
        assert("erf-rules"@.len() == 9);
        reveal_strlit("erf-rules");
        assert("exp-constants"@.len() == 13);
        assert("erf-rules"@.len() == 9);
        assert("exp-constants"@ != "erf-rules"@);
        reveal_strlit("complex-number-basics");
        assert("exp-constants"@.len() == 13);
        assert("complex-number-basics"@.len() == 21);
        reveal_strlit("complex-number-basics");
        assert("exp-constants"@.len() == 13);
        assert("complex-number-basics"@.len() == 21);
        assert("exp-constants"@ != "complex-number-basics"@);
        reveal_strlit("branch-reduce");
        assert("exp-constants"@[0] != "branch-reduce"@[0]);
        reveal_strlit("branch-reduce");
        assert("exp-constants"@.len() == 13);
        assert("branch-reduce"@.len() == 13);
        reveal_strlit("branch-reduce");
        assert("exp-constants"@.len() == 13);
        assert("branch-reduce"@.len() == 13);
        assert("exp-constants"@ != "branch-reduce"@);
        reveal_strlit("compare-reduce");
        assert("exp-constants"@.len() == 13);
        assert("compare-reduce"@.len() == 14);
        reveal_strlit("compare-reduce");
        assert("exp-constants"@.len() == 13);
        assert("compare-reduce"@.len() == 14);
        assert("exp-constants"@ != "compare-reduce"@);
        reveal_strlit("bool-reduce");
        assert("exp-constants"@.len() == 13);
        assert("bool-reduce"@.len() == 11);
        reveal_strlit("bool-reduce");
        assert("exp-constants"@.len() == 13);
        assert("bool-reduce"@.len() == 11);
        assert("exp-constants"@ != "bool-reduce"@);
        reveal_strlit("htrig-reduce");
        assert("exp-constants"@.len() == 13);
        assert("htrig-reduce"@.len() == 12);
        reveal_strlit("htrig-reduce");
        assert("exp-constants"@.len() == 13);
        assert("htrig-reduce"@.len() == 12);
        assert("exp-constants"@ != "htrig-reduce"@);
        reveal_strlit("trig-reduce-fp-sound-nan");
        assert("exp-constants"@.len() == 13);
        assert("trig-reduce-fp-sound-nan"@.len() == 24);
        reveal_strlit("trig-reduce-fp-sound-nan");
        assert("exp-constants"@.len() == 13);
        assert("trig-reduce-fp-sound-nan"@.len() == 24);
        assert("exp-constants"@ != "trig-reduce-fp-sound-nan"@);
        reveal_strlit("trig-reduce-fp-sound");
        assert("exp-constants"@.len() == 13);
        assert("trig-reduce-fp-sound"@.len() == 20);
        reveal_strlit("trig-reduce-fp-sound");
        assert("exp-constants"@.len() == 13);
        assert("trig-reduce-fp-sound"@.len() == 20);
        assert("exp-constants"@ != "trig-reduce-fp-sound"@);
        reveal_strlit("trig-reduce");
        assert("exp-constants"@.len() == 13);
        assert("trig-reduce"@.len() == 11);
        reveal_strlit("trig-reduce");
        assert("exp-constants"@.len() == 13);
        assert("trig-reduce"@.len() == 11);
        assert("exp-constants"@ != "trig-reduce"@);
        reveal_strlit("log-distribute-fp-safe");
        assert("exp-constants"@.len() == 13);
        assert("log-distribute-fp-safe"@.len() == 22);
        reveal_strlit("log-distribute-fp-safe");
        assert("exp-constants"@.len() == 13);
        assert("log-distribute-fp-safe"@.len() == 22);
        assert("exp-constants"@ != "log-distribute-fp-safe"@);
        reveal_strlit("log-distribute");
        assert("exp-constants"@.len() == 13);
        assert("log-distribute"@.len() == 14);
        reveal_strlit("log-distribute");
        assert("exp-constants"@.len() == 13);
        assert("log-distribute"@.len() == 14);
        assert("exp-constants"@ != "log-distribute"@);
        reveal_strlit("pow-canonicalize");
        assert("exp-constants"@.len() == 13);
        assert("pow-canonicalize"@.len() == 16);
        reveal_strlit("pow-canonicalize");
        assert("exp-constants"@.len() == 13);
        assert("pow-canonicalize"@.len() == 16);
        assert("exp-constants"@ != "pow-canonicalize"@);
        reveal_strlit("pow-reduce-fp-safe-nan");
        assert("exp-constants"@.len() == 13);
        assert("pow-reduce-fp-safe-nan"@.len() == 22);
        reveal_strlit("pow-reduce-fp-safe-nan");
        assert("exp-constants"@.len() == 13);
        assert("pow-reduce-fp-safe-nan"@.len() == 22);
        assert("exp-constants"@ != "pow-reduce-fp-safe-nan"@);
        reveal_strlit("pow-reduce-fp-safe");
        assert("exp-constants"@.len() == 13);
        assert("pow-reduce-fp-safe"@.len() == 18);
        reveal_strlit("pow-reduce-fp-safe");
        assert("exp-constants"@.len() == 13);
        assert("pow-reduce-fp-safe"@.len() == 18);
        assert("exp-constants"@ != "pow-reduce-fp-safe"@);
        reveal_strlit("pow-reduce");
        assert("exp-constants"@.len() == 13);
        assert("pow-reduce"@.len() == 10);
        reveal_strlit("pow-reduce");
        assert("exp-constants"@.len() == 13);
        assert("pow-reduce"@.len() == 10);
        assert("exp-constants"@ != "pow-reduce"@);
        reveal_strlit("exp-factor");
        assert("exp-constants"@.len() == 13);
        assert("exp-factor"@.len() == 10);
        reveal_strlit("exp-factor");
        assert("exp-constants"@.len() == 13);
        assert("exp-factor"@.len() == 10);
        assert("exp-constants"@ != "exp-factor"@);
        reveal_strlit("exp-distribute");
        assert("exp-constants"@.len() == 13);
        assert("exp-distribute"@.len() == 14);
        reveal_strlit("exp-distribute");
        assert("exp-constants"@.len() == 13);
        assert("exp-distribute"@.len() == 14);
        assert("exp-constants"@ != "exp-distribute"@);
        assert(group_names(group_models(groups@)) =~= seq!["erf-rules"@, "complex-number-basics"@, "branch-reduce"@, "compare-reduce"@, "bool-reduce"@, "htrig-reduce"@, "trig-reduce-fp-sound-nan"@, "trig-reduce-fp-sound"@, "trig-reduce"@, "log-distribute-fp-safe"@, "log-distribute"@, "pow-canonicalize"@, "pow-reduce-fp-safe-nan"@, "pow-reduce-fp-safe"@, "pow-reduce"@, "exp-factor"@, "exp-distribute"@]);
        assert forall|j: int| 0 <= j < group_names(group_models(groups@)).len() implies
            group_names(group_models(groups@))[j] != "exp-constants"@ by {}
        assert(!group_names(group_models(groups@)).contains("exp-constants"@));
    }
    match push_group(groups, "exp-constants", g) {
        Ok(()) => {},
        Err(e) => {
            proof { assert(false); }
            return Err(e);
        },
    }
    proof {
        assert(group_models(groups@) =~= seq![crate::corpus::corpus_group_0(), crate::corpus::corpus_group_1(), crate::corpus::corpus_group_2(), crate::corpus::corpus_group_3(), crate::corpus::corpus_group_4(), crate::corpus::corpus_group_5(), crate::corpus::corpus_group_6(), crate::corpus::corpus_group_7(), crate::corpus::corpus_group_8(), crate::corpus::corpus_group_9(), crate::corpus::corpus_group_10(), crate::corpus::corpus_group_11(), crate::corpus::corpus_group_12(), crate::corpus::corpus_group_13(), crate::corpus::corpus_group_14(), crate::corpus::corpus_group_15(), crate::corpus::corpus_group_16(), crate::corpus::corpus_group_17()]);
    }
    Ok(())
}

#[verifier::spinoff_prover]
#[verifier::rlimit(100)]
/// Build and append the `exp-reduce` group.
fn corpus_push_18(groups: &mut Vec<RuleGroup>) -> (r: Result<(), RuleError>)
    requires
        group_models(old(groups)@) == seq![crate::corpus::corpus_group_0(), crate::corpus::corpus_group_1(), crate::corpus::corpus_group_2(), crate::corpus::corpus_group_3(), crate::corpus::corpus_group_4(), crate::corpus::corpus_group_5(), crate::corpus::corpus_group_6(), crate::corpus::corpus_group_7(), crate::corpus::corpus_group_8(), crate::corpus::corpus_group_9(), crate::corpus::corpus_group_10(), crate::corpus::corpus_group_11(), crate::corpus::corpus_group_12(), crate::corpus::corpus_group_13(), crate::corpus::corpus_group_14(), crate::corpus::corpus_group_15(), crate::corpus::corpus_group_16(), crate::corpus::corpus_group_17()],
    ensures
        r matches Ok(()) ==> group_models(final(groups)@) == seq![crate::corpus::corpus_group_0(), crate::corpus::corpus_group_1(), crate::corpus::corpus_group_2(), crate::corpus::corpus_group_3(), crate::corpus::corpus_group_4(), crate::corpus::corpus_group_5(), crate::corpus::corpus_group_6(), crate::corpus::corpus_group_7(), crate::corpus::corpus_group_8(), crate::corpus::corpus_group_9(), crate::corpus::corpus_group_10(), crate::corpus::corpus_group_11(), crate::corpus::corpus_group_12(), crate::corpus::corpus_group_13(), crate::corpus::corpus_group_14(), crate::corpus::corpus_group_15(), crate::corpus::corpus_group_16(), crate::corpus::corpus_group_17(), crate::corpus::corpus_group_18()],
        r is Err ==> !crate::corpus::corpus_rules_ok(),
{
    let mut t: Vec<(&str, &str, &str)> = Vec::new();
    t.push(("rem-exp-log", "(exp (log ?x))", "?x"));
    t.push(("rem-log-exp", "(log (exp ?x))", "?x"));
    proof {
        assert(t@.len() == 2);
        assert forall|i: int| 0 <= i < t@.len() implies rule_ok(#[trigger] t@[i])
            == rule_ok(crate::corpus::group_tuples_18()[i]) by {
            if i == 0 {
                assert(t@[0].1@ == crate::corpus::group_tuples_18()[0].1@);
                assert(t@[0].2@ == crate::corpus::group_tuples_18()[0].2@);
            } else if i == 1 {
                assert(t@[1].1@ == crate::corpus::group_tuples_18()[1].1@);
                assert(t@[1].2@ == crate::corpus::group_tuples_18()[1].2@);
            }
        }
    }
    let g = match mk_rules(t.as_slice()) {
        Ok(g) => g,
        Err(e) => {
            proof {
                assert(!(forall|i: int| 0 <= i < crate::corpus::group_tuples_18().len()
                    ==> rule_ok(#[trigger] crate::corpus::group_tuples_18()[i])));
                assert(!crate::corpus::corpus_rules_ok());
            }
            return Err(e);
        },
    };
    proof {
        assert(rewrite_models(g@) =~= crate::corpus::corpus_group_18().rules);
        reveal_strlit("exp-reduce");
        reveal_strlit("erf-rules");
        assert("exp-reduce"@.len() == 10);
        assert("erf-rules"@.len() == 9);
        reveal_strlit("erf-rules");
        assert("exp-reduce"@.len() == 10);
        assert("erf-rules"@.len() == 9);
        assert("exp-reduce"@ != "erf-rules"@);
        reveal_strlit("complex-number-basics");
        assert("exp-reduce"@.len() == 10);
        assert("complex-number-basics"@.len() == 21);
        reveal_strlit("complex-number-basics");
        assert("exp-reduce"@.len() == 10);
        assert("complex-number-basics"@.len() == 21);
        assert("exp-reduce"@ != "complex-number-basics"@);
        reveal_strlit("branch-reduce");
        assert("exp-reduce"@.len() == 10);
        assert("branch-reduce"@.len() == 13);
        reveal_strlit("branch-reduce");
        assert("exp-reduce"@.len() == 10);
        assert("branch-reduce"@.len() == 13);
        assert("exp-reduce"@ != "branch-reduce"@);
        reveal_strlit("compare-reduce");
        assert("exp-reduce"@.len() == 10);
        assert("compare-reduce"@.len() == 14);
        reveal_strlit("compare-reduce");
        assert("exp-reduce"@.len() == 10);
        assert("compare-reduce"@.len() == 14);
        assert("exp-reduce"@ != "compare-reduce"@);
        reveal_strlit("bool-reduce");
        assert("exp-reduce"@.len() == 10);
        assert("bool-reduce"@.len() == 11);
        reveal_strlit("bool-reduce");
        assert("exp-reduce"@.len() == 10);
        assert("bool-reduce"@.len() == 11);
        assert("exp-reduce"@ != "bool-reduce"@);
        reveal_strlit("htrig-reduce");
        assert("exp-reduce"@.len() == 10);
        assert("htrig-reduce"@.len() == 12);
        reveal_strlit("htrig-reduce");
        assert("exp-reduce"@.len() == 10);
        assert("htrig-reduce"@.len() == 12);
        assert("exp-reduce"@ != "htrig-reduce"@);
        reveal_strlit("trig-reduce-fp-sound-nan");
        assert("exp-reduce"@.len() == 10);
        assert("trig-reduce-fp-sound-nan"@.len() == 24);
        reveal_strlit("trig-reduce-fp-sound-nan");
        assert("exp-reduce"@.len() == 10);
        assert("trig-reduce-fp-sound-nan"@.len() == 24);
        assert("exp-reduce"@ != "trig-reduce-fp-sound-nan"@);
        reveal_strlit("trig-reduce-fp-sound");
        assert("exp-reduce"@.len() == 10);
        assert("trig-reduce-fp-sound"@.len() == 20);
        reveal_strlit("trig-reduce-fp-sound");
        assert("exp-reduce"@.len() == 10);
        assert("trig-reduce-fp-sound"@.len() == 20);
        assert("exp-reduce"@ != "trig-reduce-fp-sound"@);
        reveal_strlit("trig-reduce");
        assert("exp-reduce"@.len() == 10);
        assert("trig-reduce"@.len() == 11);
        reveal_strlit("trig-reduce");
        assert("exp-reduce"@.len() == 10);
        assert("trig-reduce"@.len() == 11);
        assert("exp-reduce"@ != "trig-reduce"@);
        reveal_strlit("log-distribute-fp-safe");
        assert("exp-reduce"@.len() == 10);
        assert("log-distribute-fp-safe"@.len() == 22);
        reveal_strlit("log-distribute-fp-safe");
        assert("exp-reduce"@.len() == 10);
        assert("log-distribute-fp-safe"@.len() == 22);
        assert("exp-reduce"@ != "log-distribute-fp-safe"@);
        reveal_strlit("log-distribute");
        assert("exp-reduce"@.len() == 10);
        assert("log-distribute"@.len() == 14);
        reveal_strlit("log-distribute");
        assert("exp-reduce"@.len() == 10);
        assert("log-distribute"@.len() == 14);
        assert("exp-reduce"@ != "log-distribute"@);
        reveal_strlit("pow-canonicalize");
        assert("exp-reduce"@.len() == 10);
        assert("pow-canonicalize"@.len() == 16);
        reveal_strlit("pow-canonicalize");
        assert("exp-reduce"@.len() == 10);
        assert("pow-canonicalize"@.len() == 16);
        assert("exp-reduce"@ != "pow-canonicalize"@);
        reveal_strlit("pow-reduce-fp-safe-nan");
        assert("exp-reduce"@.len() == 10);
        assert("pow-reduce-fp-safe-nan"@.len() == 22);
        reveal_strlit("pow-reduce-fp-safe-nan");
        assert("exp-reduce"@.len() == 10);
        assert("pow-reduce-fp-safe-nan"@.len() == 22);
        assert("exp-reduce"@ != "pow-reduce-fp-safe-nan"@);
        reveal_strlit("pow-reduce-fp-safe");
        assert("exp-reduce"@.len() == 10);
        assert("pow-reduce-fp-safe"@.len() == 18);
        reveal_strlit("pow-reduce-fp-safe");
        assert("exp-reduce"@.len() == 10);
        assert("pow-reduce-fp-safe"@.len() == 18);
        assert("exp-reduce"@ != "pow-reduce-fp-safe"@);
        reveal_strlit("pow-reduce");
        assert("exp-reduce"@[0] != "pow-reduce"@[0]);
        reveal_strlit("pow-reduce");
        assert("exp-reduce"@.len() == 10);
        assert("pow-reduce"@.len() == 10);
        reveal_strlit("pow-reduce");
        assert("exp-reduce"@.len() == 10);
        assert("pow-reduce"@.len() == 10);
        assert("exp-reduce"@ != "pow-reduce"@);
        reveal_strlit("exp-factor");
        assert("exp-reduce"@[4] != "exp-factor"@[4]);
        reveal_strlit("exp-factor");
        assert("exp-reduce"@.len() == 10);
        assert("exp-factor"@.len() == 10);
        reveal_strlit("exp-factor");
        assert("exp-reduce"@.len() == 10);
        assert("exp-factor"@.len() == 10);
        assert("exp-reduce"@ != "exp-factor"@);
        reveal_strlit("exp-distribute");
        assert("exp-reduce"@.len() == 10);
        assert("exp-distribute"@.len() == 14);
        reveal_strlit("exp-distribute");
        assert("exp-reduce"@.len() == 10);
        assert("exp-distribute"@.len() == 14);
        assert("exp-reduce"@ != "exp-distribute"@);
        reveal_strlit("exp-constants");
        assert("exp-reduce"@.len() == 10);
        assert("exp-constants"@.len() == 13);
        reveal_strlit("exp-constants");
        assert("exp-reduce"@.len() == 10);
        assert("exp-constants"@.len() == 13);
        assert("exp-reduce"@ != "exp-constants"@);
        assert(group_names(group_models(groups@)) =~= seq!["erf-rules"@, "complex-number-basics"@, "branch-reduce"@, "compare-reduce"@, "bool-reduce"@, "htrig-reduce"@, "trig-reduce-fp-sound-nan"@, "trig-reduce-fp-sound"@, "trig-reduce"@, "log-distribute-fp-safe"@, "log-distribute"@, "pow-canonicalize"@, "pow-reduce-fp-safe-nan"@, "pow-reduce-fp-safe"@, "pow-reduce"@, "exp-factor"@, "exp-distribute"@, "exp-constants"@]);
        assert forall|j: int| 0 <= j < group_names(group_models(groups@)).len() implies
            group_names(group_models(groups@))[j] != "exp-reduce"@ by {}
        assert(!group_names(group_models(groups@)).contains("exp-reduce"@));
    }
    match push_group(groups, "exp-reduce", g) {
        Ok(()) => {},
        Err(e) => {
            proof { assert(false); }
            return Err(e);
        },
    }
    proof {
        assert(group_models(groups@) =~= seq![crate::corpus::corpus_group_0(), crate::corpus::corpus_group_1(), crate::corpus::corpus_group_2(), crate::corpus::corpus_group_3(), crate::corpus::corpus_group_4(), crate::corpus::corpus_group_5(), crate::corpus::corpus_group_6(), crate::corpus::corpus_group_7(), crate::corpus::corpus_group_8(), crate::corpus::corpus_group_9(), crate::corpus::corpus_group_10(), crate::corpus::corpus_group_11(), crate::corpus::corpus_group_12(), crate::corpus::corpus_group_13(), crate::corpus::corpus_group_14(), crate::corpus::corpus_group_15(), crate::corpus::corpus_group_16(), crate::corpus::corpus_group_17(), crate::corpus::corpus_group_18()]);
    }
    Ok(())
}

#[verifier::spinoff_prover]
#[verifier::rlimit(100)]
/// Build and append the `cubes-canonicalize` group.
fn corpus_push_19(groups: &mut Vec<RuleGroup>) -> (r: Result<(), RuleError>)
    requires
        group_models(old(groups)@) == seq![crate::corpus::corpus_group_0(), crate::corpus::corpus_group_1(), crate::corpus::corpus_group_2(), crate::corpus::corpus_group_3(), crate::corpus::corpus_group_4(), crate::corpus::corpus_group_5(), crate::corpus::corpus_group_6(), crate::corpus::corpus_group_7(), crate::corpus::corpus_group_8(), crate::corpus::corpus_group_9(), crate::corpus::corpus_group_10(), crate::corpus::corpus_group_11(), crate::corpus::corpus_group_12(), crate::corpus::corpus_group_13(), crate::corpus::corpus_group_14(), crate::corpus::corpus_group_15(), crate::corpus::corpus_group_16(), crate::corpus::corpus_group_17(), crate::corpus::corpus_group_18()],
    ensures
        r matches Ok(()) ==> group_models(final(groups)@) == seq![crate::corpus::corpus_group_0(), crate::corpus::corpus_group_1(), crate::corpus::corpus_group_2(), crate::corpus::corpus_group_3(), crate::corpus::corpus_group_4(), crate::corpus::corpus_group_5(), crate::corpus::corpus_group_6(), crate::corpus::corpus_group_7(), crate::corpus::corpus_group_8(), crate::corpus::corpus_group_9(), crate::corpus::corpus_group_10(), crate::corpus::corpus_group_11(), crate::corpus::corpus_group_12(), crate::corpus::corpus_group_13(), crate::corpus::corpus_group_14(), crate::corpus::corpus_group_15(), crate::corpus::corpus_group_16(), crate::corpus::corpus_group_17(), crate::corpus::corpus_group_18(), crate::corpus::corpus_group_19()],
        r is Err ==> !crate::corpus::corpus_rules_ok(),
{
    let mut t: Vec<(&str, &str, &str)> = Vec::new();
    t.push(("cube-unmult", "(* ?x (* ?x ?x))", "(pow ?x 3)"));
    proof {
        assert(t@.len() == 1);
        assert forall|i: int| 0 <= i < t@.len() implies rule_ok(#[trigger] t@[i])
            == rule_ok(crate::corpus::group_tuples_19()[i]) by {
            if i == 0 {
                assert(t@[0].1@ == crate::corpus::group_tuples_19()[0].1@);
                assert(t@[0].2@ == crate::corpus::group_tuples_19()[0].2@);
            }
        }
    }
    let g = match mk_rules(t.as_slice()) {
        Ok(g) => g,
        Err(e) => {
            proof {
                assert(!(forall|i: int| 0 <= i < crate::corpus::group_tuples_19().len()
                    ==> rule_ok(#[trigger] crate::corpus::group_tuples_19()[i])));
                assert(!crate::corpus::corpus_rules_ok());
            }
            return Err(e);
        },
    };
    proof {
        assert(rewrite_models(g@) =~= crate::corpus::corpus_group_19().rules);
        reveal_strlit("cubes-canonicalize");
        reveal_strlit("erf-rules");
        assert("cubes-canonicalize"@.len() == 18);
        assert("erf-rules"@.len() == 9);
        reveal_strlit("erf-rules");
        assert("cubes-canonicalize"@.len() == 18);
        assert("erf-rules"@.len() == 9);
        assert("cubes-canonicalize"@ != "erf-rules"@);
        reveal_strlit("complex-number-basics");
        assert("cubes-canonicalize"@.len() == 18);
        assert("complex-number-basics"@.len() == 21);
        reveal_strlit("complex-number-basics");
        assert("cubes-canonicalize"@.len() == 18);
        assert("complex-number-basics"@.len() == 21);
        assert("cubes-canonicalize"@ != "complex-number-basics"@);
        reveal_strlit("branch-reduce");
        assert("cubes-canonicalize"@.len() == 18);
        assert("branch-reduce"@.len() == 13);
        reveal_strlit("branch-reduce");
        assert("cubes-canonicalize"@.len() == 18);
        assert("branch-reduce"@.len() == 13);
        assert("cubes-canonicalize"@ != "branch-reduce"@);
        reveal_strlit("compare-reduce");
        assert("cubes-canonicalize"@.len() == 18);
        assert("compare-reduce"@.len() == 14);
        reveal_strlit("compare-reduce");
        assert("cubes-canonicalize"@.len() == 18);
        assert("compare-reduce"@.len() == 14);
        assert("cubes-canonicalize"@ != "compare-reduce"@);
        reveal_strlit("bool-reduce");
        assert("cubes-canonicalize"@.len() == 18);
        assert("bool-reduce"@.len() == 11);
        reveal_strlit("bool-reduce");
        assert("cubes-canonicalize"@.len() == 18);
        assert("bool-reduce"@.len() == 11);
        assert("cubes-canonicalize"@ != "bool-reduce"@);
        reveal_strlit("htrig-reduce");
        assert("cubes-canonicalize"@.len() == 18);
        assert("htrig-reduce"@.len() == 12);
        reveal_strlit("htrig-reduce");
        assert("cubes-canonicalize"@.len() == 18);
        assert("htrig-reduce"@.len() == 12);
        assert("cubes-canonicalize"@ != "htrig-reduce"@);
        reveal_strlit("trig-reduce-fp-sound-nan");
        assert("cubes-canonicalize"@.len() == 18);
        assert("trig-reduce-fp-sound-nan"@.len() == 24);
        reveal_strlit("trig-reduce-fp-sound-nan");
        assert("cubes-canonicalize"@.len() == 18);
        assert("trig-reduce-fp-sound-nan"@.len() == 24);
        assert("cubes-canonicalize"@ != "trig-reduce-fp-sound-nan"@);
        reveal_strlit("trig-reduce-fp-sound");
        assert("cubes-canonicalize"@.len() == 18);
        assert("trig-reduce-fp-sound"@.len() == 20);
        reveal_strlit("trig-reduce-fp-sound");
        assert("cubes-canonicalize"@.len() == 18);
        assert("trig-reduce-fp-sound"@.len() == 20);
        assert("cubes-canonicalize"@ != "trig-reduce-fp-sound"@);
        reveal_strlit("trig-reduce");
        assert("cubes-canonicalize"@.len() == 18);
        assert("trig-reduce"@.len() == 11);
        reveal_strlit("trig-reduce");
        assert("cubes-canonicalize"@.len() == 18);
        assert("trig-reduce"@.len() == 11);
        assert("cubes-canonicalize"@ != "trig-reduce"@);
        reveal_strlit("log-distribute-fp-safe");
        assert("cubes-canonicalize"@.len() == 18);
        assert("log-distribute-fp-safe"@.len() == 22);
        reveal_strlit("log-distribute-fp-safe");
        assert("cubes-canonicalize"@.len() == 18);
        assert("log-distribute-fp-safe"@.len() == 22);
        assert("cubes-canonicalize"@ != "log-distribute-fp-safe"@);
        reveal_strlit("log-distribute");
        assert("cubes-canonicalize"@.len() == 18);
        assert("log-distribute"@.len() == 14);
        reveal_strlit("log-distribute");
        assert("cubes-canonicalize"@.len() == 18);
        assert("log-distribute"@.len() == 14);
        assert("cubes-canonicalize"@ != "log-distribute"@);
        reveal_strlit("pow-canonicalize");
        assert("cubes-canonicalize"@.len() == 18);
        assert("pow-canonicalize"@.len() == 16);
        reveal_strlit("pow-canonicalize");
        assert("cubes-canonicalize"@.len() == 18);
        assert("pow-canonicalize"@.len() == 16);
        assert("cubes-canonicalize"@ != "pow-canonicalize"@);
        reveal_strlit("pow-reduce-fp-safe-nan");
        assert("cubes-canonicalize"@.len() == 18);
        assert("pow-reduce-fp-safe-nan"@.len() == 22);
        reveal_strlit("pow-reduce-fp-safe-nan");
        assert("cubes-canonicalize"@.len() == 18);
        assert("pow-reduce-fp-safe-nan"@.len() == 22);
        assert("cubes-canonicalize"@ != "pow-reduce-fp-safe-nan"@);
        reveal_strlit("pow-reduce-fp-safe");
        assert("cubes-canonicalize"@[0] != "pow-reduce-fp-safe"@[0]);
        reveal_strlit("pow-reduce-fp-safe");
        assert("cubes-canonicalize"@.len() == 18);
        assert("pow-reduce-fp-safe"@.len() == 18);
        reveal_strlit("pow-reduce-fp-safe");
        assert("cubes-canonicalize"@.len() == 18);
        assert("pow-reduce-fp-safe"@.len() == 18);
        assert("cubes-canonicalize"@ != "pow-reduce-fp-safe"@);
        reveal_strlit("pow-reduce");
        assert("cubes-canonicalize"@.len() == 18);
        assert("pow-reduce"@.len() == 10);
        reveal_strlit("pow-reduce");
        assert("cubes-canonicalize"@.len() == 18);
        assert("pow-reduce"@.len() == 10);
        assert("cubes-canonicalize"@ != "pow-reduce"@);
        reveal_strlit("exp-factor");
        assert("cubes-canonicalize"@.len() == 18);
        assert("exp-factor"@.len() == 10);
        reveal_strlit("exp-factor");
        assert("cubes-canonicalize"@.len() == 18);
        assert("exp-factor"@.len() == 10);
        assert("cubes-canonicalize"@ != "exp-factor"@);
        reveal_strlit("exp-distribute");
        assert("cubes-canonicalize"@.len() == 18);
        assert("exp-distribute"@.len() == 14);
        reveal_strlit("exp-distribute");
        assert("cubes-canonicalize"@.len() == 18);
        assert("exp-distribute"@.len() == 14);
        assert("cubes-canonicalize"@ != "exp-distribute"@);
        reveal_strlit("exp-constants");
        assert("cubes-canonicalize"@.len() == 18);
        assert("exp-constants"@.len() == 13);
        reveal_strlit("exp-constants");
        assert("cubes-canonicalize"@.len() == 18);
        assert("exp-constants"@.len() == 13);
        assert("cubes-canonicalize"@ != "exp-constants"@);
        reveal_strlit("exp-reduce");
        assert("cubes-canonicalize"@.len() == 18);
        assert("exp-reduce"@.len() == 10);
        reveal_strlit("exp-reduce");
        assert("cubes-canonicalize"@.len() == 18);
        assert("exp-reduce"@.len() == 10);
        assert("cubes-canonicalize"@ != "exp-reduce"@);
        assert(group_names(group_models(groups@)) =~= seq!["erf-rules"@, "complex-number-basics"@, "branch-reduce"@, "compare-reduce"@, "bool-reduce"@, "htrig-reduce"@, "trig-reduce-fp-sound-nan"@, "trig-reduce-fp-sound"@, "trig-reduce"@, "log-distribute-fp-safe"@, "log-distribute"@, "pow-canonicalize"@, "pow-reduce-fp-safe-nan"@, "pow-reduce-fp-safe"@, "pow-reduce"@, "exp-factor"@, "exp-distribute"@, "exp-constants"@, "exp-reduce"@]);
        assert forall|j: int| 0 <= j < group_names(group_models(groups@)).len() implies
            group_names(group_models(groups@))[j] != "cubes-canonicalize"@ by {}
        assert(!group_names(group_models(groups@)).contains("cubes-canonicalize"@));
    }
    match push_group(groups, "cubes-canonicalize", g) {
        Ok(()) => {},
        Err(e) => {
            proof { assert(false); }
            return Err(e);
        },
    }
    proof {
        assert(group_models(groups@) =~= seq![crate::corpus::corpus_group_0(), crate::corpus::corpus_group_1(), crate::corpus::corpus_group_2(), crate::corpus::corpus_group_3(), crate::corpus::corpus_group_4(), crate::corpus::corpus_group_5(), crate::corpus::corpus_group_6(), crate::corpus::corpus_group_7(), crate::corpus::corpus_group_8(), crate::corpus::corpus_group_9(), crate::corpus::corpus_group_10(), crate::corpus::corpus_group_11(), crate::corpus::corpus_group_12(), crate::corpus::corpus_group_13(), crate::corpus::corpus_group_14(), crate::corpus::corpus_group_15(), crate::corpus::corpus_group_16(), crate::corpus::corpus_group_17(), crate::corpus::corpus_group_18(), crate::corpus::corpus_group_19()]);
    }
    Ok(())
}

#[verifier::spinoff_prover]
#[verifier::rlimit(100)]
/// Build and append the `cubes-distribute` group.
fn corpus_push_20(groups: &mut Vec<RuleGroup>) -> (r: Result<(), RuleError>)
    requires
        group_models(old(groups)@) == seq![crate::corpus::corpus_group_0(), crate::corpus::corpus_group_1(), crate::corpus::corpus_group_2(), crate::corpus::corpus_group_3(), crate::corpus::corpus_group_4(), crate::corpus::corpus_group_5(), crate::corpus::corpus_group_6(), crate::corpus::corpus_group_7(), crate::corpus::corpus_group_8(), crate::corpus::corpus_group_9(), crate::corpus::corpus_group_10(), crate::corpus::corpus_group_11(), crate::corpus::corpus_group_12(), crate::corpus::corpus_group_13(), crate::corpus::corpus_group_14(), crate::corpus::corpus_group_15(), crate::corpus::corpus_group_16(), crate::corpus::corpus_group_17(), crate::corpus::corpus_group_18(), crate::corpus::corpus_group_19()],
    ensures
        r matches Ok(()) ==> group_models(final(groups)@) == seq![crate::corpus::corpus_group_0(), crate::corpus::corpus_group_1(), crate::corpus::corpus_group_2(), crate::corpus::corpus_group_3(), crate::corpus::corpus_group_4(), crate::corpus::corpus_group_5(), crate::corpus::corpus_group_6(), crate::corpus::corpus_group_7(), crate::corpus::corpus_group_8(), crate::corpus::corpus_group_9(), crate::corpus::corpus_group_10(), crate::corpus::corpus_group_11(), crate::corpus::corpus_group_12(), crate::corpus::corpus_group_13(), crate::corpus::corpus_group_14(), crate::corpus::corpus_group_15(), crate::corpus::corpus_group_16(), crate::corpus::corpus_group_17(), crate::corpus::corpus_group_18(), crate::corpus::corpus_group_19(), crate::corpus::corpus_group_20()],
        r is Err ==> !crate::corpus::corpus_rules_ok(),
{
    let mut t: Vec<(&str, &str, &str)> = Vec::new();
    t.push(("cube-prod", "(pow (* ?x ?y) 3)", "(* (pow ?x 3) (pow ?y 3))"));
    t.push(("cube-div", "(pow (/ ?x ?y) 3)", "(/ (pow ?x 3) (pow ?y 3))"));
    t.push(("cube-mult", "(pow ?x 3)", "(* ?x (* ?x ?x))"));
    proof {
        assert(t@.len() == 3);
        assert forall|i: int| 0 <= i < t@.len() implies rule_ok(#[trigger] t@[i])
            == rule_ok(crate::corpus::group_tuples_20()[i]) by {
            if i == 0 {
                assert(t@[0].1@ == crate::corpus::group_tuples_20()[0].1@);
                assert(t@[0].2@ == crate::corpus::group_tuples_20()[0].2@);
            } else if i == 1 {
                assert(t@[1].1@ == crate::corpus::group_tuples_20()[1].1@);
                assert(t@[1].2@ == crate::corpus::group_tuples_20()[1].2@);
            } else if i == 2 {
                assert(t@[2].1@ == crate::corpus::group_tuples_20()[2].1@);
                assert(t@[2].2@ == crate::corpus::group_tuples_20()[2].2@);
            }
        }
    }
    let g = match mk_rules(t.as_slice()) {
        Ok(g) => g,
        Err(e) => {
            proof {
                assert(!(forall|i: int| 0 <= i < crate::corpus::group_tuples_20().len()
                    ==> rule_ok(#[trigger] crate::corpus::group_tuples_20()[i])));
                assert(!crate::corpus::corpus_rules_ok());
            }
            return Err(e);
        },
    };
    proof {
        assert(rewrite_models(g@) =~= crate::corpus::corpus_group_20().rules);
        reveal_strlit("cubes-distribute");
        reveal_strlit("erf-rules");
        assert("cubes-distribute"@.len() == 16);
        assert("erf-rules"@.len() == 9);
        reveal_strlit("erf-rules");
        assert("cubes-distribute"@.len() == 16);
        assert("erf-rules"@.len() == 9);
        assert("cubes-distribute"@ != "erf-rules"@);
        reveal_strlit("complex-number-basics");
        assert("cubes-distribute"@.len() == 16);
        assert("complex-number-basics"@.len() == 21);
        reveal_strlit("complex-number-basics");
        assert("cubes-distribute"@.len() == 16);
        assert("complex-number-basics"@.len() == 21);
        assert("cubes-distribute"@ != "complex-number-basics"@);
        reveal_strlit("branch-reduce");
        assert("cubes-distribute"@.len() == 16);
        assert("branch-reduce"@.len() == 13);
        reveal_strlit("branch-reduce");
        assert("cubes-distribute"@.len() == 16);
        assert("branch-reduce"@.len() == 13);
        assert("cubes-distribute"@ != "branch-reduce"@);
        reveal_strlit("compare-reduce");
        assert("cubes-distribute"@.len() == 16);
        assert("compare-reduce"@.len() == 14);
        reveal_strlit("compare-reduce");
        assert("cubes-distribute"@.len() == 16);
        assert("compare-reduce"@.len() == 14);
        assert("cubes-distribute"@ != "compare-reduce"@);
        reveal_strlit("bool-reduce");
        assert("cubes-distribute"@.len() == 16);
        assert("bool-reduce"@.len() == 11);
        reveal_strlit("bool-reduce");
        assert("cubes-distribute"@.len() == 16);
        assert("bool-reduce"@.len() == 11);
        assert("cubes-distribute"@ != "bool-reduce"@);
        reveal_strlit("htrig-reduce");
        assert("cubes-distribute"@.len() == 16);
        assert("htrig-reduce"@.len() == 12);
        reveal_strlit("htrig-reduce");
        assert("cubes-distribute"@.len() == 16);
        assert("htrig-reduce"@.len() == 12);
        assert("cubes-distribute"@ != "htrig-reduce"@);
        reveal_strlit("trig-reduce-fp-sound-nan");
        assert("cubes-distribute"@.len() == 16);
        assert("trig-reduce-fp-sound-nan"@.len() == 24);
        reveal_strlit("trig-reduce-fp-sound-nan");
        assert("cubes-distribute"@.len() == 16);
        assert("trig-reduce-fp-sound-nan"@.len() == 24);
        assert("cubes-distribute"@ != "trig-reduce-fp-sound-nan"@);
        reveal_strlit("trig-reduce-fp-sound");
        assert("cubes-distribute"@.len() == 16);
        assert("trig-reduce-fp-sound"@.len() == 20);
        reveal_strlit("trig-reduce-fp-sound");
        assert("cubes-distribute"@.len() == 16);
        assert("trig-reduce-fp-sound"@.len() == 20);
        assert("cubes-distribute"@ != "trig-reduce-fp-sound"@);
        reveal_strlit("trig-reduce");
        assert("cubes-distribute"@.len() == 16);
        assert("trig-reduce"@.len() == 11);
        reveal_strlit("trig-reduce");
        assert("cubes-distribute"@.len() == 16);
        assert("trig-reduce"@.len() == 11);
        assert("cubes-distribute"@ != "trig-reduce"@);
        reveal_strlit("log-distribute-fp-safe");
        assert("cubes-distribute"@.len() == 16);
        assert("log-distribute-fp-safe"@.len() == 22);
        reveal_strlit("log-distribute-fp-safe");
        assert("cubes-distribute"@.len() == 16);
        assert("log-distribute-fp-safe"@.len() == 22);
        assert("cubes-distribute"@ != "log-distribute-fp-safe"@);
        reveal_strlit("log-distribute");
        assert("cubes-distribute"@.len() == 16);
        assert("log-distribute"@.len() == 14);
        reveal_strlit("log-distribute");
        assert("cubes-distribute"@.len() == 16);
        assert("log-distribute"@.len() == 14);
        assert("cubes-distribute"@ != "log-distribute"@);
        reveal_strlit("pow-canonicalize");
        assert("cubes-distribute"@[0] != "pow-canonicalize"@[0]);
        reveal_strlit("pow-canonicalize");
        assert("cubes-distribute"@.len() == 16);
        assert("pow-canonicalize"@.len() == 16);
        reveal_strlit("pow-canonicalize");
        assert("cubes-distribute"@.len() == 16);
        assert("pow-canonicalize"@.len() == 16);
        assert("cubes-distribute"@ != "pow-canonicalize"@);
        reveal_strlit("pow-reduce-fp-safe-nan");
        assert("cubes-distribute"@.len() == 16);
        assert("pow-reduce-fp-safe-nan"@.len() == 22);
        reveal_strlit("pow-reduce-fp-safe-nan");
        assert("cubes-distribute"@.len() == 16);
        assert("pow-reduce-fp-safe-nan"@.len() == 22);
        assert("cubes-distribute"@ != "pow-reduce-fp-safe-nan"@);
        reveal_strlit("pow-reduce-fp-safe");
        assert("cubes-distribute"@.len() == 16);
        assert("pow-reduce-fp-safe"@.len() == 18);
        reveal_strlit("pow-reduce-fp-safe");
        assert("cubes-distribute"@.len() == 16);
        assert("pow-reduce-fp-safe"@.len() == 18);
        assert("cubes-distribute"@ != "pow-reduce-fp-safe"@);
        reveal_strlit("pow-reduce");
        assert("cubes-distribute"@.len() == 16);
        assert("pow-reduce"@.len() == 10);
        reveal_strlit("pow-reduce");
        assert("cubes-distribute"@.len() == 16);
        assert("pow-reduce"@.len() == 10);
        assert("cubes-distribute"@ != "pow-reduce"@);
        reveal_strlit("exp-factor");
        assert("cubes-distribute"@.len() == 16);
        assert("exp-factor"@.len() == 10);
        reveal_strlit("exp-factor");
        assert("cubes-distribute"@.len() == 16);
        assert("exp-factor"@.len() == 10);
        assert("cubes-distribute"@ != "exp-factor"@);
        reveal_strlit("exp-distribute");
        assert("cubes-distribute"@.len() == 16);
        assert("exp-distribute"@.len() == 14);
        reveal_strlit("exp-distribute");
        assert("cubes-distribute"@.len() == 16);
        assert("exp-distribute"@.len() == 14);
        assert("cubes-distribute"@ != "exp-distribute"@);
        reveal_strlit("exp-constants");
        assert("cubes-distribute"@.len() == 16);
        assert("exp-constants"@.len() == 13);
        reveal_strlit("exp-constants");
        assert("cubes-distribute"@.len() == 16);
        assert("exp-constants"@.len() == 13);
        assert("cubes-distribute"@ != "exp-constants"@);
        reveal_strlit("exp-reduce");
        assert("cubes-distribute"@.len() == 16);
        assert("exp-reduce"@.len() == 10);
        reveal_strlit("exp-reduce");
        assert("cubes-distribute"@.len() == 16);
        assert("exp-reduce"@.len() == 10);
        assert("cubes-distribute"@ != "exp-reduce"@);
        reveal_strlit("cubes-canonicalize");
        assert("cubes-distribute"@.len() == 16);
        assert("cubes-canonicalize"@.len() == 18);
        reveal_strlit("cubes-canonicalize");
        assert("cubes-distribute"@.len() == 16);
        assert("cubes-canonicalize"@.len() == 18);
        assert("cubes-distribute"@ != "cubes-canonicalize"@);
        assert(group_names(group_models(groups@)) =~= seq!["erf-rules"@, "complex-number-basics"@, "branch-reduce"@, "compare-reduce"@, "bool-reduce"@, "htrig-reduce"@, "trig-reduce-fp-sound-nan"@, "trig-reduce-fp-sound"@, "trig-reduce"@, "log-distribute-fp-safe"@, "log-distribute"@, "pow-canonicalize"@, "pow-reduce-fp-safe-nan"@, "pow-reduce-fp-safe"@, "pow-reduce"@, "exp-factor"@, "exp-distribute"@, "exp-constants"@, "exp-reduce"@, "cubes-canonicalize"@]);
        assert forall|j: int| 0 <= j < group_names(group_models(groups@)).len() implies
            group_names(group_models(groups@))[j] != "cubes-distribute"@ by {}
        assert(!group_names(group_models(groups@)).contains("cubes-distribute"@));
    }
    match push_group(groups, "cubes-distribute", g) {
        Ok(()) => {},
        Err(e) => {
            proof { assert(false); }
            return Err(e);
        },
    }
    proof {
        assert(group_models(groups@) =~= seq![crate::corpus::corpus_group_0(), crate::corpus::corpus_group_1(), crate::corpus::corpus_group_2(), crate::corpus::corpus_group_3(), crate::corpus::corpus_group_4(), crate::corpus::corpus_group_5(), crate::corpus::corpus_group_6(), crate::corpus::corpus_group_7(), crate::corpus::corpus_group_8(), crate::corpus::corpus_group_9(), crate::corpus::corpus_group_10(), crate::corpus::corpus_group_11(), crate::corpus::corpus_group_12(), crate::corpus::corpus_group_13(), crate::corpus::corpus_group_14(), crate::corpus::corpus_group_15(), crate::corpus::corpus_group_16(), crate::corpus::corpus_group_17(), crate::corpus::corpus_group_18(), crate::corpus::corpus_group_19(), crate::corpus::corpus_group_20()]);
    }
    Ok(())
}

#[verifier::spinoff_prover]
#[verifier::rlimit(100)]
/// Build and append the `cubes-reduce` group.
fn corpus_push_21(groups: &mut Vec<RuleGroup>) -> (r: Result<(), RuleError>)
    requires
        group_models(old(groups)@) == seq![crate::corpus::corpus_group_0(), crate::corpus::corpus_group_1(), crate::corpus::corpus_group_2(), crate::corpus::corpus_group_3(), crate::corpus::corpus_group_4(), crate::corpus::corpus_group_5(), crate::corpus::corpus_group_6(), crate::corpus::corpus_group_7(), crate::corpus::corpus_group_8(), crate::corpus::corpus_group_9(), crate::corpus::corpus_group_10(), crate::corpus::corpus_group_11(), crate::corpus::corpus_group_12(), crate::corpus::corpus_group_13(), crate::corpus::corpus_group_14(), crate::corpus::corpus_group_15(), crate::corpus::corpus_group_16(), crate::corpus::corpus_group_17(), crate::corpus::corpus_group_18(), crate::corpus::corpus_group_19(), crate::corpus::corpus_group_20()],
    ensures
        r matches Ok(()) ==> group_models(final(groups)@) == seq![crate::corpus::corpus_group_0(), crate::corpus::corpus_group_1(), crate::corpus::corpus_group_2(), crate::corpus::corpus_group_3(), crate::corpus::corpus_group_4(), crate::corpus::corpus_group_5(), crate::corpus::corpus_group_6(), crate::corpus::corpus_group_7(), crate::corpus::corpus_group_8(), crate::corpus::corpus_group_9(), crate::corpus::corpus_group_10(), crate::corpus::corpus_group_11(), crate::corpus::corpus_group_12(), crate::corpus::corpus_group_13(), crate::corpus::corpus_group_14(), crate::corpus::corpus_group_15(), crate::corpus::corpus_group_16(), crate::corpus::corpus_group_17(), crate::corpus::corpus_group_18(), crate::corpus::corpus_group_19(), crate::corpus::corpus_group_20(), crate::corpus::corpus_group_21()],
        r is Err ==> !crate::corpus::corpus_rules_ok(),
{
    let mut t: Vec<(&str, &str, &str)> = Vec::new();
    t.push(("rem-cube-cbrt", "(pow (cbrt ?x) 3)", "?x"));
    t.push(("rem-cbrt-cube", "(cbrt (pow ?x 3))", "?x"));
    t.push(("cube-neg", "(pow (neg ?x) 3)", "(neg (pow ?x 3))"));
    proof {
        assert(t@.len() == 3);
        assert forall|i: int| 0 <= i < t@.len() implies rule_ok(#[trigger] t@[i])
            == rule_ok(crate::corpus::group_tuples_21()[i]) by {
            if i == 0 {
                assert(t@[0].1@ == crate::corpus::group_tuples_21()[0].1@);
                assert(t@[0].2@ == crate::corpus::group_tuples_21()[0].2@);
            } else if i == 1 {
                assert(t@[1].1@ == crate::corpus::group_tuples_21()[1].1@);
                assert(t@[1].2@ == crate::corpus::group_tuples_21()[1].2@);
            } else if i == 2 {
                assert(t@[2].1@ == crate::corpus::group_tuples_21()[2].1@);
                assert(t@[2].2@ == crate::corpus::group_tuples_21()[2].2@);
            }
        }
    }
    let g = match mk_rules(t.as_slice()) {
        Ok(g) => g,
        Err(e) => {
            proof {
                assert(!(forall|i: int| 0 <= i < crate::corpus::group_tuples_21().len()
                    ==> rule_ok(#[trigger] crate::corpus::group_tuples_21()[i])));
                assert(!crate::corpus::corpus_rules_ok());
            }
            return Err(e);
        },
    };
    proof {
        assert(rewrite_models(g@) =~= crate::corpus::corpus_group_21().rules);
        reveal_strlit("cubes-reduce");
        reveal_strlit("erf-rules");
        assert("cubes-reduce"@.len() == 12);
        assert("erf-rules"@.len() == 9);
        reveal_strlit("erf-rules");
        assert("cubes-reduce"@.len() == 12);
        assert("erf-rules"@.len() == 9);
        assert("cubes-reduce"@ != "erf-rules"@);
        reveal_strlit("complex-number-basics");
        assert("cubes-reduce"@.len() == 12);
        assert("complex-number-basics"@.len() == 21);
        reveal_strlit("complex-number-basics");
        assert("cubes-reduce"@.len() == 12);
        assert("complex-number-basics"@.len() == 21);
        assert("cubes-reduce"@ != "complex-number-basics"@);
        reveal_strlit("branch-reduce");
        assert("cubes-reduce"@.len() == 12);
        assert("branch-reduce"@.len() == 13);
        reveal_strlit("branch-reduce");
        assert("cubes-reduce"@.len() == 12);
        assert("branch-reduce"@.len() == 13);
        assert("cubes-reduce"@ != "branch-reduce"@);
        reveal_strlit("compare-reduce");
        assert("cubes-reduce"@.len() == 12);
        assert("compare-reduce"@.len() == 14);
        reveal_strlit("compare-reduce");
        assert("cubes-reduce"@.len() == 12);
        assert("compare-reduce"@.len() == 14);
        assert("cubes-reduce"@ != "compare-reduce"@);
        reveal_strlit("bool-reduce");
        assert("cubes-reduce"@.len() == 12);
        assert("bool-reduce"@.len() == 11);
        reveal_strlit("bool-reduce");
        assert("cubes-reduce"@.len() == 12);
        assert("bool-reduce"@.len() == 11);
        assert("cubes-reduce"@ != "bool-reduce"@);
        reveal_strlit("htrig-reduce");
        assert("cubes-reduce"@[0] != "htrig-reduce"@[0]);
        reveal_strlit("htrig-reduce");
        assert("cubes-reduce"@.len() == 12);
        assert("htrig-reduce"@.len() == 12);
        reveal_strlit("htrig-reduce");
        assert("cubes-reduce"@.len() == 12);
        assert("htrig-reduce"@.len() == 12);
        assert("cubes-reduce"@ != "htrig-reduce"@);
        reveal_strlit("trig-reduce-fp-sound-nan");
        assert("cubes-reduce"@.len() == 12);
        assert("trig-reduce-fp-sound-nan"@.len() == 24);
        reveal_strlit("trig-reduce-fp-sound-nan");
        assert("cubes-reduce"@.len() == 12);
        assert("trig-reduce-fp-sound-nan"@.len() == 24);
        assert("cubes-reduce"@ != "trig-reduce-fp-sound-nan"@);
        reveal_strlit("trig-reduce-fp-sound");
        assert("cubes-reduce"@.len() == 12);
        assert("trig-reduce-fp-sound"@.len() == 20);
        reveal_strlit("trig-reduce-fp-sound");
        assert("cubes-reduce"@.len() == 12);
        assert("trig-reduce-fp-sound"@.len() == 20);
        assert("cubes-reduce"@ != "trig-reduce-fp-sound"@);
        reveal_strlit("trig-reduce");
        assert("cubes-reduce"@.len() == 12);
        assert("trig-reduce"@.len() == 11);
        reveal_strlit("trig-reduce");
        assert("cubes-reduce"@.len() == 12);
        assert("trig-reduce"@.len() == 11);
        assert("cubes-reduce"@ != "trig-reduce"@);
        reveal_strlit("log-distribute-fp-safe");
        assert("cubes-reduce"@.len() == 12);
        assert("log-distribute-fp-safe"@.len() == 22);
        reveal_strlit("log-distribute-fp-safe");
        assert("cubes-reduce"@.len() == 12);
        assert("log-distribute-fp-safe"@.len() == 22);
        assert("cubes-reduce"@ != "log-distribute-fp-safe"@);
        reveal_strlit("log-distribute");
        assert("cubes-reduce"@.len() == 12);
        assert("log-distribute"@.len() == 14);
        reveal_strlit("log-distribute");
        assert("cubes-reduce"@.len() == 12);
        assert("log-distribute"@.len() == 14);
        assert("cubes-reduce"@ != "log-distribute"@);
        reveal_strlit("pow-canonicalize");
        assert("cubes-reduce"@.len() == 12);
        assert("pow-canonicalize"@.len() == 16);
        reveal_strlit("pow-canonicalize");
        assert("cubes-reduce"@.len() == 12);
        assert("pow-canonicalize"@.len() == 16);
        assert("cubes-reduce"@ != "pow-canonicalize"@);
        reveal_strlit("pow-reduce-fp-safe-nan");
        assert("cubes-reduce"@.len() == 12);
        assert("pow-reduce-fp-safe-nan"@.len() == 22);
        reveal_strlit("pow-reduce-fp-safe-nan");
        assert("cubes-reduce"@.len() == 12);
        assert("pow-reduce-fp-safe-nan"@.len() == 22);
        assert("cubes-reduce"@ != "pow-reduce-fp-safe-nan"@);
        reveal_strlit("pow-reduce-fp-safe");
        assert("cubes-reduce"@.len() == 12);
        assert("pow-reduce-fp-safe"@.len() == 18);
        reveal_strlit("pow-reduce-fp-safe");
        assert("cubes-reduce"@.len() == 12);
        assert("pow-reduce-fp-safe"@.len() == 18);
        assert("cubes-reduce"@ != "pow-reduce-fp-safe"@);
        reveal_strlit("pow-reduce");
        assert("cubes-reduce"@.len() == 12);
        assert("pow-reduce"@.len() == 10);
        reveal_strlit("pow-reduce");
        assert("cubes-reduce"@.len() == 12);
        assert("pow-reduce"@.len() == 10);
        assert("cubes-reduce"@ != "pow-reduce"@);
        reveal_strlit("exp-factor");
        assert("cubes-reduce"@.len() == 12);
        assert("exp-factor"@.len() == 10);
        reveal_strlit("exp-factor");
        assert("cubes-reduce"@.len() == 12);
        assert("exp-factor"@.len() == 10);
        assert("cubes-reduce"@ != "exp-factor"@);
        reveal_strlit("exp-distribute");
        assert("cubes-reduce"@.len() == 12);
        assert("exp-distribute"@.len() == 14);
        reveal_strlit("exp-distribute");
        assert("cubes-reduce"@.len() == 12);
        assert("exp-distribute"@.len() == 14);
        assert("cubes-reduce"@ != "exp-distribute"@);
        reveal_strlit("exp-constants");
        assert("cubes-reduce"@.len() == 12);
        assert("exp-constants"@.len() == 13);
        reveal_strlit("exp-constants");
        assert("cubes-reduce"@.len() == 12);
        assert("exp-constants"@.len() == 13);
        assert("cubes-reduce"@ != "exp-constants"@);
        reveal_strlit("exp-reduce");
        assert("cubes-reduce"@.len() == 12);
        assert("exp-reduce"@.len() == 10);
        reveal_strlit("exp-reduce");
        assert("cubes-reduce"@.len() == 12);
        assert("exp-reduce"@.len() == 10);
        assert("cubes-reduce"@ != "exp-reduce"@);
        reveal_strlit("cubes-canonicalize");
        assert("cubes-reduce"@.len() == 12);
        assert("cubes-canonicalize"@.len() == 18);
        reveal_strlit("cubes-canonicalize");
        assert("cubes-reduce"@.len() == 12);
        assert("cubes-canonicalize"@.len() == 18);
        assert("cubes-reduce"@ != "cubes-canonicalize"@);
        reveal_strlit("cubes-distribute");
        assert("cubes-reduce"@.len() == 12);
        assert("cubes-distribute"@.len() == 16);
        reveal_strlit("cubes-distribute");
        assert("cubes-reduce"@.len() == 12);
        assert("cubes-distribute"@.len() == 16);
        assert("cubes-reduce"@ != "cubes-distribute"@);
        assert(group_names(group_models(groups@)) =~= seq!["erf-rules"@, "complex-number-basics"@, "branch-reduce"@, "compare-reduce"@, "bool-reduce"@, "htrig-reduce"@, "trig-reduce-fp-sound-nan"@, "trig-reduce-fp-sound"@, "trig-reduce"@, "log-distribute-fp-safe"@, "log-distribute"@, "pow-canonicalize"@, "pow-reduce-fp-safe-nan"@, "pow-reduce-fp-safe"@, "pow-reduce"@, "exp-factor"@, "exp-distribute"@, "exp-constants"@, "exp-reduce"@, "cubes-canonicalize"@, "cubes-distribute"@]);
        assert forall|j: int| 0 <= j < group_names(group_models(groups@)).len() implies
            group_names(group_models(groups@))[j] != "cubes-reduce"@ by {}
        assert(!group_names(group_models(groups@)).contains("cubes-reduce"@));
    }
    match push_group(groups, "cubes-reduce", g) {
        Ok(()) => {},
        Err(e) => {
            proof { assert(false); }
            return Err(e);
        },
    }
    proof {
        assert(group_models(groups@) =~= seq![crate::corpus::corpus_group_0(), crate::corpus::corpus_group_1(), crate::corpus::corpus_group_2(), crate::corpus::corpus_group_3(), crate::corpus::corpus_group_4(), crate::corpus::corpus_group_5(), crate::corpus::corpus_group_6(), crate::corpus::corpus_group_7(), crate::corpus::corpus_group_8(), crate::corpus::corpus_group_9(), crate::corpus::corpus_group_10(), crate::corpus::corpus_group_11(), crate::corpus::corpus_group_12(), crate::corpus::corpus_group_13(), crate::corpus::corpus_group_14(), crate::corpus::corpus_group_15(), crate::corpus::corpus_group_16(), crate::corpus::corpus_group_17(), crate::corpus::corpus_group_18(), crate::corpus::corpus_group_19(), crate::corpus::corpus_group_20(), crate::corpus::corpus_group_21()]);
    }
    Ok(())
}

#[verifier::spinoff_prover]
#[verifier::rlimit(100)]
/// Build and append the `squares-reduce-fp-sound` group.
fn corpus_push_22(groups: &mut Vec<RuleGroup>) -> (r: Result<(), RuleError>)
    requires
        group_models(old(groups)@) == seq![crate::corpus::corpus_group_0(), crate::corpus::corpus_group_1(), crate::corpus::corpus_group_2(), crate::corpus::corpus_group_3(), crate::corpus::corpus_group_4(), crate::corpus::corpus_group_5(), crate::corpus::corpus_group_6(), crate::corpus::corpus_group_7(), crate::corpus::corpus_group_8(), crate::corpus::corpus_group_9(), crate::corpus::corpus_group_10(), crate::corpus::corpus_group_11(), crate::corpus::corpus_group_12(), crate::corpus::corpus_group_13(), crate::corpus::corpus_group_14(), crate::corpus::corpus_group_15(), crate::corpus::corpus_group_16(), crate::corpus::corpus_group_17(), crate::corpus::corpus_group_18(), crate::corpus::corpus_group_19(), crate::corpus::corpus_group_20(), crate::corpus::corpus_group_21()],
    ensures
        r matches Ok(()) ==> group_models(final(groups)@) == seq![crate::corpus::corpus_group_0(), crate::corpus::corpus_group_1(), crate::corpus::corpus_group_2(), crate::corpus::corpus_group_3(), crate::corpus::corpus_group_4(), crate::corpus::corpus_group_5(), crate::corpus::corpus_group_6(), crate::corpus::corpus_group_7(), crate::corpus::corpus_group_8(), crate::corpus::corpus_group_9(), crate::corpus::corpus_group_10(), crate::corpus::corpus_group_11(), crate::corpus::corpus_group_12(), crate::corpus::corpus_group_13(), crate::corpus::corpus_group_14(), crate::corpus::corpus_group_15(), crate::corpus::corpus_group_16(), crate::corpus::corpus_group_17(), crate::corpus::corpus_group_18(), crate::corpus::corpus_group_19(), crate::corpus::corpus_group_20(), crate::corpus::corpus_group_21(), crate::corpus::corpus_group_22()],
        r is Err ==> !crate::corpus::corpus_rules_ok(),
{
    let mut t: Vec<(&str, &str, &str)> = Vec::new();
    t.push(("sqr-neg", "(* (neg ?x) (neg ?x))", "(* ?x ?x)"));
    proof {
        assert(t@.len() == 1);
        assert forall|i: int| 0 <= i < t@.len() implies rule_ok(#[trigger] t@[i])
            == rule_ok(crate::corpus::group_tuples_22()[i]) by {
            if i == 0 {
                assert(t@[0].1@ == crate::corpus::group_tuples_22()[0].1@);
                assert(t@[0].2@ == crate::corpus::group_tuples_22()[0].2@);
            }
        }
    }
    let g = match mk_rules(t.as_slice()) {
        Ok(g) => g,
        Err(e) => {
            proof {
                assert(!(forall|i: int| 0 <= i < crate::corpus::group_tuples_22().len()
                    ==> rule_ok(#[trigger] crate::corpus::group_tuples_22()[i])));
                assert(!crate::corpus::corpus_rules_ok());
            }
            return Err(e);
        },
    };
    proof {
        assert(rewrite_models(g@) =~= crate::corpus::corpus_group_22().rules);
        reveal_strlit("squares-reduce-fp-sound");
        reveal_strlit("erf-rules");
        assert("squares-reduce-fp-sound"@.len() == 23);
        assert("erf-rules"@.len() == 9);
        reveal_strlit("erf-rules");
        assert("squares-reduce-fp-sound"@.len() == 23);
        assert("erf-rules"@.len() == 9);
        assert("squares-reduce-fp-sound"@ != "erf-rules"@);
        reveal_strlit("complex-number-basics");
        assert("squares-reduce-fp-sound"@.len() == 23);
        assert("complex-number-basics"@.len() == 21);
        reveal_strlit("complex-number-basics");
        assert("squares-reduce-fp-sound"@.len() == 23);
        assert("complex-number-basics"@.len() == 21);
        assert("squares-reduce-fp-sound"@ != "complex-number-basics"@);
        reveal_strlit("branch-reduce");
        assert("squares-reduce-fp-sound"@.len() == 23);
        assert("branch-reduce"@.len() == 13);
        reveal_strlit("branch-reduce");
        assert("squares-reduce-fp-sound"@.len() == 23);
        assert("branch-reduce"@.len() == 13);
        assert("squares-reduce-fp-sound"@ != "branch-reduce"@);
        reveal_strlit("compare-reduce");
        assert("squares-reduce-fp-sound"@.len() == 23);
        assert("compare-reduce"@.len() == 14);
        reveal_strlit("compare-reduce");
        assert("squares-reduce-fp-sound"@.len() == 23);
        assert("compare-reduce"@.len() == 14);
        assert("squares-reduce-fp-sound"@ != "compare-reduce"@);
        reveal_strlit("bool-reduce");
        assert("squares-reduce-fp-sound"@.len() == 23);
        assert("bool-reduce"@.len() == 11);
        reveal_strlit("bool-reduce");
        assert("squares-reduce-fp-sound"@.len() == 23);
        assert("bool-reduce"@.len() == 11);
        assert("squares-reduce-fp-sound"@ != "bool-reduce"@);
        reveal_strlit("htrig-reduce");
        assert("squares-reduce-fp-sound"@.len() == 23);
        assert("htrig-reduce"@.len() == 12);
        reveal_strlit("htrig-reduce");
        assert("squares-reduce-fp-sound"@.len() == 23);
        assert("htrig-reduce"@.len() == 12);
        assert("squares-reduce-fp-sound"@ != "htrig-reduce"@);
        reveal_strlit("trig-reduce-fp-sound-nan");
        assert("squares-reduce-fp-sound"@.len() == 23);
        assert("trig-reduce-fp-sound-nan"@.len() == 24);
        reveal_strlit("trig-reduce-fp-sound-nan");
        assert("squares-reduce-fp-sound"@.len() == 23);
        assert("trig-reduce-fp-sound-nan"@.len() == 24);
        assert("squares-reduce-fp-sound"@ != "trig-reduce-fp-sound-nan"@);
        reveal_strlit("trig-reduce-fp-sound");
        assert("squares-reduce-fp-sound"@.len() == 23);
        assert("trig-reduce-fp-sound"@.len() == 20);
        reveal_strlit("trig-reduce-fp-sound");
        assert("squares-reduce-fp-sound"@.len() == 23);
        assert("trig-reduce-fp-sound"@.len() == 20);
        assert("squares-reduce-fp-sound"@ != "trig-reduce-fp-sound"@);
        reveal_strlit("trig-reduce");
        assert("squares-reduce-fp-sound"@.len() == 23);
        assert("trig-reduce"@.len() == 11);
        reveal_strlit("trig-reduce");
        assert("squares-reduce-fp-sound"@.len() == 23);
        assert("trig-reduce"@.len() == 11);
        assert("squares-reduce-fp-sound"@ != "trig-reduce"@);
        reveal_strlit("log-distribute-fp-safe");
        assert("squares-reduce-fp-sound"@.len() == 23);
        assert("log-distribute-fp-safe"@.len() == 22);
        reveal_strlit("log-distribute-fp-safe");
        assert("squares-reduce-fp-sound"@.len() == 23);
        assert("log-distribute-fp-safe"@.len() == 22);
        assert("squares-reduce-fp-sound"@ != "log-distribute-fp-safe"@);
        reveal_strlit("log-distribute");
        assert("squares-reduce-fp-sound"@.len() == 23);
        assert("log-distribute"@.len() == 14);
        reveal_strlit("log-distribute");
        assert("squares-reduce-fp-sound"@.len() == 23);
        assert("log-distribute"@.len() == 14);
        assert("squares-reduce-fp-sound"@ != "log-distribute"@);
        reveal_strlit("pow-canonicalize");
        assert("squares-reduce-fp-sound"@.len() == 23);
        assert("pow-canonicalize"@.len() == 16);
        reveal_strlit("pow-canonicalize");
        assert("squares-reduce-fp-sound"@.len() == 23);
        assert("pow-canonicalize"@.len() == 16);
        assert("squares-reduce-fp-sound"@ != "pow-canonicalize"@);
        reveal_strlit("pow-reduce-fp-safe-nan");
        assert("squares-reduce-fp-sound"@.len() == 23);
        assert("pow-reduce-fp-safe-nan"@.len() == 22);
        reveal_strlit("pow-reduce-fp-safe-nan");
        assert("squares-reduce-fp-sound"@.len() == 23);
        assert("pow-reduce-fp-safe-nan"@.len() == 22);
        assert("squares-reduce-fp-sound"@ != "pow-reduce-fp-safe-nan"@);
        reveal_strlit("pow-reduce-fp-safe");
        assert("squares-reduce-fp-sound"@.len() == 23);
        assert("pow-reduce-fp-safe"@.len() == 18);
        reveal_strlit("pow-reduce-fp-safe");
        assert("squares-reduce-fp-sound"@.len() == 23);
        assert("pow-reduce-fp-safe"@.len() == 18);
        assert("squares-reduce-fp-sound"@ != "pow-reduce-fp-safe"@);
        reveal_strlit("pow-reduce");
        assert("squares-reduce-fp-sound"@.len() == 23);
        assert("pow-reduce"@.len() == 10);
        reveal_strlit("pow-reduce");
        assert("squares-reduce-fp-sound"@.len() == 23);
        assert("pow-reduce"@.len() == 10);
        assert("squares-reduce-fp-sound"@ != "pow-reduce"@);
        reveal_strlit("exp-factor");
        assert("squares-reduce-fp-sound"@.len() == 23);
        assert("exp-factor"@.len() == 10);
        reveal_strlit("exp-factor");
        assert("squares-reduce-fp-sound"@.len() == 23);
        assert("exp-factor"@.len() == 10);
        assert("squares-reduce-fp-sound"@ != "exp-factor"@);
        reveal_strlit("exp-distribute");
        assert("squares-reduce-fp-sound"@.len() == 23);
        assert("exp-distribute"@.len() == 14);
        reveal_strlit("exp-distribute");
        assert("squares-reduce-fp-sound"@.len() == 23);
        assert("exp-distribute"@.len() == 14);
        assert("squares-reduce-fp-sound"@ != "exp-distribute"@);
        reveal_strlit("exp-constants");
        assert("squares-reduce-fp-sound"@.len() == 23);
        assert("exp-constants"@.len() == 13);
        reveal_strlit("exp-constants");
        assert("squares-reduce-fp-sound"@.len() == 23);
        assert("exp-constants"@.len() == 13);
        assert("squares-reduce-fp-sound"@ != "exp-constants"@);
        reveal_strlit("exp-reduce");
        assert("squares-reduce-fp-sound"@.len() == 23);
        assert("exp-reduce"@.len() == 10);
        reveal_strlit("exp-reduce");
        assert("squares-reduce-fp-sound"@.len() == 23);
        assert("exp-reduce"@.len() == 10);
        assert("squares-reduce-fp-sound"@ != "exp-reduce"@);
        reveal_strlit("cubes-canonicalize");
        assert("squares-reduce-fp-sound"@.len() == 23);
        assert("cubes-canonicalize"@.len() == 18);
        reveal_strlit("cubes-canonicalize");
        assert("squares-reduce-fp-sound"@.len() == 23);
        assert("cubes-canonicalize"@.len() == 18);
        assert("squares-reduce-fp-sound"@ != "cubes-canonicalize"@);
        reveal_strlit("cubes-distribute");
        assert("squares-reduce-fp-sound"@.len() == 23);
        assert("cubes-distribute"@.len() == 16);
        reveal_strlit("cubes-distribute");
        assert("squares-reduce-fp-sound"@.len() == 23);
        assert("cubes-distribute"@.len() == 16);
        assert("squares-reduce-fp-sound"@ != "cubes-distribute"@);
        reveal_strlit("cubes-reduce");
        assert("squares-reduce-fp-sound"@.len() == 23);
        assert("cubes-reduce"@.len() == 12);
        reveal_strlit("cubes-reduce");
        assert("squares-reduce-fp-sound"@.len() == 23);
        assert("cubes-reduce"@.len() == 12);
        assert("squares-reduce-fp-sound"@ != "cubes-reduce"@);
        assert(group_names(group_models(groups@)) =~= seq!["erf-rules"@, "complex-number-basics"@, "branch-reduce"@, "compare-reduce"@, "bool-reduce"@, "htrig-reduce"@, "trig-reduce-fp-sound-nan"@, "trig-reduce-fp-sound"@, "trig-reduce"@, "log-distribute-fp-safe"@, "log-distribute"@, "pow-canonicalize"@, "pow-reduce-fp-safe-nan"@, "pow-reduce-fp-safe"@, "pow-reduce"@, "exp-factor"@, "exp-distribute"@, "exp-constants"@, "exp-reduce"@, "cubes-canonicalize"@, "cubes-distribute"@, "cubes-reduce"@]);
        assert forall|j: int| 0 <= j < group_names(group_models(groups@)).len() implies
            group_names(group_models(groups@))[j] != "squares-reduce-fp-sound"@ by {}
        assert(!group_names(group_models(groups@)).contains("squares-reduce-fp-sound"@));
    }
    match push_group(groups, "squares-reduce-fp-sound", g) {
        Ok(()) => {},
        Err(e) => {
            proof { assert(false); }
            return Err(e);
        },
    }
    proof {
        assert(group_models(groups@) =~= seq![crate::corpus::corpus_group_0(), crate::corpus::corpus_group_1(), crate::corpus::corpus_group_2(), crate::corpus::corpus_group_3(), crate::corpus::corpus_group_4(), crate::corpus::corpus_group_5(), crate::corpus::corpus_group_6(), crate::corpus::corpus_group_7(), crate::corpus::corpus_group_8(), crate::corpus::corpus_group_9(), crate::corpus::corpus_group_10(), crate::corpus::corpus_group_11(), crate::corpus::corpus_group_12(), crate::corpus::corpus_group_13(), crate::corpus::corpus_group_14(), crate::corpus::corpus_group_15(), crate::corpus::corpus_group_16(), crate::corpus::corpus_group_17(), crate::corpus::corpus_group_18(), crate::corpus::corpus_group_19(), crate::corpus::corpus_group_20(), crate::corpus::corpus_group_21(), crate::corpus::corpus_group_22()]);
    }
    Ok(())
}

#[verifier::spinoff_prover]
#[verifier::rlimit(100)]
/// Build and append the `squares-reduce` group.
fn corpus_push_23(groups: &mut Vec<RuleGroup>) -> (r: Result<(), RuleError>)
    requires
        group_models(old(groups)@) == seq![crate::corpus::corpus_group_0(), crate::corpus::corpus_group_1(), crate::corpus::corpus_group_2(), crate::corpus::corpus_group_3(), crate::corpus::corpus_group_4(), crate::corpus::corpus_group_5(), crate::corpus::corpus_group_6(), crate::corpus::corpus_group_7(), crate::corpus::corpus_group_8(), crate::corpus::corpus_group_9(), crate::corpus::corpus_group_10(), crate::corpus::corpus_group_11(), crate::corpus::corpus_group_12(), crate::corpus::corpus_group_13(), crate::corpus::corpus_group_14(), crate::corpus::corpus_group_15(), crate::corpus::corpus_group_16(), crate::corpus::corpus_group_17(), crate::corpus::corpus_group_18(), crate::corpus::corpus_group_19(), crate::corpus::corpus_group_20(), crate::corpus::corpus_group_21(), crate::corpus::corpus_group_22()],
    ensures
        r matches Ok(()) ==> group_models(final(groups)@) == seq![crate::corpus::corpus_group_0(), crate::corpus::corpus_group_1(), crate::corpus::corpus_group_2(), crate::corpus::corpus_group_3(), crate::corpus::corpus_group_4(), crate::corpus::corpus_group_5(), crate::corpus::corpus_group_6(), crate::corpus::corpus_group_7(), crate::corpus::corpus_group_8(), crate::corpus::corpus_group_9(), crate::corpus::corpus_group_10(), crate::corpus::corpus_group_11(), crate::corpus::corpus_group_12(), crate::corpus::corpus_group_13(), crate::corpus::corpus_group_14(), crate::corpus::corpus_group_15(), crate::corpus::corpus_group_16(), crate::corpus::corpus_group_17(), crate::corpus::corpus_group_18(), crate::corpus::corpus_group_19(), crate::corpus::corpus_group_20(), crate::corpus::corpus_group_21(), crate::corpus::corpus_group_22(), crate::corpus::corpus_group_23()],
        r is Err ==> !crate::corpus::corpus_rules_ok(),
{
    let mut t: Vec<(&str, &str, &str)> = Vec::new();
    t.push(("rem-square-sqrt", "(* (sqrt ?x) (sqrt ?x))", "?x"));
    t.push(("rem-sqrt-square", "(sqrt (* ?x ?x))", "(fabs ?x)"));
    proof {
        assert(t@.len() == 2);
        assert forall|i: int| 0 <= i < t@.len() implies rule_ok(#[trigger] t@[i])
            == rule_ok(crate::corpus::group_tuples_23()[i]) by {
            if i == 0 {
                assert(t@[0].1@ == crate::corpus::group_tuples_23()[0].1@);
                assert(t@[0].2@ == crate::corpus::group_tuples_23()[0].2@);
            } else if i == 1 {
                assert(t@[1].1@ == crate::corpus::group_tuples_23()[1].1@);
                assert(t@[1].2@ == crate::corpus::group_tuples_23()[1].2@);
            }
        }
    }
    let g = match mk_rules(t.as_slice()) {
        Ok(g) => g,
        Err(e) => {
            proof {
                assert(!(forall|i: int| 0 <= i < crate::corpus::group_tuples_23().len()
                    ==> rule_ok(#[trigger] crate::corpus::group_tuples_23()[i])));
                assert(!crate::corpus::corpus_rules_ok());
            }
            return Err(e);
        },
    };
    proof {
        assert(rewrite_models(g@) =~= crate::corpus::corpus_group_23().rules);
        reveal_strlit("squares-reduce");
        reveal_strlit("erf-rules");
        assert("squares-reduce"@.len() == 14);
        assert("erf-rules"@.len() == 9);
        reveal_strlit("erf-rules");
        assert("squares-reduce"@.len() == 14);
        assert("erf-rules"@.len() == 9);
        assert("squares-reduce"@ != "erf-rules"@);
        reveal_strlit("complex-number-basics");
        assert("squares-reduce"@.len() == 14);
        assert("complex-number-basics"@.len() == 21);
        reveal_strlit("complex-number-basics");
        assert("squares-reduce"@.len() == 14);
        assert("complex-number-basics"@.len() == 21);
        assert("squares-reduce"@ != "complex-number-basics"@);
        reveal_strlit("branch-reduce");
        assert("squares-reduce"@.len() == 14);
        assert("branch-reduce"@.len() == 13);
        reveal_strlit("branch-reduce");
        assert("squares-reduce"@.len() == 14);
        assert("branch-reduce"@.len() == 13);
        assert("squares-reduce"@ != "branch-reduce"@);
        reveal_strlit("compare-reduce");
        assert("squares-reduce"@[0] != "compare-reduce"@[0]);
        reveal_strlit("compare-reduce");
        assert("squares-reduce"@.len() == 14);
        assert("compare-reduce"@.len() == 14);
        reveal_strlit("compare-reduce");
        assert("squares-reduce"@.len() == 14);
        assert("compare-reduce"@.len() == 14);
        assert("squares-reduce"@ != "compare-reduce"@);
        reveal_strlit("bool-reduce");
        assert("squares-reduce"@.len() == 14);
        assert("bool-reduce"@.len() == 11);
        reveal_strlit("bool-reduce");
        assert("squares-reduce"@.len() == 14);
        assert("bool-reduce"@.len() == 11);
        assert("squares-reduce"@ != "bool-reduce"@);
        reveal_strlit("htrig-reduce");
        assert("squares-reduce"@.len() == 14);
        assert("htrig-reduce"@.len() == 12);
        reveal_strlit("htrig-reduce");
        assert("squares-reduce"@.len() == 14);
        assert("htrig-reduce"@.len() == 12);
        assert("squares-reduce"@ != "htrig-reduce"@);
        reveal_strlit("trig-reduce-fp-sound-nan");
        assert("squares-reduce"@.len() == 14);
        assert("trig-reduce-fp-sound-nan"@.len() == 24);
        reveal_strlit("trig-reduce-fp-sound-nan");
        assert("squares-reduce"@.len() == 14);
        assert("trig-reduce-fp-sound-nan"@.len() == 24);
        assert("squares-reduce"@ != "trig-reduce-fp-sound-nan"@);
        reveal_strlit("trig-reduce-fp-sound");
        assert("squares-reduce"@.len() == 14);
        assert("trig-reduce-fp-sound"@.len() == 20);
        reveal_strlit("trig-reduce-fp-sound");
        assert("squares-reduce"@.len() == 14);
        assert("trig-reduce-fp-sound"@.len() == 20);
        assert("squares-reduce"@ != "trig-reduce-fp-sound"@);
        reveal_strlit("trig-reduce");
        assert("squares-reduce"@.len() == 14);
        assert("trig-reduce"@.len() == 11);
        reveal_strlit("trig-reduce");
        assert("squares-reduce"@.len() == 14);
        assert("trig-reduce"@.len() == 11);
        assert("squares-reduce"@ != "trig-reduce"@);
        reveal_strlit("log-distribute-fp-safe");
        assert("squares-reduce"@.len() == 14);
        assert("log-distribute-fp-safe"@.len() == 22);
        reveal_strlit("log-distribute-fp-safe");
        assert("squares-reduce"@.len() == 14);
        assert("log-distribute-fp-safe"@.len() == 22);
        assert("squares-reduce"@ != "log-distribute-fp-safe"@);
        reveal_strlit("log-distribute");
        assert("squares-reduce"@[0] != "log-distribute"@[0]);
        reveal_strlit("log-distribute");
        assert("squares-reduce"@.len() == 14);
        assert("log-distribute"@.len() == 14);
        reveal_strlit("log-distribute");
        assert("squares-reduce"@.len() == 14);
        assert("log-distribute"@.len() == 14);
        assert("squares-reduce"@ != "log-distribute"@);
        reveal_strlit("pow-canonicalize");
        assert("squares-reduce"@.len() == 14);
        assert("pow-canonicalize"@.len() == 16);
        reveal_strlit("pow-canonicalize");
        assert("squares-reduce"@.len() == 14);
        assert("pow-canonicalize"@.len() == 16);
        assert("squares-reduce"@ != "pow-canonicalize"@);
        reveal_strlit("pow-reduce-fp-safe-nan");
        assert("squares-reduce"@.len() == 14);
        assert("pow-reduce-fp-safe-nan"@.len() == 22);
        reveal_strlit("pow-reduce-fp-safe-nan");
        assert("squares-reduce"@.len() == 14);
        assert("pow-reduce-fp-safe-nan"@.len() == 22);
        assert("squares-reduce"@ != "pow-reduce-fp-safe-nan"@);
        reveal_strlit("pow-reduce-fp-safe");
        assert("squares-reduce"@.len() == 14);
        assert("pow-reduce-fp-safe"@.len() == 18);
        reveal_strlit("pow-reduce-fp-safe");
        assert("squares-reduce"@.len() == 14);
        assert("pow-reduce-fp-safe"@.len() == 18);
        assert("squares-reduce"@ != "pow-reduce-fp-safe"@);
        reveal_strlit("pow-reduce");
        assert("squares-reduce"@.len() == 14);
        assert("pow-reduce"@.len() == 10);
        reveal_strlit("pow-reduce");
        assert("squares-reduce"@.len() == 14);
        assert("pow-reduce"@.len() == 10);
        assert("squares-reduce"@ != "pow-reduce"@);
        reveal_strlit("exp-factor");
        assert("squares-reduce"@.len() == 14);
        assert("exp-factor"@.len() == 10);
        reveal_strlit("exp-factor");
        assert("squares-reduce"@.len() == 14);
        assert("exp-factor"@.len() == 10);
        assert("squares-reduce"@ != "exp-factor"@);
        reveal_strlit("exp-distribute");
        assert("squares-reduce"@[0] != "exp-distribute"@[0]);
        reveal_strlit("exp-distribute");
        assert("squares-reduce"@.len() == 14);
        assert("exp-distribute"@.len() == 14);
        reveal_strlit("exp-distribute");
        assert("squares-reduce"@.len() == 14);
        assert("exp-distribute"@.len() == 14);
        assert("squares-reduce"@ != "exp-distribute"@);
        reveal_strlit("exp-constants");
        assert("squares-reduce"@.len() == 14);
        assert("exp-constants"@.len() == 13);
        reveal_strlit("exp-constants");
        assert("squares-reduce"@.len() == 14);
        assert("exp-constants"@.len() == 13);
        assert("squares-reduce"@ != "exp-constants"@);
        reveal_strlit("exp-reduce");
        assert("squares-reduce"@.len() == 14);
        assert("exp-reduce"@.len() == 10);
        reveal_strlit("exp-reduce");
        assert("squares-reduce"@.len() == 14);
        assert("exp-reduce"@.len() == 10);
        assert("squares-reduce"@ != "exp-reduce"@);
        reveal_strlit("cubes-canonicalize");
        assert("squares-reduce"@.len() == 14);
        assert("cubes-canonicalize"@.len() == 18);
        reveal_strlit("cubes-canonicalize");
        assert("squares-reduce"@.len() == 14);
        assert("cubes-canonicalize"@.len() == 18);
        assert("squares-reduce"@ != "cubes-canonicalize"@);
        reveal_strlit("cubes-distribute");
        assert("squares-reduce"@.len() == 14);
        assert("cubes-distribute"@.len() == 16);
        reveal_strlit("cubes-distribute");
        assert("squares-reduce"@.len() == 14);
        assert("cubes-distribute"@.len() == 16);
        assert("squares-reduce"@ != "cubes-distribute"@);
        reveal_strlit("cubes-reduce");
        assert("squares-reduce"@.len() == 14);
        assert("cubes-reduce"@.len() == 12);
        reveal_strlit("cubes-reduce");
        assert("squares-reduce"@.len() == 14);
        assert("cubes-reduce"@.len() == 12);
        assert("squares-reduce"@ != "cubes-reduce"@);
        reveal_strlit("squares-reduce-fp-sound");
        assert("squares-reduce"@.len() == 14);
        assert("squares-reduce-fp-sound"@.len() == 23);
        reveal_strlit("squares-reduce-fp-sound");
        assert("squares-reduce"@.len() == 14);
        assert("squares-reduce-fp-sound"@.len() == 23);
        assert("squares-reduce"@ != "squares-reduce-fp-sound"@);
        assert(group_names(group_models(groups@)) =~= seq!["erf-rules"@, "complex-number-basics"@, "branch-reduce"@, "compare-reduce"@, "bool-reduce"@, "htrig-reduce"@, "trig-reduce-fp-sound-nan"@, "trig-reduce-fp-sound"@, "trig-reduce"@, "log-distribute-fp-safe"@, "log-distribute"@, "pow-canonicalize"@, "pow-reduce-fp-safe-nan"@, "pow-reduce-fp-safe"@, "pow-reduce"@, "exp-factor"@, "exp-distribute"@, "exp-constants"@, "exp-reduce"@, "cubes-canonicalize"@, "cubes-distribute"@, "cubes-reduce"@, "squares-reduce-fp-sound"@]);
        assert forall|j: int| 0 <= j < group_names(group_models(groups@)).len() implies
            group_names(group_models(groups@))[j] != "squares-reduce"@ by {}
        assert(!group_names(group_models(groups@)).contains("squares-reduce"@));
    }
    match push_group(groups, "squares-reduce", g) {
        Ok(()) => {},
        Err(e) => {
            proof { assert(false); }
            return Err(e);
        },
    }
    proof {
        assert(group_models(groups@) =~= seq![crate::corpus::corpus_group_0(), crate::corpus::corpus_group_1(), crate::corpus::corpus_group_2(), crate::corpus::corpus_group_3(), crate::corpus::corpus_group_4(), crate::corpus::corpus_group_5(), crate::corpus::corpus_group_6(), crate::corpus::corpus_group_7(), crate::corpus::corpus_group_8(), crate::corpus::corpus_group_9(), crate::corpus::corpus_group_10(), crate::corpus::corpus_group_11(), crate::corpus::corpus_group_12(), crate::corpus::corpus_group_13(), crate::corpus::corpus_group_14(), crate::corpus::corpus_group_15(), crate::corpus::corpus_group_16(), crate::corpus::corpus_group_17(), crate::corpus::corpus_group_18(), crate::corpus::corpus_group_19(), crate::corpus::corpus_group_20(), crate::corpus::corpus_group_21(), crate::corpus::corpus_group_22(), crate::corpus::corpus_group_23()]);
    }
    Ok(())
}

#[verifier::spinoff_prover]
#[verifier::rlimit(100)]
/// Build and append the `fractions-distribute.c` group.
fn corpus_push_24(groups: &mut Vec<RuleGroup>) -> (r: Result<(), RuleError>)
    requires
        group_models(old(groups)@) == seq![crate::corpus::corpus_group_0(), crate::corpus::corpus_group_1(), crate::corpus::corpus_group_2(), crate::corpus::corpus_group_3(), crate::corpus::corpus_group_4(), crate::corpus::corpus_group_5(), crate::corpus::corpus_group_6(), crate::corpus::corpus_group_7(), crate::corpus::corpus_group_8(), crate::corpus::corpus_group_9(), crate::corpus::corpus_group_10(), crate::corpus::corpus_group_11(), crate::corpus::corpus_group_12(), crate::corpus::corpus_group_13(), crate::corpus::corpus_group_14(), crate::corpus::corpus_group_15(), crate::corpus::corpus_group_16(), crate::corpus::corpus_group_17(), crate::corpus::corpus_group_18(), crate::corpus::corpus_group_19(), crate::corpus::corpus_group_20(), crate::corpus::corpus_group_21(), crate::corpus::corpus_group_22(), crate::corpus::corpus_group_23()],
    ensures
        r matches Ok(()) ==> group_models(final(groups)@) == seq![crate::corpus::corpus_group_0(), crate::corpus::corpus_group_1(), crate::corpus::corpus_group_2(), crate::corpus::corpus_group_3(), crate::corpus::corpus_group_4(), crate::corpus::corpus_group_5(), crate::corpus::corpus_group_6(), crate::corpus::corpus_group_7(), crate::corpus::corpus_group_8(), crate::corpus::corpus_group_9(), crate::corpus::corpus_group_10(), crate::corpus::corpus_group_11(), crate::corpus::corpus_group_12(), crate::corpus::corpus_group_13(), crate::corpus::corpus_group_14(), crate::corpus::corpus_group_15(), crate::corpus::corpus_group_16(), crate::corpus::corpus_group_17(), crate::corpus::corpus_group_18(), crate::corpus::corpus_group_19(), crate::corpus::corpus_group_20(), crate::corpus::corpus_group_21(), crate::corpus::corpus_group_22(), crate::corpus::corpus_group_23(), crate::corpus::corpus_group_24()],
        r is Err ==> !crate::corpus::corpus_rules_ok(),
{
    let mut t: Vec<(&str, &str, &str)> = Vec::new();
    t.push(("div-sub.c", "(/.c (-.c ?a ?b) ?c)", "(-.c (/.c ?a ?c) (/.c ?b ?c))"));
    t.push(("times-frac.c", "(/.c (*.c ?a ?b) (*.c ?c ?d))", "(*.c (/.c ?a ?c) (/.c ?b ?d))"));
    proof {
        assert(t@.len() == 2);
        assert forall|i: int| 0 <= i < t@.len() implies rule_ok(#[trigger] t@[i])
            == rule_ok(crate::corpus::group_tuples_24()[i]) by {
            if i == 0 {
                assert(t@[0].1@ == crate::corpus::group_tuples_24()[0].1@);
                assert(t@[0].2@ == crate::corpus::group_tuples_24()[0].2@);
            } else if i == 1 {
                assert(t@[1].1@ == crate::corpus::group_tuples_24()[1].1@);
                assert(t@[1].2@ == crate::corpus::group_tuples_24()[1].2@);
            }
        }
    }
    let g = match mk_rules(t.as_slice()) {
        Ok(g) => g,
        Err(e) => {
            proof {
                assert(!(forall|i: int| 0 <= i < crate::corpus::group_tuples_24().len()
                    ==> rule_ok(#[trigger] crate::corpus::group_tuples_24()[i])));
                assert(!crate::corpus::corpus_rules_ok());
            }
            return Err(e);
        },
    };
    proof {
        assert(rewrite_models(g@) =~= crate::corpus::corpus_group_24().rules);
        reveal_strlit("fractions-distribute.c");
        reveal_strlit("erf-rules");
        assert("fractions-distribute.c"@.len() == 22);
        assert("erf-rules"@.len() == 9);
        reveal_strlit("erf-rules");
        assert("fractions-distribute.c"@.len() == 22);
        assert("erf-rules"@.len() == 9);
        assert("fractions-distribute.c"@ != "erf-rules"@);
        reveal_strlit("complex-number-basics");
        assert("fractions-distribute.c"@.len() == 22);
        assert("complex-number-basics"@.len() == 21);
        reveal_strlit("complex-number-basics");
        assert("fractions-distribute.c"@.len() == 22);
        assert("complex-number-basics"@.len() == 21);
        assert("fractions-distribute.c"@ != "complex-number-basics"@);
        reveal_strlit("branch-reduce");
        assert("fractions-distribute.c"@.len() == 22);
        assert("branch-reduce"@.len() == 13);
        reveal_strlit("branch-reduce");
        assert("fractions-distribute.c"@.len() == 22);
        assert("branch-reduce"@.len() == 13);
        assert("fractions-distribute.c"@ != "branch-reduce"@);
        reveal_strlit("compare-reduce");
        assert("fractions-distribute.c"@.len() == 22);
        assert("compare-reduce"@.len() == 14);
        reveal_strlit("compare-reduce");
        assert("fractions-distribute.c"@.len() == 22);
        assert("compare-reduce"@.len() == 14);
        assert("fractions-distribute.c"@ != "compare-reduce"@);
        reveal_strlit("bool-reduce");
        assert("fractions-distribute.c"@.len() == 22);
        assert("bool-reduce"@.len() == 11);
        reveal_strlit("bool-reduce");
        assert("fractions-distribute.c"@.len() == 22);
        assert("bool-reduce"@.len() == 11);
        assert("fractions-distribute.c"@ != "bool-reduce"@);
        reveal_strlit("htrig-reduce");
        assert("fractions-distribute.c"@.len() == 22);
        assert("htrig-reduce"@.len() == 12);
        reveal_strlit("htrig-reduce");
        assert("fractions-distribute.c"@.len() == 22);
        assert("htrig-reduce"@.len() == 12);
        assert("fractions-distribute.c"@ != "htrig-reduce"@);
        reveal_strlit("trig-reduce-fp-sound-nan");
        assert("fractions-distribute.c"@.len() == 22);
        assert("trig-reduce-fp-sound-nan"@.len() == 24);
        reveal_strlit("trig-reduce-fp-sound-nan");
        assert("fractions-distribute.c"@.len() == 22);
        assert("trig-reduce-fp-sound-nan"@.len() == 24);
        assert("fractions-distribute.c"@ != "trig-reduce-fp-sound-nan"@);
        reveal_strlit("trig-reduce-fp-sound");
        assert("fractions-distribute.c"@.len() == 22);
        assert("trig-reduce-fp-sound"@.len() == 20);
        reveal_strlit("trig-reduce-fp-sound");
        assert("fractions-distribute.c"@.len() == 22);
        assert("trig-reduce-fp-sound"@.len() == 20);
        assert("fractions-distribute.c"@ != "trig-reduce-fp-sound"@);
        reveal_strlit("trig-reduce");
        assert("fractions-distribute.c"@.len() == 22);
        assert("trig-reduce"@.len() == 11);
        reveal_strlit("trig-reduce");
        assert("fractions-distribute.c"@.len() == 22);
        assert("trig-reduce"@.len() == 11);
        assert("fractions-distribute.c"@ != "trig-reduce"@);
        reveal_strlit("log-distribute-fp-safe");
        assert("fractions-distribute.c"@[0] != "log-distribute-fp-safe"@[0]);
        reveal_strlit("log-distribute-fp-safe");
        assert("fractions-distribute.c"@.len() == 22);
        assert("log-distribute-fp-safe"@.len() == 22);
        reveal_strlit("log-distribute-fp-safe");
        assert("fractions-distribute.c"@.len() == 22);
        assert("log-distribute-fp-safe"@.len() == 22);
        assert("fractions-distribute.c"@ != "log-distribute-fp-safe"@);
        reveal_strlit("log-distribute");
        assert("fractions-distribute.c"@.len() == 22);
        assert("log-distribute"@.len() == 14);
        reveal_strlit("log-distribute");
        assert("fractions-distribute.c"@.len() == 22);
        assert("log-distribute"@.len() == 14);
        assert("fractions-distribute.c"@ != "log-distribute"@);
        reveal_strlit("pow-canonicalize");
        assert("fractions-distribute.c"@.len() == 22);
        assert("pow-canonicalize"@.len() == 16);
        reveal_strlit("pow-canonicalize");
        assert("fractions-distribute.c"@.len() == 22);
        assert("pow-canonicalize"@.len() == 16);
        assert("fractions-distribute.c"@ != "pow-canonicalize"@);
        reveal_strlit("pow-reduce-fp-safe-nan");
        assert("fractions-distribute.c"@[0] != "pow-reduce-fp-safe-nan"@[0]);
        reveal_strlit("pow-reduce-fp-safe-nan");
        assert("fractions-distribute.c"@.len() == 22);
        assert("pow-reduce-fp-safe-nan"@.len() == 22);
        reveal_strlit("pow-reduce-fp-safe-nan");
        assert("fractions-distribute.c"@.len() == 22);
        assert("pow-reduce-fp-safe-nan"@.len() == 22);
        assert("fractions-distribute.c"@ != "pow-reduce-fp-safe-nan"@);
        reveal_strlit("pow-reduce-fp-safe");
        assert("fractions-distribute.c"@.len() == 22);
        assert("pow-reduce-fp-safe"@.len() == 18);
        reveal_strlit("pow-reduce-fp-safe");
        assert("fractions-distribute.c"@.len() == 22);
        assert("pow-reduce-fp-safe"@.len() == 18);
        assert("fractions-distribute.c"@ != "pow-reduce-fp-safe"@);
        reveal_strlit("pow-reduce");
        assert("fractions-distribute.c"@.len() == 22);
        assert("pow-reduce"@.len() == 10);
        reveal_strlit("pow-reduce");
        assert("fractions-distribute.c"@.len() == 22);
        assert("pow-reduce"@.len() == 10);
        assert("fractions-distribute.c"@ != "pow-reduce"@);
        reveal_strlit("exp-factor");
        assert("fractions-distribute.c"@.len() == 22);
        assert("exp-factor"@.len() == 10);
        reveal_strlit("exp-factor");
        assert("fractions-distribute.c"@.len() == 22);
        assert("exp-factor"@.len() == 10);
        assert("fractions-distribute.c"@ != "exp-factor"@);
        reveal_strlit("exp-distribute");
        assert("fractions-distribute.c"@.len() == 22);
        assert("exp-distribute"@.len() == 14);
        reveal_strlit("exp-distribute");
        assert("fractions-distribute.c"@.len() == 22);
        assert("exp-distribute"@.len() == 14);
        assert("fractions-distribute.c"@ != "exp-distribute"@);
        reveal_strlit("exp-constants");
        assert("fractions-distribute.c"@.len() == 22);
        assert("exp-constants"@.len() == 13);
        reveal_strlit("exp-constants");
        assert("fractions-distribute.c"@.len() == 22);
        assert("exp-constants"@.len() == 13);
        assert("fractions-distribute.c"@ != "exp-constants"@);
        reveal_strlit("exp-reduce");
        assert("fractions-distribute.c"@.len() == 22);
        assert("exp-reduce"@.len() == 10);
        reveal_strlit("exp-reduce");
        assert("fractions-distribute.c"@.len() == 22);
        assert("exp-reduce"@.len() == 10);
        assert("fractions-distribute.c"@ != "exp-reduce"@);
        reveal_strlit("cubes-canonicalize");
        assert("fractions-distribute.c"@.len() == 22);
        assert("cubes-canonicalize"@.len() == 18);
        reveal_strlit("cubes-canonicalize");
        assert("fractions-distribute.c"@.len() == 22);
        assert("cubes-canonicalize"@.len() == 18);
        assert("fractions-distribute.c"@ != "cubes-canonicalize"@);
        reveal_strlit("cubes-distribute");
        assert("fractions-distribute.c"@.len() == 22);
        assert("cubes-distribute"@.len() == 16);
        reveal_strlit("cubes-distribute");
        assert("fractions-distribute.c"@.len() == 22);
        assert("cubes-distribute"@.len() == 16);
        assert("fractions-distribute.c"@ != "cubes-distribute"@);
        reveal_strlit("cubes-reduce");
        assert("fractions-distribute.c"@.len() == 22);
        assert("cubes-reduce"@.len() == 12);
        reveal_strlit("cubes-reduce");
        assert("fractions-distribute.c"@.len() == 22);
        assert("cubes-reduce"@.len() == 12);
        assert("fractions-distribute.c"@ != "cubes-reduce"@);
        reveal_strlit("squares-reduce-fp-sound");
        assert("fractions-distribute.c"@.len() == 22);
        assert("squares-reduce-fp-sound"@.len() == 23);
        reveal_strlit("squares-reduce-fp-sound");
        assert("fractions-distribute.c"@.len() == 22);
        assert("squares-reduce-fp-sound"@.len() == 23);
        assert("fractions-distribute.c"@ != "squares-reduce-fp-sound"@);
        reveal_strlit("squares-reduce");
        assert("fractions-distribute.c"@.len() == 22);
        assert("squares-reduce"@.len() == 14);
        reveal_strlit("squares-reduce");
        assert("fractions-distribute.c"@.len() == 22);
        assert("squares-reduce"@.len() == 14);
        assert("fractions-distribute.c"@ != "squares-reduce"@);
        assert(group_names(group_models(groups@)) =~= seq!["erf-rules"@, "complex-number-basics"@, "branch-reduce"@, "compare-reduce"@, "bool-reduce"@, "htrig-reduce"@, "trig-reduce-fp-sound-nan"@, "trig-reduce-fp-sound"@, "trig-reduce"@, "log-distribute-fp-safe"@, "log-distribute"@, "pow-canonicalize"@, "pow-reduce-fp-safe-nan"@, "pow-reduce-fp-safe"@, "pow-reduce"@, "exp-factor"@, "exp-distribute"@, "exp-constants"@, "exp-reduce"@, "cubes-canonicalize"@, "cubes-distribute"@, "cubes-reduce"@, "squares-reduce-fp-sound"@, "squares-reduce"@]);
        assert forall|j: int| 0 <= j < group_names(group_models(groups@)).len() implies
            group_names(group_models(groups@))[j] != "fractions-distribute.c"@ by {}
        assert(!group_names(group_models(groups@)).contains("fractions-distribute.c"@));
    }
    match push_group(groups, "fractions-distribute.c", g) {
        Ok(()) => {},
        Err(e) => {
            proof { assert(false); }
            return Err(e);
        },
    }
    proof {
        assert(group_models(groups@) =~= seq![crate::corpus::corpus_group_0(), crate::corpus::corpus_group_1(), crate::corpus::corpus_group_2(), crate::corpus::corpus_group_3(), crate::corpus::corpus_group_4(), crate::corpus::corpus_group_5(), crate::corpus::corpus_group_6(), crate::corpus::corpus_group_7(), crate::corpus::corpus_group_8(), crate::corpus::corpus_group_9(), crate::corpus::corpus_group_10(), crate::corpus::corpus_group_11(), crate::corpus::corpus_group_12(), crate::corpus::corpus_group_13(), crate::corpus::corpus_group_14(), crate::corpus::corpus_group_15(), crate::corpus::corpus_group_16(), crate::corpus::corpus_group_17(), crate::corpus::corpus_group_18(), crate::corpus::corpus_group_19(), crate::corpus::corpus_group_20(), crate::corpus::corpus_group_21(), crate::corpus::corpus_group_22(), crate::corpus::corpus_group_23(), crate::corpus::corpus_group_24()]);
    }
    Ok(())
}

#[verifier::spinoff_prover]
#[verifier::rlimit(100)]
/// Build and append the `fractions-distribute` group.
fn corpus_push_25(groups: &mut Vec<RuleGroup>) -> (r: Result<(), RuleError>)
    requires
        group_models(old(groups)@) == seq![crate::corpus::corpus_group_0(), crate::corpus::corpus_group_1(), crate::corpus::corpus_group_2(), crate::corpus::corpus_group_3(), crate::corpus::corpus_group_4(), crate::corpus::corpus_group_5(), crate::corpus::corpus_group_6(), crate::corpus::corpus_group_7(), crate::corpus::corpus_group_8(), crate::corpus::corpus_group_9(), crate::corpus::corpus_group_10(), crate::corpus::corpus_group_11(), crate::corpus::corpus_group_12(), crate::corpus::corpus_group_13(), crate::corpus::corpus_group_14(), crate::corpus::corpus_group_15(), crate::corpus::corpus_group_16(), crate::corpus::corpus_group_17(), crate::corpus::corpus_group_18(), crate::corpus::corpus_group_19(), crate::corpus::corpus_group_20(), crate::corpus::corpus_group_21(), crate::corpus::corpus_group_22(), crate::corpus::corpus_group_23(), crate::corpus::corpus_group_24()],
    ensures
        r matches Ok(()) ==> group_models(final(groups)@) == seq![crate::corpus::corpus_group_0(), crate::corpus::corpus_group_1(), crate::corpus::corpus_group_2(), crate::corpus::corpus_group_3(), crate::corpus::corpus_group_4(), crate::corpus::corpus_group_5(), crate::corpus::corpus_group_6(), crate::corpus::corpus_group_7(), crate::corpus::corpus_group_8(), crate::corpus::corpus_group_9(), crate::corpus::corpus_group_10(), crate::corpus::corpus_group_11(), crate::corpus::corpus_group_12(), crate::corpus::corpus_group_13(), crate::corpus::corpus_group_14(), crate::corpus::corpus_group_15(), crate::corpus::corpus_group_16(), crate::corpus::corpus_group_17(), crate::corpus::corpus_group_18(), crate::corpus::corpus_group_19(), crate::corpus::corpus_group_20(), crate::corpus::corpus_group_21(), crate::corpus::corpus_group_22(), crate::corpus::corpus_group_23(), crate::corpus::corpus_group_24(), crate::corpus::corpus_group_25()],
        r is Err ==> !crate::corpus::corpus_rules_ok(),
{
    let mut t: Vec<(&str, &str, &str)> = Vec::new();
    t.push(("div-sub", "(/ (- ?a ?b) ?c)", "(- (/ ?a ?c) (/ ?b ?c))"));
    t.push(("times-frac", "(/ (* ?a ?b) (* ?c ?d))", "(* (/ ?a ?c) (/ ?b ?d))"));
    proof {
        assert(t@.len() == 2);
        assert forall|i: int| 0 <= i < t@.len() implies rule_ok(#[trigger] t@[i])
            == rule_ok(crate::corpus::group_tuples_25()[i]) by {
            if i == 0 {
                assert(t@[0].1@ == crate::corpus::group_tuples_25()[0].1@);
                assert(t@[0].2@ == crate::corpus::group_tuples_25()[0].2@);
            } else if i == 1 {
                assert(t@[1].1@ == crate::corpus::group_tuples_25()[1].1@);
                assert(t@[1].2@ == crate::corpus::group_tuples_25()[1].2@);
            }
        }
    }
    let g = match mk_rules(t.as_slice()) {
        Ok(g) => g,
        Err(e) => {
            proof {
                assert(!(forall|i: int| 0 <= i < crate::corpus::group_tuples_25().len()
                    ==> rule_ok(#[trigger] crate::corpus::group_tuples_25()[i])));
                assert(!crate::corpus::corpus_rules_ok());
            }
            return Err(e);
        },
    };
    proof {
        assert(rewrite_models(g@) =~= crate::corpus::corpus_group_25().rules);
        reveal_strlit("fractions-distribute");
        reveal_strlit("erf-rules");
        assert("fractions-distribute"@.len() == 20);
        assert("erf-rules"@.len() == 9);
        reveal_strlit("erf-rules");
        assert("fractions-distribute"@.len() == 20);
        assert("erf-rules"@.len() == 9);
        assert("fractions-distribute"@ != "erf-rules"@);
        reveal_strlit("complex-number-basics");
        assert("fractions-distribute"@.len() == 20);
        assert("complex-number-basics"@.len() == 21);
        reveal_strlit("complex-number-basics");
        assert("fractions-distribute"@.len() == 20);
        assert("complex-number-basics"@.len() == 21);
        assert("fractions-distribute"@ != "complex-number-basics"@);
        reveal_strlit("branch-reduce");
        assert("fractions-distribute"@.len() == 20);
        assert("branch-reduce"@.len() == 13);
        reveal_strlit("branch-reduce");
        assert("fractions-distribute"@.len() == 20);
        assert("branch-reduce"@.len() == 13);
        assert("fractions-distribute"@ != "branch-reduce"@);
        reveal_strlit("compare-reduce");
        assert("fractions-distribute"@.len() == 20);
        assert("compare-reduce"@.len() == 14);
        reveal_strlit("compare-reduce");
        assert("fractions-distribute"@.len() == 20);
        assert("compare-reduce"@.len() == 14);
        assert("fractions-distribute"@ != "compare-reduce"@);
        reveal_strlit("bool-reduce");
        assert("fractions-distribute"@.len() == 20);
        assert("bool-reduce"@.len() == 11);
        reveal_strlit("bool-reduce");
        assert("fractions-distribute"@.len() == 20);
        assert("bool-reduce"@.len() == 11);
        assert("fractions-distribute"@ != "bool-reduce"@);
        reveal_strlit("htrig-reduce");
        assert("fractions-distribute"@.len() == 20);
        assert("htrig-reduce"@.len() == 12);
        reveal_strlit("htrig-reduce");
        assert("fractions-distribute"@.len() == 20);
        assert("htrig-reduce"@.len() == 12);
        assert("fractions-distribute"@ != "htrig-reduce"@);
        reveal_strlit("trig-reduce-fp-sound-nan");
        assert("fractions-distribute"@.len() == 20);
        assert("trig-reduce-fp-sound-nan"@.len() == 24);
        reveal_strlit("trig-reduce-fp-sound-nan");
        assert("fractions-distribute"@.len() == 20);
        assert("trig-reduce-fp-sound-nan"@.len() == 24);
        assert("fractions-distribute"@ != "trig-reduce-fp-sound-nan"@);
        reveal_strlit("trig-reduce-fp-sound");
        assert("fractions-distribute"@[0] != "trig-reduce-fp-sound"@[0]);
        reveal_strlit("trig-reduce-fp-sound");
        assert("fractions-distribute"@.len() == 20);
        assert("trig-reduce-fp-sound"@.len() == 20);
        reveal_strlit("trig-reduce-fp-sound");
        assert("fractions-distribute"@.len() == 20);
        assert("trig-reduce-fp-sound"@.len() == 20);
        assert("fractions-distribute"@ != "trig-reduce-fp-sound"@);
        reveal_strlit("trig-reduce");
        assert("fractions-distribute"@.len() == 20);
        assert("trig-reduce"@.len() == 11);
        reveal_strlit("trig-reduce");
        assert("fractions-distribute"@.len() == 20);
        assert("trig-reduce"@.len() == 11);
        assert("fractions-distribute"@ != "trig-reduce"@);
        reveal_strlit("log-distribute-fp-safe");
        assert("fractions-distribute"@.len() == 20);
        assert("log-distribute-fp-safe"@.len() == 22);
        reveal_strlit("log-distribute-fp-safe");
        assert("fractions-distribute"@.len() == 20);
        assert("log-distribute-fp-safe"@.len() == 22);
        assert("fractions-distribute"@ != "log-distribute-fp-safe"@);
        reveal_strlit("log-distribute");
        assert("fractions-distribute"@.len() == 20);
        assert("log-distribute"@.len() == 14);
        reveal_strlit("log-distribute");
        assert("fractions-distribute"@.len() == 20);
        assert("log-distribute"@.len() == 14);
        assert("fractions-distribute"@ != "log-distribute"@);
        reveal_strlit("pow-canonicalize");
        assert("fractions-distribute"@.len() == 20);
        assert("pow-canonicalize"@.len() == 16);
        reveal_strlit("pow-canonicalize");
        assert("fractions-distribute"@.len() == 20);
        assert("pow-canonicalize"@.len() == 16);
        assert("fractions-distribute"@ != "pow-canonicalize"@);
        reveal_strlit("pow-reduce-fp-safe-nan");
        assert("fractions-distribute"@.len() == 20);
        assert("pow-reduce-fp-safe-nan"@.len() == 22);
        reveal_strlit("pow-reduce-fp-safe-nan");
        assert("fractions-distribute"@.len() == 20);
        assert("pow-reduce-fp-safe-nan"@.len() == 22);
        assert("fractions-distribute"@ != "pow-reduce-fp-safe-nan"@);
        reveal_strlit("pow-reduce-fp-safe");
        assert("fractions-distribute"@.len() == 20);
        assert("pow-reduce-fp-safe"@.len() == 18);
        reveal_strlit("pow-reduce-fp-safe");
        assert("fractions-distribute"@.len() == 20);
        assert("pow-reduce-fp-safe"@.len() == 18);
        assert("fractions-distribute"@ != "pow-reduce-fp-safe"@);
        reveal_strlit("pow-reduce");
        assert("fractions-distribute"@.len() == 20);
        assert("pow-reduce"@.len() == 10);
        reveal_strlit("pow-reduce");
        assert("fractions-distribute"@.len() == 20);
        assert("pow-reduce"@.len() == 10);
        assert("fractions-distribute"@ != "pow-reduce"@);
        reveal_strlit("exp-factor");
        assert("fractions-distribute"@.len() == 20);
        assert("exp-factor"@.len() == 10);
        reveal_strlit("exp-factor");
        assert("fractions-distribute"@.len() == 20);
        assert("exp-factor"@.len() == 10);
        assert("fractions-distribute"@ != "exp-factor"@);
        reveal_strlit("exp-distribute");
        assert("fractions-distribute"@.len() == 20);
        assert("exp-distribute"@.len() == 14);
        reveal_strlit("exp-distribute");
        assert("fractions-distribute"@.len() == 20);
        assert("exp-distribute"@.len() == 14);
        assert("fractions-distribute"@ != "exp-distribute"@);
        reveal_strlit("exp-constants");
        assert("fractions-distribute"@.len() == 20);
        assert("exp-constants"@.len() == 13);
        reveal_strlit("exp-constants");
        assert("fractions-distribute"@.len() == 20);
        assert("exp-constants"@.len() == 13);
        assert("fractions-distribute"@ != "exp-constants"@);
        reveal_strlit("exp-reduce");
        assert("fractions-distribute"@.len() == 20);
        assert("exp-reduce"@.len() == 10);
        reveal_strlit("exp-reduce");
        assert("fractions-distribute"@.len() == 20);
        assert("exp-reduce"@.len() == 10);
        assert("fractions-distribute"@ != "exp-reduce"@);
        reveal_strlit("cubes-canonicalize");
        assert("fractions-distribute"@.len() == 20);
        assert("cubes-canonicalize"@.len() == 18);
        reveal_strlit("cubes-canonicalize");
        assert("fractions-distribute"@.len() == 20);
        assert("cubes-canonicalize"@.len() == 18);
        assert("fractions-distribute"@ != "cubes-canonicalize"@);
        reveal_strlit("cubes-distribute");
        assert("fractions-distribute"@.len() == 20);
        assert("cubes-distribute"@.len() == 16);
        reveal_strlit("cubes-distribute");
        assert("fractions-distribute"@.len() == 20);
        assert("cubes-distribute"@.len() == 16);
        assert("fractions-distribute"@ != "cubes-distribute"@);
        reveal_strlit("cubes-reduce");
        assert("fractions-distribute"@.len() == 20);
        assert("cubes-reduce"@.len() == 12);
        reveal_strlit("cubes-reduce");
        assert("fractions-distribute"@.len() == 20);
        assert("cubes-reduce"@.len() == 12);
        assert("fractions-distribute"@ != "cubes-reduce"@);
        reveal_strlit("squares-reduce-fp-sound");
        assert("fractions-distribute"@.len() == 20);
        assert("squares-reduce-fp-sound"@.len() == 23);
        reveal_strlit("squares-reduce-fp-sound");
        assert("fractions-distribute"@.len() == 20);
        assert("squares-reduce-fp-sound"@.len() == 23);
        assert("fractions-distribute"@ != "squares-reduce-fp-sound"@);
        reveal_strlit("squares-reduce");
        assert("fractions-distribute"@.len() == 20);
        assert("squares-reduce"@.len() == 14);
        reveal_strlit("squares-reduce");
        assert("fractions-distribute"@.len() == 20);
        assert("squares-reduce"@.len() == 14);
        assert("fractions-distribute"@ != "squares-reduce"@);
        reveal_strlit("fractions-distribute.c");
        assert("fractions-distribute"@.len() == 20);
        assert("fractions-distribute.c"@.len() == 22);
        reveal_strlit("fractions-distribute.c");
        assert("fractions-distribute"@.len() == 20);
        assert("fractions-distribute.c"@.len() == 22);
        assert("fractions-distribute"@ != "fractions-distribute.c"@);
        assert(group_names(group_models(groups@)) =~= seq!["erf-rules"@, "complex-number-basics"@, "branch-reduce"@, "compare-reduce"@, "bool-reduce"@, "htrig-reduce"@, "trig-reduce-fp-sound-nan"@, "trig-reduce-fp-sound"@, "trig-reduce"@, "log-distribute-fp-safe"@, "log-distribute"@, "pow-canonicalize"@, "pow-reduce-fp-safe-nan"@, "pow-reduce-fp-safe"@, "pow-reduce"@, "exp-factor"@, "exp-distribute"@, "exp-constants"@, "exp-reduce"@, "cubes-canonicalize"@, "cubes-distribute"@, "cubes-reduce"@, "squares-reduce-fp-sound"@, "squares-reduce"@, "fractions-distribute.c"@]);
        assert forall|j: int| 0 <= j < group_names(group_models(groups@)).len() implies
            group_names(group_models(groups@))[j] != "fractions-distribute"@ by {}
        assert(!group_names(group_models(groups@)).contains("fractions-distribute"@));
    }
    match push_group(groups, "fractions-distribute", g) {
        Ok(()) => {},
        Err(e) => {
            proof { assert(false); }
            return Err(e);
        },
    }
    proof {
        assert(group_models(groups@) =~= seq![crate::corpus::corpus_group_0(), crate::corpus::corpus_group_1(), crate::corpus::corpus_group_2(), crate::corpus::corpus_group_3(), crate::corpus::corpus_group_4(), crate::corpus::corpus_group_5(), crate::corpus::corpus_group_6(), crate::corpus::corpus_group_7(), crate::corpus::corpus_group_8(), crate::corpus::corpus_group_9(), crate::corpus::corpus_group_10(), crate::corpus::corpus_group_11(), crate::corpus::corpus_group_12(), crate::corpus::corpus_group_13(), crate::corpus::corpus_group_14(), crate::corpus::corpus_group_15(), crate::corpus::corpus_group_16(), crate::corpus::corpus_group_17(), crate::corpus::corpus_group_18(), crate::corpus::corpus_group_19(), crate::corpus::corpus_group_20(), crate::corpus::corpus_group_21(), crate::corpus::corpus_group_22(), crate::corpus::corpus_group_23(), crate::corpus::corpus_group_24(), crate::corpus::corpus_group_25()]);
    }
    Ok(())
}

#[verifier::spinoff_prover]
#[verifier::rlimit(100)]
/// Build and append the `id-reduce-fp-safe` group.
fn corpus_push_26(groups: &mut Vec<RuleGroup>) -> (r: Result<(), RuleError>)
    requires
        group_models(old(groups)@) == seq![crate::corpus::corpus_group_0(), crate::corpus::corpus_group_1(), crate::corpus::corpus_group_2(), crate::corpus::corpus_group_3(), crate::corpus::corpus_group_4(), crate::corpus::corpus_group_5(), crate::corpus::corpus_group_6(), crate::corpus::corpus_group_7(), crate::corpus::corpus_group_8(), crate::corpus::corpus_group_9(), crate::corpus::corpus_group_10(), crate::corpus::corpus_group_11(), crate::corpus::corpus_group_12(), crate::corpus::corpus_group_13(), crate::corpus::corpus_group_14(), crate::corpus::corpus_group_15(), crate::corpus::corpus_group_16(), crate::corpus::corpus_group_17(), crate::corpus::corpus_group_18(), crate::corpus::corpus_group_19(), crate::corpus::corpus_group_20(), crate::corpus::corpus_group_21(), crate::corpus::corpus_group_22(), crate::corpus::corpus_group_23(), crate::corpus::corpus_group_24(), crate::corpus::corpus_group_25()],
    ensures
        r matches Ok(()) ==> group_models(final(groups)@) == seq![crate::corpus::corpus_group_0(), crate::corpus::corpus_group_1(), crate::corpus::corpus_group_2(), crate::corpus::corpus_group_3(), crate::corpus::corpus_group_4(), crate::corpus::corpus_group_5(), crate::corpus::corpus_group_6(), crate::corpus::corpus_group_7(), crate::corpus::corpus_group_8(), crate::corpus::corpus_group_9(), crate::corpus::corpus_group_10(), crate::corpus::corpus_group_11(), crate::corpus::corpus_group_12(), crate::corpus::corpus_group_13(), crate::corpus::corpus_group_14(), crate::corpus::corpus_group_15(), crate::corpus::corpus_group_16(), crate::corpus::corpus_group_17(), crate::corpus::corpus_group_18(), crate::corpus::corpus_group_19(), crate::corpus::corpus_group_20(), crate::corpus::corpus_group_21(), crate::corpus::corpus_group_22(), crate::corpus::corpus_group_23(), crate::corpus::corpus_group_24(), crate::corpus::corpus_group_25(), crate::corpus::corpus_group_26()],
        r is Err ==> !crate::corpus::corpus_rules_ok(),
{
    let mut t: Vec<(&str, &str, &str)> = Vec::new();
    t.push(("+-lft-identity", "(+ 0 ?a)", "?a"));
    t.push(("+-rgt-identity", "(+ ?a 0)", "?a"));
    t.push(("--rgt-identity", "(- ?a 0)", "?a"));
    t.push(("sub0-neg", "(- 0 ?a)", "(neg ?a)"));
    t.push(("remove-double-neg", "(neg (neg ?a))", "?a"));
    t.push(("*-lft-identity", "(* 1 ?a)", "?a"));
    t.push(("*-rgt-identity", "(* ?a 1)", "?a"));
    t.push(("/-rgt-identity", "(/ ?a 1)", "?a"));
    t.push(("mul-1-neg", "(* -1 ?a)", "(neg ?a)"));
    proof {
        assert(t@.len() == 9);
        assert forall|i: int| 0 <= i < t@.len() implies rule_ok(#[trigger] t@[i])
            == rule_ok(crate::corpus::group_tuples_26()[i]) by {
            if i == 0 {
                assert(t@[0].1@ == crate::corpus::group_tuples_26()[0].1@);
                assert(t@[0].2@ == crate::corpus::group_tuples_26()[0].2@);
            } else if i == 1 {
                assert(t@[1].1@ == crate::corpus::group_tuples_26()[1].1@);
                assert(t@[1].2@ == crate::corpus::group_tuples_26()[1].2@);
            } else if i == 2 {
                assert(t@[2].1@ == crate::corpus::group_tuples_26()[2].1@);
                assert(t@[2].2@ == crate::corpus::group_tuples_26()[2].2@);
            } else if i == 3 {
                assert(t@[3].1@ == crate::corpus::group_tuples_26()[3].1@);
                assert(t@[3].2@ == crate::corpus::group_tuples_26()[3].2@);
            } else if i == 4 {
                assert(t@[4].1@ == crate::corpus::group_tuples_26()[4].1@);
                assert(t@[4].2@ == crate::corpus::group_tuples_26()[4].2@);
            } else if i == 5 {
                assert(t@[5].1@ == crate::corpus::group_tuples_26()[5].1@);
                assert(t@[5].2@ == crate::corpus::group_tuples_26()[5].2@);
            } else if i == 6 {
                assert(t@[6].1@ == crate::corpus::group_tuples_26()[6].1@);
                assert(t@[6].2@ == crate::corpus::group_tuples_26()[6].2@);
            } else if i == 7 {
                assert(t@[7].1@ == crate::corpus::group_tuples_26()[7].1@);
                assert(t@[7].2@ == crate::corpus::group_tuples_26()[7].2@);
            } else if i == 8 {
                assert(t@[8].1@ == crate::corpus::group_tuples_26()[8].1@);
                assert(t@[8].2@ == crate::corpus::group_tuples_26()[8].2@);
            }
        }
    }
    let g = match mk_rules(t.as_slice()) {
        Ok(g) => g,
        Err(e) => {
            proof {
                assert(!(forall|i: int| 0 <= i < crate::corpus::group_tuples_26().len()
                    ==> rule_ok(#[trigger] crate::corpus::group_tuples_26()[i])));
                assert(!crate::corpus::corpus_rules_ok());
            }
            return Err(e);
        },
    };
    proof {
        assert(rewrite_models(g@) =~= crate::corpus::corpus_group_26().rules);
        reveal_strlit("id-reduce-fp-safe");
        reveal_strlit("erf-rules");
        assert("id-reduce-fp-safe"@.len() == 17);
        assert("erf-rules"@.len() == 9);
        reveal_strlit("erf-rules");
        assert("id-reduce-fp-safe"@.len() == 17);
        assert("erf-rules"@.len() == 9);
        assert("id-reduce-fp-safe"@ != "erf-rules"@);
        reveal_strlit("complex-number-basics");
        assert("id-reduce-fp-safe"@.len() == 17);
        assert("complex-number-basics"@.len() == 21);
        reveal_strlit("complex-number-basics");
        assert("id-reduce-fp-safe"@.len() == 17);
        assert("complex-number-basics"@.len() == 21);
        assert("id-reduce-fp-safe"@ != "complex-number-basics"@);
        reveal_strlit("branch-reduce");
        assert("id-reduce-fp-safe"@.len() == 17);
        assert("branch-reduce"@.len() == 13);
        reveal_strlit("branch-reduce");
        assert("id-reduce-fp-safe"@.len() == 17);
        assert("branch-reduce"@.len() == 13);
        assert("id-reduce-fp-safe"@ != "branch-reduce"@);
        reveal_strlit("compare-reduce");
        assert("id-reduce-fp-safe"@.len() == 17);
        assert("compare-reduce"@.len() == 14);
        reveal_strlit("compare-reduce");
        assert("id-reduce-fp-safe"@.len() == 17);
        assert("compare-reduce"@.len() == 14);
        assert("id-reduce-fp-safe"@ != "compare-reduce"@);
        reveal_strlit("bool-reduce");
        assert("id-reduce-fp-safe"@.len() == 17);
        assert("bool-reduce"@.len() == 11);
        reveal_strlit("bool-reduce");
        assert("id-reduce-fp-safe"@.len() == 17);
        assert("bool-reduce"@.len() == 11);
        assert("id-reduce-fp-safe"@ != "bool-reduce"@);
        reveal_strlit("htrig-reduce");
        assert("id-reduce-fp-safe"@.len() == 17);
        assert("htrig-reduce"@.len() == 12);
        reveal_strlit("htrig-reduce");
        assert("id-reduce-fp-safe"@.len() == 17);
        assert("htrig-reduce"@.len() == 12);
        assert("id-reduce-fp-safe"@ != "htrig-reduce"@);
        reveal_strlit("trig-reduce-fp-sound-nan");
        assert("id-reduce-fp-safe"@.len() == 17);
        assert("trig-reduce-fp-sound-nan"@.len() == 24);
        reveal_strlit("trig-reduce-fp-sound-nan");
        assert("id-reduce-fp-safe"@.len() == 17);
        assert("trig-reduce-fp-sound-nan"@.len() == 24);
        assert("id-reduce-fp-safe"@ != "trig-reduce-fp-sound-nan"@);
        reveal_strlit("trig-reduce-fp-sound");
        assert("id-reduce-fp-safe"@.len() == 17);
        assert("trig-reduce-fp-sound"@.len() == 20);
        reveal_strlit("trig-reduce-fp-sound");
        assert("id-reduce-fp-safe"@.len() == 17);
        assert("trig-reduce-fp-sound"@.len() == 20);
        assert("id-reduce-fp-safe"@ != "trig-reduce-fp-sound"@);
        reveal_strlit("trig-reduce");
        assert("id-reduce-fp-safe"@.len() == 17);
        assert("trig-reduce"@.len() == 11);
        reveal_strlit("trig-reduce");
        assert("id-reduce-fp-safe"@.len() == 17);
        assert("trig-reduce"@.len() == 11);
        assert("id-reduce-fp-safe"@ != "trig-reduce"@);
        reveal_strlit("log-distribute-fp-safe");
        assert("id-reduce-fp-safe"@.len() == 17);
        assert("log-distribute-fp-safe"@.len() == 22);
        reveal_strlit("log-distribute-fp-safe");
        assert("id-reduce-fp-safe"@.len() == 17);
        assert("log-distribute-fp-safe"@.len() == 22);
        assert("id-reduce-fp-safe"@ != "log-distribute-fp-safe"@);
        reveal_strlit("log-distribute");
        assert("id-reduce-fp-safe"@.len() == 17);
        assert("log-distribute"@.len() == 14);
        reveal_strlit("log-distribute");
        assert("id-reduce-fp-safe"@.len() == 17);
        assert("log-distribute"@.len() == 14);
        assert("id-reduce-fp-safe"@ != "log-distribute"@);
        reveal_strlit("pow-canonicalize");
        assert("id-reduce-fp-safe"@.len() == 17);
        assert("pow-canonicalize"@.len() == 16);
        reveal_strlit("pow-canonicalize");
        assert("id-reduce-fp-safe"@.len() == 17);
        assert("pow-canonicalize"@.len() == 16);
        assert("id-reduce-fp-safe"@ != "pow-canonicalize"@);
        reveal_strlit("pow-reduce-fp-safe-nan");
        assert("id-reduce-fp-safe"@.len() == 17);
        assert("pow-reduce-fp-safe-nan"@.len() == 22);
        reveal_strlit("pow-reduce-fp-safe-nan");
        assert("id-reduce-fp-safe"@.len() == 17);
        assert("pow-reduce-fp-safe-nan"@.len() == 22);
        assert("id-reduce-fp-safe"@ != "pow-reduce-fp-safe-nan"@);
        reveal_strlit("pow-reduce-fp-safe");
        assert("id-reduce-fp-safe"@.len() == 17);
        assert("pow-reduce-fp-safe"@.len() == 18);
        reveal_strlit("pow-reduce-fp-safe");
        assert("id-reduce-fp-safe"@.len() == 17);
        assert("pow-reduce-fp-safe"@.len() == 18);
        assert("id-reduce-fp-safe"@ != "pow-reduce-fp-safe"@);
        reveal_strlit("pow-reduce");
        assert("id-reduce-fp-safe"@.len() == 17);
        assert("pow-reduce"@.len() == 10);
        reveal_strlit("pow-reduce");
        assert("id-reduce-fp-safe"@.len() == 17);
        assert("pow-reduce"@.len() == 10);
        assert("id-reduce-fp-safe"@ != "pow-reduce"@);
        reveal_strlit("exp-factor");
        assert("id-reduce-fp-safe"@.len() == 17);
        assert("exp-factor"@.len() == 10);
        reveal_strlit("exp-factor");
        assert("id-reduce-fp-safe"@.len() == 17);
        assert("exp-factor"@.len() == 10);
        assert("id-reduce-fp-safe"@ != "exp-factor"@);
        reveal_strlit("exp-distribute");
        assert("id-reduce-fp-safe"@.len() == 17);
        assert("exp-distribute"@.len() == 14);
        reveal_strlit("exp-distribute");
        assert("id-reduce-fp-safe"@.len() == 17);
        assert("exp-distribute"@.len() == 14);
        assert("id-reduce-fp-safe"@ != "exp-distribute"@);
        reveal_strlit("exp-constants");
        assert("id-reduce-fp-safe"@.len() == 17);
        assert("exp-constants"@.len() == 13);
        reveal_strlit("exp-constants");
        assert("id-reduce-fp-safe"@.len() == 17);
        assert("exp-constants"@.len() == 13);
        assert("id-reduce-fp-safe"@ != "exp-constants"@);
        reveal_strlit("exp-reduce");
        assert("id-reduce-fp-safe"@.len() == 17);
        assert("exp-reduce"@.len() == 10);
        reveal_strlit("exp-reduce");
        assert("id-reduce-fp-safe"@.len() == 17);
        assert("exp-reduce"@.len() == 10);
        assert("id-reduce-fp-safe"@ != "exp-reduce"@);
        reveal_strlit("cubes-canonicalize");
        assert("id-reduce-fp-safe"@.len() == 17);
        assert("cubes-canonicalize"@.len() == 18);
        reveal_strlit("cubes-canonicalize");
        assert("id-reduce-fp-safe"@.len() == 17);
        assert("cubes-canonicalize"@.len() == 18);
        assert("id-reduce-fp-safe"@ != "cubes-canonicalize"@);
        reveal_strlit("cubes-distribute");
        assert("id-reduce-fp-safe"@.len() == 17);
        assert("cubes-distribute"@.len() == 16);
        reveal_strlit("cubes-distribute");
        assert("id-reduce-fp-safe"@.len() == 17);
        assert("cubes-distribute"@.len() == 16);
        assert("id-reduce-fp-safe"@ != "cubes-distribute"@);
        reveal_strlit("cubes-reduce");
        assert("id-reduce-fp-safe"@.len() == 17);
        assert("cubes-reduce"@.len() == 12);
        reveal_strlit("cubes-reduce");
        assert("id-reduce-fp-safe"@.len() == 17);
        assert("cubes-reduce"@.len() == 12);
        assert("id-reduce-fp-safe"@ != "cubes-reduce"@);
        reveal_strlit("squares-reduce-fp-sound");
        assert("id-reduce-fp-safe"@.len() == 17);
        assert("squares-reduce-fp-sound"@.len() == 23);
        reveal_strlit("squares-reduce-fp-sound");
        assert("id-reduce-fp-safe"@.len() == 17);
        assert("squares-reduce-fp-sound"@.len() == 23);
        assert("id-reduce-fp-safe"@ != "squares-reduce-fp-sound"@);
        reveal_strlit("squares-reduce");
        assert("id-reduce-fp-safe"@.len() == 17);
        assert("squares-reduce"@.len() == 14);
        reveal_strlit("squares-reduce");
        assert("id-reduce-fp-safe"@.len() == 17);
        assert("squares-reduce"@.len() == 14);
        assert("id-reduce-fp-safe"@ != "squares-reduce"@);
        reveal_strlit("fractions-distribute.c");
        assert("id-reduce-fp-safe"@.len() == 17);
        assert("fractions-distribute.c"@.len() == 22);
        reveal_strlit("fractions-distribute.c");
        assert("id-reduce-fp-safe"@.len() == 17);
        assert("fractions-distribute.c"@.len() == 22);
        assert("id-reduce-fp-safe"@ != "fractions-distribute.c"@);
        reveal_strlit("fractions-distribute");
        assert("id-reduce-fp-safe"@.len() == 17);
        assert("fractions-distribute"@.len() == 20);
        reveal_strlit("fractions-distribute");
        assert("id-reduce-fp-safe"@.len() == 17);
        assert("fractions-distribute"@.len() == 20);
        assert("id-reduce-fp-safe"@ != "fractions-distribute"@);
        assert(group_names(group_models(groups@)) =~= seq!["erf-rules"@, "complex-number-basics"@, "branch-reduce"@, "compare-reduce"@, "bool-reduce"@, "htrig-reduce"@, "trig-reduce-fp-sound-nan"@, "trig-reduce-fp-sound"@, "trig-reduce"@, "log-distribute-fp-safe"@, "log-distribute"@, "pow-canonicalize"@, "pow-reduce-fp-safe-nan"@, "pow-reduce-fp-safe"@, "pow-reduce"@, "exp-factor"@, "exp-distribute"@, "exp-constants"@, "exp-reduce"@, "cubes-canonicalize"@, "cubes-distribute"@, "cubes-reduce"@, "squares-reduce-fp-sound"@, "squares-reduce"@, "fractions-distribute.c"@, "fractions-distribute"@]);
        assert forall|j: int| 0 <= j < group_names(group_models(groups@)).len() implies
            group_names(group_models(groups@))[j] != "id-reduce-fp-safe"@ by {}
        assert(!group_names(group_models(groups@)).contains("id-reduce-fp-safe"@));
    }
    match push_group(groups, "id-reduce-fp-safe", g) {
        Ok(()) => {},
        Err(e) => {
            proof { assert(false); }
            return Err(e);
        },
    }
    proof {
        assert(group_models(groups@) =~= seq![crate::corpus::corpus_group_0(), crate::corpus::corpus_group_1(), crate::corpus::corpus_group_2(), crate::corpus::corpus_group_3(), crate::corpus::corpus_group_4(), crate::corpus::corpus_group_5(), crate::corpus::corpus_group_6(), crate::corpus::corpus_group_7(), crate::corpus::corpus_group_8(), crate::corpus::corpus_group_9(), crate::corpus::corpus_group_10(), crate::corpus::corpus_group_11(), crate::corpus::corpus_group_12(), crate::corpus::corpus_group_13(), crate::corpus::corpus_group_14(), crate::corpus::corpus_group_15(), crate::corpus::corpus_group_16(), crate::corpus::corpus_group_17(), crate::corpus::corpus_group_18(), crate::corpus::corpus_group_19(), crate::corpus::corpus_group_20(), crate::corpus::corpus_group_21(), crate::corpus::corpus_group_22(), crate::corpus::corpus_group_23(), crate::corpus::corpus_group_24(), crate::corpus::corpus_group_25(), crate::corpus::corpus_group_26()]);
    }
    Ok(())
}

#[verifier::spinoff_prover]
#[verifier::rlimit(100)]
/// Build and append the `id-reduce-fp-safe-nan` group.
fn corpus_push_27(groups: &mut Vec<RuleGroup>) -> (r: Result<(), RuleError>)
    requires
        group_models(old(groups)@) == seq![crate::corpus::corpus_group_0(), crate::corpus::corpus_group_1(), crate::corpus::corpus_group_2(), crate::corpus::corpus_group_3(), crate::corpus::corpus_group_4(), crate::corpus::corpus_group_5(), crate::corpus::corpus_group_6(), crate::corpus::corpus_group_7(), crate::corpus::corpus_group_8(), crate::corpus::corpus_group_9(), crate::corpus::corpus_group_10(), crate::corpus::corpus_group_11(), crate::corpus::corpus_group_12(), crate::corpus::corpus_group_13(), crate::corpus::corpus_group_14(), crate::corpus::corpus_group_15(), crate::corpus::corpus_group_16(), crate::corpus::corpus_group_17(), crate::corpus::corpus_group_18(), crate::corpus::corpus_group_19(), crate::corpus::corpus_group_20(), crate::corpus::corpus_group_21(), crate::corpus::corpus_group_22(), crate::corpus::corpus_group_23(), crate::corpus::corpus_group_24(), crate::corpus::corpus_group_25(), crate::corpus::corpus_group_26()],
    ensures
        r matches Ok(()) ==> group_models(final(groups)@) == seq![crate::corpus::corpus_group_0(), crate::corpus::corpus_group_1(), crate::corpus::corpus_group_2(), crate::corpus::corpus_group_3(), crate::corpus::corpus_group_4(), crate::corpus::corpus_group_5(), crate::corpus::corpus_group_6(), crate::corpus::corpus_group_7(), crate::corpus::corpus_group_8(), crate::corpus::corpus_group_9(), crate::corpus::corpus_group_10(), crate::corpus::corpus_group_11(), crate::corpus::corpus_group_12(), crate::corpus::corpus_group_13(), crate::corpus::corpus_group_14(), crate::corpus::corpus_group_15(), crate::corpus::corpus_group_16(), crate::corpus::corpus_group_17(), crate::corpus::corpus_group_18(), crate::corpus::corpus_group_19(), crate::corpus::corpus_group_20(), crate::corpus::corpus_group_21(), crate::corpus::corpus_group_22(), crate::corpus::corpus_group_23(), crate::corpus::corpus_group_24(), crate::corpus::corpus_group_25(), crate::corpus::corpus_group_26(), crate::corpus::corpus_group_27()],
        r is Err ==> !crate::corpus::corpus_rules_ok(),
{
    let mut t: Vec<(&str, &str, &str)> = Vec::new();
    t.push(("+-inverses", "(- ?a ?a)", "0"));
    t.push(("*-inverses", "(/ ?a ?a)", "1"));
    t.push(("div0", "(/ 0 ?a)", "0"));
    t.push(("mul0l", "(* 0 ?a)", "0"));
    t.push(("mul0r", "(* ?a 0)", "0"));
    proof {
        assert(t@.len() == 5);
        assert forall|i: int| 0 <= i < t@.len() implies rule_ok(#[trigger] t@[i])
            == rule_ok(crate::corpus::group_tuples_27()[i]) by {
            if i == 0 {
                assert(t@[0].1@ == crate::corpus::group_tuples_27()[0].1@);
                assert(t@[0].2@ == crate::corpus::group_tuples_27()[0].2@);
            } else if i == 1 {
                assert(t@[1].1@ == crate::corpus::group_tuples_27()[1].1@);
                assert(t@[1].2@ == crate::corpus::group_tuples_27()[1].2@);
            } else if i == 2 {
                assert(t@[2].1@ == crate::corpus::group_tuples_27()[2].1@);
                assert(t@[2].2@ == crate::corpus::group_tuples_27()[2].2@);
            } else if i == 3 {
                assert(t@[3].1@ == crate::corpus::group_tuples_27()[3].1@);
                assert(t@[3].2@ == crate::corpus::group_tuples_27()[3].2@);
            } else if i == 4 {
                assert(t@[4].1@ == crate::corpus::group_tuples_27()[4].1@);
                assert(t@[4].2@ == crate::corpus::group_tuples_27()[4].2@);
            }
        }
    }
    let g = match mk_rules(t.as_slice()) {
        Ok(g) => g,
        Err(e) => {
            proof {
                assert(!(forall|i: int| 0 <= i < crate::corpus::group_tuples_27().len()
                    ==> rule_ok(#[trigger] crate::corpus::group_tuples_27()[i])));
                assert(!crate::corpus::corpus_rules_ok());
            }
            return Err(e);
        },
    };
    proof {
        assert(rewrite_models(g@) =~= crate::corpus::corpus_group_27().rules);
        reveal_strlit("id-reduce-fp-safe-nan");
        reveal_strlit("erf-rules");
        assert("id-reduce-fp-safe-nan"@.len() == 21);
        assert("erf-rules"@.len() == 9);
        reveal_strlit("erf-rules");
        assert("id-reduce-fp-safe-nan"@.len() == 21);
        assert("erf-rules"@.len() == 9);
        assert("id-reduce-fp-safe-nan"@ != "erf-rules"@);
        reveal_strlit("complex-number-basics");
        assert("id-reduce-fp-safe-nan"@[0] != "complex-number-basics"@[0]);
        reveal_strlit("complex-number-basics");
        assert("id-reduce-fp-safe-nan"@.len() == 21);
        assert("complex-number-basics"@.len() == 21);
        reveal_strlit("complex-number-basics");
        assert("id-reduce-fp-safe-nan"@.len() == 21);
        assert("complex-number-basics"@.len() == 21);
        assert("id-reduce-fp-safe-nan"@ != "complex-number-basics"@);
        reveal_strlit("branch-reduce");
        assert("id-reduce-fp-safe-nan"@.len() == 21);
        assert("branch-reduce"@.len() == 13);
        reveal_strlit("branch-reduce");
        assert("id-reduce-fp-safe-nan"@.len() == 21);
        assert("branch-reduce"@.len() == 13);
        assert("id-reduce-fp-safe-nan"@ != "branch-reduce"@);
        reveal_strlit("compare-reduce");
        assert("id-reduce-fp-safe-nan"@.len() == 21);
        assert("compare-reduce"@.len() == 14);
        reveal_strlit("compare-reduce");
        assert("id-reduce-fp-safe-nan"@.len() == 21);
        assert("compare-reduce"@.len() == 14);
        assert("id-reduce-fp-safe-nan"@ != "compare-reduce"@);
        reveal_strlit("bool-reduce");
        assert("id-reduce-fp-safe-nan"@.len() == 21);
        assert("bool-reduce"@.len() == 11);
        reveal_strlit("bool-reduce");
        assert("id-reduce-fp-safe-nan"@.len() == 21);
        assert("bool-reduce"@.len() == 11);
        assert("id-reduce-fp-safe-nan"@ != "bool-reduce"@);
        reveal_strlit("htrig-reduce");
        assert("id-reduce-fp-safe-nan"@.len() == 21);
        assert("htrig-reduce"@.len() == 12);
        reveal_strlit("htrig-reduce");
        assert("id-reduce-fp-safe-nan"@.len() == 21);
        assert("htrig-reduce"@.len() == 12);
        assert("id-reduce-fp-safe-nan"@ != "htrig-reduce"@);
        reveal_strlit("trig-reduce-fp-sound-nan");
        assert("id-reduce-fp-safe-nan"@.len() == 21);
        assert("trig-reduce-fp-sound-nan"@.len() == 24);
        reveal_strlit("trig-reduce-fp-sound-nan");
        assert("id-reduce-fp-safe-nan"@.len() == 21);
        assert("trig-reduce-fp-sound-nan"@.len() == 24);
        assert("id-reduce-fp-safe-nan"@ != "trig-reduce-fp-sound-nan"@);
        reveal_strlit("trig-reduce-fp-sound");
        assert("id-reduce-fp-safe-nan"@.len() == 21);
        assert("trig-reduce-fp-sound"@.len() == 20);
        reveal_strlit("trig-reduce-fp-sound");
        assert("id-reduce-fp-safe-nan"@.len() == 21);
        assert("trig-reduce-fp-sound"@.len() == 20);
        assert("id-reduce-fp-safe-nan"@ != "trig-reduce-fp-sound"@);
        reveal_strlit("trig-reduce");
        assert("id-reduce-fp-safe-nan"@.len() == 21);
        assert("trig-reduce"@.len() == 11);
        reveal_strlit("trig-reduce");
        assert("id-reduce-fp-safe-nan"@.len() == 21);
        assert("trig-reduce"@.len() == 11);
        assert("id-reduce-fp-safe-nan"@ != "trig-reduce"@);
        reveal_strlit("log-distribute-fp-safe");
        assert("id-reduce-fp-safe-nan"@.len() == 21);
        assert("log-distribute-fp-safe"@.len() == 22);
        reveal_strlit("log-distribute-fp-safe");
        assert("id-reduce-fp-safe-nan"@.len() == 21);
        assert("log-distribute-fp-safe"@.len() == 22);
        assert("id-reduce-fp-safe-nan"@ != "log-distribute-fp-safe"@);
        reveal_strlit("log-distribute");
        assert("id-reduce-fp-safe-nan"@.len() == 21);
        assert("log-distribute"@.len() == 14);
        reveal_strlit("log-distribute");
        assert("id-reduce-fp-safe-nan"@.len() == 21);
        assert("log-distribute"@.len() == 14);
        assert("id-reduce-fp-safe-nan"@ != "log-distribute"@);
        reveal_strlit("pow-canonicalize");
        assert("id-reduce-fp-safe-nan"@.len() == 21);
        assert("pow-canonicalize"@.len() == 16);
        reveal_strlit("pow-canonicalize");
        assert("id-reduce-fp-safe-nan"@.len() == 21);
        assert("pow-canonicalize"@.len() == 16);
        assert("id-reduce-fp-safe-nan"@ != "pow-canonicalize"@);
        reveal_strlit("pow-reduce-fp-safe-nan");
        assert("id-reduce-fp-safe-nan"@.len() == 21);
        assert("pow-reduce-fp-safe-nan"@.len() == 22);
        reveal_strlit("pow-reduce-fp-safe-nan");
        assert("id-reduce-fp-safe-nan"@.len() == 21);
        assert("pow-reduce-fp-safe-nan"@.len() == 22);
        assert("id-reduce-fp-safe-nan"@ != "pow-reduce-fp-safe-nan"@);
        reveal_strlit("pow-reduce-fp-safe");
        assert("id-reduce-fp-safe-nan"@.len() == 21);
        assert("pow-reduce-fp-safe"@.len() == 18);
        reveal_strlit("pow-reduce-fp-safe");
        assert("id-reduce-fp-safe-nan"@.len() == 21);
        assert("pow-reduce-fp-safe"@.len() == 18);
        assert("id-reduce-fp-safe-nan"@ != "pow-reduce-fp-safe"@);
        reveal_strlit("pow-reduce");
        assert("id-reduce-fp-safe-nan"@.len() == 21);
        assert("pow-reduce"@.len() == 10);
        reveal_strlit("pow-reduce");
        assert("id-reduce-fp-safe-nan"@.len() == 21);
        assert("pow-reduce"@.len() == 10);
        assert("id-reduce-fp-safe-nan"@ != "pow-reduce"@);
        reveal_strlit("exp-factor");
        assert("id-reduce-fp-safe-nan"@.len() == 21);
        assert("exp-factor"@.len() == 10);
        reveal_strlit("exp-factor");
        assert("id-reduce-fp-safe-nan"@.len() == 21);
        assert("exp-factor"@.len() == 10);
        assert("id-reduce-fp-safe-nan"@ != "exp-factor"@);
        reveal_strlit("exp-distribute");
        assert("id-reduce-fp-safe-nan"@.len() == 21);
        assert("exp-distribute"@.len() == 14);
        reveal_strlit("exp-distribute");
        assert("id-reduce-fp-safe-nan"@.len() == 21);
        assert("exp-distribute"@.len() == 14);
        assert("id-reduce-fp-safe-nan"@ != "exp-distribute"@);
        reveal_strlit("exp-constants");
        assert("id-reduce-fp-safe-nan"@.len() == 21);
        assert("exp-constants"@.len() == 13);
        reveal_strlit("exp-constants");
        assert("id-reduce-fp-safe-nan"@.len() == 21);
        assert("exp-constants"@.len() == 13);
        assert("id-reduce-fp-safe-nan"@ != "exp-constants"@);
        reveal_strlit("exp-reduce");
        assert("id-reduce-fp-safe-nan"@.len() == 21);
        assert("exp-reduce"@.len() == 10);
        reveal_strlit("exp-reduce");
        assert("id-reduce-fp-safe-nan"@.len() == 21);
        assert("exp-reduce"@.len() == 10);
        assert("id-reduce-fp-safe-nan"@ != "exp-reduce"@);
        reveal_strlit("cubes-canonicalize");
        assert("id-reduce-fp-safe-nan"@.len() == 21);
        assert("cubes-canonicalize"@.len() == 18);
        reveal_strlit("cubes-canonicalize");
        assert("id-reduce-fp-safe-nan"@.len() == 21);
        assert("cubes-canonicalize"@.len() == 18);
        assert("id-reduce-fp-safe-nan"@ != "cubes-canonicalize"@);
        reveal_strlit("cubes-distribute");
        assert("id-reduce-fp-safe-nan"@.len() == 21);
        assert("cubes-distribute"@.len() == 16);
        reveal_strlit("cubes-distribute");
        assert("id-reduce-fp-safe-nan"@.len() == 21);
        assert("cubes-distribute"@.len() == 16);
        assert("id-reduce-fp-safe-nan"@ != "cubes-distribute"@);
        reveal_strlit("cubes-reduce");
        assert("id-reduce-fp-safe-nan"@.len() == 21);
        assert("cubes-reduce"@.len() == 12);
        reveal_strlit("cubes-reduce");
        assert("id-reduce-fp-safe-nan"@.len() == 21);
        assert("cubes-reduce"@.len() == 12);
        assert("id-reduce-fp-safe-nan"@ != "cubes-reduce"@);
        reveal_strlit("squares-reduce-fp-sound");
        assert("id-reduce-fp-safe-nan"@.len() == 21);
        assert("squares-reduce-fp-sound"@.len() == 23);
        reveal_strlit("squares-reduce-fp-sound");
        assert("id-reduce-fp-safe-nan"@.len() == 21);
        assert("squares-reduce-fp-sound"@.len() == 23);
        assert("id-reduce-fp-safe-nan"@ != "squares-reduce-fp-sound"@);
        reveal_strlit("squares-reduce");
        assert("id-reduce-fp-safe-nan"@.len() == 21);
        assert("squares-reduce"@.len() == 14);
        reveal_strlit("squares-reduce");
        assert("id-reduce-fp-safe-nan"@.len() == 21);
        assert("squares-reduce"@.len() == 14);
        assert("id-reduce-fp-safe-nan"@ != "squares-reduce"@);
        reveal_strlit("fractions-distribute.c");
        assert("id-reduce-fp-safe-nan"@.len() == 21);
        assert("fractions-distribute.c"@.len() == 22);
        reveal_strlit("fractions-distribute.c");
        assert("id-reduce-fp-safe-nan"@.len() == 21);
        assert("fractions-distribute.c"@.len() == 22);
        assert("id-reduce-fp-safe-nan"@ != "fractions-distribute.c"@);
        reveal_strlit("fractions-distribute");
        assert("id-reduce-fp-safe-nan"@.len() == 21);
        assert("fractions-distribute"@.len() == 20);
        reveal_strlit("fractions-distribute");
        assert("id-reduce-fp-safe-nan"@.len() == 21);
        assert("fractions-distribute"@.len() == 20);
        assert("id-reduce-fp-safe-nan"@ != "fractions-distribute"@);
        reveal_strlit("id-reduce-fp-safe");
        assert("id-reduce-fp-safe-nan"@.len() == 21);
        assert("id-reduce-fp-safe"@.len() == 17);
        reveal_strlit("id-reduce-fp-safe");
        assert("id-reduce-fp-safe-nan"@.len() == 21);
        assert("id-reduce-fp-safe"@.len() == 17);
        assert("id-reduce-fp-safe-nan"@ != "id-reduce-fp-safe"@);
        assert(group_names(group_models(groups@)) =~= seq!["erf-rules"@, "complex-number-basics"@, "branch-reduce"@, "compare-reduce"@, "bool-reduce"@, "htrig-reduce"@, "trig-reduce-fp-sound-nan"@, "trig-reduce-fp-sound"@, "trig-reduce"@, "log-distribute-fp-safe"@, "log-distribute"@, "pow-canonicalize"@, "pow-reduce-fp-safe-nan"@, "pow-reduce-fp-safe"@, "pow-reduce"@, "exp-factor"@, "exp-distribute"@, "exp-constants"@, "exp-reduce"@, "cubes-canonicalize"@, "cubes-distribute"@, "cubes-reduce"@, "squares-reduce-fp-sound"@, "squares-reduce"@, "fractions-distribute.c"@, "fractions-distribute"@, "id-reduce-fp-safe"@]);
        assert forall|j: int| 0 <= j < group_names(group_models(groups@)).len() implies
            group_names(group_models(groups@))[j] != "id-reduce-fp-safe-nan"@ by {}
        assert(!group_names(group_models(groups@)).contains("id-reduce-fp-safe-nan"@));
    }
    match push_group(groups, "id-reduce-fp-safe-nan", g) {
        Ok(()) => {},
        Err(e) => {
            proof { assert(false); }
            return Err(e);
        },
    }
    proof {
        assert(group_models(groups@) =~= seq![crate::corpus::corpus_group_0(), crate::corpus::corpus_group_1(), crate::corpus::corpus_group_2(), crate::corpus::corpus_group_3(), crate::corpus::corpus_group_4(), crate::corpus::corpus_group_5(), crate::corpus::corpus_group_6(), crate::corpus::corpus_group_7(), crate::corpus::corpus_group_8(), crate::corpus::corpus_group_9(), crate::corpus::corpus_group_10(), crate::corpus::corpus_group_11(), crate::corpus::corpus_group_12(), crate::corpus::corpus_group_13(), crate::corpus::corpus_group_14(), crate::corpus::corpus_group_15(), crate::corpus::corpus_group_16(), crate::corpus::corpus_group_17(), crate::corpus::corpus_group_18(), crate::corpus::corpus_group_19(), crate::corpus::corpus_group_20(), crate::corpus::corpus_group_21(), crate::corpus::corpus_group_22(), crate::corpus::corpus_group_23(), crate::corpus::corpus_group_24(), crate::corpus::corpus_group_25(), crate::corpus::corpus_group_26(), crate::corpus::corpus_group_27()]);
    }
    Ok(())
}

#[verifier::spinoff_prover]
#[verifier::rlimit(100)]
/// Build and append the `id-reduce` group.
fn corpus_push_28(groups: &mut Vec<RuleGroup>) -> (r: Result<(), RuleError>)
    requires
        group_models(old(groups)@) == seq![crate::corpus::corpus_group_0(), crate::corpus::corpus_group_1(), crate::corpus::corpus_group_2(), crate::corpus::corpus_group_3(), crate::corpus::corpus_group_4(), crate::corpus::corpus_group_5(), crate::corpus::corpus_group_6(), crate::corpus::corpus_group_7(), crate::corpus::corpus_group_8(), crate::corpus::corpus_group_9(), crate::corpus::corpus_group_10(), crate::corpus::corpus_group_11(), crate::corpus::corpus_group_12(), crate::corpus::corpus_group_13(), crate::corpus::corpus_group_14(), crate::corpus::corpus_group_15(), crate::corpus::corpus_group_16(), crate::corpus::corpus_group_17(), crate::corpus::corpus_group_18(), crate::corpus::corpus_group_19(), crate::corpus::corpus_group_20(), crate::corpus::corpus_group_21(), crate::corpus::corpus_group_22(), crate::corpus::corpus_group_23(), crate::corpus::corpus_group_24(), crate::corpus::corpus_group_25(), crate::corpus::corpus_group_26(), crate::corpus::corpus_group_27()],
    ensures
        r matches Ok(()) ==> group_models(final(groups)@) == seq![crate::corpus::corpus_group_0(), crate::corpus::corpus_group_1(), crate::corpus::corpus_group_2(), crate::corpus::corpus_group_3(), crate::corpus::corpus_group_4(), crate::corpus::corpus_group_5(), crate::corpus::corpus_group_6(), crate::corpus::corpus_group_7(), crate::corpus::corpus_group_8(), crate::corpus::corpus_group_9(), crate::corpus::corpus_group_10(), crate::corpus::corpus_group_11(), crate::corpus::corpus_group_12(), crate::corpus::corpus_group_13(), crate::corpus::corpus_group_14(), crate::corpus::corpus_group_15(), crate::corpus::corpus_group_16(), crate::corpus::corpus_group_17(), crate::corpus::corpus_group_18(), crate::corpus::corpus_group_19(), crate::corpus::corpus_group_20(), crate::corpus::corpus_group_21(), crate::corpus::corpus_group_22(), crate::corpus::corpus_group_23(), crate::corpus::corpus_group_24(), crate::corpus::corpus_group_25(), crate::corpus::corpus_group_26(), crate::corpus::corpus_group_27(), crate::corpus::corpus_group_28()],
        r is Err ==> !crate::corpus::corpus_rules_ok(),
{
    let mut t: Vec<(&str, &str, &str)> = Vec::new();
    t.push(("remove-double-div", "(/ 1 (/ 1 ?a))", "?a"));
    t.push(("rgt-mult-inverse", "(* ?a (/ 1 ?a))", "1"));
    t.push(("lft-mult-inverse", "(* (/ 1 ?a) ?a)", "1"));
    proof {
        assert(t@.len() == 3);
        assert forall|i: int| 0 <= i < t@.len() implies rule_ok(#[trigger] t@[i])
            == rule_ok(crate::corpus::group_tuples_28()[i]) by {
            if i == 0 {
                assert(t@[0].1@ == crate::corpus::group_tuples_28()[0].1@);
                assert(t@[0].2@ == crate::corpus::group_tuples_28()[0].2@);
            } else if i == 1 {
                assert(t@[1].1@ == crate::corpus::group_tuples_28()[1].1@);
                assert(t@[1].2@ == crate::corpus::group_tuples_28()[1].2@);
            } else if i == 2 {
                assert(t@[2].1@ == crate::corpus::group_tuples_28()[2].1@);
                assert(t@[2].2@ == crate::corpus::group_tuples_28()[2].2@);
            }
        }
    }
    let g = match mk_rules(t.as_slice()) {
        Ok(g) => g,
        Err(e) => {
            proof {
                assert(!(forall|i: int| 0 <= i < crate::corpus::group_tuples_28().len()
                    ==> rule_ok(#[trigger] crate::corpus::group_tuples_28()[i])));
                assert(!crate::corpus::corpus_rules_ok());
            }
            return Err(e);
        },
    };
    proof {
        assert(rewrite_models(g@) =~= crate::corpus::corpus_group_28().rules);
        reveal_strlit("id-reduce");
        reveal_strlit("erf-rules");
        assert("id-reduce"@[0] != "erf-rules"@[0]);
        reveal_strlit("erf-rules");
        assert("id-reduce"@.len() == 9);
        assert("erf-rules"@.len() == 9);
        reveal_strlit("erf-rules");
        assert("id-reduce"@.len() == 9);
        assert("erf-rules"@.len() == 9);
        assert("id-reduce"@ != "erf-rules"@);
        reveal_strlit("complex-number-basics");
        assert("id-reduce"@.len() == 9);
        assert("complex-number-basics"@.len() == 21);
        reveal_strlit("complex-number-basics");
        assert("id-reduce"@.len() == 9);
        assert("complex-number-basics"@.len() == 21);
        assert("id-reduce"@ != "complex-number-basics"@);
        reveal_strlit("branch-reduce");
        assert("id-reduce"@.len() == 9);
        assert("branch-reduce"@.len() == 13);
        reveal_strlit("branch-reduce");
        assert("id-reduce"@.len() == 9);
        assert("branch-reduce"@.len() == 13);
        assert("id-reduce"@ != "branch-reduce"@);
        reveal_strlit("compare-reduce");
        assert("id-reduce"@.len() == 9);
        assert("compare-reduce"@.len() == 14);
        reveal_strlit("compare-reduce");
        assert("id-reduce"@.len() == 9);
        assert("compare-reduce"@.len() == 14);
        assert("id-reduce"@ != "compare-reduce"@);
        reveal_strlit("bool-reduce");
        assert("id-reduce"@.len() == 9);
        assert("bool-reduce"@.len() == 11);
        reveal_strlit("bool-reduce");
        assert("id-reduce"@.len() == 9);
        assert("bool-reduce"@.len() == 11);
        assert("id-reduce"@ != "bool-reduce"@);
        reveal_strlit("htrig-reduce");
        assert("id-reduce"@.len() == 9);
        assert("htrig-reduce"@.len() == 12);
        reveal_strlit("htrig-reduce");
        assert("id-reduce"@.len() == 9);
        assert("htrig-reduce"@.len() == 12);
        assert("id-reduce"@ != "htrig-reduce"@);
        reveal_strlit("trig-reduce-fp-sound-nan");
        assert("id-reduce"@.len() == 9);
        assert("trig-reduce-fp-sound-nan"@.len() == 24);
        reveal_strlit("trig-reduce-fp-sound-nan");
        assert("id-reduce"@.len() == 9);
        assert("trig-reduce-fp-sound-nan"@.len() == 24);
        assert("id-reduce"@ != "trig-reduce-fp-sound-nan"@);
        reveal_strlit("trig-reduce-fp-sound");
        assert("id-reduce"@.len() == 9);
        assert("trig-reduce-fp-sound"@.len() == 20);
        reveal_strlit("trig-reduce-fp-sound");
        assert("id-reduce"@.len() == 9);
        assert("trig-reduce-fp-sound"@.len() == 20);
        assert("id-reduce"@ != "trig-reduce-fp-sound"@);
        reveal_strlit("trig-reduce");
        assert("id-reduce"@.len() == 9);
        assert("trig-reduce"@.len() == 11);
        reveal_strlit("trig-reduce");
        assert("id-reduce"@.len() == 9);
        assert("trig-reduce"@.len() == 11);
        assert("id-reduce"@ != "trig-reduce"@);
        reveal_strlit("log-distribute-fp-safe");
        assert("id-reduce"@.len() == 9);
        assert("log-distribute-fp-safe"@.len() == 22);
        reveal_strlit("log-distribute-fp-safe");
        assert("id-reduce"@.len() == 9);
        assert("log-distribute-fp-safe"@.len() == 22);
        assert("id-reduce"@ != "log-distribute-fp-safe"@);
        reveal_strlit("log-distribute");
        assert("id-reduce"@.len() == 9);
        assert("log-distribute"@.len() == 14);
        reveal_strlit("log-distribute");
        assert("id-reduce"@.len() == 9);
        assert("log-distribute"@.len() == 14);
        assert("id-reduce"@ != "log-distribute"@);
        reveal_strlit("pow-canonicalize");
        assert("id-reduce"@.len() == 9);
        assert("pow-canonicalize"@.len() == 16);
        reveal_strlit("pow-canonicalize");
        assert("id-reduce"@.len() == 9);
        assert("pow-canonicalize"@.len() == 16);
        assert("id-reduce"@ != "pow-canonicalize"@);
        reveal_strlit("pow-reduce-fp-safe-nan");
        assert("id-reduce"@.len() == 9);
        assert("pow-reduce-fp-safe-nan"@.len() == 22);
        reveal_strlit("pow-reduce-fp-safe-nan");
        assert("id-reduce"@.len() == 9);
        assert("pow-reduce-fp-safe-nan"@.len() == 22);
        assert("id-reduce"@ != "pow-reduce-fp-safe-nan"@);
        reveal_strlit("pow-reduce-fp-safe");
        assert("id-reduce"@.len() == 9);
        assert("pow-reduce-fp-safe"@.len() == 18);
        reveal_strlit("pow-reduce-fp-safe");
        assert("id-reduce"@.len() == 9);
        assert("pow-reduce-fp-safe"@.len() == 18);
        assert("id-reduce"@ != "pow-reduce-fp-safe"@);
        reveal_strlit("pow-reduce");
        assert("id-reduce"@.len() == 9);
        assert("pow-reduce"@.len() == 10);
        reveal_strlit("pow-reduce");
        assert("id-reduce"@.len() == 9);
        assert("pow-reduce"@.len() == 10);
        assert("id-reduce"@ != "pow-reduce"@);
        reveal_strlit("exp-factor");
        assert("id-reduce"@.len() == 9);
        assert("exp-factor"@.len() == 10);
        reveal_strlit("exp-factor");
        assert("id-reduce"@.len() == 9);
        assert("exp-factor"@.len() == 10);
        assert("id-reduce"@ != "exp-factor"@);
        reveal_strlit("exp-distribute");
        assert("id-reduce"@.len() == 9);
        assert("exp-distribute"@.len() == 14);
        reveal_strlit("exp-distribute");
        assert("id-reduce"@.len() == 9);
        assert("exp-distribute"@.len() == 14);
        assert("id-reduce"@ != "exp-distribute"@);
        reveal_strlit("exp-constants");
        assert("id-reduce"@.len() == 9);
        assert("exp-constants"@.len() == 13);
        reveal_strlit("exp-constants");
        assert("id-reduce"@.len() == 9);
        assert("exp-constants"@.len() == 13);
        assert("id-reduce"@ != "exp-constants"@);
        reveal_strlit("exp-reduce");
        assert("id-reduce"@.len() == 9);
        assert("exp-reduce"@.len() == 10);
        reveal_strlit("exp-reduce");
        assert("id-reduce"@.len() == 9);
        assert("exp-reduce"@.len() == 10);
        assert("id-reduce"@ != "exp-reduce"@);
        reveal_strlit("cubes-canonicalize");
        assert("id-reduce"@.len() == 9);
        assert("cubes-canonicalize"@.len() == 18);
        reveal_strlit("cubes-canonicalize");
        assert("id-reduce"@.len() == 9);
        assert("cubes-canonicalize"@.len() == 18);
        assert("id-reduce"@ != "cubes-canonicalize"@);
        reveal_strlit("cubes-distribute");
        assert("id-reduce"@.len() == 9);
        assert("cubes-distribute"@.len() == 16);
        reveal_strlit("cubes-distribute");
        assert("id-reduce"@.len() == 9);
        assert("cubes-distribute"@.len() == 16);
        assert("id-reduce"@ != "cubes-distribute"@);
        reveal_strlit("cubes-reduce");
        assert("id-reduce"@.len() == 9);
        assert("cubes-reduce"@.len() == 12);
        reveal_strlit("cubes-reduce");
        assert("id-reduce"@.len() == 9);
        assert("cubes-reduce"@.len() == 12);
        assert("id-reduce"@ != "cubes-reduce"@);
        reveal_strlit("squares-reduce-fp-sound");
        assert("id-reduce"@.len() == 9);
        assert("squares-reduce-fp-sound"@.len() == 23);
        reveal_strlit("squares-reduce-fp-sound");
        assert("id-reduce"@.len() == 9);
        assert("squares-reduce-fp-sound"@.len() == 23);
        assert("id-reduce"@ != "squares-reduce-fp-sound"@);
        reveal_strlit("squares-reduce");
        assert("id-reduce"@.len() == 9);
        assert("squares-reduce"@.len() == 14);
        reveal_strlit("squares-reduce");
        assert("id-reduce"@.len() == 9);
        assert("squares-reduce"@.len() == 14);
        assert("id-reduce"@ != "squares-reduce"@);
        reveal_strlit("fractions-distribute.c");
        assert("id-reduce"@.len() == 9);
        assert("fractions-distribute.c"@.len() == 22);
        reveal_strlit("fractions-distribute.c");
        assert("id-reduce"@.len() == 9);
        assert("fractions-distribute.c"@.len() == 22);
        assert("id-reduce"@ != "fractions-distribute.c"@);
        reveal_strlit("fractions-distribute");
        assert("id-reduce"@.len() == 9);
        assert("fractions-distribute"@.len() == 20);
        reveal_strlit("fractions-distribute");
        assert("id-reduce"@.len() == 9);
        assert("fractions-distribute"@.len() == 20);
        assert("id-reduce"@ != "fractions-distribute"@);
        reveal_strlit("id-reduce-fp-safe");
        assert("id-reduce"@.len() == 9);
        assert("id-reduce-fp-safe"@.len() == 17);
        reveal_strlit("id-reduce-fp-safe");
        assert("id-reduce"@.len() == 9);
        assert("id-reduce-fp-safe"@.len() == 17);
        assert("id-reduce"@ != "id-reduce-fp-safe"@);
        reveal_strlit("id-reduce-fp-safe-nan");
        assert("id-reduce"@.len() == 9);
        assert("id-reduce-fp-safe-nan"@.len() == 21);
        reveal_strlit("id-reduce-fp-safe-nan");
        assert("id-reduce"@.len() == 9);
        assert("id-reduce-fp-safe-nan"@.len() == 21);
        assert("id-reduce"@ != "id-reduce-fp-safe-nan"@);
        assert(group_names(group_models(groups@)) =~= seq!["erf-rules"@, "complex-number-basics"@, "branch-reduce"@, "compare-reduce"@, "bool-reduce"@, "htrig-reduce"@, "trig-reduce-fp-sound-nan"@, "trig-reduce-fp-sound"@, "trig-reduce"@, "log-distribute-fp-safe"@, "log-distribute"@, "pow-canonicalize"@, "pow-reduce-fp-safe-nan"@, "pow-reduce-fp-safe"@, "pow-reduce"@, "exp-factor"@, "exp-distribute"@, "exp-constants"@, "exp-reduce"@, "cubes-canonicalize"@, "cubes-distribute"@, "cubes-reduce"@, "squares-reduce-fp-sound"@, "squares-reduce"@, "fractions-distribute.c"@, "fractions-distribute"@, "id-reduce-fp-safe"@, "id-reduce-fp-safe-nan"@]);
        assert forall|j: int| 0 <= j < group_names(group_models(groups@)).len() implies
            group_names(group_models(groups@))[j] != "id-reduce"@ by {}
        assert(!group_names(group_models(groups@)).contains("id-reduce"@));
    }
    match push_group(groups, "id-reduce", g) {
        Ok(()) => {},
        Err(e) => {
            proof { assert(false); }
            return Err(e);
        },
    }
    proof {
        assert(group_models(groups@) =~= seq![crate::corpus::corpus_group_0(), crate::corpus::corpus_group_1(), crate::corpus::corpus_group_2(), crate::corpus::corpus_group_3(), crate::corpus::corpus_group_4(), crate::corpus::corpus_group_5(), crate::corpus::corpus_group_6(), crate::corpus::corpus_group_7(), crate::corpus::corpus_group_8(), crate::corpus::corpus_group_9(), crate::corpus::corpus_group_10(), crate::corpus::corpus_group_11(), crate::corpus::corpus_group_12(), crate::corpus::corpus_group_13(), crate::corpus::corpus_group_14(), crate::corpus::corpus_group_15(), crate::corpus::corpus_group_16(), crate::corpus::corpus_group_17(), crate::corpus::corpus_group_18(), crate::corpus::corpus_group_19(), crate::corpus::corpus_group_20(), crate::corpus::corpus_group_21(), crate::corpus::corpus_group_22(), crate::corpus::corpus_group_23(), crate::corpus::corpus_group_24(), crate::corpus::corpus_group_25(), crate::corpus::corpus_group_26(), crate::corpus::corpus_group_27(), crate::corpus::corpus_group_28()]);
    }
    Ok(())
}

#[verifier::spinoff_prover]
#[verifier::rlimit(100)]
/// Build and append the `difference-of-squares-canonicalize` group.
fn corpus_push_29(groups: &mut Vec<RuleGroup>) -> (r: Result<(), RuleError>)
    requires
        group_models(old(groups)@) == seq![crate::corpus::corpus_group_0(), crate::corpus::corpus_group_1(), crate::corpus::corpus_group_2(), crate::corpus::corpus_group_3(), crate::corpus::corpus_group_4(), crate::corpus::corpus_group_5(), crate::corpus::corpus_group_6(), crate::corpus::corpus_group_7(), crate::corpus::corpus_group_8(), crate::corpus::corpus_group_9(), crate::corpus::corpus_group_10(), crate::corpus::corpus_group_11(), crate::corpus::corpus_group_12(), crate::corpus::corpus_group_13(), crate::corpus::corpus_group_14(), crate::corpus::corpus_group_15(), crate::corpus::corpus_group_16(), crate::corpus::corpus_group_17(), crate::corpus::corpus_group_18(), crate::corpus::corpus_group_19(), crate::corpus::corpus_group_20(), crate::corpus::corpus_group_21(), crate::corpus::corpus_group_22(), crate::corpus::corpus_group_23(), crate::corpus::corpus_group_24(), crate::corpus::corpus_group_25(), crate::corpus::corpus_group_26(), crate::corpus::corpus_group_27(), crate::corpus::corpus_group_28()],
    ensures
        r matches Ok(()) ==> group_models(final(groups)@) == seq![crate::corpus::corpus_group_0(), crate::corpus::corpus_group_1(), crate::corpus::corpus_group_2(), crate::corpus::corpus_group_3(), crate::corpus::corpus_group_4(), crate::corpus::corpus_group_5(), crate::corpus::corpus_group_6(), crate::corpus::corpus_group_7(), crate::corpus::corpus_group_8(), crate::corpus::corpus_group_9(), crate::corpus::corpus_group_10(), crate::corpus::corpus_group_11(), crate::corpus::corpus_group_12(), crate::corpus::corpus_group_13(), crate::corpus::corpus_group_14(), crate::corpus::corpus_group_15(), crate::corpus::corpus_group_16(), crate::corpus::corpus_group_17(), crate::corpus::corpus_group_18(), crate::corpus::corpus_group_19(), crate::corpus::corpus_group_20(), crate::corpus::corpus_group_21(), crate::corpus::corpus_group_22(), crate::corpus::corpus_group_23(), crate::corpus::corpus_group_24(), crate::corpus::corpus_group_25(), crate::corpus::corpus_group_26(), crate::corpus::corpus_group_27(), crate::corpus::corpus_group_28(), crate::corpus::corpus_group_29()],
        r is Err ==> !crate::corpus::corpus_rules_ok(),
{
    let mut t: Vec<(&str, &str, &str)> = Vec::new();
    t.push(("swap-sqr", "(* (* ?a ?b) (* ?a ?b))", "(* (* ?a ?a) (* ?b ?b))"));
    t.push(("unswap-sqr", "(* (* ?a ?a) (* ?b ?b))", "(* (* ?a ?b) (* ?a ?b))"));
    t.push(("difference-of-squares", "(- (* ?a ?a) (* ?b ?b))", "(* (+ ?a ?b) (- ?a ?b))"));
    t.push(("difference-of-sqr-1", "(- (* ?a ?a) 1)", "(* (+ ?a 1) (- ?a 1))"));
    t.push(("difference-of-sqr--1", "(+ (* ?a ?a) -1)", "(* (+ ?a 1) (- ?a 1))"));
    t.push(("sqr-pow", "(pow ?a ?b)", "(* (pow ?a (/ ?b 2)) (pow ?a (/ ?b 2)))"));
    t.push(("pow-sqr", "(* (pow ?a ?b) (pow ?a ?b))", "(pow ?a (* 2 ?b))"));
    proof {
        assert(t@.len() == 7);
        assert forall|i: int| 0 <= i < t@.len() implies rule_ok(#[trigger] t@[i])
            == rule_ok(crate::corpus::group_tuples_29()[i]) by {
            if i == 0 {
                assert(t@[0].1@ == crate::corpus::group_tuples_29()[0].1@);
                assert(t@[0].2@ == crate::corpus::group_tuples_29()[0].2@);
            } else if i == 1 {
                assert(t@[1].1@ == crate::corpus::group_tuples_29()[1].1@);
                assert(t@[1].2@ == crate::corpus::group_tuples_29()[1].2@);
            } else if i == 2 {
                assert(t@[2].1@ == crate::corpus::group_tuples_29()[2].1@);
                assert(t@[2].2@ == crate::corpus::group_tuples_29()[2].2@);
            } else if i == 3 {
                assert(t@[3].1@ == crate::corpus::group_tuples_29()[3].1@);
                assert(t@[3].2@ == crate::corpus::group_tuples_29()[3].2@);
            } else if i == 4 {
                assert(t@[4].1@ == crate::corpus::group_tuples_29()[4].1@);
                assert(t@[4].2@ == crate::corpus::group_tuples_29()[4].2@);
            } else if i == 5 {
                assert(t@[5].1@ == crate::corpus::group_tuples_29()[5].1@);
                assert(t@[5].2@ == crate::corpus::group_tuples_29()[5].2@);
            } else if i == 6 {
                assert(t@[6].1@ == crate::corpus::group_tuples_29()[6].1@);
                assert(t@[6].2@ == crate::corpus::group_tuples_29()[6].2@);
            }
        }
    }
    let g = match mk_rules(t.as_slice()) {
        Ok(g) => g,
        Err(e) => {
            proof {
                assert(!(forall|i: int| 0 <= i < crate::corpus::group_tuples_29().len()
                    ==> rule_ok(#[trigger] crate::corpus::group_tuples_29()[i])));
                assert(!crate::corpus::corpus_rules_ok());
            }
            return Err(e);
        },
    };
    proof {
        assert(rewrite_models(g@) =~= crate::corpus::corpus_group_29().rules);
        reveal_strlit("difference-of-squares-canonicalize");
        reveal_strlit("erf-rules");
        assert("difference-of-squares-canonicalize"@.len() == 34);
        assert("erf-rules"@.len() == 9);
        reveal_strlit("erf-rules");
        assert("difference-of-squares-canonicalize"@.len() == 34);
        assert("erf-rules"@.len() == 9);
        assert("difference-of-squares-canonicalize"@ != "erf-rules"@);
        reveal_strlit("complex-number-basics");
        assert("difference-of-squares-canonicalize"@.len() == 34);
        assert("complex-number-basics"@.len() == 21);
        reveal_strlit("complex-number-basics");
        assert("difference-of-squares-canonicalize"@.len() == 34);
        assert("complex-number-basics"@.len() == 21);
        assert("difference-of-squares-canonicalize"@ != "complex-number-basics"@);
        reveal_strlit("branch-reduce");
        assert("difference-of-squares-canonicalize"@.len() == 34);
        assert("branch-reduce"@.len() == 13);
        reveal_strlit("branch-reduce");
        assert("difference-of-squares-canonicalize"@.len() == 34);
        assert("branch-reduce"@.len() == 13);
        assert("difference-of-squares-canonicalize"@ != "branch-reduce"@);
        reveal_strlit("compare-reduce");
        assert("difference-of-squares-canonicalize"@.len() == 34);
        assert("compare-reduce"@.len() == 14);
        reveal_strlit("compare-reduce");
        assert("difference-of-squares-canonicalize"@.len() == 34);
        assert("compare-reduce"@.len() == 14);
        assert("difference-of-squares-canonicalize"@ != "compare-reduce"@);
        reveal_strlit("bool-reduce");
        assert("difference-of-squares-canonicalize"@.len() == 34);
        assert("bool-reduce"@.len() == 11);
        reveal_strlit("bool-reduce");
        assert("difference-of-squares-canonicalize"@.len() == 34);
        assert("bool-reduce"@.len() == 11);
        assert("difference-of-squares-canonicalize"@ != "bool-reduce"@);
        reveal_strlit("htrig-reduce");
        assert("difference-of-squares-canonicalize"@.len() == 34);
        assert("htrig-reduce"@.len() == 12);
        reveal_strlit("htrig-reduce");
        assert("difference-of-squares-canonicalize"@.len() == 34);
        assert("htrig-reduce"@.len() == 12);
        assert("difference-of-squares-canonicalize"@ != "htrig-reduce"@);
        reveal_strlit("trig-reduce-fp-sound-nan");
        assert("difference-of-squares-canonicalize"@.len() == 34);
        assert("trig-reduce-fp-sound-nan"@.len() == 24);
        reveal_strlit("trig-reduce-fp-sound-nan");
        assert("difference-of-squares-canonicalize"@.len() == 34);
        assert("trig-reduce-fp-sound-nan"@.len() == 24);
        assert("difference-of-squares-canonicalize"@ != "trig-reduce-fp-sound-nan"@);
        reveal_strlit("trig-reduce-fp-sound");
        assert("difference-of-squares-canonicalize"@.len() == 34);
        assert("trig-reduce-fp-sound"@.len() == 20);
        reveal_strlit("trig-reduce-fp-sound");
        assert("difference-of-squares-canonicalize"@.len() == 34);
        assert("trig-reduce-fp-sound"@.len() == 20);
        assert("difference-of-squares-canonicalize"@ != "trig-reduce-fp-sound"@);
        reveal_strlit("trig-reduce");
        assert("difference-of-squares-canonicalize"@.len() == 34);
        assert("trig-reduce"@.len() == 11);
        reveal_strlit("trig-reduce");
        assert("difference-of-squares-canonicalize"@.len() == 34);
        assert("trig-reduce"@.len() == 11);
        assert("difference-of-squares-canonicalize"@ != "trig-reduce"@);
        reveal_strlit("log-distribute-fp-safe");
        assert("difference-of-squares-canonicalize"@.len() == 34);
        assert("log-distribute-fp-safe"@.len() == 22);
        reveal_strlit("log-distribute-fp-safe");
        assert("difference-of-squares-canonicalize"@.len() == 34);
        assert("log-distribute-fp-safe"@.len() == 22);
        assert("difference-of-squares-canonicalize"@ != "log-distribute-fp-safe"@);
        reveal_strlit("log-distribute");
        assert("difference-of-squares-canonicalize"@.len() == 34);
        assert("log-distribute"@.len() == 14);
        reveal_strlit("log-distribute");
        assert("difference-of-squares-canonicalize"@.len() == 34);
        assert("log-distribute"@.len() == 14);
        assert("difference-of-squares-canonicalize"@ != "log-distribute"@);
        reveal_strlit("pow-canonicalize");
        assert("difference-of-squares-canonicalize"@.len() == 34);
        assert("pow-canonicalize"@.len() == 16);
        reveal_strlit("pow-canonicalize");
        assert("difference-of-squares-canonicalize"@.len() == 34);
        assert("pow-canonicalize"@.len() == 16);
        assert("difference-of-squares-canonicalize"@ != "pow-canonicalize"@);
        reveal_strlit("pow-reduce-fp-safe-nan");
        assert("difference-of-squares-canonicalize"@.len() == 34);
        assert("pow-reduce-fp-safe-nan"@.len() == 22);
        reveal_strlit("pow-reduce-fp-safe-nan");
        assert("difference-of-squares-canonicalize"@.len() == 34);
        assert("pow-reduce-fp-safe-nan"@.len() == 22);
        assert("difference-of-squares-canonicalize"@ != "pow-reduce-fp-safe-nan"@);
        reveal_strlit("pow-reduce-fp-safe");
        assert("difference-of-squares-canonicalize"@.len() == 34);
        assert("pow-reduce-fp-safe"@.len() == 18);
        reveal_strlit("pow-reduce-fp-safe");
        assert("difference-of-squares-canonicalize"@.len() == 34);
        assert("pow-reduce-fp-safe"@.len() == 18);
        assert("difference-of-squares-canonicalize"@ != "pow-reduce-fp-safe"@);
        reveal_strlit("pow-reduce");
        assert("difference-of-squares-canonicalize"@.len() == 34);
        assert("pow-reduce"@.len() == 10);
        reveal_strlit("pow-reduce");
        assert("difference-of-squares-canonicalize"@.len() == 34);
        assert("pow-reduce"@.len() == 10);
        assert("difference-of-squares-canonicalize"@ != "pow-reduce"@);
        reveal_strlit("exp-factor");
        assert("difference-of-squares-canonicalize"@.len() == 34);
        assert("exp-factor"@.len() == 10);
        reveal_strlit("exp-factor");
        assert("difference-of-squares-canonicalize"@.len() == 34);
        assert("exp-factor"@.len() == 10);
        assert("difference-of-squares-canonicalize"@ != "exp-factor"@);
        reveal_strlit("exp-distribute");
        assert("difference-of-squares-canonicalize"@.len() == 34);
        assert("exp-distribute"@.len() == 14);
        reveal_strlit("exp-distribute");
        assert("difference-of-squares-canonicalize"@.len() == 34);
        assert("exp-distribute"@.len() == 14);
        assert("difference-of-squares-canonicalize"@ != "exp-distribute"@);
        reveal_strlit("exp-constants");
        assert("difference-of-squares-canonicalize"@.len() == 34);
        assert("exp-constants"@.len() == 13);
        reveal_strlit("exp-constants");
        assert("difference-of-squares-canonicalize"@.len() == 34);
        assert("exp-constants"@.len() == 13);
        assert("difference-of-squares-canonicalize"@ != "exp-constants"@);
        reveal_strlit("exp-reduce");
        assert("difference-of-squares-canonicalize"@.len() == 34);
        assert("exp-reduce"@.len() == 10);
        reveal_strlit("exp-reduce");
        assert("difference-of-squares-canonicalize"@.len() == 34);
        assert("exp-reduce"@.len() == 10);
        assert("difference-of-squares-canonicalize"@ != "exp-reduce"@);
        reveal_strlit("cubes-canonicalize");
        assert("difference-of-squares-canonicalize"@.len() == 34);
        assert("cubes-canonicalize"@.len() == 18);
        reveal_strlit("cubes-canonicalize");
        assert("difference-of-squares-canonicalize"@.len() == 34);
        assert("cubes-canonicalize"@.len() == 18);
        assert("difference-of-squares-canonicalize"@ != "cubes-canonicalize"@);
        reveal_strlit("cubes-distribute");
        assert("difference-of-squares-canonicalize"@.len() == 34);
        assert("cubes-distribute"@.len() == 16);
        reveal_strlit("cubes-distribute");
        assert("difference-of-squares-canonicalize"@.len() == 34);
        assert("cubes-distribute"@.len() == 16);
        assert("difference-of-squares-canonicalize"@ != "cubes-distribute"@);
        reveal_strlit("cubes-reduce");
        assert("difference-of-squares-canonicalize"@.len() == 34);
        assert("cubes-reduce"@.len() == 12);
        reveal_strlit("cubes-reduce");
        assert("difference-of-squares-canonicalize"@.len() == 34);
        assert("cubes-reduce"@.len() == 12);
        assert("difference-of-squares-canonicalize"@ != "cubes-reduce"@);
        reveal_strlit("squares-reduce-fp-sound");
        assert("difference-of-squares-canonicalize"@.len() == 34);
        assert("squares-reduce-fp-sound"@.len() == 23);
        reveal_strlit("squares-reduce-fp-sound");
        assert("difference-of-squares-canonicalize"@.len() == 34);
        assert("squares-reduce-fp-sound"@.len() == 23);
        assert("difference-of-squares-canonicalize"@ != "squares-reduce-fp-sound"@);
        reveal_strlit("squares-reduce");
        assert("difference-of-squares-canonicalize"@.len() == 34);
        assert("squares-reduce"@.len() == 14);
        reveal_strlit("squares-reduce");
        assert("difference-of-squares-canonicalize"@.len() == 34);
        assert("squares-reduce"@.len() == 14);
        assert("difference-of-squares-canonicalize"@ != "squares-reduce"@);
        reveal_strlit("fractions-distribute.c");
        assert("difference-of-squares-canonicalize"@.len() == 34);
        assert("fractions-distribute.c"@.len() == 22);
        reveal_strlit("fractions-distribute.c");
        assert("difference-of-squares-canonicalize"@.len() == 34);
        assert("fractions-distribute.c"@.len() == 22);
        assert("difference-of-squares-canonicalize"@ != "fractions-distribute.c"@);
        reveal_strlit("fractions-distribute");
        assert("difference-of-squares-canonicalize"@.len() == 34);
        assert("fractions-distribute"@.len() == 20);
        reveal_strlit("fractions-distribute");
        assert("difference-of-squares-canonicalize"@.len() == 34);
        assert("fractions-distribute"@.len() == 20);
        assert("difference-of-squares-canonicalize"@ != "fractions-distribute"@);
        reveal_strlit("id-reduce-fp-safe");
        assert("difference-of-squares-canonicalize"@.len() == 34);
        assert("id-reduce-fp-safe"@.len() == 17);
        reveal_strlit("id-reduce-fp-safe");
        assert("difference-of-squares-canonicalize"@.len() == 34);
        assert("id-reduce-fp-safe"@.len() == 17);
        assert("difference-of-squares-canonicalize"@ != "id-reduce-fp-safe"@);
        reveal_strlit("id-reduce-fp-safe-nan");
        assert("difference-of-squares-canonicalize"@.len() == 34);
        assert("id-reduce-fp-safe-nan"@.len() == 21);
        reveal_strlit("id-reduce-fp-safe-nan");
        assert("difference-of-squares-canonicalize"@.len() == 34);
        assert("id-reduce-fp-safe-nan"@.len() == 21);
        assert("difference-of-squares-canonicalize"@ != "id-reduce-fp-safe-nan"@);
        reveal_strlit("id-reduce");
        assert("difference-of-squares-canonicalize"@.len() == 34);
        assert("id-reduce"@.len() == 9);
        reveal_strlit("id-reduce");
        assert("difference-of-squares-canonicalize"@.len() == 34);
        assert("id-reduce"@.len() == 9);
        assert("difference-of-squares-canonicalize"@ != "id-reduce"@);
        assert(group_names(group_models(groups@)) =~= seq!["erf-rules"@, "complex-number-basics"@, "branch-reduce"@, "compare-reduce"@, "bool-reduce"@, "htrig-reduce"@, "trig-reduce-fp-sound-nan"@, "trig-reduce-fp-sound"@, "trig-reduce"@, "log-distribute-fp-safe"@, "log-distribute"@, "pow-canonicalize"@, "pow-reduce-fp-safe-nan"@, "pow-reduce-fp-safe"@, "pow-reduce"@, "exp-factor"@, "exp-distribute"@, "exp-constants"@, "exp-reduce"@, "cubes-canonicalize"@, "cubes-distribute"@, "cubes-reduce"@, "squares-reduce-fp-sound"@, "squares-reduce"@, "fractions-distribute.c"@, "fractions-distribute"@, "id-reduce-fp-safe"@, "id-reduce-fp-safe-nan"@, "id-reduce"@]);
        assert forall|j: int| 0 <= j < group_names(group_models(groups@)).len() implies
            group_names(group_models(groups@))[j] != "difference-of-squares-canonicalize"@ by {}
        assert(!group_names(group_models(groups@)).contains("difference-of-squares-canonicalize"@));
    }
    match push_group(groups, "difference-of-squares-canonicalize", g) {
        Ok(()) => {},
        Err(e) => {
            proof { assert(false); }
            return Err(e);
        },
    }
    proof {
        assert(group_models(groups@) =~= seq![crate::corpus::corpus_group_0(), crate::corpus::corpus_group_1(), crate::corpus::corpus_group_2(), crate::corpus::corpus_group_3(), crate::corpus::corpus_group_4(), crate::corpus::corpus_group_5(), crate::corpus::corpus_group_6(), crate::corpus::corpus_group_7(), crate::corpus::corpus_group_8(), crate::corpus::corpus_group_9(), crate::corpus::corpus_group_10(), crate::corpus::corpus_group_11(), crate::corpus::corpus_group_12(), crate::corpus::corpus_group_13(), crate::corpus::corpus_group_14(), crate::corpus::corpus_group_15(), crate::corpus::corpus_group_16(), crate::corpus::corpus_group_17(), crate::corpus::corpus_group_18(), crate::corpus::corpus_group_19(), crate::corpus::corpus_group_20(), crate::corpus::corpus_group_21(), crate::corpus::corpus_group_22(), crate::corpus::corpus_group_23(), crate::corpus::corpus_group_24(), crate::corpus::corpus_group_25(), crate::corpus::corpus_group_26(), crate::corpus::corpus_group_27(), crate::corpus::corpus_group_28(), crate::corpus::corpus_group_29()]);
    }
    Ok(())
}

#[verifier::spinoff_prover]
#[verifier::rlimit(100)]
/// Build and append the `distributivity-fp-safe` group.
fn corpus_push_30(groups: &mut Vec<RuleGroup>) -> (r: Result<(), RuleError>)
    requires
        group_models(old(groups)@) == seq![crate::corpus::corpus_group_0(), crate::corpus::corpus_group_1(), crate::corpus::corpus_group_2(), crate::corpus::corpus_group_3(), crate::corpus::corpus_group_4(), crate::corpus::corpus_group_5(), crate::corpus::corpus_group_6(), crate::corpus::corpus_group_7(), crate::corpus::corpus_group_8(), crate::corpus::corpus_group_9(), crate::corpus::corpus_group_10(), crate::corpus::corpus_group_11(), crate::corpus::corpus_group_12(), crate::corpus::corpus_group_13(), crate::corpus::corpus_group_14(), crate::corpus::corpus_group_15(), crate::corpus::corpus_group_16(), crate::corpus::corpus_group_17(), crate::corpus::corpus_group_18(), crate::corpus::corpus_group_19(), crate::corpus::corpus_group_20(), crate::corpus::corpus_group_21(), crate::corpus::corpus_group_22(), crate::corpus::corpus_group_23(), crate::corpus::corpus_group_24(), crate::corpus::corpus_group_25(), crate::corpus::corpus_group_26(), crate::corpus::corpus_group_27(), crate::corpus::corpus_group_28(), crate::corpus::corpus_group_29()],
    ensures
        r matches Ok(()) ==> group_models(final(groups)@) == seq![crate::corpus::corpus_group_0(), crate::corpus::corpus_group_1(), crate::corpus::corpus_group_2(), crate::corpus::corpus_group_3(), crate::corpus::corpus_group_4(), crate::corpus::corpus_group_5(), crate::corpus::corpus_group_6(), crate::corpus::corpus_group_7(), crate::corpus::corpus_group_8(), crate::corpus::corpus_group_9(), crate::corpus::corpus_group_10(), crate::corpus::corpus_group_11(), crate::corpus::corpus_group_12(), crate::corpus::corpus_group_13(), crate::corpus::corpus_group_14(), crate::corpus::corpus_group_15(), crate::corpus::corpus_group_16(), crate::corpus::corpus_group_17(), crate::corpus::corpus_group_18(), crate::corpus::corpus_group_19(), crate::corpus::corpus_group_20(), crate::corpus::corpus_group_21(), crate::corpus::corpus_group_22(), crate::corpus::corpus_group_23(), crate::corpus::corpus_group_24(), crate::corpus::corpus_group_25(), crate::corpus::corpus_group_26(), crate::corpus::corpus_group_27(), crate::corpus::corpus_group_28(), crate::corpus::corpus_group_29(), crate::corpus::corpus_group_30()],
        r is Err ==> !crate::corpus::corpus_rules_ok(),
{
    let mut t: Vec<(&str, &str, &str)> = Vec::new();
    t.push(("distribute-lft-neg-in", "(neg (* ?a ?b))", "(* (neg ?a) ?b)"));
    t.push(("distribute-rgt-neg-in", "(neg (* ?a ?b))", "(* ?a (neg ?b))"));
    t.push(("distribute-lft-neg-out", "(* (neg ?a) ?b)", "(neg (* ?a ?b))"));
    t.push(("distribute-rgt-neg-out", "(* ?a (neg ?b))", "(neg (* ?a ?b))"));
    t.push(("distribute-neg-in", "(neg (+ ?a ?b))", "(+ (neg ?a) (neg ?b))"));
    t.push(("distribute-neg-out", "(+ (neg ?a) (neg ?b))", "(neg (+ ?a ?b))"));
    t.push(("distribute-frac-neg", "(/ (neg ?a) ?b)", "(neg (/ ?a ?b))"));
    t.push(("distribute-neg-frac", "(neg (/ ?a ?b))", "(/ (neg ?a) ?b)"));
    proof {
        assert(t@.len() == 8);
        assert forall|i: int| 0 <= i < t@.len() implies rule_ok(#[trigger] t@[i])
            == rule_ok(crate::corpus::group_tuples_30()[i]) by {
            if i == 0 {
                assert(t@[0].1@ == crate::corpus::group_tuples_30()[0].1@);
                assert(t@[0].2@ == crate::corpus::group_tuples_30()[0].2@);
            } else if i == 1 {
                assert(t@[1].1@ == crate::corpus::group_tuples_30()[1].1@);
                assert(t@[1].2@ == crate::corpus::group_tuples_30()[1].2@);
            } else if i == 2 {
                assert(t@[2].1@ == crate::corpus::group_tuples_30()[2].1@);
                assert(t@[2].2@ == crate::corpus::group_tuples_30()[2].2@);
            } else if i == 3 {
                assert(t@[3].1@ == crate::corpus::group_tuples_30()[3].1@);
                assert(t@[3].2@ == crate::corpus::group_tuples_30()[3].2@);
            } else if i == 4 {
                assert(t@[4].1@ == crate::corpus::group_tuples_30()[4].1@);
                assert(t@[4].2@ == crate::corpus::group_tuples_30()[4].2@);
            } else if i == 5 {
                assert(t@[5].1@ == crate::corpus::group_tuples_30()[5].1@);
                assert(t@[5].2@ == crate::corpus::group_tuples_30()[5].2@);
            } else if i == 6 {
                assert(t@[6].1@ == crate::corpus::group_tuples_30()[6].1@);
                assert(t@[6].2@ == crate::corpus::group_tuples_30()[6].2@);
            } else if i == 7 {
                assert(t@[7].1@ == crate::corpus::group_tuples_30()[7].1@);
                assert(t@[7].2@ == crate::corpus::group_tuples_30()[7].2@);
            }
        }
    }
    let g = match mk_rules(t.as_slice()) {
        Ok(g) => g,
        Err(e) => {
            proof {
                assert(!(forall|i: int| 0 <= i < crate::corpus::group_tuples_30().len()
                    ==> rule_ok(#[trigger] crate::corpus::group_tuples_30()[i])));
                assert(!crate::corpus::corpus_rules_ok());
            }
            return Err(e);
        },
    };
    proof {
        assert(rewrite_models(g@) =~= crate::corpus::corpus_group_30().rules);
        reveal_strlit("distributivity-fp-safe");
        reveal_strlit("erf-rules");
        assert("distributivity-fp-safe"@.len() == 22);
        assert("erf-rules"@.len() == 9);
        reveal_strlit("erf-rules");
        assert("distributivity-fp-safe"@.len() == 22);
        assert("erf-rules"@.len() == 9);
        assert("distributivity-fp-safe"@ != "erf-rules"@);
        reveal_strlit("complex-number-basics");
        assert("distributivity-fp-safe"@.len() == 22);
        assert("complex-number-basics"@.len() == 21);
        reveal_strlit("complex-number-basics");
        assert("distributivity-fp-safe"@.len() == 22);
        assert("complex-number-basics"@.len() == 21);
        assert("distributivity-fp-safe"@ != "complex-number-basics"@);
        reveal_strlit("branch-reduce");
        assert("distributivity-fp-safe"@.len() == 22);
        assert("branch-reduce"@.len() == 13);
        reveal_strlit("branch-reduce");
        assert("distributivity-fp-safe"@.len() == 22);
        assert("branch-reduce"@.len() == 13);
        assert("distributivity-fp-safe"@ != "branch-reduce"@);
        reveal_strlit("compare-reduce");
        assert("distributivity-fp-safe"@.len() == 22);
        assert("compare-reduce"@.len() == 14);
        reveal_strlit("compare-reduce");
        assert("distributivity-fp-safe"@.len() == 22);
        assert("compare-reduce"@.len() == 14);
        assert("distributivity-fp-safe"@ != "compare-reduce"@);
        reveal_strlit("bool-reduce");
        assert("distributivity-fp-safe"@.len() == 22);
        assert("bool-reduce"@.len() == 11);
        reveal_strlit("bool-reduce");
        assert("distributivity-fp-safe"@.len() == 22);
        assert("bool-reduce"@.len() == 11);
        assert("distributivity-fp-safe"@ != "bool-reduce"@);
        reveal_strlit("htrig-reduce");
        assert("distributivity-fp-safe"@.len() == 22);
        assert("htrig-reduce"@.len() == 12);
        reveal_strlit("htrig-reduce");
        assert("distributivity-fp-safe"@.len() == 22);
        assert("htrig-reduce"@.len() == 12);
        assert("distributivity-fp-safe"@ != "htrig-reduce"@);
        reveal_strlit("trig-reduce-fp-sound-nan");
        assert("distributivity-fp-safe"@.len() == 22);
        assert("trig-reduce-fp-sound-nan"@.len() == 24);
        reveal_strlit("trig-reduce-fp-sound-nan");
        assert("distributivity-fp-safe"@.len() == 22);
        assert("trig-reduce-fp-sound-nan"@.len() == 24);
        assert("distributivity-fp-safe"@ != "trig-reduce-fp-sound-nan"@);
        reveal_strlit("trig-reduce-fp-sound");
        assert("distributivity-fp-safe"@.len() == 22);
        assert("trig-reduce-fp-sound"@.len() == 20);
        reveal_strlit("trig-reduce-fp-sound");
        assert("distributivity-fp-safe"@.len() == 22);
        assert("trig-reduce-fp-sound"@.len() == 20);
        assert("distributivity-fp-safe"@ != "trig-reduce-fp-sound"@);
        reveal_strlit("trig-reduce");
        assert("distributivity-fp-safe"@.len() == 22);
        assert("trig-reduce"@.len() == 11);
        reveal_strlit("trig-reduce");
        assert("distributivity-fp-safe"@.len() == 22);
        assert("trig-reduce"@.len() == 11);
        assert("distributivity-fp-safe"@ != "trig-reduce"@);
        reveal_strlit("log-distribute-fp-safe");
        assert("distributivity-fp-safe"@[0] != "log-distribute-fp-safe"@[0]);
        reveal_strlit("log-distribute-fp-safe");
        assert("distributivity-fp-safe"@.len() == 22);
        assert("log-distribute-fp-safe"@.len() == 22);
        reveal_strlit("log-distribute-fp-safe");
        assert("distributivity-fp-safe"@.len() == 22);
        assert("log-distribute-fp-safe"@.len() == 22);
        assert("distributivity-fp-safe"@ != "log-distribute-fp-safe"@);
        reveal_strlit("log-distribute");
        assert("distributivity-fp-safe"@.len() == 22);
        assert("log-distribute"@.len() == 14);
        reveal_strlit("log-distribute");
        assert("distributivity-fp-safe"@.len() == 22);
        assert("log-distribute"@.len() == 14);
        assert("distributivity-fp-safe"@ != "log-distribute"@);
        reveal_strlit("pow-canonicalize");
        assert("distributivity-fp-safe"@.len() == 22);
        assert("pow-canonicalize"@.len() == 16);
        reveal_strlit("pow-canonicalize");
        assert("distributivity-fp-safe"@.len() == 22);
        assert("pow-canonicalize"@.len() == 16);
        assert("distributivity-fp-safe"@ != "pow-canonicalize"@);
        reveal_strlit("pow-reduce-fp-safe-nan");
        assert("distributivity-fp-safe"@[0] != "pow-reduce-fp-safe-nan"@[0]);
        reveal_strlit("pow-reduce-fp-safe-nan");
        assert("distributivity-fp-safe"@.len() == 22);
        assert("pow-reduce-fp-safe-nan"@.len() == 22);
        reveal_strlit("pow-reduce-fp-safe-nan");
        assert("distributivity-fp-safe"@.len() == 22);
        assert("pow-reduce-fp-safe-nan"@.len() == 22);
        assert("distributivity-fp-safe"@ != "pow-reduce-fp-safe-nan"@);
        reveal_strlit("pow-reduce-fp-safe");
        assert("distributivity-fp-safe"@.len() == 22);
        assert("pow-reduce-fp-safe"@.len() == 18);
        reveal_strlit("pow-reduce-fp-safe");
        assert("distributivity-fp-safe"@.len() == 22);
        assert("pow-reduce-fp-safe"@.len() == 18);
        assert("distributivity-fp-safe"@ != "pow-reduce-fp-safe"@);
        reveal_strlit("pow-reduce");
        assert("distributivity-fp-safe"@.len() == 22);
        assert("pow-reduce"@.len() == 10);
        reveal_strlit("pow-reduce");
        assert("distributivity-fp-safe"@.len() == 22);
        assert("pow-reduce"@.len() == 10);
        assert("distributivity-fp-safe"@ != "pow-reduce"@);
        reveal_strlit("exp-factor");
        assert("distributivity-fp-safe"@.len() == 22);
        assert("exp-factor"@.len() == 10);
        reveal_strlit("exp-factor");
        assert("distributivity-fp-safe"@.len() == 22);
        assert("exp-factor"@.len() == 10);
        assert("distributivity-fp-safe"@ != "exp-factor"@);
        reveal_strlit("exp-distribute");
        assert("distributivity-fp-safe"@.len() == 22);
        assert("exp-distribute"@.len() == 14);
        reveal_strlit("exp-distribute");
        assert("distributivity-fp-safe"@.len() == 22);
        assert("exp-distribute"@.len() == 14);
        assert("distributivity-fp-safe"@ != "exp-distribute"@);
        reveal_strlit("exp-constants");
        assert("distributivity-fp-safe"@.len() == 22);
        assert("exp-constants"@.len() == 13);
        reveal_strlit("exp-constants");
        assert("distributivity-fp-safe"@.len() == 22);
        assert("exp-constants"@.len() == 13);
        assert("distributivity-fp-safe"@ != "exp-constants"@);
        reveal_strlit("exp-reduce");
        assert("distributivity-fp-safe"@.len() == 22);
        assert("exp-reduce"@.len() == 10);
        reveal_strlit("exp-reduce");
        assert("distributivity-fp-safe"@.len() == 22);
        assert("exp-reduce"@.len() == 10);
        assert("distributivity-fp-safe"@ != "exp-reduce"@);
        reveal_strlit("cubes-canonicalize");
        assert("distributivity-fp-safe"@.len() == 22);
        assert("cubes-canonicalize"@.len() == 18);
        reveal_strlit("cubes-canonicalize");
        assert("distributivity-fp-safe"@.len() == 22);
        assert("cubes-canonicalize"@.len() == 18);
        assert("distributivity-fp-safe"@ != "cubes-canonicalize"@);
        reveal_strlit("cubes-distribute");
        assert("distributivity-fp-safe"@.len() == 22);
        assert("cubes-distribute"@.len() == 16);
        reveal_strlit("cubes-distribute");
        assert("distributivity-fp-safe"@.len() == 22);
        assert("cubes-distribute"@.len() == 16);
        assert("distributivity-fp-safe"@ != "cubes-distribute"@);
        reveal_strlit("cubes-reduce");
        assert("distributivity-fp-safe"@.len() == 22);
        assert("cubes-reduce"@.len() == 12);
        reveal_strlit("cubes-reduce");
        assert("distributivity-fp-safe"@.len() == 22);
        assert("cubes-reduce"@.len() == 12);
        assert("distributivity-fp-safe"@ != "cubes-reduce"@);
        reveal_strlit("squares-reduce-fp-sound");
        assert("distributivity-fp-safe"@.len() == 22);
        assert("squares-reduce-fp-sound"@.len() == 23);
        reveal_strlit("squares-reduce-fp-sound");
        assert("distributivity-fp-safe"@.len() == 22);
        assert("squares-reduce-fp-sound"@.len() == 23);
        assert("distributivity-fp-safe"@ != "squares-reduce-fp-sound"@);
        reveal_strlit("squares-reduce");
        assert("distributivity-fp-safe"@.len() == 22);
        assert("squares-reduce"@.len() == 14);
        reveal_strlit("squares-reduce");
        assert("distributivity-fp-safe"@.len() == 22);
        assert("squares-reduce"@.len() == 14);
        assert("distributivity-fp-safe"@ != "squares-reduce"@);
        reveal_strlit("fractions-distribute.c");
        assert("distributivity-fp-safe"@[0] != "fractions-distribute.c"@[0]);
        reveal_strlit("fractions-distribute.c");
        assert("distributivity-fp-safe"@.len() == 22);
        assert("fractions-distribute.c"@.len() == 22);
        reveal_strlit("fractions-distribute.c");
        assert("distributivity-fp-safe"@.len() == 22);
        assert("fractions-distribute.c"@.len() == 22);
        assert("distributivity-fp-safe"@ != "fractions-distribute.c"@);
        reveal_strlit("fractions-distribute");
        assert("distributivity-fp-safe"@.len() == 22);
        assert("fractions-distribute"@.len() == 20);
        reveal_strlit("fractions-distribute");
        assert("distributivity-fp-safe"@.len() == 22);
        assert("fractions-distribute"@.len() == 20);
        assert("distributivity-fp-safe"@ != "fractions-distribute"@);
        reveal_strlit("id-reduce-fp-safe");
        assert("distributivity-fp-safe"@.len() == 22);
        assert("id-reduce-fp-safe"@.len() == 17);
        reveal_strlit("id-reduce-fp-safe");
        assert("distributivity-fp-safe"@.len() == 22);
        assert("id-reduce-fp-safe"@.len() == 17);
        assert("distributivity-fp-safe"@ != "id-reduce-fp-safe"@);
        reveal_strlit("id-reduce-fp-safe-nan");
        assert("distributivity-fp-safe"@.len() == 22);
        assert("id-reduce-fp-safe-nan"@.len() == 21);
        reveal_strlit("id-reduce-fp-safe-nan");
        assert("distributivity-fp-safe"@.len() == 22);
        assert("id-reduce-fp-safe-nan"@.len() == 21);
        assert("distributivity-fp-safe"@ != "id-reduce-fp-safe-nan"@);
        reveal_strlit("id-reduce");
        assert("distributivity-fp-safe"@.len() == 22);
        assert("id-reduce"@.len() == 9);
        reveal_strlit("id-reduce");
        assert("distributivity-fp-safe"@.len() == 22);
        assert("id-reduce"@.len() == 9);
        assert("distributivity-fp-safe"@ != "id-reduce"@);
        reveal_strlit("difference-of-squares-canonicalize");
        assert("distributivity-fp-safe"@.len() == 22);
        assert("difference-of-squares-canonicalize"@.len() == 34);
        reveal_strlit("difference-of-squares-canonicalize");
        assert("distributivity-fp-safe"@.len() == 22);
        assert("difference-of-squares-canonicalize"@.len() == 34);
        assert("distributivity-fp-safe"@ != "difference-of-squares-canonicalize"@);
        assert(group_names(group_models(groups@)) =~= seq!["erf-rules"@, "complex-number-basics"@, "branch-reduce"@, "compare-reduce"@, "bool-reduce"@, "htrig-reduce"@, "trig-reduce-fp-sound-nan"@, "trig-reduce-fp-sound"@, "trig-reduce"@, "log-distribute-fp-safe"@, "log-distribute"@, "pow-canonicalize"@, "pow-reduce-fp-safe-nan"@, "pow-reduce-fp-safe"@, "pow-reduce"@, "exp-factor"@, "exp-distribute"@, "exp-constants"@, "exp-reduce"@, "cubes-canonicalize"@, "cubes-distribute"@, "cubes-reduce"@, "squares-reduce-fp-sound"@, "squares-reduce"@, "fractions-distribute.c"@, "fractions-distribute"@, "id-reduce-fp-safe"@, "id-reduce-fp-safe-nan"@, "id-reduce"@, "difference-of-squares-canonicalize"@]);
        assert forall|j: int| 0 <= j < group_names(group_models(groups@)).len() implies
            group_names(group_models(groups@))[j] != "distributivity-fp-safe"@ by {}
        assert(!group_names(group_models(groups@)).contains("distributivity-fp-safe"@));
    }
    match push_group(groups, "distributivity-fp-safe", g) {
        Ok(()) => {},
        Err(e) => {
            proof { assert(false); }
            return Err(e);
        },
    }
    proof {
        assert(group_models(groups@) =~= seq![crate::corpus::corpus_group_0(), crate::corpus::corpus_group_1(), crate::corpus::corpus_group_2(), crate::corpus::corpus_group_3(), crate::corpus::corpus_group_4(), crate::corpus::corpus_group_5(), crate::corpus::corpus_group_6(), crate::corpus::corpus_group_7(), crate::corpus::corpus_group_8(), crate::corpus::corpus_group_9(), crate::corpus::corpus_group_10(), crate::corpus::corpus_group_11(), crate::corpus::corpus_group_12(), crate::corpus::corpus_group_13(), crate::corpus::corpus_group_14(), crate::corpus::corpus_group_15(), crate::corpus::corpus_group_16(), crate::corpus::corpus_group_17(), crate::corpus::corpus_group_18(), crate::corpus::corpus_group_19(), crate::corpus::corpus_group_20(), crate::corpus::corpus_group_21(), crate::corpus::corpus_group_22(), crate::corpus::corpus_group_23(), crate::corpus::corpus_group_24(), crate::corpus::corpus_group_25(), crate::corpus::corpus_group_26(), crate::corpus::corpus_group_27(), crate::corpus::corpus_group_28(), crate::corpus::corpus_group_29(), crate::corpus::corpus_group_30()]);
    }
    Ok(())
}

#[verifier::spinoff_prover]
#[verifier::rlimit(100)]
/// Build and append the `distributivity.c` group.
fn corpus_push_31(groups: &mut Vec<RuleGroup>) -> (r: Result<(), RuleError>)
    requires
        group_models(old(groups)@) == seq![crate::corpus::corpus_group_0(), crate::corpus::corpus_group_1(), crate::corpus::corpus_group_2(), crate::corpus::corpus_group_3(), crate::corpus::corpus_group_4(), crate::corpus::corpus_group_5(), crate::corpus::corpus_group_6(), crate::corpus::corpus_group_7(), crate::corpus::corpus_group_8(), crate::corpus::corpus_group_9(), crate::corpus::corpus_group_10(), crate::corpus::corpus_group_11(), crate::corpus::corpus_group_12(), crate::corpus::corpus_group_13(), crate::corpus::corpus_group_14(), crate::corpus::corpus_group_15(), crate::corpus::corpus_group_16(), crate::corpus::corpus_group_17(), crate::corpus::corpus_group_18(), crate::corpus::corpus_group_19(), crate::corpus::corpus_group_20(), crate::corpus::corpus_group_21(), crate::corpus::corpus_group_22(), crate::corpus::corpus_group_23(), crate::corpus::corpus_group_24(), crate::corpus::corpus_group_25(), crate::corpus::corpus_group_26(), crate::corpus::corpus_group_27(), crate::corpus::corpus_group_28(), crate::corpus::corpus_group_29(), crate::corpus::corpus_group_30()],
    ensures
        r matches Ok(()) ==> group_models(final(groups)@) == seq![crate::corpus::corpus_group_0(), crate::corpus::corpus_group_1(), crate::corpus::corpus_group_2(), crate::corpus::corpus_group_3(), crate::corpus::corpus_group_4(), crate::corpus::corpus_group_5(), crate::corpus::corpus_group_6(), crate::corpus::corpus_group_7(), crate::corpus::corpus_group_8(), crate::corpus::corpus_group_9(), crate::corpus::corpus_group_10(), crate::corpus::corpus_group_11(), crate::corpus::corpus_group_12(), crate::corpus::corpus_group_13(), crate::corpus::corpus_group_14(), crate::corpus::corpus_group_15(), crate::corpus::corpus_group_16(), crate::corpus::corpus_group_17(), crate::corpus::corpus_group_18(), crate::corpus::corpus_group_19(), crate::corpus::corpus_group_20(), crate::corpus::corpus_group_21(), crate::corpus::corpus_group_22(), crate::corpus::corpus_group_23(), crate::corpus::corpus_group_24(), crate::corpus::corpus_group_25(), crate::corpus::corpus_group_26(), crate::corpus::corpus_group_27(), crate::corpus::corpus_group_28(), crate::corpus::corpus_group_29(), crate::corpus::corpus_group_30(), crate::corpus::corpus_group_31()],
        r is Err ==> !crate::corpus::corpus_rules_ok(),
{
    let mut t: Vec<(&str, &str, &str)> = Vec::new();
    t.push(("distribute-lft-in.c", "(*.c ?a (+.c ?b ?c))", "(+.c (*.c ?a ?b) (*.c ?a ?c))"));
    t.push(("distribute-rgt-in.c", "(*.c ?a (+.c ?b ?c))", "(+.c (*.c ?b ?a) (*.c ?c ?a))"));
    t.push(("distribute-lft-out.c", "(+.c (*.c ?a ?b) (*.c ?a ?c))", "(*.c ?a (+.c ?b ?c))"));
    t.push(("distribute-lft-out--.c", "(-.c (*.c ?a ?b) (*.c ?a ?c))", "(*.c ?a (-.c ?b ?c))"));
    t.push(("distribute-rgt-out.c", "(+.c (*.c ?b ?a) (*.c ?c ?a))", "(*.c ?a (+.c ?b ?c))"));
    t.push(("distribute-rgt-out--.c", "(-.c (*.c ?b ?a) (*.c ?c ?a))", "(*.c ?a (-.c ?b ?c))"));
    t.push(("distribute-lft1-in.c", "(+.c (*.c ?b ?a) ?a)", "(*.c (+.c ?b (complex 1 0)) ?a)"));
    t.push(("distribute-rgt1-in.c", "(+.c ?a (*.c ?c ?a))", "(*.c (+.c ?c (complex 1 0)) ?a)"));
    proof {
        assert(t@.len() == 8);
        assert forall|i: int| 0 <= i < t@.len() implies rule_ok(#[trigger] t@[i])
            == rule_ok(crate::corpus::group_tuples_31()[i]) by {
            if i == 0 {
                assert(t@[0].1@ == crate::corpus::group_tuples_31()[0].1@);
                assert(t@[0].2@ == crate::corpus::group_tuples_31()[0].2@);
            } else if i == 1 {
                assert(t@[1].1@ == crate::corpus::group_tuples_31()[1].1@);
                assert(t@[1].2@ == crate::corpus::group_tuples_31()[1].2@);
            } else if i == 2 {
                assert(t@[2].1@ == crate::corpus::group_tuples_31()[2].1@);
                assert(t@[2].2@ == crate::corpus::group_tuples_31()[2].2@);
            } else if i == 3 {
                assert(t@[3].1@ == crate::corpus::group_tuples_31()[3].1@);
                assert(t@[3].2@ == crate::corpus::group_tuples_31()[3].2@);
            } else if i == 4 {
                assert(t@[4].1@ == crate::corpus::group_tuples_31()[4].1@);
                assert(t@[4].2@ == crate::corpus::group_tuples_31()[4].2@);
            } else if i == 5 {
                assert(t@[5].1@ == crate::corpus::group_tuples_31()[5].1@);
                assert(t@[5].2@ == crate::corpus::group_tuples_31()[5].2@);
            } else if i == 6 {
                assert(t@[6].1@ == crate::corpus::group_tuples_31()[6].1@);
                assert(t@[6].2@ == crate::corpus::group_tuples_31()[6].2@);
            } else if i == 7 {
                assert(t@[7].1@ == crate::corpus::group_tuples_31()[7].1@);
                assert(t@[7].2@ == crate::corpus::group_tuples_31()[7].2@);
            }
        }
    }
    let g = match mk_rules(t.as_slice()) {
        Ok(g) => g,
        Err(e) => {
            proof {
                assert(!(forall|i: int| 0 <= i < crate::corpus::group_tuples_31().len()
                    ==> rule_ok(#[trigger] crate::corpus::group_tuples_31()[i])));
                assert(!crate::corpus::corpus_rules_ok());
            }
            return Err(e);
        },
    };
    proof {
        assert(rewrite_models(g@) =~= crate::corpus::corpus_group_31().rules);
        reveal_strlit("distributivity.c");
        reveal_strlit("erf-rules");
        assert("distributivity.c"@.len() == 16);
        assert("erf-rules"@.len() == 9);
        reveal_strlit("erf-rules");
        assert("distributivity.c"@.len() == 16);
        assert("erf-rules"@.len() == 9);
        assert("distributivity.c"@ != "erf-rules"@);
        reveal_strlit("complex-number-basics");
        assert("distributivity.c"@.len() == 16);
        assert("complex-number-basics"@.len() == 21);
        reveal_strlit("complex-number-basics");
        assert("distributivity.c"@.len() == 16);
        assert("complex-number-basics"@.len() == 21);
        assert("distributivity.c"@ != "complex-number-basics"@);
        reveal_strlit("branch-reduce");
        assert("distributivity.c"@.len() == 16);
        assert("branch-reduce"@.len() == 13);
        reveal_strlit("branch-reduce");
        assert("distributivity.c"@.len() == 16);
        assert("branch-reduce"@.len() == 13);
        assert("distributivity.c"@ != "branch-reduce"@);
        reveal_strlit("compare-reduce");
        assert("distributivity.c"@.len() == 16);
        assert("compare-reduce"@.len() == 14);
        reveal_strlit("compare-reduce");
        assert("distributivity.c"@.len() == 16);
        assert("compare-reduce"@.len() == 14);
        assert("distributivity.c"@ != "compare-reduce"@);
        reveal_strlit("bool-reduce");
        assert("distributivity.c"@.len() == 16);
        assert("bool-reduce"@.len() == 11);
        reveal_strlit("bool-reduce");
        assert("distributivity.c"@.len() == 16);
        assert("bool-reduce"@.len() == 11);
        assert("distributivity.c"@ != "bool-reduce"@);
        reveal_strlit("htrig-reduce");
        assert("distributivity.c"@.len() == 16);
        assert("htrig-reduce"@.len() == 12);
        reveal_strlit("htrig-reduce");
        assert("distributivity.c"@.len() == 16);
        assert("htrig-reduce"@.len() == 12);
        assert("distributivity.c"@ != "htrig-reduce"@);
        reveal_strlit("trig-reduce-fp-sound-nan");
        assert("distributivity.c"@.len() == 16);
        assert("trig-reduce-fp-sound-nan"@.len() == 24);
        reveal_strlit("trig-reduce-fp-sound-nan");
        assert("distributivity.c"@.len() == 16);
        assert("trig-reduce-fp-sound-nan"@.len() == 24);
        assert("distributivity.c"@ != "trig-reduce-fp-sound-nan"@);
        reveal_strlit("trig-reduce-fp-sound");
        assert("distributivity.c"@.len() == 16);
        assert("trig-reduce-fp-sound"@.len() == 20);
        reveal_strlit("trig-reduce-fp-sound");
        assert("distributivity.c"@.len() == 16);
        assert("trig-reduce-fp-sound"@.len() == 20);
        assert("distributivity.c"@ != "trig-reduce-fp-sound"@);
        reveal_strlit("trig-reduce");
        assert("distributivity.c"@.len() == 16);
        assert("trig-reduce"@.len() == 11);
        reveal_strlit("trig-reduce");
        assert("distributivity.c"@.len() == 16);
        assert("trig-reduce"@.len() == 11);
        assert("distributivity.c"@ != "trig-reduce"@);
        reveal_strlit("log-distribute-fp-safe");
        assert("distributivity.c"@.len() == 16);
        assert("log-distribute-fp-safe"@.len() == 22);
        reveal_strlit("log-distribute-fp-safe");
        assert("distributivity.c"@.len() == 16);
        assert("log-distribute-fp-safe"@.len() == 22);
        assert("distributivity.c"@ != "log-distribute-fp-safe"@);
        reveal_strlit("log-distribute");
        assert("distributivity.c"@.len() == 16);
        assert("log-distribute"@.len() == 14);
        reveal_strlit("log-distribute");
        assert("distributivity.c"@.len() == 16);
        assert("log-distribute"@.len() == 14);
        assert("distributivity.c"@ != "log-distribute"@);
        reveal_strlit("pow-canonicalize");
        assert("distributivity.c"@[0] != "pow-canonicalize"@[0]);
        reveal_strlit("pow-canonicalize");
        assert("distributivity.c"@.len() == 16);
        assert("pow-canonicalize"@.len() == 16);
        reveal_strlit("pow-canonicalize");
        assert("distributivity.c"@.len() == 16);
        assert("pow-canonicalize"@.len() == 16);
        assert("distributivity.c"@ != "pow-canonicalize"@);
        reveal_strlit("pow-reduce-fp-safe-nan");
        assert("distributivity.c"@.len() == 16);
        assert("pow-reduce-fp-safe-nan"@.len() == 22);
        reveal_strlit("pow-reduce-fp-safe-nan");
        assert("distributivity.c"@.len() == 16);
        assert("pow-reduce-fp-safe-nan"@.len() == 22);
        assert("distributivity.c"@ != "pow-reduce-fp-safe-nan"@);
        reveal_strlit("pow-reduce-fp-safe");
        assert("distributivity.c"@.len() == 16);
        assert("pow-reduce-fp-safe"@.len() == 18);
        reveal_strlit("pow-reduce-fp-safe");
        assert("distributivity.c"@.len() == 16);
        assert("pow-reduce-fp-safe"@.len() == 18);
        assert("distributivity.c"@ != "pow-reduce-fp-safe"@);
        reveal_strlit("pow-reduce");
        assert("distributivity.c"@.len() == 16);
        assert("pow-reduce"@.len() == 10);
        reveal_strlit("pow-reduce");
        assert("distributivity.c"@.len() == 16);
        assert("pow-reduce"@.len() == 10);
        assert("distributivity.c"@ != "pow-reduce"@);
        reveal_strlit("exp-factor");
        assert("distributivity.c"@.len() == 16);
        assert("exp-factor"@.len() == 10);
        reveal_strlit("exp-factor");
        assert("distributivity.c"@.len() == 16);
        assert("exp-factor"@.len() == 10);
        assert("distributivity.c"@ != "exp-factor"@);
        reveal_strlit("exp-distribute");
        assert("distributivity.c"@.len() == 16);
        assert("exp-distribute"@.len() == 14);
        reveal_strlit("exp-distribute");
        assert("distributivity.c"@.len() == 16);
        assert("exp-distribute"@.len() == 14);
        assert("distributivity.c"@ != "exp-distribute"@);
        reveal_strlit("exp-constants");
        assert("distributivity.c"@.len() == 16);
        assert("exp-constants"@.len() == 13);
        reveal_strlit("exp-constants");
        assert("distributivity.c"@.len() == 16);
        assert("exp-constants"@.len() == 13);
        assert("distributivity.c"@ != "exp-constants"@);
        reveal_strlit("exp-reduce");
        assert("distributivity.c"@.len() == 16);
        assert("exp-reduce"@.len() == 10);
        reveal_strlit("exp-reduce");
        assert("distributivity.c"@.len() == 16);
        assert("exp-reduce"@.len() == 10);
        assert("distributivity.c"@ != "exp-reduce"@);
        reveal_strlit("cubes-canonicalize");
        assert("distributivity.c"@.len() == 16);
        assert("cubes-canonicalize"@.len() == 18);
        reveal_strlit("cubes-canonicalize");
        assert("distributivity.c"@.len() == 16);
        assert("cubes-canonicalize"@.len() == 18);
        assert("distributivity.c"@ != "cubes-canonicalize"@);
        reveal_strlit("cubes-distribute");
        assert("distributivity.c"@[0] != "cubes-distribute"@[0]);
        reveal_strlit("cubes-distribute");
        assert("distributivity.c"@.len() == 16);
        assert("cubes-distribute"@.len() == 16);
        reveal_strlit("cubes-distribute");
        assert("distributivity.c"@.len() == 16);
        assert("cubes-distribute"@.len() == 16);
        assert("distributivity.c"@ != "cubes-distribute"@);
        reveal_strlit("cubes-reduce");
        assert("distributivity.c"@.len() == 16);
        assert("cubes-reduce"@.len() == 12);
        reveal_strlit("cubes-reduce");
        assert("distributivity.c"@.len() == 16);
        assert("cubes-reduce"@.len() == 12);
        assert("distributivity.c"@ != "cubes-reduce"@);
        reveal_strlit("squares-reduce-fp-sound");
        assert("distributivity.c"@.len() == 16);
        assert("squares-reduce-fp-sound"@.len() == 23);
        reveal_strlit("squares-reduce-fp-sound");
        assert("distributivity.c"@.len() == 16);
        assert("squares-reduce-fp-sound"@.len() == 23);
        assert("distributivity.c"@ != "squares-reduce-fp-sound"@);
        reveal_strlit("squares-reduce");
        assert("distributivity.c"@.len() == 16);
        assert("squares-reduce"@.len() == 14);
        reveal_strlit("squares-reduce");
        assert("distributivity.c"@.len() == 16);
        assert("squares-reduce"@.len() == 14);
        assert("distributivity.c"@ != "squares-reduce"@);
        reveal_strlit("fractions-distribute.c");
        assert("distributivity.c"@.len() == 16);
        assert("fractions-distribute.c"@.len() == 22);
        reveal_strlit("fractions-distribute.c");
        assert("distributivity.c"@.len() == 16);
        assert("fractions-distribute.c"@.len() == 22);
        assert("distributivity.c"@ != "fractions-distribute.c"@);
        reveal_strlit("fractions-distribute");
        assert("distributivity.c"@.len() == 16);
        assert("fractions-distribute"@.len() == 20);
        reveal_strlit("fractions-distribute");
        assert("distributivity.c"@.len() == 16);
        assert("fractions-distribute"@.len() == 20);
        assert("distributivity.c"@ != "fractions-distribute"@);
        reveal_strlit("id-reduce-fp-safe");
        assert("distributivity.c"@.len() == 16);
        assert("id-reduce-fp-safe"@.len() == 17);
        reveal_strlit("id-reduce-fp-safe");
        assert("distributivity.c"@.len() == 16);
        assert("id-reduce-fp-safe"@.len() == 17);
        assert("distributivity.c"@ != "id-reduce-fp-safe"@);
        reveal_strlit("id-reduce-fp-safe-nan");
        assert("distributivity.c"@.len() == 16);
        assert("id-reduce-fp-safe-nan"@.len() == 21);
        reveal_strlit("id-reduce-fp-safe-nan");
        assert("distributivity.c"@.len() == 16);
        assert("id-reduce-fp-safe-nan"@.len() == 21);
        assert("distributivity.c"@ != "id-reduce-fp-safe-nan"@);
        reveal_strlit("id-reduce");
        assert("distributivity.c"@.len() == 16);
        assert("id-reduce"@.len() == 9);
        reveal_strlit("id-reduce");
        assert("distributivity.c"@.len() == 16);
        assert("id-reduce"@.len() == 9);
        assert("distributivity.c"@ != "id-reduce"@);
        reveal_strlit("difference-of-squares-canonicalize");
        assert("distributivity.c"@.len() == 16);
        assert("difference-of-squares-canonicalize"@.len() == 34);
        reveal_strlit("difference-of-squares-canonicalize");
        assert("distributivity.c"@.len() == 16);
        assert("difference-of-squares-canonicalize"@.len() == 34);
        assert("distributivity.c"@ != "difference-of-squares-canonicalize"@);
        reveal_strlit("distributivity-fp-safe");
        assert("distributivity.c"@.len() == 16);
        assert("distributivity-fp-safe"@.len() == 22);
        reveal_strlit("distributivity-fp-safe");
        assert("distributivity.c"@.len() == 16);
        assert("distributivity-fp-safe"@.len() == 22);
        assert("distributivity.c"@ != "distributivity-fp-safe"@);
        assert(group_names(group_models(groups@)) =~= seq!["erf-rules"@, "complex-number-basics"@, "branch-reduce"@, "compare-reduce"@, "bool-reduce"@, "htrig-reduce"@, "trig-reduce-fp-sound-nan"@, "trig-reduce-fp-sound"@, "trig-reduce"@, "log-distribute-fp-safe"@, "log-distribute"@, "pow-canonicalize"@, "pow-reduce-fp-safe-nan"@, "pow-reduce-fp-safe"@, "pow-reduce"@, "exp-factor"@, "exp-distribute"@, "exp-constants"@, "exp-reduce"@, "cubes-canonicalize"@, "cubes-distribute"@, "cubes-reduce"@, "squares-reduce-fp-sound"@, "squares-reduce"@, "fractions-distribute.c"@, "fractions-distribute"@, "id-reduce-fp-safe"@, "id-reduce-fp-safe-nan"@, "id-reduce"@, "difference-of-squares-canonicalize"@, "distributivity-fp-safe"@]);
        assert forall|j: int| 0 <= j < group_names(group_models(groups@)).len() implies
            group_names(group_models(groups@))[j] != "distributivity.c"@ by {}
        assert(!group_names(group_models(groups@)).contains("distributivity.c"@));
    }
    match push_group(groups, "distributivity.c", g) {
        Ok(()) => {},
        Err(e) => {
            proof { assert(false); }
            return Err(e);
        },
    }
    proof {
        assert(group_models(groups@) =~= seq![crate::corpus::corpus_group_0(), crate::corpus::corpus_group_1(), crate::corpus::corpus_group_2(), crate::corpus::corpus_group_3(), crate::corpus::corpus_group_4(), crate::corpus::corpus_group_5(), crate::corpus::corpus_group_6(), crate::corpus::corpus_group_7(), crate::corpus::corpus_group_8(), crate::corpus::corpus_group_9(), crate::corpus::corpus_group_10(), crate::corpus::corpus_group_11(), crate::corpus::corpus_group_12(), crate::corpus::corpus_group_13(), crate::corpus::corpus_group_14(), crate::corpus::corpus_group_15(), crate::corpus::corpus_group_16(), crate::corpus::corpus_group_17(), crate::corpus::corpus_group_18(), crate::corpus::corpus_group_19(), crate::corpus::corpus_group_20(), crate::corpus::corpus_group_21(), crate::corpus::corpus_group_22(), crate::corpus::corpus_group_23(), crate::corpus::corpus_group_24(), crate::corpus::corpus_group_25(), crate::corpus::corpus_group_26(), crate::corpus::corpus_group_27(), crate::corpus::corpus_group_28(), crate::corpus::corpus_group_29(), crate::corpus::corpus_group_30(), crate::corpus::corpus_group_31()]);
    }
    Ok(())
}

#[verifier::spinoff_prover]
#[verifier::rlimit(100)]
/// Build and append the `distributivity` group.
fn corpus_push_32(groups: &mut Vec<RuleGroup>) -> (r: Result<(), RuleError>)
    requires
        group_models(old(groups)@) == seq![crate::corpus::corpus_group_0(), crate::corpus::corpus_group_1(), crate::corpus::corpus_group_2(), crate::corpus::corpus_group_3(), crate::corpus::corpus_group_4(), crate::corpus::corpus_group_5(), crate::corpus::corpus_group_6(), crate::corpus::corpus_group_7(), crate::corpus::corpus_group_8(), crate::corpus::corpus_group_9(), crate::corpus::corpus_group_10(), crate::corpus::corpus_group_11(), crate::corpus::corpus_group_12(), crate::corpus::corpus_group_13(), crate::corpus::corpus_group_14(), crate::corpus::corpus_group_15(), crate::corpus::corpus_group_16(), crate::corpus::corpus_group_17(), crate::corpus::corpus_group_18(), crate::corpus::corpus_group_19(), crate::corpus::corpus_group_20(), crate::corpus::corpus_group_21(), crate::corpus::corpus_group_22(), crate::corpus::corpus_group_23(), crate::corpus::corpus_group_24(), crate::corpus::corpus_group_25(), crate::corpus::corpus_group_26(), crate::corpus::corpus_group_27(), crate::corpus::corpus_group_28(), crate::corpus::corpus_group_29(), crate::corpus::corpus_group_30(), crate::corpus::corpus_group_31()],
    ensures
        r matches Ok(()) ==> group_models(final(groups)@) == seq![crate::corpus::corpus_group_0(), crate::corpus::corpus_group_1(), crate::corpus::corpus_group_2(), crate::corpus::corpus_group_3(), crate::corpus::corpus_group_4(), crate::corpus::corpus_group_5(), crate::corpus::corpus_group_6(), crate::corpus::corpus_group_7(), crate::corpus::corpus_group_8(), crate::corpus::corpus_group_9(), crate::corpus::corpus_group_10(), crate::corpus::corpus_group_11(), crate::corpus::corpus_group_12(), crate::corpus::corpus_group_13(), crate::corpus::corpus_group_14(), crate::corpus::corpus_group_15(), crate::corpus::corpus_group_16(), crate::corpus::corpus_group_17(), crate::corpus::corpus_group_18(), crate::corpus::corpus_group_19(), crate::corpus::corpus_group_20(), crate::corpus::corpus_group_21(), crate::corpus::corpus_group_22(), crate::corpus::corpus_group_23(), crate::corpus::corpus_group_24(), crate::corpus::corpus_group_25(), crate::corpus::corpus_group_26(), crate::corpus::corpus_group_27(), crate::corpus::corpus_group_28(), crate::corpus::corpus_group_29(), crate::corpus::corpus_group_30(), crate::corpus::corpus_group_31(), crate::corpus::corpus_group_32()],
        r is Err ==> !crate::corpus::corpus_rules_ok(),
{
    let mut t: Vec<(&str, &str, &str)> = Vec::new();
    t.push(("distribute-lft-in", "(* ?a (+ ?b ?c))", "(+ (* ?a ?b) (* ?a ?c))"));
    t.push(("distribute-rgt-in", "(* ?a (+ ?b ?c))", "(+ (* ?b ?a) (* ?c ?a))"));
    t.push(("distribute-lft-out", "(+ (* ?a ?b) (* ?a ?c))", "(* ?a (+ ?b ?c))"));
    t.push(("distribute-lft-out--", "(- (* ?a ?b) (* ?a ?c))", "(* ?a (- ?b ?c))"));
    t.push(("distribute-rgt-out", "(+ (* ?b ?a) (* ?c ?a))", "(* ?a (+ ?b ?c))"));
    t.push(("distribute-rgt-out--", "(- (* ?b ?a) (* ?c ?a))", "(* ?a (- ?b ?c))"));
    t.push(("distribute-lft1-in", "(+ (* ?b ?a) ?a)", "(* (+ ?b 1) ?a)"));
    t.push(("distribute-rgt1-in", "(+ ?a (* ?c ?a))", "(* (+ ?c 1) ?a)"));
    proof {
        assert(t@.len() == 8);
        assert forall|i: int| 0 <= i < t@.len() implies rule_ok(#[trigger] t@[i])
            == rule_ok(crate::corpus::group_tuples_32()[i]) by {
            if i == 0 {
                assert(t@[0].1@ == crate::corpus::group_tuples_32()[0].1@);
                assert(t@[0].2@ == crate::corpus::group_tuples_32()[0].2@);
            } else if i == 1 {
                assert(t@[1].1@ == crate::corpus::group_tuples_32()[1].1@);
                assert(t@[1].2@ == crate::corpus::group_tuples_32()[1].2@);
            } else if i == 2 {
                assert(t@[2].1@ == crate::corpus::group_tuples_32()[2].1@);
                assert(t@[2].2@ == crate::corpus::group_tuples_32()[2].2@);
            } else if i == 3 {
                assert(t@[3].1@ == crate::corpus::group_tuples_32()[3].1@);
                assert(t@[3].2@ == crate::corpus::group_tuples_32()[3].2@);
            } else if i == 4 {
                assert(t@[4].1@ == crate::corpus::group_tuples_32()[4].1@);
                assert(t@[4].2@ == crate::corpus::group_tuples_32()[4].2@);
            } else if i == 5 {
                assert(t@[5].1@ == crate::corpus::group_tuples_32()[5].1@);
                assert(t@[5].2@ == crate::corpus::group_tuples_32()[5].2@);
            } else if i == 6 {
                assert(t@[6].1@ == crate::corpus::group_tuples_32()[6].1@);
                assert(t@[6].2@ == crate::corpus::group_tuples_32()[6].2@);
            } else if i == 7 {
                assert(t@[7].1@ == crate::corpus::group_tuples_32()[7].1@);
                assert(t@[7].2@ == crate::corpus::group_tuples_32()[7].2@);
            }
        }
    }
    let g = match mk_rules(t.as_slice()) {
        Ok(g) => g,
        Err(e) => {
            proof {
                assert(!(forall|i: int| 0 <= i < crate::corpus::group_tuples_32().len()
                    ==> rule_ok(#[trigger] crate::corpus::group_tuples_32()[i])));
                assert(!crate::corpus::corpus_rules_ok());
            }
            return Err(e);
        },
    };
    proof {
        assert(rewrite_models(g@) =~= crate::corpus::corpus_group_32().rules);
        reveal_strlit("distributivity");
        reveal_strlit("erf-rules");
        assert("distributivity"@.len() == 14);
        assert("erf-rules"@.len() == 9);
        reveal_strlit("erf-rules");
        assert("distributivity"@.len() == 14);
        assert("erf-rules"@.len() == 9);
        assert("distributivity"@ != "erf-rules"@);
        reveal_strlit("complex-number-basics");
        assert("distributivity"@.len() == 14);
        assert("complex-number-basics"@.len() == 21);
        reveal_strlit("complex-number-basics");
        assert("distributivity"@.len() == 14);
        assert("complex-number-basics"@.len() == 21);
        assert("distributivity"@ != "complex-number-basics"@);
        reveal_strlit("branch-reduce");
        assert("distributivity"@.len() == 14);
        assert("branch-reduce"@.len() == 13);
        reveal_strlit("branch-reduce");
        assert("distributivity"@.len() == 14);
        assert("branch-reduce"@.len() == 13);
        assert("distributivity"@ != "branch-reduce"@);
        reveal_strlit("compare-reduce");
        assert("distributivity"@[0] != "compare-reduce"@[0]);
        reveal_strlit("compare-reduce");
        assert("distributivity"@.len() == 14);
        assert("compare-reduce"@.len() == 14);
        reveal_strlit("compare-reduce");
        assert("distributivity"@.len() == 14);
        assert("compare-reduce"@.len() == 14);
        assert("distributivity"@ != "compare-reduce"@);
        reveal_strlit("bool-reduce");
        assert("distributivity"@.len() == 14);
        assert("bool-reduce"@.len() == 11);
        reveal_strlit("bool-reduce");
        assert("distributivity"@.len() == 14);
        assert("bool-reduce"@.len() == 11);
        assert("distributivity"@ != "bool-reduce"@);
        reveal_strlit("htrig-reduce");
        assert("distributivity"@.len() == 14);
        assert("htrig-reduce"@.len() == 12);
        reveal_strlit("htrig-reduce");
        assert("distributivity"@.len() == 14);
        assert("htrig-reduce"@.len() == 12);
        assert("distributivity"@ != "htrig-reduce"@);
        reveal_strlit("trig-reduce-fp-sound-nan");
        assert("distributivity"@.len() == 14);
        assert("trig-reduce-fp-sound-nan"@.len() == 24);
        reveal_strlit("trig-reduce-fp-sound-nan");
        assert("distributivity"@.len() == 14);
        assert("trig-reduce-fp-sound-nan"@.len() == 24);
        assert("distributivity"@ != "trig-reduce-fp-sound-nan"@);
        reveal_strlit("trig-reduce-fp-sound");
        assert("distributivity"@.len() == 14);
        assert("trig-reduce-fp-sound"@.len() == 20);
        reveal_strlit("trig-reduce-fp-sound");
        assert("distributivity"@.len() == 14);
        assert("trig-reduce-fp-sound"@.len() == 20);
        assert("distributivity"@ != "trig-reduce-fp-sound"@);
        reveal_strlit("trig-reduce");
        assert("distributivity"@.len() == 14);
        assert("trig-reduce"@.len() == 11);
        reveal_strlit("trig-reduce");
        assert("distributivity"@.len() == 14);
        assert("trig-reduce"@.len() == 11);
        assert("distributivity"@ != "trig-reduce"@);
        reveal_strlit("log-distribute-fp-safe");
        assert("distributivity"@.len() == 14);
        assert("log-distribute-fp-safe"@.len() == 22);
        reveal_strlit("log-distribute-fp-safe");
        assert("distributivity"@.len() == 14);
        assert("log-distribute-fp-safe"@.len() == 22);
        assert("distributivity"@ != "log-distribute-fp-safe"@);
        reveal_strlit("log-distribute");
        assert("distributivity"@[0] != "log-distribute"@[0]);
        reveal_strlit("log-distribute");
        assert("distributivity"@.len() == 14);
        assert("log-distribute"@.len() == 14);
        reveal_strlit("log-distribute");
        assert("distributivity"@.len() == 14);
        assert("log-distribute"@.len() == 14);
        assert("distributivity"@ != "log-distribute"@);
        reveal_strlit("pow-canonicalize");
        assert("distributivity"@.len() == 14);
        assert("pow-canonicalize"@.len() == 16);
        reveal_strlit("pow-canonicalize");
        assert("distributivity"@.len() == 14);
        assert("pow-canonicalize"@.len() == 16);
        assert("distributivity"@ != "pow-canonicalize"@);
        reveal_strlit("pow-reduce-fp-safe-nan");
        assert("distributivity"@.len() == 14);
        assert("pow-reduce-fp-safe-nan"@.len() == 22);
        reveal_strlit("pow-reduce-fp-safe-nan");
        assert("distributivity"@.len() == 14);
        assert("pow-reduce-fp-safe-nan"@.len() == 22);
        assert("distributivity"@ != "pow-reduce-fp-safe-nan"@);
        reveal_strlit("pow-reduce-fp-safe");
        assert("distributivity"@.len() == 14);
        assert("pow-reduce-fp-safe"@.len() == 18);
        reveal_strlit("pow-reduce-fp-safe");
        assert("distributivity"@.len() == 14);
        assert("pow-reduce-fp-safe"@.len() == 18);
        assert("distributivity"@ != "pow-reduce-fp-safe"@);
        reveal_strlit("pow-reduce");
        assert("distributivity"@.len() == 14);
        assert("pow-reduce"@.len() == 10);
        reveal_strlit("pow-reduce");
        assert("distributivity"@.len() == 14);
        assert("pow-reduce"@.len() == 10);
        assert("distributivity"@ != "pow-reduce"@);
        reveal_strlit("exp-factor");
        assert("distributivity"@.len() == 14);
        assert("exp-factor"@.len() == 10);
        reveal_strlit("exp-factor");
        assert("distributivity"@.len() == 14);
        assert("exp-factor"@.len() == 10);
        assert("distributivity"@ != "exp-factor"@);
        reveal_strlit("exp-distribute");
        assert("distributivity"@[0] != "exp-distribute"@[0]);
        reveal_strlit("exp-distribute");
        assert("distributivity"@.len() == 14);
        assert("exp-distribute"@.len() == 14);
        reveal_strlit("exp-distribute");
        assert("distributivity"@.len() == 14);
        assert("exp-distribute"@.len() == 14);
        assert("distributivity"@ != "exp-distribute"@);
        reveal_strlit("exp-constants");
        assert("distributivity"@.len() == 14);
        assert("exp-constants"@.len() == 13);
        reveal_strlit("exp-constants");
        assert("distributivity"@.len() == 14);
        assert("exp-constants"@.len() == 13);
        assert("distributivity"@ != "exp-constants"@);
        reveal_strlit("exp-reduce");
        assert("distributivity"@.len() == 14);
        assert("exp-reduce"@.len() == 10);
        reveal_strlit("exp-reduce");
        assert("distributivity"@.len() == 14);
        assert("exp-reduce"@.len() == 10);
        assert("distributivity"@ != "exp-reduce"@);
        reveal_strlit("cubes-canonicalize");
        assert("distributivity"@.len() == 14);
        assert("cubes-canonicalize"@.len() == 18);
        reveal_strlit("cubes-canonicalize");
        assert("distributivity"@.len() == 14);
        assert("cubes-canonicalize"@.len() == 18);
        assert("distributivity"@ != "cubes-canonicalize"@);
        reveal_strlit("cubes-distribute");
        assert("distributivity"@.len() == 14);
        assert("cubes-distribute"@.len() == 16);
        reveal_strlit("cubes-distribute");
        assert("distributivity"@.len() == 14);
        assert("cubes-distribute"@.len() == 16);
        assert("distributivity"@ != "cubes-distribute"@);
        reveal_strlit("cubes-reduce");
        assert("distributivity"@.len() == 14);
        assert("cubes-reduce"@.len() == 12);
        reveal_strlit("cubes-reduce");
        assert("distributivity"@.len() == 14);
        assert("cubes-reduce"@.len() == 12);
        assert("distributivity"@ != "cubes-reduce"@);
        reveal_strlit("squares-reduce-fp-sound");
        assert("distributivity"@.len() == 14);
        assert("squares-reduce-fp-sound"@.len() == 23);
        reveal_strlit("squares-reduce-fp-sound");
        assert("distributivity"@.len() == 14);
        assert("squares-reduce-fp-sound"@.len() == 23);
        assert("distributivity"@ != "squares-reduce-fp-sound"@);
        reveal_strlit("squares-reduce");
        assert("distributivity"@[0] != "squares-reduce"@[0]);
        reveal_strlit("squares-reduce");
        assert("distributivity"@.len() == 14);
        assert("squares-reduce"@.len() == 14);
        reveal_strlit("squares-reduce");
        assert("distributivity"@.len() == 14);
        assert("squares-reduce"@.len() == 14);
        assert("distributivity"@ != "squares-reduce"@);
        reveal_strlit("fractions-distribute.c");
        assert("distributivity"@.len() == 14);
        assert("fractions-distribute.c"@.len() == 22);
        reveal_strlit("fractions-distribute.c");
        assert("distributivity"@.len() == 14);
        assert("fractions-distribute.c"@.len() == 22);
        assert("distributivity"@ != "fractions-distribute.c"@);
        reveal_strlit("fractions-distribute");
        assert("distributivity"@.len() == 14);
        assert("fractions-distribute"@.len() == 20);
        reveal_strlit("fractions-distribute");
        assert("distributivity"@.len() == 14);
        assert("fractions-distribute"@.len() == 20);
        assert("distributivity"@ != "fractions-distribute"@);
        reveal_strlit("id-reduce-fp-safe");
        assert("distributivity"@.len() == 14);
        assert("id-reduce-fp-safe"@.len() == 17);
        reveal_strlit("id-reduce-fp-safe");
        assert("distributivity"@.len() == 14);
        assert("id-reduce-fp-safe"@.len() == 17);
        assert("distributivity"@ != "id-reduce-fp-safe"@);
        reveal_strlit("id-reduce-fp-safe-nan");
        assert("distributivity"@.len() == 14);
        assert("id-reduce-fp-safe-nan"@.len() == 21);
        reveal_strlit("id-reduce-fp-safe-nan");
        assert("distributivity"@.len() == 14);
        assert("id-reduce-fp-safe-nan"@.len() == 21);
        assert("distributivity"@ != "id-reduce-fp-safe-nan"@);
        reveal_strlit("id-reduce");
        assert("distributivity"@.len() == 14);
        assert("id-reduce"@.len() == 9);
        reveal_strlit("id-reduce");
        assert("distributivity"@.len() == 14);
        assert("id-reduce"@.len() == 9);
        assert("distributivity"@ != "id-reduce"@);
        reveal_strlit("difference-of-squares-canonicalize");
        assert("distributivity"@.len() == 14);
        assert("difference-of-squares-canonicalize"@.len() == 34);
        reveal_strlit("difference-of-squares-canonicalize");
        assert("distributivity"@.len() == 14);
        assert("difference-of-squares-canonicalize"@.len() == 34);
        assert("distributivity"@ != "difference-of-squares-canonicalize"@);
        reveal_strlit("distributivity-fp-safe");
        assert("distributivity"@.len() == 14);
        assert("distributivity-fp-safe"@.len() == 22);
        reveal_strlit("distributivity-fp-safe");
        assert("distributivity"@.len() == 14);
        assert("distributivity-fp-safe"@.len() == 22);
        assert("distributivity"@ != "distributivity-fp-safe"@);
        reveal_strlit("distributivity.c");
        assert("distributivity"@.len() == 14);
        assert("distributivity.c"@.len() == 16);
        reveal_strlit("distributivity.c");
        assert("distributivity"@.len() == 14);
        assert("distributivity.c"@.len() == 16);
        assert("distributivity"@ != "distributivity.c"@);
        assert(group_names(group_models(groups@)) =~= seq!["erf-rules"@, "complex-number-basics"@, "branch-reduce"@, "compare-reduce"@, "bool-reduce"@, "htrig-reduce"@, "trig-reduce-fp-sound-nan"@, "trig-reduce-fp-sound"@, "trig-reduce"@, "log-distribute-fp-safe"@, "log-distribute"@, "pow-canonicalize"@, "pow-reduce-fp-safe-nan"@, "pow-reduce-fp-safe"@, "pow-reduce"@, "exp-factor"@, "exp-distribute"@, "exp-constants"@, "exp-reduce"@, "cubes-canonicalize"@, "cubes-distribute"@, "cubes-reduce"@, "squares-reduce-fp-sound"@, "squares-reduce"@, "fractions-distribute.c"@, "fractions-distribute"@, "id-reduce-fp-safe"@, "id-reduce-fp-safe-nan"@, "id-reduce"@, "difference-of-squares-canonicalize"@, "distributivity-fp-safe"@, "distributivity.c"@]);
        assert forall|j: int| 0 <= j < group_names(group_models(groups@)).len() implies
            group_names(group_models(groups@))[j] != "distributivity"@ by {}
        assert(!group_names(group_models(groups@)).contains("distributivity"@));
    }
    match push_group(groups, "distributivity", g) {
        Ok(()) => {},
        Err(e) => {
            proof { assert(false); }
            return Err(e);
        },
    }
    proof {
        assert(group_models(groups@) =~= seq![crate::corpus::corpus_group_0(), crate::corpus::corpus_group_1(), crate::corpus::corpus_group_2(), crate::corpus::corpus_group_3(), crate::corpus::corpus_group_4(), crate::corpus::corpus_group_5(), crate::corpus::corpus_group_6(), crate::corpus::corpus_group_7(), crate::corpus::corpus_group_8(), crate::corpus::corpus_group_9(), crate::corpus::corpus_group_10(), crate::corpus::corpus_group_11(), crate::corpus::corpus_group_12(), crate::corpus::corpus_group_13(), crate::corpus::corpus_group_14(), crate::corpus::corpus_group_15(), crate::corpus::corpus_group_16(), crate::corpus::corpus_group_17(), crate::corpus::corpus_group_18(), crate::corpus::corpus_group_19(), crate::corpus::corpus_group_20(), crate::corpus::corpus_group_21(), crate::corpus::corpus_group_22(), crate::corpus::corpus_group_23(), crate::corpus::corpus_group_24(), crate::corpus::corpus_group_25(), crate::corpus::corpus_group_26(), crate::corpus::corpus_group_27(), crate::corpus::corpus_group_28(), crate::corpus::corpus_group_29(), crate::corpus::corpus_group_30(), crate::corpus::corpus_group_31(), crate::corpus::corpus_group_32()]);
    }
    Ok(())
}

#[verifier::spinoff_prover]
#[verifier::rlimit(100)]
/// Build and append the `counting` group.
fn corpus_push_33(groups: &mut Vec<RuleGroup>) -> (r: Result<(), RuleError>)
    requires
        group_models(old(groups)@) == seq![crate::corpus::corpus_group_0(), crate::corpus::corpus_group_1(), crate::corpus::corpus_group_2(), crate::corpus::corpus_group_3(), crate::corpus::corpus_group_4(), crate::corpus::corpus_group_5(), crate::corpus::corpus_group_6(), crate::corpus::corpus_group_7(), crate::corpus::corpus_group_8(), crate::corpus::corpus_group_9(), crate::corpus::corpus_group_10(), crate::corpus::corpus_group_11(), crate::corpus::corpus_group_12(), crate::corpus::corpus_group_13(), crate::corpus::corpus_group_14(), crate::corpus::corpus_group_15(), crate::corpus::corpus_group_16(), crate::corpus::corpus_group_17(), crate::corpus::corpus_group_18(), crate::corpus::corpus_group_19(), crate::corpus::corpus_group_20(), crate::corpus::corpus_group_21(), crate::corpus::corpus_group_22(), crate::corpus::corpus_group_23(), crate::corpus::corpus_group_24(), crate::corpus::corpus_group_25(), crate::corpus::corpus_group_26(), crate::corpus::corpus_group_27(), crate::corpus::corpus_group_28(), crate::corpus::corpus_group_29(), crate::corpus::corpus_group_30(), crate::corpus::corpus_group_31(), crate::corpus::corpus_group_32()],
    ensures
        r matches Ok(()) ==> group_models(final(groups)@) == seq![crate::corpus::corpus_group_0(), crate::corpus::corpus_group_1(), crate::corpus::corpus_group_2(), crate::corpus::corpus_group_3(), crate::corpus::corpus_group_4(), crate::corpus::corpus_group_5(), crate::corpus::corpus_group_6(), crate::corpus::corpus_group_7(), crate::corpus::corpus_group_8(), crate::corpus::corpus_group_9(), crate::corpus::corpus_group_10(), crate::corpus::corpus_group_11(), crate::corpus::corpus_group_12(), crate::corpus::corpus_group_13(), crate::corpus::corpus_group_14(), crate::corpus::corpus_group_15(), crate::corpus::corpus_group_16(), crate::corpus::corpus_group_17(), crate::corpus::corpus_group_18(), crate::corpus::corpus_group_19(), crate::corpus::corpus_group_20(), crate::corpus::corpus_group_21(), crate::corpus::corpus_group_22(), crate::corpus::corpus_group_23(), crate::corpus::corpus_group_24(), crate::corpus::corpus_group_25(), crate::corpus::corpus_group_26(), crate::corpus::corpus_group_27(), crate::corpus::corpus_group_28(), crate::corpus::corpus_group_29(), crate::corpus::corpus_group_30(), crate::corpus::corpus_group_31(), crate::corpus::corpus_group_32(), crate::corpus::corpus_group_33()],
        r is Err ==> !crate::corpus::corpus_rules_ok(),
{
    let mut t: Vec<(&str, &str, &str)> = Vec::new();
    t.push(("count-2", "(+ ?x ?x)", "(* 2 ?x)"));
    proof {
        assert(t@.len() == 1);
        assert forall|i: int| 0 <= i < t@.len() implies rule_ok(#[trigger] t@[i])
            == rule_ok(crate::corpus::group_tuples_33()[i]) by {
            if i == 0 {
                assert(t@[0].1@ == crate::corpus::group_tuples_33()[0].1@);
                assert(t@[0].2@ == crate::corpus::group_tuples_33()[0].2@);
            }
        }
    }
    let g = match mk_rules(t.as_slice()) {
        Ok(g) => g,
        Err(e) => {
            proof {
                assert(!(forall|i: int| 0 <= i < crate::corpus::group_tuples_33().len()
                    ==> rule_ok(#[trigger] crate::corpus::group_tuples_33()[i])));
                assert(!crate::corpus::corpus_rules_ok());
            }
            return Err(e);
        },
    };
    proof {
        assert(rewrite_models(g@) =~= crate::corpus::corpus_group_33().rules);
        reveal_strlit("counting");
        reveal_strlit("erf-rules");
        assert("counting"@.len() == 8);
        assert("erf-rules"@.len() == 9);
        reveal_strlit("erf-rules");
        assert("counting"@.len() == 8);
        assert("erf-rules"@.len() == 9);
        assert("counting"@ != "erf-rules"@);
        reveal_strlit("complex-number-basics");
        assert("counting"@.len() == 8);
        assert("complex-number-basics"@.len() == 21);
        reveal_strlit("complex-number-basics");
        assert("counting"@.len() == 8);
        assert("complex-number-basics"@.len() == 21);
        assert("counting"@ != "complex-number-basics"@);
        reveal_strlit("branch-reduce");
        assert("counting"@.len() == 8);
        assert("branch-reduce"@.len() == 13);
        reveal_strlit("branch-reduce");
        assert("counting"@.len() == 8);
        assert("branch-reduce"@.len() == 13);
        assert("counting"@ != "branch-reduce"@);
        reveal_strlit("compare-reduce");
        assert("counting"@.len() == 8);
        assert("compare-reduce"@.len() == 14);
        reveal_strlit("compare-reduce");
        assert("counting"@.len() == 8);
        assert("compare-reduce"@.len() == 14);
        assert("counting"@ != "compare-reduce"@);
        reveal_strlit("bool-reduce");
        assert("counting"@.len() == 8);
        assert("bool-reduce"@.len() == 11);
        reveal_strlit("bool-reduce");
        assert("counting"@.len() == 8);
        assert("bool-reduce"@.len() == 11);
        assert("counting"@ != "bool-reduce"@);
        reveal_strlit("htrig-reduce");
        assert("counting"@.len() == 8);
        assert("htrig-reduce"@.len() == 12);
        reveal_strlit("htrig-reduce");
        assert("counting"@.len() == 8);
        assert("htrig-reduce"@.len() == 12);
        assert("counting"@ != "htrig-reduce"@);
        reveal_strlit("trig-reduce-fp-sound-nan");
        assert("counting"@.len() == 8);
        assert("trig-reduce-fp-sound-nan"@.len() == 24);
        reveal_strlit("trig-reduce-fp-sound-nan");
        assert("counting"@.len() == 8);
        assert("trig-reduce-fp-sound-nan"@.len() == 24);
        assert("counting"@ != "trig-reduce-fp-sound-nan"@);
        reveal_strlit("trig-reduce-fp-sound");
        assert("counting"@.len() == 8);
        assert("trig-reduce-fp-sound"@.len() == 20);
        reveal_strlit("trig-reduce-fp-sound");
        assert("counting"@.len() == 8);
        assert("trig-reduce-fp-sound"@.len() == 20);
        assert("counting"@ != "trig-reduce-fp-sound"@);
        reveal_strlit("trig-reduce");
        assert("counting"@.len() == 8);
        assert("trig-reduce"@.len() == 11);
        reveal_strlit("trig-reduce");
        assert("counting"@.len() == 8);
        assert("trig-reduce"@.len() == 11);
        assert("counting"@ != "trig-reduce"@);
        reveal_strlit("log-distribute-fp-safe");
        assert("counting"@.len() == 8);
        assert("log-distribute-fp-safe"@.len() == 22);
        reveal_strlit("log-distribute-fp-safe");
        assert("counting"@.len() == 8);
        assert("log-distribute-fp-safe"@.len() == 22);
        assert("counting"@ != "log-distribute-fp-safe"@);
        reveal_strlit("log-distribute");
        assert("counting"@.len() == 8);
        assert("log-distribute"@.len() == 14);
        reveal_strlit("log-distribute");
        assert("counting"@.len() == 8);
        assert("log-distribute"@.len() == 14);
        assert("counting"@ != "log-distribute"@);
        reveal_strlit("pow-canonicalize");
        assert("counting"@.len() == 8);
        assert("pow-canonicalize"@.len() == 16);
        reveal_strlit("pow-canonicalize");
        assert("counting"@.len() == 8);
        assert("pow-canonicalize"@.len() == 16);
        assert("counting"@ != "pow-canonicalize"@);
        reveal_strlit("pow-reduce-fp-safe-nan");
        assert("counting"@.len() == 8);
        assert("pow-reduce-fp-safe-nan"@.len() == 22);
        reveal_strlit("pow-reduce-fp-safe-nan");
        assert("counting"@.len() == 8);
        assert("pow-reduce-fp-safe-nan"@.len() == 22);
        assert("counting"@ != "pow-reduce-fp-safe-nan"@);
        reveal_strlit("pow-reduce-fp-safe");
        assert("counting"@.len() == 8);
        assert("pow-reduce-fp-safe"@.len() == 18);
        reveal_strlit("pow-reduce-fp-safe");
        assert("counting"@.len() == 8);
        assert("pow-reduce-fp-safe"@.len() == 18);
        assert("counting"@ != "pow-reduce-fp-safe"@);
        reveal_strlit("pow-reduce");
        assert("counting"@.len() == 8);
        assert("pow-reduce"@.len() == 10);
        reveal_strlit("pow-reduce");
        assert("counting"@.len() == 8);
        assert("pow-reduce"@.len() == 10);
        assert("counting"@ != "pow-reduce"@);
        reveal_strlit("exp-factor");
        assert("counting"@.len() == 8);
        assert("exp-factor"@.len() == 10);
        reveal_strlit("exp-factor");
        assert("counting"@.len() == 8);
        assert("exp-factor"@.len() == 10);
        assert("counting"@ != "exp-factor"@);
        reveal_strlit("exp-distribute");
        assert("counting"@.len() == 8);
        assert("exp-distribute"@.len() == 14);
        reveal_strlit("exp-distribute");
        assert("counting"@.len() == 8);
        assert("exp-distribute"@.len() == 14);
        assert("counting"@ != "exp-distribute"@);
        reveal_strlit("exp-constants");
        assert("counting"@.len() == 8);
        assert("exp-constants"@.len() == 13);
        reveal_strlit("exp-constants");
        assert("counting"@.len() == 8);
        assert("exp-constants"@.len() == 13);
        assert("counting"@ != "exp-constants"@);
        reveal_strlit("exp-reduce");
        assert("counting"@.len() == 8);
        assert("exp-reduce"@.len() == 10);
        reveal_strlit("exp-reduce");
        assert("counting"@.len() == 8);
        assert("exp-reduce"@.len() == 10);
        assert("counting"@ != "exp-reduce"@);
        reveal_strlit("cubes-canonicalize");
        assert("counting"@.len() == 8);
        assert("cubes-canonicalize"@.len() == 18);
        reveal_strlit("cubes-canonicalize");
        assert("counting"@.len() == 8);
        assert("cubes-canonicalize"@.len() == 18);
        assert("counting"@ != "cubes-canonicalize"@);
        reveal_strlit("cubes-distribute");
        assert("counting"@.len() == 8);
        assert("cubes-distribute"@.len() == 16);
        reveal_strlit("cubes-distribute");
        assert("counting"@.len() == 8);
        assert("cubes-distribute"@.len() == 16);
        assert("counting"@ != "cubes-distribute"@);
        reveal_strlit("cubes-reduce");
        assert("counting"@.len() == 8);
        assert("cubes-reduce"@.len() == 12);
        reveal_strlit("cubes-reduce");
        assert("counting"@.len() == 8);
        assert("cubes-reduce"@.len() == 12);
        assert("counting"@ != "cubes-reduce"@);
        reveal_strlit("squares-reduce-fp-sound");
        assert("counting"@.len() == 8);
        assert("squares-reduce-fp-sound"@.len() == 23);
        reveal_strlit("squares-reduce-fp-sound");
        assert("counting"@.len() == 8);
        assert("squares-reduce-fp-sound"@.len() == 23);
        assert("counting"@ != "squares-reduce-fp-sound"@);
        reveal_strlit("squares-reduce");
        assert("counting"@.len() == 8);
        assert("squares-reduce"@.len() == 14);
        reveal_strlit("squares-reduce");
        assert("counting"@.len() == 8);
        assert("squares-reduce"@.len() == 14);
        assert("counting"@ != "squares-reduce"@);
        reveal_strlit("fractions-distribute.c");
        assert("counting"@.len() == 8);
        assert("fractions-distribute.c"@.len() == 22);
        reveal_strlit("fractions-distribute.c");
        assert("counting"@.len() == 8);
        assert("fractions-distribute.c"@.len() == 22);
        assert("counting"@ != "fractions-distribute.c"@);
        reveal_strlit("fractions-distribute");
        assert("counting"@.len() == 8);
        assert("fractions-distribute"@.len() == 20);
        reveal_strlit("fractions-distribute");
        assert("counting"@.len() == 8);
        assert("fractions-distribute"@.len() == 20);
        assert("counting"@ != "fractions-distribute"@);
        reveal_strlit("id-reduce-fp-safe");
        assert("counting"@.len() == 8);
        assert("id-reduce-fp-safe"@.len() == 17);
        reveal_strlit("id-reduce-fp-safe");
        assert("counting"@.len() == 8);
        assert("id-reduce-fp-safe"@.len() == 17);
        assert("counting"@ != "id-reduce-fp-safe"@);
        reveal_strlit("id-reduce-fp-safe-nan");
        assert("counting"@.len() == 8);
        assert("id-reduce-fp-safe-nan"@.len() == 21);
        reveal_strlit("id-reduce-fp-safe-nan");
        assert("counting"@.len() == 8);
        assert("id-reduce-fp-safe-nan"@.len() == 21);
        assert("counting"@ != "id-reduce-fp-safe-nan"@);
        reveal_strlit("id-reduce");
        assert("counting"@.len() == 8);
        assert("id-reduce"@.len() == 9);
        reveal_strlit("id-reduce");
        assert("counting"@.len() == 8);
        assert("id-reduce"@.len() == 9);
        assert("counting"@ != "id-reduce"@);
        reveal_strlit("difference-of-squares-canonicalize");
        assert("counting"@.len() == 8);
        assert("difference-of-squares-canonicalize"@.len() == 34);
        reveal_strlit("difference-of-squares-canonicalize");
        assert("counting"@.len() == 8);
        assert("difference-of-squares-canonicalize"@.len() == 34);
        assert("counting"@ != "difference-of-squares-canonicalize"@);
        reveal_strlit("distributivity-fp-safe");
        assert("counting"@.len() == 8);
        assert("distributivity-fp-safe"@.len() == 22);
        reveal_strlit("distributivity-fp-safe");
        assert("counting"@.len() == 8);
        assert("distributivity-fp-safe"@.len() == 22);
        assert("counting"@ != "distributivity-fp-safe"@);
        reveal_strlit("distributivity.c");
        assert("counting"@.len() == 8);
        assert("distributivity.c"@.len() == 16);
        reveal_strlit("distributivity.c");
        assert("counting"@.len() == 8);
        assert("distributivity.c"@.len() == 16);
        assert("counting"@ != "distributivity.c"@);
        reveal_strlit("distributivity");
        assert("counting"@.len() == 8);
        assert("distributivity"@.len() == 14);
        reveal_strlit("distributivity");
        assert("counting"@.len() == 8);
        assert("distributivity"@.len() == 14);
        assert("counting"@ != "distributivity"@);
        assert(group_names(group_models(groups@)) =~= seq!["erf-rules"@, "complex-number-basics"@, "branch-reduce"@, "compare-reduce"@, "bool-reduce"@, "htrig-reduce"@, "trig-reduce-fp-sound-nan"@, "trig-reduce-fp-sound"@, "trig-reduce"@, "log-distribute-fp-safe"@, "log-distribute"@, "pow-canonicalize"@, "pow-reduce-fp-safe-nan"@, "pow-reduce-fp-safe"@, "pow-reduce"@, "exp-factor"@, "exp-distribute"@, "exp-constants"@, "exp-reduce"@, "cubes-canonicalize"@, "cubes-distribute"@, "cubes-reduce"@, "squares-reduce-fp-sound"@, "squares-reduce"@, "fractions-distribute.c"@, "fractions-distribute"@, "id-reduce-fp-safe"@, "id-reduce-fp-safe-nan"@, "id-reduce"@, "difference-of-squares-canonicalize"@, "distributivity-fp-safe"@, "distributivity.c"@, "distributivity"@]);
        assert forall|j: int| 0 <= j < group_names(group_models(groups@)).len() implies
            group_names(group_models(groups@))[j] != "counting"@ by {}
        assert(!group_names(group_models(groups@)).contains("counting"@));
    }
    match push_group(groups, "counting", g) {
        Ok(()) => {},
        Err(e) => {
            proof { assert(false); }
            return Err(e);
        },
    }
    proof {
        assert(group_models(groups@) =~= seq![crate::corpus::corpus_group_0(), crate::corpus::corpus_group_1(), crate::corpus::corpus_group_2(), crate::corpus::corpus_group_3(), crate::corpus::corpus_group_4(), crate::corpus::corpus_group_5(), crate::corpus::corpus_group_6(), crate::corpus::corpus_group_7(), crate::corpus::corpus_group_8(), crate::corpus::corpus_group_9(), crate::corpus::corpus_group_10(), crate::corpus::corpus_group_11(), crate::corpus::corpus_group_12(), crate::corpus::corpus_group_13(), crate::corpus::corpus_group_14(), crate::corpus::corpus_group_15(), crate::corpus::corpus_group_16(), crate::corpus::corpus_group_17(), crate::corpus::corpus_group_18(), crate::corpus::corpus_group_19(), crate::corpus::corpus_group_20(), crate::corpus::corpus_group_21(), crate::corpus::corpus_group_22(), crate::corpus::corpus_group_23(), crate::corpus::corpus_group_24(), crate::corpus::corpus_group_25(), crate::corpus::corpus_group_26(), crate::corpus::corpus_group_27(), crate::corpus::corpus_group_28(), crate::corpus::corpus_group_29(), crate::corpus::corpus_group_30(), crate::corpus::corpus_group_31(), crate::corpus::corpus_group_32(), crate::corpus::corpus_group_33()]);
    }
    Ok(())
}

#[verifier::spinoff_prover]
#[verifier::rlimit(100)]
/// Build and append the `associativity.c` group.
fn corpus_push_34(groups: &mut Vec<RuleGroup>) -> (r: Result<(), RuleError>)
    requires
        group_models(old(groups)@) == seq![crate::corpus::corpus_group_0(), crate::corpus::corpus_group_1(), crate::corpus::corpus_group_2(), crate::corpus::corpus_group_3(), crate::corpus::corpus_group_4(), crate::corpus::corpus_group_5(), crate::corpus::corpus_group_6(), crate::corpus::corpus_group_7(), crate::corpus::corpus_group_8(), crate::corpus::corpus_group_9(), crate::corpus::corpus_group_10(), crate::corpus::corpus_group_11(), crate::corpus::corpus_group_12(), crate::corpus::corpus_group_13(), crate::corpus::corpus_group_14(), crate::corpus::corpus_group_15(), crate::corpus::corpus_group_16(), crate::corpus::corpus_group_17(), crate::corpus::corpus_group_18(), crate::corpus::corpus_group_19(), crate::corpus::corpus_group_20(), crate::corpus::corpus_group_21(), crate::corpus::corpus_group_22(), crate::corpus::corpus_group_23(), crate::corpus::corpus_group_24(), crate::corpus::corpus_group_25(), crate::corpus::corpus_group_26(), crate::corpus::corpus_group_27(), crate::corpus::corpus_group_28(), crate::corpus::corpus_group_29(), crate::corpus::corpus_group_30(), crate::corpus::corpus_group_31(), crate::corpus::corpus_group_32(), crate::corpus::corpus_group_33()],
    ensures
        r matches Ok(()) ==> group_models(final(groups)@) == seq![crate::corpus::corpus_group_0(), crate::corpus::corpus_group_1(), crate::corpus::corpus_group_2(), crate::corpus::corpus_group_3(), crate::corpus::corpus_group_4(), crate::corpus::corpus_group_5(), crate::corpus::corpus_group_6(), crate::corpus::corpus_group_7(), crate::corpus::corpus_group_8(), crate::corpus::corpus_group_9(), crate::corpus::corpus_group_10(), crate::corpus::corpus_group_11(), crate::corpus::corpus_group_12(), crate::corpus::corpus_group_13(), crate::corpus::corpus_group_14(), crate::corpus::corpus_group_15(), crate::corpus::corpus_group_16(), crate::corpus::corpus_group_17(), crate::corpus::corpus_group_18(), crate::corpus::corpus_group_19(), crate::corpus::corpus_group_20(), crate::corpus::corpus_group_21(), crate::corpus::corpus_group_22(), crate::corpus::corpus_group_23(), crate::corpus::corpus_group_24(), crate::corpus::corpus_group_25(), crate::corpus::corpus_group_26(), crate::corpus::corpus_group_27(), crate::corpus::corpus_group_28(), crate::corpus::corpus_group_29(), crate::corpus::corpus_group_30(), crate::corpus::corpus_group_31(), crate::corpus::corpus_group_32(), crate::corpus::corpus_group_33(), crate::corpus::corpus_group_34()],
        r is Err ==> !crate::corpus::corpus_rules_ok(),
{
    let mut t: Vec<(&str, &str, &str)> = Vec::new();
    t.push(("associate-+r+.c", "(+.c ?a (+.c ?b ?c))", "(+.c (+.c ?a ?b) ?c)"));
    t.push(("associate-+l+.c", "(+.c (+.c ?a ?b) ?c)", "(+.c ?a (+.c ?b ?c))"));
    t.push(("associate-+r-.c", "(+.c ?a (-.c ?b ?c))", "(-.c (+.c ?a ?b) ?c)"));
    t.push(("associate-+l-.c", "(+.c (-.c ?a ?b) ?c)", "(-.c ?a (-.c ?b ?c))"));
    t.push(("associate--r+.c", "(-.c ?a (+.c ?b ?c))", "(-.c (-.c ?a ?b) ?c)"));
    t.push(("associate--l+.c", "(-.c (+.c ?a ?b) ?c)", "(+.c ?a (-.c ?b ?c))"));
    t.push(("associate--l-.c", "(-.c (-.c ?a ?b) ?c)", "(-.c ?a (+.c ?b ?c))"));
    t.push(("associate--r-.c", "(-.c ?a (-.c ?b ?c))", "(+.c (-.c ?a ?b) ?c)"));
    t.push(("associate-*r*.c", "(*.c ?a (*.c ?b ?c))", "(*.c (*.c ?a ?b) ?c)"));
    t.push(("associate-*l*.c", "(*.c (*.c ?a ?b) ?c)", "(*.c ?a (*.c ?b ?c))"));
    t.push(("associate-*r/.c", "(*.c ?a (/.c ?b ?c))", "(/.c (*.c ?a ?b) ?c)"));
    t.push(("associate-*l/.c", "(*.c (/.c ?a ?b) ?c)", "(/.c (*.c ?a ?c) ?b)"));
    t.push(("associate-/r*.c", "(/.c ?a (*.c ?b ?c))", "(/.c (/.c ?a ?b) ?c)"));
    t.push(("associate-/l*.c", "(/.c (*.c ?b ?c) ?a)", "(/.c ?b (/.c ?a ?c))"));
    t.push(("associate-/r/.c", "(/.c ?a (/.c ?b ?c))", "(*.c (/.c ?a ?b) ?c)"));
    t.push(("associate-/l/.c", "(/.c (/.c ?b ?c) ?a)", "(/.c ?b (*.c ?a ?c))"));
    t.push(("sub-neg.c", "(-.c ?a ?b)", "(+.c ?a (neg.c ?b))"));
    t.push(("unsub-neg.c", "(+.c ?a (neg.c ?b))", "(-.c ?a ?b)"));
    proof {
        assert(t@.len() == 18);
        assert forall|i: int| 0 <= i < t@.len() implies rule_ok(#[trigger] t@[i])
            == rule_ok(crate::corpus::group_tuples_34()[i]) by {
            if i == 0 {
                assert(t@[0].1@ == crate::corpus::group_tuples_34()[0].1@);
                assert(t@[0].2@ == crate::corpus::group_tuples_34()[0].2@);
            } else if i == 1 {
                assert(t@[1].1@ == crate::corpus::group_tuples_34()[1].1@);
                assert(t@[1].2@ == crate::corpus::group_tuples_34()[1].2@);
            } else if i == 2 {
                assert(t@[2].1@ == crate::corpus::group_tuples_34()[2].1@);
                assert(t@[2].2@ == crate::corpus::group_tuples_34()[2].2@);
            } else if i == 3 {
                assert(t@[3].1@ == crate::corpus::group_tuples_34()[3].1@);
                assert(t@[3].2@ == crate::corpus::group_tuples_34()[3].2@);
            } else if i == 4 {
                assert(t@[4].1@ == crate::corpus::group_tuples_34()[4].1@);
                assert(t@[4].2@ == crate::corpus::group_tuples_34()[4].2@);
            } else if i == 5 {
                assert(t@[5].1@ == crate::corpus::group_tuples_34()[5].1@);
                assert(t@[5].2@ == crate::corpus::group_tuples_34()[5].2@);
            } else if i == 6 {
                assert(t@[6].1@ == crate::corpus::group_tuples_34()[6].1@);
                assert(t@[6].2@ == crate::corpus::group_tuples_34()[6].2@);
            } else if i == 7 {
                assert(t@[7].1@ == crate::corpus::group_tuples_34()[7].1@);
                assert(t@[7].2@ == crate::corpus::group_tuples_34()[7].2@);
            } else if i == 8 {
                assert(t@[8].1@ == crate::corpus::group_tuples_34()[8].1@);
                assert(t@[8].2@ == crate::corpus::group_tuples_34()[8].2@);
            } else if i == 9 {
                assert(t@[9].1@ == crate::corpus::group_tuples_34()[9].1@);
                assert(t@[9].2@ == crate::corpus::group_tuples_34()[9].2@);
            } else if i == 10 {
                assert(t@[10].1@ == crate::corpus::group_tuples_34()[10].1@);
                assert(t@[10].2@ == crate::corpus::group_tuples_34()[10].2@);
            } else if i == 11 {
                assert(t@[11].1@ == crate::corpus::group_tuples_34()[11].1@);
                assert(t@[11].2@ == crate::corpus::group_tuples_34()[11].2@);
            } else if i == 12 {
                assert(t@[12].1@ == crate::corpus::group_tuples_34()[12].1@);
                assert(t@[12].2@ == crate::corpus::group_tuples_34()[12].2@);
            } else if i == 13 {
                assert(t@[13].1@ == crate::corpus::group_tuples_34()[13].1@);
                assert(t@[13].2@ == crate::corpus::group_tuples_34()[13].2@);
            } else if i == 14 {
                assert(t@[14].1@ == crate::corpus::group_tuples_34()[14].1@);
                assert(t@[14].2@ == crate::corpus::group_tuples_34()[14].2@);
            } else if i == 15 {
                assert(t@[15].1@ == crate::corpus::group_tuples_34()[15].1@);
                assert(t@[15].2@ == crate::corpus::group_tuples_34()[15].2@);
            } else if i == 16 {
                assert(t@[16].1@ == crate::corpus::group_tuples_34()[16].1@);
                assert(t@[16].2@ == crate::corpus::group_tuples_34()[16].2@);
            } else if i == 17 {
                assert(t@[17].1@ == crate::corpus::group_tuples_34()[17].1@);
                assert(t@[17].2@ == crate::corpus::group_tuples_34()[17].2@);
            }
        }
    }
    let g = match mk_rules(t.as_slice()) {
        Ok(g) => g,
        Err(e) => {
            proof {
                assert(!(forall|i: int| 0 <= i < crate::corpus::group_tuples_34().len()
                    ==> rule_ok(#[trigger] crate::corpus::group_tuples_34()[i])));
                assert(!crate::corpus::corpus_rules_ok());
            }
            return Err(e);
        },
    };
    proof {
        assert(rewrite_models(g@) =~= crate::corpus::corpus_group_34().rules);
        reveal_strlit("associativity.c");
        reveal_strlit("erf-rules");
        assert("associativity.c"@.len() == 15);
        assert("erf-rules"@.len() == 9);
        reveal_strlit("erf-rules");
        assert("associativity.c"@.len() == 15);
        assert("erf-rules"@.len() == 9);
        assert("associativity.c"@ != "erf-rules"@);
        reveal_strlit("complex-number-basics");
        assert("associativity.c"@.len() == 15);
        assert("complex-number-basics"@.len() == 21);
        reveal_strlit("complex-number-basics");
        assert("associativity.c"@.len() == 15);
        assert("complex-number-basics"@.len() == 21);
        assert("associativity.c"@ != "complex-number-basics"@);
        reveal_strlit("branch-reduce");
        assert("associativity.c"@.len() == 15);
        assert("branch-reduce"@.len() == 13);
        reveal_strlit("branch-reduce");
        assert("associativity.c"@.len() == 15);
        assert("branch-reduce"@.len() == 13);
        assert("associativity.c"@ != "branch-reduce"@);
        reveal_strlit("compare-reduce");
        assert("associativity.c"@.len() == 15);
        assert("compare-reduce"@.len() == 14);
        reveal_strlit("compare-reduce");
        assert("associativity.c"@.len() == 15);
        assert("compare-reduce"@.len() == 14);
        assert("associativity.c"@ != "compare-reduce"@);
        reveal_strlit("bool-reduce");
        assert("associativity.c"@.len() == 15);
        assert("bool-reduce"@.len() == 11);
        reveal_strlit("bool-reduce");
        assert("associativity.c"@.len() == 15);
        assert("bool-reduce"@.len() == 11);
        assert("associativity.c"@ != "bool-reduce"@);
        reveal_strlit("htrig-reduce");
        assert("associativity.c"@.len() == 15);
        assert("htrig-reduce"@.len() == 12);
        reveal_strlit("htrig-reduce");
        assert("associativity.c"@.len() == 15);
        assert("htrig-reduce"@.len() == 12);
        assert("associativity.c"@ != "htrig-reduce"@);
        reveal_strlit("trig-reduce-fp-sound-nan");
        assert("associativity.c"@.len() == 15);
        assert("trig-reduce-fp-sound-nan"@.len() == 24);
        reveal_strlit("trig-reduce-fp-sound-nan");
        assert("associativity.c"@.len() == 15);
        assert("trig-reduce-fp-sound-nan"@.len() == 24);
        assert("associativity.c"@ != "trig-reduce-fp-sound-nan"@);
        reveal_strlit("trig-reduce-fp-sound");
        assert("associativity.c"@.len() == 15);
        assert("trig-reduce-fp-sound"@.len() == 20);
        reveal_strlit("trig-reduce-fp-sound");
        assert("associativity.c"@.len() == 15);
        assert("trig-reduce-fp-sound"@.len() == 20);
        assert("associativity.c"@ != "trig-reduce-fp-sound"@);
        reveal_strlit("trig-reduce");
        assert("associativity.c"@.len() == 15);
        assert("trig-reduce"@.len() == 11);
        reveal_strlit("trig-reduce");
        assert("associativity.c"@.len() == 15);
        assert("trig-reduce"@.len() == 11);
        assert("associativity.c"@ != "trig-reduce"@);
        reveal_strlit("log-distribute-fp-safe");
        assert("associativity.c"@.len() == 15);
        assert("log-distribute-fp-safe"@.len() == 22);
        reveal_strlit("log-distribute-fp-safe");
        assert("associativity.c"@.len() == 15);
        assert("log-distribute-fp-safe"@.len() == 22);
        assert("associativity.c"@ != "log-distribute-fp-safe"@);
        reveal_strlit("log-distribute");
        assert("associativity.c"@.len() == 15);
        assert("log-distribute"@.len() == 14);
        reveal_strlit("log-distribute");
        assert("associativity.c"@.len() == 15);
        assert("log-distribute"@.len() == 14);
        assert("associativity.c"@ != "log-distribute"@);
        reveal_strlit("pow-canonicalize");
        assert("associativity.c"@.len() == 15);
        assert("pow-canonicalize"@.len() == 16);
        reveal_strlit("pow-canonicalize");
        assert("associativity.c"@.len() == 15);
        assert("pow-canonicalize"@.len() == 16);
        assert("associativity.c"@ != "pow-canonicalize"@);
        reveal_strlit("pow-reduce-fp-safe-nan");
        assert("associativity.c"@.len() == 15);
        assert("pow-reduce-fp-safe-nan"@.len() == 22);
        reveal_strlit("pow-reduce-fp-safe-nan");
        assert("associativity.c"@.len() == 15);
        assert("pow-reduce-fp-safe-nan"@.len() == 22);
        assert("associativity.c"@ != "pow-reduce-fp-safe-nan"@);
        reveal_strlit("pow-reduce-fp-safe");
        assert("associativity.c"@.len() == 15);
        assert("pow-reduce-fp-safe"@.len() == 18);
        reveal_strlit("pow-reduce-fp-safe");
        assert("associativity.c"@.len() == 15);
        assert("pow-reduce-fp-safe"@.len() == 18);
        assert("associativity.c"@ != "pow-reduce-fp-safe"@);
        reveal_strlit("pow-reduce");
        assert("associativity.c"@.len() == 15);
        assert("pow-reduce"@.len() == 10);
        reveal_strlit("pow-reduce");
        assert("associativity.c"@.len() == 15);
        assert("pow-reduce"@.len() == 10);
        assert("associativity.c"@ != "pow-reduce"@);
        reveal_strlit("exp-factor");
        assert("associativity.c"@.len() == 15);
        assert("exp-factor"@.len() == 10);
        reveal_strlit("exp-factor");
        assert("associativity.c"@.len() == 15);
        assert("exp-factor"@.len() == 10);
        assert("associativity.c"@ != "exp-factor"@);
        reveal_strlit("exp-distribute");
        assert("associativity.c"@.len() == 15);
        assert("exp-distribute"@.len() == 14);
        reveal_strlit("exp-distribute");
        assert("associativity.c"@.len() == 15);
        assert("exp-distribute"@.len() == 14);
        assert("associativity.c"@ != "exp-distribute"@);
        reveal_strlit("exp-constants");
        assert("associativity.c"@.len() == 15);
        assert("exp-constants"@.len() == 13);
        reveal_strlit("exp-constants");
        assert("associativity.c"@.len() == 15);
        assert("exp-constants"@.len() == 13);
        assert("associativity.c"@ != "exp-constants"@);
        reveal_strlit("exp-reduce");
        assert("associativity.c"@.len() == 15);
        assert("exp-reduce"@.len() == 10);
        reveal_strlit("exp-reduce");
        assert("associativity.c"@.len() == 15);
        assert("exp-reduce"@.len() == 10);
        assert("associativity.c"@ != "exp-reduce"@);
        reveal_strlit("cubes-canonicalize");
        assert("associativity.c"@.len() == 15);
        assert("cubes-canonicalize"@.len() == 18);
        reveal_strlit("cubes-canonicalize");
        assert("associativity.c"@.len() == 15);
        assert("cubes-canonicalize"@.len() == 18);
        assert("associativity.c"@ != "cubes-canonicalize"@);
        reveal_strlit("cubes-distribute");
        assert("associativity.c"@.len() == 15);
        assert("cubes-distribute"@.len() == 16);
        reveal_strlit("cubes-distribute");
        assert("associativity.c"@.len() == 15);
        assert("cubes-distribute"@.len() == 16);
        assert("associativity.c"@ != "cubes-distribute"@);
        reveal_strlit("cubes-reduce");
        assert("associativity.c"@.len() == 15);
        assert("cubes-reduce"@.len() == 12);
        reveal_strlit("cubes-reduce");
        assert("associativity.c"@.len() == 15);
        assert("cubes-reduce"@.len() == 12);
        assert("associativity.c"@ != "cubes-reduce"@);
        reveal_strlit("squares-reduce-fp-sound");
        assert("associativity.c"@.len() == 15);
        assert("squares-reduce-fp-sound"@.len() == 23);
        reveal_strlit("squares-reduce-fp-sound");
        assert("associativity.c"@.len() == 15);
        assert("squares-reduce-fp-sound"@.len() == 23);
        assert("associativity.c"@ != "squares-reduce-fp-sound"@);
        reveal_strlit("squares-reduce");
        assert("associativity.c"@.len() == 15);
        assert("squares-reduce"@.len() == 14);
        reveal_strlit("squares-reduce");
        assert("associativity.c"@.len() == 15);
        assert("squares-reduce"@.len() == 14);
        assert("associativity.c"@ != "squares-reduce"@);
        reveal_strlit("fractions-distribute.c");
        assert("associativity.c"@.len() == 15);
        assert("fractions-distribute.c"@.len() == 22);
        reveal_strlit("fractions-distribute.c");
        assert("associativity.c"@.len() == 15);
        assert("fractions-distribute.c"@.len() == 22);
        assert("associativity.c"@ != "fractions-distribute.c"@);
        reveal_strlit("fractions-distribute");
        assert("associativity.c"@.len() == 15);
        assert("fractions-distribute"@.len() == 20);
        reveal_strlit("fractions-distribute");
        assert("associativity.c"@.len() == 15);
        assert("fractions-distribute"@.len() == 20);
        assert("associativity.c"@ != "fractions-distribute"@);
        reveal_strlit("id-reduce-fp-safe");
        assert("associativity.c"@.len() == 15);
        assert("id-reduce-fp-safe"@.len() == 17);
        reveal_strlit("id-reduce-fp-safe");
        assert("associativity.c"@.len() == 15);
        assert("id-reduce-fp-safe"@.len() == 17);
        assert("associativity.c"@ != "id-reduce-fp-safe"@);
        reveal_strlit("id-reduce-fp-safe-nan");
        assert("associativity.c"@.len() == 15);
        assert("id-reduce-fp-safe-nan"@.len() == 21);
        reveal_strlit("id-reduce-fp-safe-nan");
        assert("associativity.c"@.len() == 15);
        assert("id-reduce-fp-safe-nan"@.len() == 21);
        assert("associativity.c"@ != "id-reduce-fp-safe-nan"@);
        reveal_strlit("id-reduce");
        assert("associativity.c"@.len() == 15);
        assert("id-reduce"@.len() == 9);
        reveal_strlit("id-reduce");
        assert("associativity.c"@.len() == 15);
        assert("id-reduce"@.len() == 9);
        assert("associativity.c"@ != "id-reduce"@);
        reveal_strlit("difference-of-squares-canonicalize");
        assert("associativity.c"@.len() == 15);
        assert("difference-of-squares-canonicalize"@.len() == 34);
        reveal_strlit("difference-of-squares-canonicalize");
        assert("associativity.c"@.len() == 15);
        assert("difference-of-squares-canonicalize"@.len() == 34);
        assert("associativity.c"@ != "difference-of-squares-canonicalize"@);
        reveal_strlit("distributivity-fp-safe");
        assert("associativity.c"@.len() == 15);
        assert("distributivity-fp-safe"@.len() == 22);
        reveal_strlit("distributivity-fp-safe");
        assert("associativity.c"@.len() == 15);
        assert("distributivity-fp-safe"@.len() == 22);
        assert("associativity.c"@ != "distributivity-fp-safe"@);
        reveal_strlit("distributivity.c");
        assert("associativity.c"@.len() == 15);
        assert("distributivity.c"@.len() == 16);
        reveal_strlit("distributivity.c");
        assert("associativity.c"@.len() == 15);
        assert("distributivity.c"@.len() == 16);
        assert("associativity.c"@ != "distributivity.c"@);
        reveal_strlit("distributivity");
        assert("associativity.c"@.len() == 15);
        assert("distributivity"@.len() == 14);
        reveal_strlit("distributivity");
        assert("associativity.c"@.len() == 15);
        assert("distributivity"@.len() == 14);
        assert("associativity.c"@ != "distributivity"@);
        reveal_strlit("counting");
        assert("associativity.c"@.len() == 15);
        assert("counting"@.len() == 8);
        reveal_strlit("counting");
        assert("associativity.c"@.len() == 15);
        assert("counting"@.len() == 8);
        assert("associativity.c"@ != "counting"@);
        assert(group_names(group_models(groups@)) =~= seq!["erf-rules"@, "complex-number-basics"@, "branch-reduce"@, "compare-reduce"@, "bool-reduce"@, "htrig-reduce"@, "trig-reduce-fp-sound-nan"@, "trig-reduce-fp-sound"@, "trig-reduce"@, "log-distribute-fp-safe"@, "log-distribute"@, "pow-canonicalize"@, "pow-reduce-fp-safe-nan"@, "pow-reduce-fp-safe"@, "pow-reduce"@, "exp-factor"@, "exp-distribute"@, "exp-constants"@, "exp-reduce"@, "cubes-canonicalize"@, "cubes-distribute"@, "cubes-reduce"@, "squares-reduce-fp-sound"@, "squares-reduce"@, "fractions-distribute.c"@, "fractions-distribute"@, "id-reduce-fp-safe"@, "id-reduce-fp-safe-nan"@, "id-reduce"@, "difference-of-squares-canonicalize"@, "distributivity-fp-safe"@, "distributivity.c"@, "distributivity"@, "counting"@]);
        assert forall|j: int| 0 <= j < group_names(group_models(groups@)).len() implies
            group_names(group_models(groups@))[j] != "associativity.c"@ by {}
        assert(!group_names(group_models(groups@)).contains("associativity.c"@));
    }
    match push_group(groups, "associativity.c", g) {
        Ok(()) => {},
        Err(e) => {
            proof { assert(false); }
            return Err(e);
        },
    }
    proof {
        assert(group_models(groups@) =~= seq![crate::corpus::corpus_group_0(), crate::corpus::corpus_group_1(), crate::corpus::corpus_group_2(), crate::corpus::corpus_group_3(), crate::corpus::corpus_group_4(), crate::corpus::corpus_group_5(), crate::corpus::corpus_group_6(), crate::corpus::corpus_group_7(), crate::corpus::corpus_group_8(), crate::corpus::corpus_group_9(), crate::corpus::corpus_group_10(), crate::corpus::corpus_group_11(), crate::corpus::corpus_group_12(), crate::corpus::corpus_group_13(), crate::corpus::corpus_group_14(), crate::corpus::corpus_group_15(), crate::corpus::corpus_group_16(), crate::corpus::corpus_group_17(), crate::corpus::corpus_group_18(), crate::corpus::corpus_group_19(), crate::corpus::corpus_group_20(), crate::corpus::corpus_group_21(), crate::corpus::corpus_group_22(), crate::corpus::corpus_group_23(), crate::corpus::corpus_group_24(), crate::corpus::corpus_group_25(), crate::corpus::corpus_group_26(), crate::corpus::corpus_group_27(), crate::corpus::corpus_group_28(), crate::corpus::corpus_group_29(), crate::corpus::corpus_group_30(), crate::corpus::corpus_group_31(), crate::corpus::corpus_group_32(), crate::corpus::corpus_group_33(), crate::corpus::corpus_group_34()]);
    }
    Ok(())
}

#[verifier::spinoff_prover]
#[verifier::rlimit(100)]
/// Build and append the `associativity` group.
fn corpus_push_35(groups: &mut Vec<RuleGroup>) -> (r: Result<(), RuleError>)
    requires
        group_models(old(groups)@) == seq![crate::corpus::corpus_group_0(), crate::corpus::corpus_group_1(), crate::corpus::corpus_group_2(), crate::corpus::corpus_group_3(), crate::corpus::corpus_group_4(), crate::corpus::corpus_group_5(), crate::corpus::corpus_group_6(), crate::corpus::corpus_group_7(), crate::corpus::corpus_group_8(), crate::corpus::corpus_group_9(), crate::corpus::corpus_group_10(), crate::corpus::corpus_group_11(), crate::corpus::corpus_group_12(), crate::corpus::corpus_group_13(), crate::corpus::corpus_group_14(), crate::corpus::corpus_group_15(), crate::corpus::corpus_group_16(), crate::corpus::corpus_group_17(), crate::corpus::corpus_group_18(), crate::corpus::corpus_group_19(), crate::corpus::corpus_group_20(), crate::corpus::corpus_group_21(), crate::corpus::corpus_group_22(), crate::corpus::corpus_group_23(), crate::corpus::corpus_group_24(), crate::corpus::corpus_group_25(), crate::corpus::corpus_group_26(), crate::corpus::corpus_group_27(), crate::corpus::corpus_group_28(), crate::corpus::corpus_group_29(), crate::corpus::corpus_group_30(), crate::corpus::corpus_group_31(), crate::corpus::corpus_group_32(), crate::corpus::corpus_group_33(), crate::corpus::corpus_group_34()],
    ensures
        r matches Ok(()) ==> group_models(final(groups)@) == seq![crate::corpus::corpus_group_0(), crate::corpus::corpus_group_1(), crate::corpus::corpus_group_2(), crate::corpus::corpus_group_3(), crate::corpus::corpus_group_4(), crate::corpus::corpus_group_5(), crate::corpus::corpus_group_6(), crate::corpus::corpus_group_7(), crate::corpus::corpus_group_8(), crate::corpus::corpus_group_9(), crate::corpus::corpus_group_10(), crate::corpus::corpus_group_11(), crate::corpus::corpus_group_12(), crate::corpus::corpus_group_13(), crate::corpus::corpus_group_14(), crate::corpus::corpus_group_15(), crate::corpus::corpus_group_16(), crate::corpus::corpus_group_17(), crate::corpus::corpus_group_18(), crate::corpus::corpus_group_19(), crate::corpus::corpus_group_20(), crate::corpus::corpus_group_21(), crate::corpus::corpus_group_22(), crate::corpus::corpus_group_23(), crate::corpus::corpus_group_24(), crate::corpus::corpus_group_25(), crate::corpus::corpus_group_26(), crate::corpus::corpus_group_27(), crate::corpus::corpus_group_28(), crate::corpus::corpus_group_29(), crate::corpus::corpus_group_30(), crate::corpus::corpus_group_31(), crate::corpus::corpus_group_32(), crate::corpus::corpus_group_33(), crate::corpus::corpus_group_34(), crate::corpus::corpus_group_35()],
        r is Err ==> !crate::corpus::corpus_rules_ok(),
{
    let mut t: Vec<(&str, &str, &str)> = Vec::new();
    t.push(("associate-+r+", "(+ ?a (+ ?b ?c))", "(+ (+ ?a ?b) ?c)"));
    t.push(("associate-+l+", "(+ (+ ?a ?b) ?c)", "(+ ?a (+ ?b ?c))"));
    t.push(("associate-+r-", "(+ ?a (- ?b ?c))", "(- (+ ?a ?b) ?c)"));
    t.push(("associate-+l-", "(+ (- ?a ?b) ?c)", "(- ?a (- ?b ?c))"));
    t.push(("associate--r+", "(- ?a (+ ?b ?c))", "(- (- ?a ?b) ?c)"));
    t.push(("associate--l+", "(- (+ ?a ?b) ?c)", "(+ ?a (- ?b ?c))"));
    t.push(("associate--l-", "(- (- ?a ?b) ?c)", "(- ?a (+ ?b ?c))"));
    t.push(("associate--r-", "(- ?a (- ?b ?c))", "(+ (- ?a ?b) ?c)"));
    t.push(("associate-*r*", "(* ?a (* ?b ?c))", "(* (* ?a ?b) ?c)"));
    t.push(("associate-*l*", "(* (* ?a ?b) ?c)", "(* ?a (* ?b ?c))"));
    t.push(("associate-*r/", "(* ?a (/ ?b ?c))", "(/ (* ?a ?b) ?c)"));
    t.push(("associate-*l/", "(* (/ ?a ?b) ?c)", "(/ (* ?a ?c) ?b)"));
    t.push(("associate-/r*", "(/ ?a (* ?b ?c))", "(/ (/ ?a ?b) ?c)"));
    t.push(("associate-/l*", "(/ (* ?b ?c) ?a)", "(/ ?b (/ ?a ?c))"));
    t.push(("associate-/r/", "(/ ?a (/ ?b ?c))", "(* (/ ?a ?b) ?c)"));
    t.push(("associate-/l/", "(/ (/ ?b ?c) ?a)", "(/ ?b (* ?a ?c))"));
    t.push(("sub-neg", "(- ?a ?b)", "(+ ?a (neg ?b))"));
    t.push(("unsub-neg", "(+ ?a (neg ?b))", "(- ?a ?b)"));
    proof {
        assert(t@.len() == 18);
        assert forall|i: int| 0 <= i < t@.len() implies rule_ok(#[trigger] t@[i])
            == rule_ok(crate::corpus::group_tuples_35()[i]) by {
            if i == 0 {
                assert(t@[0].1@ == crate::corpus::group_tuples_35()[0].1@);
                assert(t@[0].2@ == crate::corpus::group_tuples_35()[0].2@);
            } else if i == 1 {
                assert(t@[1].1@ == crate::corpus::group_tuples_35()[1].1@);
                assert(t@[1].2@ == crate::corpus::group_tuples_35()[1].2@);
            } else if i == 2 {
                assert(t@[2].1@ == crate::corpus::group_tuples_35()[2].1@);
                assert(t@[2].2@ == crate::corpus::group_tuples_35()[2].2@);
            } else if i == 3 {
                assert(t@[3].1@ == crate::corpus::group_tuples_35()[3].1@);
                assert(t@[3].2@ == crate::corpus::group_tuples_35()[3].2@);
            } else if i == 4 {
                assert(t@[4].1@ == crate::corpus::group_tuples_35()[4].1@);
                assert(t@[4].2@ == crate::corpus::group_tuples_35()[4].2@);
            } else if i == 5 {
                assert(t@[5].1@ == crate::corpus::group_tuples_35()[5].1@);
                assert(t@[5].2@ == crate::corpus::group_tuples_35()[5].2@);
            } else if i == 6 {
                assert(t@[6].1@ == crate::corpus::group_tuples_35()[6].1@);
                assert(t@[6].2@ == crate::corpus::group_tuples_35()[6].2@);
            } else if i == 7 {
                assert(t@[7].1@ == crate::corpus::group_tuples_35()[7].1@);
                assert(t@[7].2@ == crate::corpus::group_tuples_35()[7].2@);
            } else if i == 8 {
                assert(t@[8].1@ == crate::corpus::group_tuples_35()[8].1@);
                assert(t@[8].2@ == crate::corpus::group_tuples_35()[8].2@);
            } else if i == 9 {
                assert(t@[9].1@ == crate::corpus::group_tuples_35()[9].1@);
                assert(t@[9].2@ == crate::corpus::group_tuples_35()[9].2@);
            } else if i == 10 {
                assert(t@[10].1@ == crate::corpus::group_tuples_35()[10].1@);
                assert(t@[10].2@ == crate::corpus::group_tuples_35()[10].2@);
            } else if i == 11 {
                assert(t@[11].1@ == crate::corpus::group_tuples_35()[11].1@);
                assert(t@[11].2@ == crate::corpus::group_tuples_35()[11].2@);
            } else if i == 12 {
                assert(t@[12].1@ == crate::corpus::group_tuples_35()[12].1@);
                assert(t@[12].2@ == crate::corpus::group_tuples_35()[12].2@);
            } else if i == 13 {
                assert(t@[13].1@ == crate::corpus::group_tuples_35()[13].1@);
                assert(t@[13].2@ == crate::corpus::group_tuples_35()[13].2@);
            } else if i == 14 {
                assert(t@[14].1@ == crate::corpus::group_tuples_35()[14].1@);
                assert(t@[14].2@ == crate::corpus::group_tuples_35()[14].2@);
            } else if i == 15 {
                assert(t@[15].1@ == crate::corpus::group_tuples_35()[15].1@);
                assert(t@[15].2@ == crate::corpus::group_tuples_35()[15].2@);
            } else if i == 16 {
                assert(t@[16].1@ == crate::corpus::group_tuples_35()[16].1@);
                assert(t@[16].2@ == crate::corpus::group_tuples_35()[16].2@);
            } else if i == 17 {
                assert(t@[17].1@ == crate::corpus::group_tuples_35()[17].1@);
                assert(t@[17].2@ == crate::corpus::group_tuples_35()[17].2@);
            }
        }
    }
    let g = match mk_rules(t.as_slice()) {
        Ok(g) => g,
        Err(e) => {
            proof {
                assert(!(forall|i: int| 0 <= i < crate::corpus::group_tuples_35().len()
                    ==> rule_ok(#[trigger] crate::corpus::group_tuples_35()[i])));
                assert(!crate::corpus::corpus_rules_ok());
            }
            return Err(e);
        },
    };
    proof {
        assert(rewrite_models(g@) =~= crate::corpus::corpus_group_35().rules);
        reveal_strlit("associativity");
        reveal_strlit("erf-rules");
        assert("associativity"@.len() == 13);
        assert("erf-rules"@.len() == 9);
        reveal_strlit("erf-rules");
        assert("associativity"@.len() == 13);
        assert("erf-rules"@.len() == 9);
        assert("associativity"@ != "erf-rules"@);
        reveal_strlit("complex-number-basics");
        assert("associativity"@.len() == 13);
        assert("complex-number-basics"@.len() == 21);
        reveal_strlit("complex-number-basics");
        assert("associativity"@.len() == 13);
        assert("complex-number-basics"@.len() == 21);
        assert("associativity"@ != "complex-number-basics"@);
        reveal_strlit("branch-reduce");
        assert("associativity"@[0] != "branch-reduce"@[0]);
        reveal_strlit("branch-reduce");
        assert("associativity"@.len() == 13);
        assert("branch-reduce"@.len() == 13);
        reveal_strlit("branch-reduce");
        assert("associativity"@.len() == 13);
        assert("branch-reduce"@.len() == 13);
        assert("associativity"@ != "branch-reduce"@);
        reveal_strlit("compare-reduce");
        assert("associativity"@.len() == 13);
        assert("compare-reduce"@.len() == 14);
        reveal_strlit("compare-reduce");
        assert("associativity"@.len() == 13);
        assert("compare-reduce"@.len() == 14);
        assert("associativity"@ != "compare-reduce"@);
        reveal_strlit("bool-reduce");
        assert("associativity"@.len() == 13);
        assert("bool-reduce"@.len() == 11);
        reveal_strlit("bool-reduce");
        assert("associativity"@.len() == 13);
        assert("bool-reduce"@.len() == 11);
        assert("associativity"@ != "bool-reduce"@);
        reveal_strlit("htrig-reduce");
        assert("associativity"@.len() == 13);
        assert("htrig-reduce"@.len() == 12);
        reveal_strlit("htrig-reduce");
        assert("associativity"@.len() == 13);
        assert("htrig-reduce"@.len() == 12);
        assert("associativity"@ != "htrig-reduce"@);
        reveal_strlit("trig-reduce-fp-sound-nan");
        assert("associativity"@.len() == 13);
        assert("trig-reduce-fp-sound-nan"@.len() == 24);
        reveal_strlit("trig-reduce-fp-sound-nan");
        assert("associativity"@.len() == 13);
        assert("trig-reduce-fp-sound-nan"@.len() == 24);
        assert("associativity"@ != "trig-reduce-fp-sound-nan"@);
        reveal_strlit("trig-reduce-fp-sound");
        assert("associativity"@.len() == 13);
        assert("trig-reduce-fp-sound"@.len() == 20);
        reveal_strlit("trig-reduce-fp-sound");
        assert("associativity"@.len() == 13);
        assert("trig-reduce-fp-sound"@.len() == 20);
        assert("associativity"@ != "trig-reduce-fp-sound"@);
        reveal_strlit("trig-reduce");
        assert("associativity"@.len() == 13);
        assert("trig-reduce"@.len() == 11);
        reveal_strlit("trig-reduce");
        assert("associativity"@.len() == 13);
        assert("trig-reduce"@.len() == 11);
        assert("associativity"@ != "trig-reduce"@);
        reveal_strlit("log-distribute-fp-safe");
        assert("associativity"@.len() == 13);
        assert("log-distribute-fp-safe"@.len() == 22);
        reveal_strlit("log-distribute-fp-safe");
        assert("associativity"@.len() == 13);
        assert("log-distribute-fp-safe"@.len() == 22);
        assert("associativity"@ != "log-distribute-fp-safe"@);
        reveal_strlit("log-distribute");
        assert("associativity"@.len() == 13);
        assert("log-distribute"@.len() == 14);
        reveal_strlit("log-distribute");
        assert("associativity"@.len() == 13);
        assert("log-distribute"@.len() == 14);
        assert("associativity"@ != "log-distribute"@);
        reveal_strlit("pow-canonicalize");
        assert("associativity"@.len() == 13);
        assert("pow-canonicalize"@.len() == 16);
        reveal_strlit("pow-canonicalize");
        assert("associativity"@.len() == 13);
        assert("pow-canonicalize"@.len() == 16);
        assert("associativity"@ != "pow-canonicalize"@);
        reveal_strlit("pow-reduce-fp-safe-nan");
        assert("associativity"@.len() == 13);
        assert("pow-reduce-fp-safe-nan"@.len() == 22);
        reveal_strlit("pow-reduce-fp-safe-nan");
        assert("associativity"@.len() == 13);
        assert("pow-reduce-fp-safe-nan"@.len() == 22);
        assert("associativity"@ != "pow-reduce-fp-safe-nan"@);
        reveal_strlit("pow-reduce-fp-safe");
        assert("associativity"@.len() == 13);
        assert("pow-reduce-fp-safe"@.len() == 18);
        reveal_strlit("pow-reduce-fp-safe");
        assert("associativity"@.len() == 13);
        assert("pow-reduce-fp-safe"@.len() == 18);
        assert("associativity"@ != "pow-reduce-fp-safe"@);
        reveal_strlit("pow-reduce");
        assert("associativity"@.len() == 13);
        assert("pow-reduce"@.len() == 10);
        reveal_strlit("pow-reduce");
        assert("associativity"@.len() == 13);
        assert("pow-reduce"@.len() == 10);
        assert("associativity"@ != "pow-reduce"@);
        reveal_strlit("exp-factor");
        assert("associativity"@.len() == 13);
        assert("exp-factor"@.len() == 10);
        reveal_strlit("exp-factor");
        assert("associativity"@.len() == 13);
        assert("exp-factor"@.len() == 10);
        assert("associativity"@ != "exp-factor"@);
        reveal_strlit("exp-distribute");
        assert("associativity"@.len() == 13);
        assert("exp-distribute"@.len() == 14);
        reveal_strlit("exp-distribute");
        assert("associativity"@.len() == 13);
        assert("exp-distribute"@.len() == 14);
        assert("associativity"@ != "exp-distribute"@);
        reveal_strlit("exp-constants");
        assert("associativity"@[0] != "exp-constants"@[0]);
        reveal_strlit("exp-constants");
        assert("associativity"@.len() == 13);
        assert("exp-constants"@.len() == 13);
        reveal_strlit("exp-constants");
        assert("associativity"@.len() == 13);
        assert("exp-constants"@.len() == 13);
        assert("associativity"@ != "exp-constants"@);
        reveal_strlit("exp-reduce");
        assert("associativity"@.len() == 13);
        assert("exp-reduce"@.len() == 10);
        reveal_strlit("exp-reduce");
        assert("associativity"@.len() == 13);
        assert("exp-reduce"@.len() == 10);
        assert("associativity"@ != "exp-reduce"@);
        reveal_strlit("cubes-canonicalize");
        assert("associativity"@.len() == 13);
        assert("cubes-canonicalize"@.len() == 18);
        reveal_strlit("cubes-canonicalize");
        assert("associativity"@.len() == 13);
        assert("cubes-canonicalize"@.len() == 18);
        assert("associativity"@ != "cubes-canonicalize"@);
        reveal_strlit("cubes-distribute");
        assert("associativity"@.len() == 13);
        assert("cubes-distribute"@.len() == 16);
        reveal_strlit("cubes-distribute");
        assert("associativity"@.len() == 13);
        assert("cubes-distribute"@.len() == 16);
        assert("associativity"@ != "cubes-distribute"@);
        reveal_strlit("cubes-reduce");
        assert("associativity"@.len() == 13);
        assert("cubes-reduce"@.len() == 12);
        reveal_strlit("cubes-reduce");
        assert("associativity"@.len() == 13);
        assert("cubes-reduce"@.len() == 12);
        assert("associativity"@ != "cubes-reduce"@);
        reveal_strlit("squares-reduce-fp-sound");
        assert("associativity"@.len() == 13);
        assert("squares-reduce-fp-sound"@.len() == 23);
        reveal_strlit("squares-reduce-fp-sound");
        assert("associativity"@.len() == 13);
        assert("squares-reduce-fp-sound"@.len() == 23);
        assert("associativity"@ != "squares-reduce-fp-sound"@);
        reveal_strlit("squares-reduce");
        assert("associativity"@.len() == 13);
        assert("squares-reduce"@.len() == 14);
        reveal_strlit("squares-reduce");
        assert("associativity"@.len() == 13);
        assert("squares-reduce"@.len() == 14);
        assert("associativity"@ != "squares-reduce"@);
        reveal_strlit("fractions-distribute.c");
        assert("associativity"@.len() == 13);
        assert("fractions-distribute.c"@.len() == 22);
        reveal_strlit("fractions-distribute.c");
        assert("associativity"@.len() == 13);
        assert("fractions-distribute.c"@.len() == 22);
        assert("associativity"@ != "fractions-distribute.c"@);
        reveal_strlit("fractions-distribute");
        assert("associativity"@.len() == 13);
        assert("fractions-distribute"@.len() == 20);
        reveal_strlit("fractions-distribute");
        assert("associativity"@.len() == 13);
        assert("fractions-distribute"@.len() == 20);
        assert("associativity"@ != "fractions-distribute"@);
        reveal_strlit("id-reduce-fp-safe");
        assert("associativity"@.len() == 13);
        assert("id-reduce-fp-safe"@.len() == 17);
        reveal_strlit("id-reduce-fp-safe");
        assert("associativity"@.len() == 13);
        assert("id-reduce-fp-safe"@.len() == 17);
        assert("associativity"@ != "id-reduce-fp-safe"@);
        reveal_strlit("id-reduce-fp-safe-nan");
        assert("associativity"@.len() == 13);
        assert("id-reduce-fp-safe-nan"@.len() == 21);
        reveal_strlit("id-reduce-fp-safe-nan");
        assert("associativity"@.len() == 13);
        assert("id-reduce-fp-safe-nan"@.len() == 21);
        assert("associativity"@ != "id-reduce-fp-safe-nan"@);
        reveal_strlit("id-reduce");
        assert("associativity"@.len() == 13);
        assert("id-reduce"@.len() == 9);
        reveal_strlit("id-reduce");
        assert("associativity"@.len() == 13);
        assert("id-reduce"@.len() == 9);
        assert("associativity"@ != "id-reduce"@);
        reveal_strlit("difference-of-squares-canonicalize");
        assert("associativity"@.len() == 13);
        assert("difference-of-squares-canonicalize"@.len() == 34);
        reveal_strlit("difference-of-squares-canonicalize");
        assert("associativity"@.len() == 13);
        assert("difference-of-squares-canonicalize"@.len() == 34);
        assert("associativity"@ != "difference-of-squares-canonicalize"@);
        reveal_strlit("distributivity-fp-safe");
        assert("associativity"@.len() == 13);
        assert("distributivity-fp-safe"@.len() == 22);
        reveal_strlit("distributivity-fp-safe");
        assert("associativity"@.len() == 13);
        assert("distributivity-fp-safe"@.len() == 22);
        assert("associativity"@ != "distributivity-fp-safe"@);
        reveal_strlit("distributivity.c");
        assert("associativity"@.len() == 13);
        assert("distributivity.c"@.len() == 16);
        reveal_strlit("distributivity.c");
        assert("associativity"@.len() == 13);
        assert("distributivity.c"@.len() == 16);
        assert("associativity"@ != "distributivity.c"@);
        reveal_strlit("distributivity");
        assert("associativity"@.len() == 13);
        assert("distributivity"@.len() == 14);
        reveal_strlit("distributivity");
        assert("associativity"@.len() == 13);
        assert("distributivity"@.len() == 14);
        assert("associativity"@ != "distributivity"@);
        reveal_strlit("counting");
        assert("associativity"@.len() == 13);
        assert("counting"@.len() == 8);
        reveal_strlit("counting");
        assert("associativity"@.len() == 13);
        assert("counting"@.len() == 8);
        assert("associativity"@ != "counting"@);
        reveal_strlit("associativity.c");
        assert("associativity"@.len() == 13);
        assert("associativity.c"@.len() == 15);
        reveal_strlit("associativity.c");
        assert("associativity"@.len() == 13);
        assert("associativity.c"@.len() == 15);
        assert("associativity"@ != "associativity.c"@);
        assert(group_names(group_models(groups@)) =~= seq!["erf-rules"@, "complex-number-basics"@, "branch-reduce"@, "compare-reduce"@, "bool-reduce"@, "htrig-reduce"@, "trig-reduce-fp-sound-nan"@, "trig-reduce-fp-sound"@, "trig-reduce"@, "log-distribute-fp-safe"@, "log-distribute"@, "pow-canonicalize"@, "pow-reduce-fp-safe-nan"@, "pow-reduce-fp-safe"@, "pow-reduce"@, "exp-factor"@, "exp-distribute"@, "exp-constants"@, "exp-reduce"@, "cubes-canonicalize"@, "cubes-distribute"@, "cubes-reduce"@, "squares-reduce-fp-sound"@, "squares-reduce"@, "fractions-distribute.c"@, "fractions-distribute"@, "id-reduce-fp-safe"@, "id-reduce-fp-safe-nan"@, "id-reduce"@, "difference-of-squares-canonicalize"@, "distributivity-fp-safe"@, "distributivity.c"@, "distributivity"@, "counting"@, "associativity.c"@]);
        assert forall|j: int| 0 <= j < group_names(group_models(groups@)).len() implies
            group_names(group_models(groups@))[j] != "associativity"@ by {}
        assert(!group_names(group_models(groups@)).contains("associativity"@));
    }
    match push_group(groups, "associativity", g) {
        Ok(()) => {},
        Err(e) => {
            proof { assert(false); }
            return Err(e);
        },
    }
    proof {
        assert(group_models(groups@) =~= seq![crate::corpus::corpus_group_0(), crate::corpus::corpus_group_1(), crate::corpus::corpus_group_2(), crate::corpus::corpus_group_3(), crate::corpus::corpus_group_4(), crate::corpus::corpus_group_5(), crate::corpus::corpus_group_6(), crate::corpus::corpus_group_7(), crate::corpus::corpus_group_8(), crate::corpus::corpus_group_9(), crate::corpus::corpus_group_10(), crate::corpus::corpus_group_11(), crate::corpus::corpus_group_12(), crate::corpus::corpus_group_13(), crate::corpus::corpus_group_14(), crate::corpus::corpus_group_15(), crate::corpus::corpus_group_16(), crate::corpus::corpus_group_17(), crate::corpus::corpus_group_18(), crate::corpus::corpus_group_19(), crate::corpus::corpus_group_20(), crate::corpus::corpus_group_21(), crate::corpus::corpus_group_22(), crate::corpus::corpus_group_23(), crate::corpus::corpus_group_24(), crate::corpus::corpus_group_25(), crate::corpus::corpus_group_26(), crate::corpus::corpus_group_27(), crate::corpus::corpus_group_28(), crate::corpus::corpus_group_29(), crate::corpus::corpus_group_30(), crate::corpus::corpus_group_31(), crate::corpus::corpus_group_32(), crate::corpus::corpus_group_33(), crate::corpus::corpus_group_34(), crate::corpus::corpus_group_35()]);
    }
    Ok(())
}

#[verifier::spinoff_prover]
#[verifier::rlimit(100)]
/// Build and append the `commutativity.c` group.
fn corpus_push_36(groups: &mut Vec<RuleGroup>) -> (r: Result<(), RuleError>)
    requires
        group_models(old(groups)@) == seq![crate::corpus::corpus_group_0(), crate::corpus::corpus_group_1(), crate::corpus::corpus_group_2(), crate::corpus::corpus_group_3(), crate::corpus::corpus_group_4(), crate::corpus::corpus_group_5(), crate::corpus::corpus_group_6(), crate::corpus::corpus_group_7(), crate::corpus::corpus_group_8(), crate::corpus::corpus_group_9(), crate::corpus::corpus_group_10(), crate::corpus::corpus_group_11(), crate::corpus::corpus_group_12(), crate::corpus::corpus_group_13(), crate::corpus::corpus_group_14(), crate::corpus::corpus_group_15(), crate::corpus::corpus_group_16(), crate::corpus::corpus_group_17(), crate::corpus::corpus_group_18(), crate::corpus::corpus_group_19(), crate::corpus::corpus_group_20(), crate::corpus::corpus_group_21(), crate::corpus::corpus_group_22(), crate::corpus::corpus_group_23(), crate::corpus::corpus_group_24(), crate::corpus::corpus_group_25(), crate::corpus::corpus_group_26(), crate::corpus::corpus_group_27(), crate::corpus::corpus_group_28(), crate::corpus::corpus_group_29(), crate::corpus::corpus_group_30(), crate::corpus::corpus_group_31(), crate::corpus::corpus_group_32(), crate::corpus::corpus_group_33(), crate::corpus::corpus_group_34(), crate::corpus::corpus_group_35()],
    ensures
        r matches Ok(()) ==> group_models(final(groups)@) == seq![crate::corpus::corpus_group_0(), crate::corpus::corpus_group_1(), crate::corpus::corpus_group_2(), crate::corpus::corpus_group_3(), crate::corpus::corpus_group_4(), crate::corpus::corpus_group_5(), crate::corpus::corpus_group_6(), crate::corpus::corpus_group_7(), crate::corpus::corpus_group_8(), crate::corpus::corpus_group_9(), crate::corpus::corpus_group_10(), crate::corpus::corpus_group_11(), crate::corpus::corpus_group_12(), crate::corpus::corpus_group_13(), crate::corpus::corpus_group_14(), crate::corpus::corpus_group_15(), crate::corpus::corpus_group_16(), crate::corpus::corpus_group_17(), crate::corpus::corpus_group_18(), crate::corpus::corpus_group_19(), crate::corpus::corpus_group_20(), crate::corpus::corpus_group_21(), crate::corpus::corpus_group_22(), crate::corpus::corpus_group_23(), crate::corpus::corpus_group_24(), crate::corpus::corpus_group_25(), crate::corpus::corpus_group_26(), crate::corpus::corpus_group_27(), crate::corpus::corpus_group_28(), crate::corpus::corpus_group_29(), crate::corpus::corpus_group_30(), crate::corpus::corpus_group_31(), crate::corpus::corpus_group_32(), crate::corpus::corpus_group_33(), crate::corpus::corpus_group_34(), crate::corpus::corpus_group_35(), crate::corpus::corpus_group_36()],
        r is Err ==> !crate::corpus::corpus_rules_ok(),
{
    let mut t: Vec<(&str, &str, &str)> = Vec::new();
    t.push(("+.c-commutative", "(+.c ?a ?b)", "(+.c ?b ?a)"));
    t.push(("*.c-commutative", "(*.c ?a ?b)", "(*.c ?b ?a)"));
    proof {
        assert(t@.len() == 2);
        assert forall|i: int| 0 <= i < t@.len() implies rule_ok(#[trigger] t@[i])
            == rule_ok(crate::corpus::group_tuples_36()[i]) by {
            if i == 0 {
                assert(t@[0].1@ == crate::corpus::group_tuples_36()[0].1@);
                assert(t@[0].2@ == crate::corpus::group_tuples_36()[0].2@);
            } else if i == 1 {
                assert(t@[1].1@ == crate::corpus::group_tuples_36()[1].1@);
                assert(t@[1].2@ == crate::corpus::group_tuples_36()[1].2@);
            }
        }
    }
    let g = match mk_rules(t.as_slice()) {
        Ok(g) => g,
        Err(e) => {
            proof {
                assert(!(forall|i: int| 0 <= i < crate::corpus::group_tuples_36().len()
                    ==> rule_ok(#[trigger] crate::corpus::group_tuples_36()[i])));
                assert(!crate::corpus::corpus_rules_ok());
            }
            return Err(e);
        },
    };
    proof {
        assert(rewrite_models(g@) =~= crate::corpus::corpus_group_36().rules);
        reveal_strlit("commutativity.c");
        reveal_strlit("erf-rules");
        assert("commutativity.c"@.len() == 15);
        assert("erf-rules"@.len() == 9);
        reveal_strlit("erf-rules");
        assert("commutativity.c"@.len() == 15);
        assert("erf-rules"@.len() == 9);
        assert("commutativity.c"@ != "erf-rules"@);
        reveal_strlit("complex-number-basics");
        assert("commutativity.c"@.len() == 15);
        assert("complex-number-basics"@.len() == 21);
        reveal_strlit("complex-number-basics");
        assert("commutativity.c"@.len() == 15);
        assert("complex-number-basics"@.len() == 21);
        assert("commutativity.c"@ != "complex-number-basics"@);
        reveal_strlit("branch-reduce");
        assert("commutativity.c"@.len() == 15);
        assert("branch-reduce"@.len() == 13);
        reveal_strlit("branch-reduce");
        assert("commutativity.c"@.len() == 15);
        assert("branch-reduce"@.len() == 13);
        assert("commutativity.c"@ != "branch-reduce"@);
        reveal_strlit("compare-reduce");
        assert("commutativity.c"@.len() == 15);
        assert("compare-reduce"@.len() == 14);
        reveal_strlit("compare-reduce");
        assert("commutativity.c"@.len() == 15);
        assert("compare-reduce"@.len() == 14);
        assert("commutativity.c"@ != "compare-reduce"@);
        reveal_strlit("bool-reduce");
        assert("commutativity.c"@.len() == 15);
        assert("bool-reduce"@.len() == 11);
        reveal_strlit("bool-reduce");
        assert("commutativity.c"@.len() == 15);
        assert("bool-reduce"@.len() == 11);
        assert("commutativity.c"@ != "bool-reduce"@);
        reveal_strlit("htrig-reduce");
        assert("commutativity.c"@.len() == 15);
        assert("htrig-reduce"@.len() == 12);
        reveal_strlit("htrig-reduce");
        assert("commutativity.c"@.len() == 15);
        assert("htrig-reduce"@.len() == 12);
        assert("commutativity.c"@ != "htrig-reduce"@);
        reveal_strlit("trig-reduce-fp-sound-nan");
        assert("commutativity.c"@.len() == 15);
        assert("trig-reduce-fp-sound-nan"@.len() == 24);
        reveal_strlit("trig-reduce-fp-sound-nan");
        assert("commutativity.c"@.len() == 15);
        assert("trig-reduce-fp-sound-nan"@.len() == 24);
        assert("commutativity.c"@ != "trig-reduce-fp-sound-nan"@);
        reveal_strlit("trig-reduce-fp-sound");
        assert("commutativity.c"@.len() == 15);
        assert("trig-reduce-fp-sound"@.len() == 20);
        reveal_strlit("trig-reduce-fp-sound");
        assert("commutativity.c"@.len() == 15);
        assert("trig-reduce-fp-sound"@.len() == 20);
        assert("commutativity.c"@ != "trig-reduce-fp-sound"@);
        reveal_strlit("trig-reduce");
        assert("commutativity.c"@.len() == 15);
        assert("trig-reduce"@.len() == 11);
        reveal_strlit("trig-reduce");
        assert("commutativity.c"@.len() == 15);
        assert("trig-reduce"@.len() == 11);
        assert("commutativity.c"@ != "trig-reduce"@);
        reveal_strlit("log-distribute-fp-safe");
        assert("commutativity.c"@.len() == 15);
        assert("log-distribute-fp-safe"@.len() == 22);
        reveal_strlit("log-distribute-fp-safe");
        assert("commutativity.c"@.len() == 15);
        assert("log-distribute-fp-safe"@.len() == 22);
        assert("commutativity.c"@ != "log-distribute-fp-safe"@);
        reveal_strlit("log-distribute");
        assert("commutativity.c"@.len() == 15);
        assert("log-distribute"@.len() == 14);
        reveal_strlit("log-distribute");
        assert("commutativity.c"@.len() == 15);
        assert("log-distribute"@.len() == 14);
        assert("commutativity.c"@ != "log-distribute"@);
        reveal_strlit("pow-canonicalize");
        assert("commutativity.c"@.len() == 15);
        assert("pow-canonicalize"@.len() == 16);
        reveal_strlit("pow-canonicalize");
        assert("commutativity.c"@.len() == 15);
        assert("pow-canonicalize"@.len() == 16);
        assert("commutativity.c"@ != "pow-canonicalize"@);
        reveal_strlit("pow-reduce-fp-safe-nan");
        assert("commutativity.c"@.len() == 15);
        assert("pow-reduce-fp-safe-nan"@.len() == 22);
        reveal_strlit("pow-reduce-fp-safe-nan");
        assert("commutativity.c"@.len() == 15);
        assert("pow-reduce-fp-safe-nan"@.len() == 22);
        assert("commutativity.c"@ != "pow-reduce-fp-safe-nan"@);
        reveal_strlit("pow-reduce-fp-safe");
        assert("commutativity.c"@.len() == 15);
        assert("pow-reduce-fp-safe"@.len() == 18);
        reveal_strlit("pow-reduce-fp-safe");
        assert("commutativity.c"@.len() == 15);
        assert("pow-reduce-fp-safe"@.len() == 18);
        assert("commutativity.c"@ != "pow-reduce-fp-safe"@);
        reveal_strlit("pow-reduce");
        assert("commutativity.c"@.len() == 15);
        assert("pow-reduce"@.len() == 10);
        reveal_strlit("pow-reduce");
        assert("commutativity.c"@.len() == 15);
        assert("pow-reduce"@.len() == 10);
        assert("commutativity.c"@ != "pow-reduce"@);
        reveal_strlit("exp-factor");
        assert("commutativity.c"@.len() == 15);
        assert("exp-factor"@.len() == 10);
        reveal_strlit("exp-factor");
        assert("commutativity.c"@.len() == 15);
        assert("exp-factor"@.len() == 10);
        assert("commutativity.c"@ != "exp-factor"@);
        reveal_strlit("exp-distribute");
        assert("commutativity.c"@.len() == 15);
        assert("exp-distribute"@.len() == 14);
        reveal_strlit("exp-distribute");
        assert("commutativity.c"@.len() == 15);
        assert("exp-distribute"@.len() == 14);
        assert("commutativity.c"@ != "exp-distribute"@);
        reveal_strlit("exp-constants");
        assert("commutativity.c"@.len() == 15);
        assert("exp-constants"@.len() == 13);
        reveal_strlit("exp-constants");
        assert("commutativity.c"@.len() == 15);
        assert("exp-constants"@.len() == 13);
        assert("commutativity.c"@ != "exp-constants"@);
        reveal_strlit("exp-reduce");
        assert("commutativity.c"@.len() == 15);
        assert("exp-reduce"@.len() == 10);
        reveal_strlit("exp-reduce");
        assert("commutativity.c"@.len() == 15);
        assert("exp-reduce"@.len() == 10);
        assert("commutativity.c"@ != "exp-reduce"@);
        reveal_strlit("cubes-canonicalize");
        assert("commutativity.c"@.len() == 15);
        assert("cubes-canonicalize"@.len() == 18);
        reveal_strlit("cubes-canonicalize");
        assert("commutativity.c"@.len() == 15);
        assert("cubes-canonicalize"@.len() == 18);
        assert("commutativity.c"@ != "cubes-canonicalize"@);
        reveal_strlit("cubes-distribute");
        assert("commutativity.c"@.len() == 15);
        assert("cubes-distribute"@.len() == 16);
        reveal_strlit("cubes-distribute");
        assert("commutativity.c"@.len() == 15);
        assert("cubes-distribute"@.len() == 16);
        assert("commutativity.c"@ != "cubes-distribute"@);
        reveal_strlit("cubes-reduce");
        assert("commutativity.c"@.len() == 15);
        assert("cubes-reduce"@.len() == 12);
        reveal_strlit("cubes-reduce");
        assert("commutativity.c"@.len() == 15);
        assert("cubes-reduce"@.len() == 12);
        assert("commutativity.c"@ != "cubes-reduce"@);
        reveal_strlit("squares-reduce-fp-sound");
        assert("commutativity.c"@.len() == 15);
        assert("squares-reduce-fp-sound"@.len() == 23);
        reveal_strlit("squares-reduce-fp-sound");
        assert("commutativity.c"@.len() == 15);
        assert("squares-reduce-fp-sound"@.len() == 23);
        assert("commutativity.c"@ != "squares-reduce-fp-sound"@);
        reveal_strlit("squares-reduce");
        assert("commutativity.c"@.len() == 15);
        assert("squares-reduce"@.len() == 14);
        reveal_strlit("squares-reduce");
        assert("commutativity.c"@.len() == 15);
        assert("squares-reduce"@.len() == 14);
        assert("commutativity.c"@ != "squares-reduce"@);
        reveal_strlit("fractions-distribute.c");
        assert("commutativity.c"@.len() == 15);
        assert("fractions-distribute.c"@.len() == 22);
        reveal_strlit("fractions-distribute.c");
        assert("commutativity.c"@.len() == 15);
        assert("fractions-distribute.c"@.len() == 22);
        assert("commutativity.c"@ != "fractions-distribute.c"@);
        reveal_strlit("fractions-distribute");
        assert("commutativity.c"@.len() == 15);
        assert("fractions-distribute"@.len() == 20);
        reveal_strlit("fractions-distribute");
        assert("commutativity.c"@.len() == 15);
        assert("fractions-distribute"@.len() == 20);
        assert("commutativity.c"@ != "fractions-distribute"@);
        reveal_strlit("id-reduce-fp-safe");
        assert("commutativity.c"@.len() == 15);
        assert("id-reduce-fp-safe"@.len() == 17);
        reveal_strlit("id-reduce-fp-safe");
        assert("commutativity.c"@.len() == 15);
        assert("id-reduce-fp-safe"@.len() == 17);
        assert("commutativity.c"@ != "id-reduce-fp-safe"@);
        reveal_strlit("id-reduce-fp-safe-nan");
        assert("commutativity.c"@.len() == 15);
        assert("id-reduce-fp-safe-nan"@.len() == 21);
        reveal_strlit("id-reduce-fp-safe-nan");
        assert("commutativity.c"@.len() == 15);
        assert("id-reduce-fp-safe-nan"@.len() == 21);
        assert("commutativity.c"@ != "id-reduce-fp-safe-nan"@);
        reveal_strlit("id-reduce");
        assert("commutativity.c"@.len() == 15);
        assert("id-reduce"@.len() == 9);
        reveal_strlit("id-reduce");
        assert("commutativity.c"@.len() == 15);
        assert("id-reduce"@.len() == 9);
        assert("commutativity.c"@ != "id-reduce"@);
        reveal_strlit("difference-of-squares-canonicalize");
        assert("commutativity.c"@.len() == 15);
        assert("difference-of-squares-canonicalize"@.len() == 34);
        reveal_strlit("difference-of-squares-canonicalize");
        assert("commutativity.c"@.len() == 15);
        assert("difference-of-squares-canonicalize"@.len() == 34);
        assert("commutativity.c"@ != "difference-of-squares-canonicalize"@);
        reveal_strlit("distributivity-fp-safe");
        assert("commutativity.c"@.len() == 15);
        assert("distributivity-fp-safe"@.len() == 22);
        reveal_strlit("distributivity-fp-safe");
        assert("commutativity.c"@.len() == 15);
        assert("distributivity-fp-safe"@.len() == 22);
        assert("commutativity.c"@ != "distributivity-fp-safe"@);
        reveal_strlit("distributivity.c");
        assert("commutativity.c"@.len() == 15);
        assert("distributivity.c"@.len() == 16);
        reveal_strlit("distributivity.c");
        assert("commutativity.c"@.len() == 15);
        assert("distributivity.c"@.len() == 16);
        assert("commutativity.c"@ != "distributivity.c"@);
        reveal_strlit("distributivity");
        assert("commutativity.c"@.len() == 15);
        assert("distributivity"@.len() == 14);
        reveal_strlit("distributivity");
        assert("commutativity.c"@.len() == 15);
        assert("distributivity"@.len() == 14);
        assert("commutativity.c"@ != "distributivity"@);
        reveal_strlit("counting");
        assert("commutativity.c"@.len() == 15);
        assert("counting"@.len() == 8);
        reveal_strlit("counting");
        assert("commutativity.c"@.len() == 15);
        assert("counting"@.len() == 8);
        assert("commutativity.c"@ != "counting"@);
        reveal_strlit("associativity.c");
        assert("commutativity.c"@[0] != "associativity.c"@[0]);
        reveal_strlit("associativity.c");
        assert("commutativity.c"@.len() == 15);
        assert("associativity.c"@.len() == 15);
        reveal_strlit("associativity.c");
        assert("commutativity.c"@.len() == 15);
        assert("associativity.c"@.len() == 15);
        assert("commutativity.c"@ != "associativity.c"@);
        reveal_strlit("associativity");
        assert("commutativity.c"@.len() == 15);
        assert("associativity"@.len() == 13);
        reveal_strlit("associativity");
        assert("commutativity.c"@.len() == 15);
        assert("associativity"@.len() == 13);
        assert("commutativity.c"@ != "associativity"@);
        assert(group_names(group_models(groups@)) =~= seq!["erf-rules"@, "complex-number-basics"@, "branch-reduce"@, "compare-reduce"@, "bool-reduce"@, "htrig-reduce"@, "trig-reduce-fp-sound-nan"@, "trig-reduce-fp-sound"@, "trig-reduce"@, "log-distribute-fp-safe"@, "log-distribute"@, "pow-canonicalize"@, "pow-reduce-fp-safe-nan"@, "pow-reduce-fp-safe"@, "pow-reduce"@, "exp-factor"@, "exp-distribute"@, "exp-constants"@, "exp-reduce"@, "cubes-canonicalize"@, "cubes-distribute"@, "cubes-reduce"@, "squares-reduce-fp-sound"@, "squares-reduce"@, "fractions-distribute.c"@, "fractions-distribute"@, "id-reduce-fp-safe"@, "id-reduce-fp-safe-nan"@, "id-reduce"@, "difference-of-squares-canonicalize"@, "distributivity-fp-safe"@, "distributivity.c"@, "distributivity"@, "counting"@, "associativity.c"@, "associativity"@]);
        assert forall|j: int| 0 <= j < group_names(group_models(groups@)).len() implies
            group_names(group_models(groups@))[j] != "commutativity.c"@ by {}
        assert(!group_names(group_models(groups@)).contains("commutativity.c"@));
    }
    match push_group(groups, "commutativity.c", g) {
        Ok(()) => {},
        Err(e) => {
            proof { assert(false); }
            return Err(e);
        },
    }
    proof {
        assert(group_models(groups@) =~= seq![crate::corpus::corpus_group_0(), crate::corpus::corpus_group_1(), crate::corpus::corpus_group_2(), crate::corpus::corpus_group_3(), crate::corpus::corpus_group_4(), crate::corpus::corpus_group_5(), crate::corpus::corpus_group_6(), crate::corpus::corpus_group_7(), crate::corpus::corpus_group_8(), crate::corpus::corpus_group_9(), crate::corpus::corpus_group_10(), crate::corpus::corpus_group_11(), crate::corpus::corpus_group_12(), crate::corpus::corpus_group_13(), crate::corpus::corpus_group_14(), crate::corpus::corpus_group_15(), crate::corpus::corpus_group_16(), crate::corpus::corpus_group_17(), crate::corpus::corpus_group_18(), crate::corpus::corpus_group_19(), crate::corpus::corpus_group_20(), crate::corpus::corpus_group_21(), crate::corpus::corpus_group_22(), crate::corpus::corpus_group_23(), crate::corpus::corpus_group_24(), crate::corpus::corpus_group_25(), crate::corpus::corpus_group_26(), crate::corpus::corpus_group_27(), crate::corpus::corpus_group_28(), crate::corpus::corpus_group_29(), crate::corpus::corpus_group_30(), crate::corpus::corpus_group_31(), crate::corpus::corpus_group_32(), crate::corpus::corpus_group_33(), crate::corpus::corpus_group_34(), crate::corpus::corpus_group_35(), crate::corpus::corpus_group_36()]);
    }
    Ok(())
}

#[verifier::spinoff_prover]
#[verifier::rlimit(100)]
/// Build and append the `commutativity` group.
fn corpus_push_37(groups: &mut Vec<RuleGroup>) -> (r: Result<(), RuleError>)
    requires
        group_models(old(groups)@) == seq![crate::corpus::corpus_group_0(), crate::corpus::corpus_group_1(), crate::corpus::corpus_group_2(), crate::corpus::corpus_group_3(), crate::corpus::corpus_group_4(), crate::corpus::corpus_group_5(), crate::corpus::corpus_group_6(), crate::corpus::corpus_group_7(), crate::corpus::corpus_group_8(), crate::corpus::corpus_group_9(), crate::corpus::corpus_group_10(), crate::corpus::corpus_group_11(), crate::corpus::corpus_group_12(), crate::corpus::corpus_group_13(), crate::corpus::corpus_group_14(), crate::corpus::corpus_group_15(), crate::corpus::corpus_group_16(), crate::corpus::corpus_group_17(), crate::corpus::corpus_group_18(), crate::corpus::corpus_group_19(), crate::corpus::corpus_group_20(), crate::corpus::corpus_group_21(), crate::corpus::corpus_group_22(), crate::corpus::corpus_group_23(), crate::corpus::corpus_group_24(), crate::corpus::corpus_group_25(), crate::corpus::corpus_group_26(), crate::corpus::corpus_group_27(), crate::corpus::corpus_group_28(), crate::corpus::corpus_group_29(), crate::corpus::corpus_group_30(), crate::corpus::corpus_group_31(), crate::corpus::corpus_group_32(), crate::corpus::corpus_group_33(), crate::corpus::corpus_group_34(), crate::corpus::corpus_group_35(), crate::corpus::corpus_group_36()],
    ensures
        r matches Ok(()) ==> group_models(final(groups)@) == seq![crate::corpus::corpus_group_0(), crate::corpus::corpus_group_1(), crate::corpus::corpus_group_2(), crate::corpus::corpus_group_3(), crate::corpus::corpus_group_4(), crate::corpus::corpus_group_5(), crate::corpus::corpus_group_6(), crate::corpus::corpus_group_7(), crate::corpus::corpus_group_8(), crate::corpus::corpus_group_9(), crate::corpus::corpus_group_10(), crate::corpus::corpus_group_11(), crate::corpus::corpus_group_12(), crate::corpus::corpus_group_13(), crate::corpus::corpus_group_14(), crate::corpus::corpus_group_15(), crate::corpus::corpus_group_16(), crate::corpus::corpus_group_17(), crate::corpus::corpus_group_18(), crate::corpus::corpus_group_19(), crate::corpus::corpus_group_20(), crate::corpus::corpus_group_21(), crate::corpus::corpus_group_22(), crate::corpus::corpus_group_23(), crate::corpus::corpus_group_24(), crate::corpus::corpus_group_25(), crate::corpus::corpus_group_26(), crate::corpus::corpus_group_27(), crate::corpus::corpus_group_28(), crate::corpus::corpus_group_29(), crate::corpus::corpus_group_30(), crate::corpus::corpus_group_31(), crate::corpus::corpus_group_32(), crate::corpus::corpus_group_33(), crate::corpus::corpus_group_34(), crate::corpus::corpus_group_35(), crate::corpus::corpus_group_36(), crate::corpus::corpus_group_37()],
        r is Err ==> !crate::corpus::corpus_rules_ok(),
{
    let mut t: Vec<(&str, &str, &str)> = Vec::new();
    t.push(("+-commutative", "(+ ?a ?b)", "(+ ?b ?a)"));
    t.push(("*-commutative", "(* ?a ?b)", "(* ?b ?a)"));
    proof {
        assert(t@.len() == 2);
        assert forall|i: int| 0 <= i < t@.len() implies rule_ok(#[trigger] t@[i])
            == rule_ok(crate::corpus::group_tuples_37()[i]) by {
            if i == 0 {
                assert(t@[0].1@ == crate::corpus::group_tuples_37()[0].1@);
                assert(t@[0].2@ == crate::corpus::group_tuples_37()[0].2@);
            } else if i == 1 {
                assert(t@[1].1@ == crate::corpus::group_tuples_37()[1].1@);
                assert(t@[1].2@ == crate::corpus::group_tuples_37()[1].2@);
            }
        }
    }
    let g = match mk_rules(t.as_slice()) {
        Ok(g) => g,
        Err(e) => {
            proof {
                assert(!(forall|i: int| 0 <= i < crate::corpus::group_tuples_37().len()
                    ==> rule_ok(#[trigger] crate::corpus::group_tuples_37()[i])));
                assert(!crate::corpus::corpus_rules_ok());
            }
            return Err(e);
        },
    };
    proof {
        assert(rewrite_models(g@) =~= crate::corpus::corpus_group_37().rules);
        reveal_strlit("commutativity");
        reveal_strlit("erf-rules");
        assert("commutativity"@.len() == 13);
        assert("erf-rules"@.len() == 9);
        reveal_strlit("erf-rules");
        assert("commutativity"@.len() == 13);
        assert("erf-rules"@.len() == 9);
        assert("commutativity"@ != "erf-rules"@);
        reveal_strlit("complex-number-basics");
        assert("commutativity"@.len() == 13);
        assert("complex-number-basics"@.len() == 21);
        reveal_strlit("complex-number-basics");
        assert("commutativity"@.len() == 13);
        assert("complex-number-basics"@.len() == 21);
        assert("commutativity"@ != "complex-number-basics"@);
        reveal_strlit("branch-reduce");
        assert("commutativity"@[0] != "branch-reduce"@[0]);
        reveal_strlit("branch-reduce");
        assert("commutativity"@.len() == 13);
        assert("branch-reduce"@.len() == 13);
        reveal_strlit("branch-reduce");
        assert("commutativity"@.len() == 13);
        assert("branch-reduce"@.len() == 13);
        assert("commutativity"@ != "branch-reduce"@);
        reveal_strlit("compare-reduce");
        assert("commutativity"@.len() == 13);
        assert("compare-reduce"@.len() == 14);
        reveal_strlit("compare-reduce");
        assert("commutativity"@.len() == 13);
        assert("compare-reduce"@.len() == 14);
        assert("commutativity"@ != "compare-reduce"@);
        reveal_strlit("bool-reduce");
        assert("commutativity"@.len() == 13);
        assert("bool-reduce"@.len() == 11);
        reveal_strlit("bool-reduce");
        assert("commutativity"@.len() == 13);
        assert("bool-reduce"@.len() == 11);
        assert("commutativity"@ != "bool-reduce"@);
        reveal_strlit("htrig-reduce");
        assert("commutativity"@.len() == 13);
        assert("htrig-reduce"@.len() == 12);
        reveal_strlit("htrig-reduce");
        assert("commutativity"@.len() == 13);
        assert("htrig-reduce"@.len() == 12);
        assert("commutativity"@ != "htrig-reduce"@);
        reveal_strlit("trig-reduce-fp-sound-nan");
        assert("commutativity"@.len() == 13);
        assert("trig-reduce-fp-sound-nan"@.len() == 24);
        reveal_strlit("trig-reduce-fp-sound-nan");
        assert("commutativity"@.len() == 13);
        assert("trig-reduce-fp-sound-nan"@.len() == 24);
        assert("commutativity"@ != "trig-reduce-fp-sound-nan"@);
        reveal_strlit("trig-reduce-fp-sound");
        assert("commutativity"@.len() == 13);
        assert("trig-reduce-fp-sound"@.len() == 20);
        reveal_strlit("trig-reduce-fp-sound");
        assert("commutativity"@.len() == 13);
        assert("trig-reduce-fp-sound"@.len() == 20);
        assert("commutativity"@ != "trig-reduce-fp-sound"@);
        reveal_strlit("trig-reduce");
        assert("commutativity"@.len() == 13);
        assert("trig-reduce"@.len() == 11);
        reveal_strlit("trig-reduce");
        assert("commutativity"@.len() == 13);
        assert("trig-reduce"@.len() == 11);
        assert("commutativity"@ != "trig-reduce"@);
        reveal_strlit("log-distribute-fp-safe");
        assert("commutativity"@.len() == 13);
        assert("log-distribute-fp-safe"@.len() == 22);
        reveal_strlit("log-distribute-fp-safe");
        assert("commutativity"@.len() == 13);
        assert("log-distribute-fp-safe"@.len() == 22);
        assert("commutativity"@ != "log-distribute-fp-safe"@);
        reveal_strlit("log-distribute");
        assert("commutativity"@.len() == 13);
        assert("log-distribute"@.len() == 14);
        reveal_strlit("log-distribute");
        assert("commutativity"@.len() == 13);
        assert("log-distribute"@.len() == 14);
        assert("commutativity"@ != "log-distribute"@);
        reveal_strlit("pow-canonicalize");
        assert("commutativity"@.len() == 13);
        assert("pow-canonicalize"@.len() == 16);
        reveal_strlit("pow-canonicalize");
        assert("commutativity"@.len() == 13);
        assert("pow-canonicalize"@.len() == 16);
        assert("commutativity"@ != "pow-canonicalize"@);
        reveal_strlit("pow-reduce-fp-safe-nan");
        assert("commutativity"@.len() == 13);
        assert("pow-reduce-fp-safe-nan"@.len() == 22);
        reveal_strlit("pow-reduce-fp-safe-nan");
        assert("commutativity"@.len() == 13);
        assert("pow-reduce-fp-safe-nan"@.len() == 22);
        assert("commutativity"@ != "pow-reduce-fp-safe-nan"@);
        reveal_strlit("pow-reduce-fp-safe");
        assert("commutativity"@.len() == 13);
        assert("pow-reduce-fp-safe"@.len() == 18);
        reveal_strlit("pow-reduce-fp-safe");
        assert("commutativity"@.len() == 13);
        assert("pow-reduce-fp-safe"@.len() == 18);
        assert("commutativity"@ != "pow-reduce-fp-safe"@);
        reveal_strlit("pow-reduce");
        assert("commutativity"@.len() == 13);
        assert("pow-reduce"@.len() == 10);
        reveal_strlit("pow-reduce");
        assert("commutativity"@.len() == 13);
        assert("pow-reduce"@.len() == 10);
        assert("commutativity"@ != "pow-reduce"@);
        reveal_strlit("exp-factor");
        assert("commutativity"@.len() == 13);
        assert("exp-factor"@.len() == 10);
        reveal_strlit("exp-factor");
        assert("commutativity"@.len() == 13);
        assert("exp-factor"@.len() == 10);
        assert("commutativity"@ != "exp-factor"@);
        reveal_strlit("exp-distribute");
        assert("commutativity"@.len() == 13);
        assert("exp-distribute"@.len() == 14);
        reveal_strlit("exp-distribute");
        assert("commutativity"@.len() == 13);
        assert("exp-distribute"@.len() == 14);
        assert("commutativity"@ != "exp-distribute"@);
        reveal_strlit("exp-constants");
        assert("commutativity"@[0] != "exp-constants"@[0]);
        reveal_strlit("exp-constants");
        assert("commutativity"@.len() == 13);
        assert("exp-constants"@.len() == 13);
        reveal_strlit("exp-constants");
        assert("commutativity"@.len() == 13);
        assert("exp-constants"@.len() == 13);
        assert("commutativity"@ != "exp-constants"@);
        reveal_strlit("exp-reduce");
        assert("commutativity"@.len() == 13);
        assert("exp-reduce"@.len() == 10);
        reveal_strlit("exp-reduce");
        assert("commutativity"@.len() == 13);
        assert("exp-reduce"@.len() == 10);
        assert("commutativity"@ != "exp-reduce"@);
        reveal_strlit("cubes-canonicalize");
        assert("commutativity"@.len() == 13);
        assert("cubes-canonicalize"@.len() == 18);
        reveal_strlit("cubes-canonicalize");
        assert("commutativity"@.len() == 13);
        assert("cubes-canonicalize"@.len() == 18);
        assert("commutativity"@ != "cubes-canonicalize"@);
        reveal_strlit("cubes-distribute");
        assert("commutativity"@.len() == 13);
        assert("cubes-distribute"@.len() == 16);
        reveal_strlit("cubes-distribute");
        assert("commutativity"@.len() == 13);
        assert("cubes-distribute"@.len() == 16);
        assert("commutativity"@ != "cubes-distribute"@);
        reveal_strlit("cubes-reduce");
        assert("commutativity"@.len() == 13);
        assert("cubes-reduce"@.len() == 12);
        reveal_strlit("cubes-reduce");
        assert("commutativity"@.len() == 13);
        assert("cubes-reduce"@.len() == 12);
        assert("commutativity"@ != "cubes-reduce"@);
        reveal_strlit("squares-reduce-fp-sound");
        assert("commutativity"@.len() == 13);
        assert("squares-reduce-fp-sound"@.len() == 23);
        reveal_strlit("squares-reduce-fp-sound");
        assert("commutativity"@.len() == 13);
        assert("squares-reduce-fp-sound"@.len() == 23);
        assert("commutativity"@ != "squares-reduce-fp-sound"@);
        reveal_strlit("squares-reduce");
        assert("commutativity"@.len() == 13);
        assert("squares-reduce"@.len() == 14);
        reveal_strlit("squares-reduce");
        assert("commutativity"@.len() == 13);
        assert("squares-reduce"@.len() == 14);
        assert("commutativity"@ != "squares-reduce"@);
        reveal_strlit("fractions-distribute.c");
        assert("commutativity"@.len() == 13);
        assert("fractions-distribute.c"@.len() == 22);
        reveal_strlit("fractions-distribute.c");
        assert("commutativity"@.len() == 13);
        assert("fractions-distribute.c"@.len() == 22);
        assert("commutativity"@ != "fractions-distribute.c"@);
        reveal_strlit("fractions-distribute");
        assert("commutativity"@.len() == 13);
        assert("fractions-distribute"@.len() == 20);
        reveal_strlit("fractions-distribute");
        assert("commutativity"@.len() == 13);
        assert("fractions-distribute"@.len() == 20);
        assert("commutativity"@ != "fractions-distribute"@);
        reveal_strlit("id-reduce-fp-safe");
        assert("commutativity"@.len() == 13);
        assert("id-reduce-fp-safe"@.len() == 17);
        reveal_strlit("id-reduce-fp-safe");
        assert("commutativity"@.len() == 13);
        assert("id-reduce-fp-safe"@.len() == 17);
        assert("commutativity"@ != "id-reduce-fp-safe"@);
        reveal_strlit("id-reduce-fp-safe-nan");
        assert("commutativity"@.len() == 13);
        assert("id-reduce-fp-safe-nan"@.len() == 21);
        reveal_strlit("id-reduce-fp-safe-nan");
        assert("commutativity"@.len() == 13);
        assert("id-reduce-fp-safe-nan"@.len() == 21);
        assert("commutativity"@ != "id-reduce-fp-safe-nan"@);
        reveal_strlit("id-reduce");
        assert("commutativity"@.len() == 13);
        assert("id-reduce"@.len() == 9);
        reveal_strlit("id-reduce");
        assert("commutativity"@.len() == 13);
        assert("id-reduce"@.len() == 9);
        assert("commutativity"@ != "id-reduce"@);
        reveal_strlit("difference-of-squares-canonicalize");
        assert("commutativity"@.len() == 13);
        assert("difference-of-squares-canonicalize"@.len() == 34);
        reveal_strlit("difference-of-squares-canonicalize");
        assert("commutativity"@.len() == 13);
        assert("difference-of-squares-canonicalize"@.len() == 34);
        assert("commutativity"@ != "difference-of-squares-canonicalize"@);
        reveal_strlit("distributivity-fp-safe");
        assert("commutativity"@.len() == 13);
        assert("distributivity-fp-safe"@.len() == 22);
        reveal_strlit("distributivity-fp-safe");
        assert("commutativity"@.len() == 13);
        assert("distributivity-fp-safe"@.len() == 22);
        assert("commutativity"@ != "distributivity-fp-safe"@);
        reveal_strlit("distributivity.c");
        assert("commutativity"@.len() == 13);
        assert("distributivity.c"@.len() == 16);
        reveal_strlit("distributivity.c");
        assert("commutativity"@.len() == 13);
        assert("distributivity.c"@.len() == 16);
        assert("commutativity"@ != "distributivity.c"@);
        reveal_strlit("distributivity");
        assert("commutativity"@.len() == 13);
        assert("distributivity"@.len() == 14);
        reveal_strlit("distributivity");
        assert("commutativity"@.len() == 13);
        assert("distributivity"@.len() == 14);
        assert("commutativity"@ != "distributivity"@);
        reveal_strlit("counting");
        assert("commutativity"@.len() == 13);
        assert("counting"@.len() == 8);
        reveal_strlit("counting");
        assert("commutativity"@.len() == 13);
        assert("counting"@.len() == 8);
        assert("commutativity"@ != "counting"@);
        reveal_strlit("associativity.c");
        assert("commutativity"@.len() == 13);
        assert("associativity.c"@.len() == 15);
        reveal_strlit("associativity.c");
        assert("commutativity"@.len() == 13);
        assert("associativity.c"@.len() == 15);
        assert("commutativity"@ != "associativity.c"@);
        reveal_strlit("associativity");
        assert("commutativity"@[0] != "associativity"@[0]);
        reveal_strlit("associativity");
        assert("commutativity"@.len() == 13);
        assert("associativity"@.len() == 13);
        reveal_strlit("associativity");
        assert("commutativity"@.len() == 13);
        assert("associativity"@.len() == 13);
        assert("commutativity"@ != "associativity"@);
        reveal_strlit("commutativity.c");
        assert("commutativity"@.len() == 13);
        assert("commutativity.c"@.len() == 15);
        reveal_strlit("commutativity.c");
        assert("commutativity"@.len() == 13);
        assert("commutativity.c"@.len() == 15);
        assert("commutativity"@ != "commutativity.c"@);
        assert(group_names(group_models(groups@)) =~= seq!["erf-rules"@, "complex-number-basics"@, "branch-reduce"@, "compare-reduce"@, "bool-reduce"@, "htrig-reduce"@, "trig-reduce-fp-sound-nan"@, "trig-reduce-fp-sound"@, "trig-reduce"@, "log-distribute-fp-safe"@, "log-distribute"@, "pow-canonicalize"@, "pow-reduce-fp-safe-nan"@, "pow-reduce-fp-safe"@, "pow-reduce"@, "exp-factor"@, "exp-distribute"@, "exp-constants"@, "exp-reduce"@, "cubes-canonicalize"@, "cubes-distribute"@, "cubes-reduce"@, "squares-reduce-fp-sound"@, "squares-reduce"@, "fractions-distribute.c"@, "fractions-distribute"@, "id-reduce-fp-safe"@, "id-reduce-fp-safe-nan"@, "id-reduce"@, "difference-of-squares-canonicalize"@, "distributivity-fp-safe"@, "distributivity.c"@, "distributivity"@, "counting"@, "associativity.c"@, "associativity"@, "commutativity.c"@]);
        assert forall|j: int| 0 <= j < group_names(group_models(groups@)).len() implies
            group_names(group_models(groups@))[j] != "commutativity"@ by {}
        assert(!group_names(group_models(groups@)).contains("commutativity"@));
    }
    match push_group(groups, "commutativity", g) {
        Ok(()) => {},
        Err(e) => {
            proof { assert(false); }
            return Err(e);
        },
    }
    proof {
        assert(group_models(groups@) =~= seq![crate::corpus::corpus_group_0(), crate::corpus::corpus_group_1(), crate::corpus::corpus_group_2(), crate::corpus::corpus_group_3(), crate::corpus::corpus_group_4(), crate::corpus::corpus_group_5(), crate::corpus::corpus_group_6(), crate::corpus::corpus_group_7(), crate::corpus::corpus_group_8(), crate::corpus::corpus_group_9(), crate::corpus::corpus_group_10(), crate::corpus::corpus_group_11(), crate::corpus::corpus_group_12(), crate::corpus::corpus_group_13(), crate::corpus::corpus_group_14(), crate::corpus::corpus_group_15(), crate::corpus::corpus_group_16(), crate::corpus::corpus_group_17(), crate::corpus::corpus_group_18(), crate::corpus::corpus_group_19(), crate::corpus::corpus_group_20(), crate::corpus::corpus_group_21(), crate::corpus::corpus_group_22(), crate::corpus::corpus_group_23(), crate::corpus::corpus_group_24(), crate::corpus::corpus_group_25(), crate::corpus::corpus_group_26(), crate::corpus::corpus_group_27(), crate::corpus::corpus_group_28(), crate::corpus::corpus_group_29(), crate::corpus::corpus_group_30(), crate::corpus::corpus_group_31(), crate::corpus::corpus_group_32(), crate::corpus::corpus_group_33(), crate::corpus::corpus_group_34(), crate::corpus::corpus_group_35(), crate::corpus::corpus_group_36(), crate::corpus::corpus_group_37()]);
    }
    Ok(())
}

/// The built-in rewrite corpus: every named group of rules, grouped and
/// validated. The contract is total: on success the result is exactly
/// `corpus_spec` — the listed groups in order, each rule parsed from its
/// literal pattern text, group names unique — and failure is possible
/// only if some literal rule tuple of the corpus is not well formed, so
/// a body that fails, or returns anything but the full table, is
/// rejected. A duplicated group name is proved impossible outright.
pub fn math_rules() -> (r: Result<Vec<RuleGroup>, RuleError>)
    ensures
        crate::corpus::corpus_rules_ok() ==> r is Ok,
        r matches Ok(v) ==> group_models(v@) == crate::corpus::corpus_spec(),
        r matches Ok(v) ==> distinct_seqs(group_names(group_models(v@))),
        r is Err ==> !crate::corpus::corpus_rules_ok(),
{
    let mut groups: Vec<RuleGroup> = Vec::new();
    proof {
        assert(group_models(groups@) =~= Seq::<RuleGroupModel>::empty());
    }
    match corpus_push_0(&mut groups) {
        Ok(()) => {},
        Err(e) => {
            return Err(e);
        },
    }
    match corpus_push_1(&mut groups) {
        Ok(()) => {},
        Err(e) => {
            return Err(e);
        },
    }
    match corpus_push_2(&mut groups) {
        Ok(()) => {},
        Err(e) => {
            return Err(e);
        },
    }
    match corpus_push_3(&mut groups) {
        Ok(()) => {},
        Err(e) => {
            return Err(e);
        },
    }
    match corpus_push_4(&mut groups) {
        Ok(()) => {},
        Err(e) => {
            return Err(e);
        },
    }
    match corpus_push_5(&mut groups) {
        Ok(()) => {},
        Err(e) => {
            return Err(e);
        },
    }
    match corpus_push_6(&mut groups) {
        Ok(()) => {},
        Err(e) => {
            return Err(e);
        },
    }
    match corpus_push_7(&mut groups) {
        Ok(()) => {},
        Err(e) => {
            return Err(e);
        },
    }
    match corpus_push_8(&mut groups) {
        Ok(()) => {},
        Err(e) => {
            return Err(e);
        },
    }
    match corpus_push_9(&mut groups) {
        Ok(()) => {},
        Err(e) => {
            return Err(e);
        },
    }
    match corpus_push_10(&mut groups) {
        Ok(()) => {},
        Err(e) => {
            return Err(e);
        },
    }
    match corpus_push_11(&mut groups) {
        Ok(()) => {},
        Err(e) => {
            return Err(e);
        },
    }
    match corpus_push_12(&mut groups) {
        Ok(()) => {},
        Err(e) => {
            return Err(e);
        },
    }
    match corpus_push_13(&mut groups) {
        Ok(()) => {},
        Err(e) => {
            return Err(e);
        },
    }
    match corpus_push_14(&mut groups) {
        Ok(()) => {},
        Err(e) => {
            return Err(e);
        },
    }
    match corpus_push_15(&mut groups) {
        Ok(()) => {},
        Err(e) => {
            return Err(e);
        },
    }
    match corpus_push_16(&mut groups) {
        Ok(()) => {},
        Err(e) => {
            return Err(e);
        },
    }
    match corpus_push_17(&mut groups) {
        Ok(()) => {},
        Err(e) => {
            return Err(e);
        },
    }
    match corpus_push_18(&mut groups) {
        Ok(()) => {},
        Err(e) => {
            return Err(e);
        },
    }
    match corpus_push_19(&mut groups) {
        Ok(()) => {},
        Err(e) => {
            return Err(e);
        },
    }
    match corpus_push_20(&mut groups) {
        Ok(()) => {},
        Err(e) => {
            return Err(e);
        },
    }
    match corpus_push_21(&mut groups) {
        Ok(()) => {},
        Err(e) => {
            return Err(e);
        },
    }
    match corpus_push_22(&mut groups) {
        Ok(()) => {},
        Err(e) => {
            return Err(e);
        },
    }
    match corpus_push_23(&mut groups) {
        Ok(()) => {},
        Err(e) => {
            return Err(e);
        },
    }
    match corpus_push_24(&mut groups) {
        Ok(()) => {},
        Err(e) => {
            return Err(e);
        },
    }
    match corpus_push_25(&mut groups) {
        Ok(()) => {},
        Err(e) => {
            return Err(e);
        },
    }
    match corpus_push_26(&mut groups) {
        Ok(()) => {},
        Err(e) => {
            return Err(e);
        },
    }
    match corpus_push_27(&mut groups) {
        Ok(()) => {},
        Err(e) => {
            return Err(e);
        },
    }
    match corpus_push_28(&mut groups) {
        Ok(()) => {},
        Err(e) => {
            return Err(e);
        },
    }
    match corpus_push_29(&mut groups) {
        Ok(()) => {},
        Err(e) => {
            return Err(e);
        },
    }
    match corpus_push_30(&mut groups) {
        Ok(()) => {},
        Err(e) => {
            return Err(e);
        },
    }
    match corpus_push_31(&mut groups) {
        Ok(()) => {},
        Err(e) => {
            return Err(e);
        },
    }
    match corpus_push_32(&mut groups) {
        Ok(()) => {},
        Err(e) => {
            return Err(e);
        },
    }
    match corpus_push_33(&mut groups) {
        Ok(()) => {},
        Err(e) => {
            return Err(e);
        },
    }
    match corpus_push_34(&mut groups) {
        Ok(()) => {},
        Err(e) => {
            return Err(e);
        },
    }
    match corpus_push_35(&mut groups) {
        Ok(()) => {},
        Err(e) => {
            return Err(e);
        },
    }
    match corpus_push_36(&mut groups) {
        Ok(()) => {},
        Err(e) => {
            return Err(e);
        },
    }
    match corpus_push_37(&mut groups) {
        Ok(()) => {},
        Err(e) => {
            return Err(e);
        },
    }
    proof {
        assert(group_models(groups@) =~= crate::corpus::corpus_spec());
        crate::corpus::lemma_corpus_names_distinct();
    }
    Ok(groups)
}

} // verus!
