//! Patterns over the term vocabulary: the textual s-expression form in
//! which rewrite rules are written, its tokenizer and parser, and the
//! pattern syntax tree.
//!
//! A pattern is either a pattern variable (`?x`), or a term head applied
//! to child patterns (`(+ ?a 1)`); a bare atom resolves, in order,
//! to an operator name, a named float constant, an exact rational
//! literal (`7`, `-3`, `1/2`), and otherwise to a variable leaf.
use vstd::prelude::*;
use crate::rat::{Rat, RatModel, int_rat, rat_norm};
use crate::vocab::{Math, MathModel, op_of_name, fp_of_name, OpTag, FPConstant};

verus! {

/// One token of pattern text.
pub enum Token {
    LP,
    RP,
    Atom(Vec<char>),
}

/// The value of one token.
pub enum TokenModel {
    LP,
    RP,
    Atom(Seq<char>),
}

impl View for Token {
    type V = TokenModel;

    open spec fn view(&self) -> TokenModel {
        match self {
            Token::LP => TokenModel::LP,
            Token::RP => TokenModel::RP,
            Token::Atom(a) => TokenModel::Atom(a@),
        }
    }
}

pub open spec fn token_models(s: Seq<Token>) -> Seq<TokenModel> {
    s.map(|i: int, t: Token| t@)
}

pub open spec fn is_space(c: char) -> bool {
    c == ' ' || c == '\t' || c == '\n' || c == '\r'
}

pub open spec fn is_delim(c: char) -> bool {
    is_space(c) || c == '(' || c == ')'
}

/// The index of the first delimiter at or after `i`: the end of an atom
/// that starts at `i`.
pub open spec fn atom_end(s: Seq<char>, i: int) -> int
    decreases s.len() - i,
{
    if i < 0 || i >= s.len() || is_delim(s[i]) {
        i
    } else {
        atom_end(s, i + 1)
    }
}

pub proof fn lemma_atom_end_bounds(s: Seq<char>, i: int)
    requires
        0 <= i <= s.len(),
    ensures
        i <= atom_end(s, i) <= s.len(),
    decreases s.len() - i,
{
    if !(i >= s.len() || is_delim(s[i])) {
        lemma_atom_end_bounds(s, i + 1);
    }
}

/// The tokens of the pattern text from position `i` on: parentheses
/// stand alone, whitespace separates, and a maximal run of other
/// characters is one atom.
pub open spec fn spec_tokenize(s: Seq<char>, i: int) -> Seq<TokenModel>
    decreases s.len() - i,
    when 0 <= i <= s.len()
{
    if i >= s.len() {
        Seq::empty()
    } else if is_space(s[i]) {
        spec_tokenize(s, i + 1)
    } else if s[i] == '(' {
        seq![TokenModel::LP] + spec_tokenize(s, i + 1)
    } else if s[i] == ')' {
        seq![TokenModel::RP] + spec_tokenize(s, i + 1)
    } else {
        proof {
            lemma_atom_end_bounds(s, i + 1);
        }
        seq![TokenModel::Atom(s.subrange(i, atom_end(s, i)))] + spec_tokenize(s, atom_end(s, i))
    }
}

/// Cut the pattern text into tokens.
pub fn tokenize(s: &Vec<char>) -> (r: Vec<Token>)
    ensures
        token_models(r@) == spec_tokenize(s@, 0),
{
    let mut out: Vec<Token> = Vec::new();
    let mut i: usize = 0;
    proof {
        assert(token_models(out@) =~= Seq::<TokenModel>::empty());
    }
    while i < s.len()
        invariant
            0 <= i <= s.len(),
            spec_tokenize(s@, 0) == token_models(out@) + spec_tokenize(s@, i as int),
        decreases s.len() - i,
    {
        let ghost out0 = token_models(out@);
        let c = s[i];
        if c == ' ' || c == '\t' || c == '\n' || c == '\r' {
            i += 1;
        } else if c == '(' {
            out.push(Token::LP);
            i += 1;
            proof {
                assert(token_models(out@) =~= out0 + seq![TokenModel::LP]);
                assert(out0 + (seq![TokenModel::LP] + spec_tokenize(s@, i as int)) =~= token_models(
                    out@,
                ) + spec_tokenize(s@, i as int));
            }
        } else if c == ')' {
            out.push(Token::RP);
            i += 1;
            proof {
                assert(token_models(out@) =~= out0 + seq![TokenModel::RP]);
                assert(out0 + (seq![TokenModel::RP] + spec_tokenize(s@, i as int)) =~= token_models(
                    out@,
                ) + spec_tokenize(s@, i as int));
            }
        } else {
            let ghost start = i as int;
            let mut a: Vec<char> = Vec::new();
            proof {
                assert(a@ =~= s@.subrange(start, i as int));
            }
            while i < s.len() && !(s[i] == ' ' || s[i] == '\t' || s[i] == '\n' || s[i] == '\r'
                || s[i] == '(' || s[i] == ')')
                invariant
                    0 <= start <= i as int <= s@.len(),
                    a@ == s@.subrange(start, i as int),
                    atom_end(s@, start) == atom_end(s@, i as int),
                    forall|k: int| start <= k < i as int ==> !is_delim(s@[k]),
                decreases s.len() - i,
            {
                a.push(s[i]);
                i += 1;
                proof {
                    assert(a@ =~= s@.subrange(start, i as int));
                }
            }
            proof {
                assert(atom_end(s@, i as int) == i as int);
            }
            out.push(Token::Atom(a));
            proof {
                assert(token_models(out@) =~= out0 + seq![
                    TokenModel::Atom(s@.subrange(start, atom_end(s@, start))),
                ]);
                assert(out0 + (seq![TokenModel::Atom(s@.subrange(start, atom_end(s@, start)))]
                    + spec_tokenize(s@, i as int)) =~= token_models(out@) + spec_tokenize(
                    s@,
                    i as int,
                ));
            }
        }
    }
    proof {
        assert(spec_tokenize(s@, i as int) =~= Seq::<TokenModel>::empty());
        assert(token_models(out@) + spec_tokenize(s@, i as int) =~= token_models(out@));
    }
    out
}


/// Relies on `str::chars`: the characters of the string, in order.
#[verifier::external_body]
pub(crate) fn str_chars(s: &str) -> (r: Vec<char>)
    ensures
        r@ == s@,
{
    s.chars().collect()
}

/// Relies on `String`'s `FromIterator` over `char`: the string whose
/// characters are exactly the given ones, in order.
#[verifier::external_body]
pub(crate) fn chars_string(a: &Vec<char>) -> (r: String)
    ensures
        r@ == a@,
{
    a.iter().collect()
}

/// Whether two character vectors hold the same characters.
pub fn char_vec_eq(a: &Vec<char>, b: &Vec<char>) -> (r: bool)
    ensures
        r == (a@ == b@),
{
    if a.len() != b.len() {
        return false;
    }
    let mut i: usize = 0;
    while i < a.len()
        invariant
            i <= a.len(),
            a@.len() == b@.len(),
            forall|j: int| 0 <= j < i ==> a@[j] == b@[j],
        decreases a.len() - i,
    {
        if a[i] != b[i] {
            return false;
        }
        i += 1;
    }
    proof {
        assert(a@ =~= b@);
    }
    true
}

/// Whether the atom spells the given text.
fn atom_is(a: &Vec<char>, s: &str) -> (r: bool)
    ensures
        r == (a@ == s@),
{
    let t = str_chars(s);
    char_vec_eq(a, &t)
}

/// The operator tag named by the atom, if any.
pub fn op_lookup(a: &Vec<char>) -> (r: Option<OpTag>)
    ensures
        r == op_of_name(a@),
{
    if atom_is(a, "neg") {
        return Some(OpTag::Neg);
    }
    if atom_is(a, "not") {
        return Some(OpTag::Not);
    }
    if atom_is(a, "and") {
        return Some(OpTag::And);
    }
    if atom_is(a, "or") {
        return Some(OpTag::Or);
    }
    if atom_is(a, "if") {
        return Some(OpTag::If);
    }
    if atom_is(a, "<") {
        return Some(OpTag::Less);
    }
    if atom_is(a, ">") {
        return Some(OpTag::Greater);
    }
    if atom_is(a, "<=") {
        return Some(OpTag::LessEq);
    }
    if atom_is(a, ">=") {
        return Some(OpTag::GreaterEq);
    }
    if atom_is(a, "re") {
        return Some(OpTag::Re);
    }
    if atom_is(a, "im") {
        return Some(OpTag::Im);
    }
    if atom_is(a, "complex") {
        return Some(OpTag::Complex);
    }
    if atom_is(a, "conj") {
        return Some(OpTag::Conj);
    }
    if atom_is(a, "+.c") {
        return Some(OpTag::Addc);
    }
    if atom_is(a, "-.c") {
        return Some(OpTag::Subc);
    }
    if atom_is(a, "neg.c") {
        return Some(OpTag::Negc);
    }
    if atom_is(a, "/.c") {
        return Some(OpTag::Divc);
    }
    if atom_is(a, "*.c") {
        return Some(OpTag::Mulc);
    }
    if atom_is(a, "erf") {
        return Some(OpTag::Erf);
    }
    if atom_is(a, "erfc") {
        return Some(OpTag::Erfc);
    }
    if atom_is(a, "tgamma") {
        return Some(OpTag::Tgamma);
    }
    if atom_is(a, "lgamma") {
        return Some(OpTag::Lgamma);
    }
    if atom_is(a, "ceil") {
        return Some(OpTag::Ceil);
    }
    if atom_is(a, "floor") {
        return Some(OpTag::Floor);
    }
    if atom_is(a, "fmod") {
        return Some(OpTag::Fmod);
    }
    if atom_is(a, "remainder") {
        return Some(OpTag::Remainder);
    }
    if atom_is(a, "fmax") {
        return Some(OpTag::Fmax);
    }
    if atom_is(a, "fmin") {
        return Some(OpTag::Fmin);
    }
    if atom_is(a, "fdim") {
        return Some(OpTag::Fdim);
    }
    if atom_is(a, "copysign") {
        return Some(OpTag::Copysign);
    }
    if atom_is(a, "trunc") {
        return Some(OpTag::Trunc);
    }
    if atom_is(a, "round") {
        return Some(OpTag::Round);
    }
    if atom_is(a, "nearbyint") {
        return Some(OpTag::NearbyInt);
    }
    if atom_is(a, "+") {
        return Some(OpTag::Add);
    }
    if atom_is(a, "-") {
        return Some(OpTag::Sub);
    }
    if atom_is(a, "*") {
        return Some(OpTag::Mul);
    }
    if atom_is(a, "/") {
        return Some(OpTag::Div);
    }
    if atom_is(a, "pow") {
        return Some(OpTag::Pow);
    }
    if atom_is(a, "exp") {
        return Some(OpTag::Exp);
    }
    if atom_is(a, "exp2") {
        return Some(OpTag::Exp2);
    }
    if atom_is(a, "log") {
        return Some(OpTag::Log);
    }
    if atom_is(a, "sqrt") {
        return Some(OpTag::Sqrt);
    }
    if atom_is(a, "cbrt") {
        return Some(OpTag::Cbrt);
    }
    if atom_is(a, "fabs") {
        return Some(OpTag::Fabs);
    }
    if atom_is(a, "sin") {
        return Some(OpTag::Sin);
    }
    if atom_is(a, "cos") {
        return Some(OpTag::Cos);
    }
    if atom_is(a, "tan") {
        return Some(OpTag::Tan);
    }
    if atom_is(a, "asin") {
        return Some(OpTag::Asin);
    }
    if atom_is(a, "acos") {
        return Some(OpTag::Acos);
    }
    if atom_is(a, "atan") {
        return Some(OpTag::Atan);
    }
    if atom_is(a, "atan2") {
        return Some(OpTag::Atan2);
    }
    if atom_is(a, "sinh") {
        return Some(OpTag::Sinh);
    }
    if atom_is(a, "cosh") {
        return Some(OpTag::Cosh);
    }
    if atom_is(a, "tanh") {
        return Some(OpTag::Tanh);
    }
    if atom_is(a, "asinh") {
        return Some(OpTag::Asinh);
    }
    if atom_is(a, "acosh") {
        return Some(OpTag::Acosh);
    }
    if atom_is(a, "atanh") {
        return Some(OpTag::Atanh);
    }
    if atom_is(a, "fma") {
        return Some(OpTag::Fma);
    }
    if atom_is(a, "log1p") {
        return Some(OpTag::Log1p);
    }
    if atom_is(a, "log10") {
        return Some(OpTag::Log10);
    }
    if atom_is(a, "log2") {
        return Some(OpTag::Log2);
    }
    if atom_is(a, "expm1") {
        return Some(OpTag::Expm1);
    }
    if atom_is(a, "hypot") {
        return Some(OpTag::Hypot);
    }
    if atom_is(a, "+.p16") {
        return Some(OpTag::PositAdd);
    }
    if atom_is(a, "-.p16") {
        return Some(OpTag::PositSub);
    }
    if atom_is(a, "*.p16") {
        return Some(OpTag::PositMul);
    }
    if atom_is(a, "/.p16") {
        return Some(OpTag::PositDiv);
    }
    if atom_is(a, "real->posit") {
        return Some(OpTag::RealToPosit);
    }
    None
}

/// The named float constant named by the atom, if any.
pub fn fp_lookup(a: &Vec<char>) -> (r: Option<FPConstant>)
    ensures
        r == fp_of_name(a@),
{
    if atom_is(a, "TRUE") {
        return Some(FPConstant::True);
    }
    if atom_is(a, "FALSE") {
        return Some(FPConstant::False);
    }
    if atom_is(a, "E") {
        return Some(FPConstant::E);
    }
    if atom_is(a, "LOG2E") {
        return Some(FPConstant::Log2E);
    }
    if atom_is(a, "LOG10E") {
        return Some(FPConstant::Log10E);
    }
    if atom_is(a, "LN2") {
        return Some(FPConstant::Ln2);
    }
    if atom_is(a, "LN10") {
        return Some(FPConstant::Ln10);
    }
    if atom_is(a, "PI") {
        return Some(FPConstant::Pi);
    }
    if atom_is(a, "PI_2") {
        return Some(FPConstant::Pi2);
    }
    if atom_is(a, "PI_4") {
        return Some(FPConstant::Pi4);
    }
    if atom_is(a, "1_PI") {
        return Some(FPConstant::Pi1Alt);
    }
    if atom_is(a, "2_PI") {
        return Some(FPConstant::Pi2Alt);
    }
    if atom_is(a, "2_SQRTPI") {
        return Some(FPConstant::Sqrtpi2);
    }
    if atom_is(a, "SQRT2") {
        return Some(FPConstant::Sqrt2);
    }
    if atom_is(a, "SQRT1_2") {
        return Some(FPConstant::Sqrt1_2);
    }
    if atom_is(a, "INFINITY") {
        return Some(FPConstant::Infinity);
    }
    if atom_is(a, "NAN") {
        return Some(FPConstant::Nan);
    }
    None
}


/// Whether the character is a decimal digit.
pub open spec fn is_digit(c: char) -> bool {
    48 <= c as u32 <= 57
}

pub open spec fn all_digits(s: Seq<char>) -> bool {
    forall|i: int| 0 <= i < s.len() ==> is_digit(#[trigger] s[i])
}

pub open spec fn digit_val(c: char) -> int {
    c as u32 - 48
}

/// The value of a run of decimal digits.
pub open spec fn digits_val(s: Seq<char>) -> int
    decreases s.len(),
{
    if s.len() == 0 {
        0
    } else {
        digits_val(s.drop_last()) * 10 + digit_val(s.last())
    }
}

/// Whether the text is a decimal integer: digits, with an optional
/// leading minus sign.
pub open spec fn int_shape(s: Seq<char>) -> bool {
    if s.len() >= 1 && s[0] == '-' {
        s.len() >= 2 && all_digits(s.skip(1))
    } else {
        s.len() >= 1 && all_digits(s)
    }
}

/// The value of a decimal integer.
pub open spec fn int_val(s: Seq<char>) -> int {
    if s.len() >= 1 && s[0] == '-' {
        -digits_val(s.skip(1))
    } else {
        digits_val(s)
    }
}

/// The position of the first `/` at or after `i`, if any.
pub open spec fn find_slash(s: Seq<char>, i: int) -> Option<int>
    decreases s.len() - i,
    when 0 <= i <= s.len()
{
    if i >= s.len() {
        None
    } else if s[i] == '/' {
        Some(i)
    } else {
        find_slash(s, i + 1)
    }
}

/// How an atom reads as a number: not a number at all, an exact
/// rational value, or a fraction with an exactly zero denominator.
pub enum NumAtom {
    NotNumber,
    Value(RatModel),
    ZeroDenom,
}

/// The numeric reading of an atom: an integer, or `numer/denom` with
/// integer parts. A fraction with denominator zero is malformed rather
/// than a value, since no rational has it.
pub open spec fn num_atom(s: Seq<char>) -> NumAtom {
    match find_slash(s, 0) {
        None => if int_shape(s) {
            NumAtom::Value(int_rat(int_val(s)))
        } else {
            NumAtom::NotNumber
        },
        Some(k) => {
            let numer = s.take(k);
            let denom = s.skip(k + 1);
            if int_shape(numer) && int_shape(denom) {
                if int_val(denom) == 0 {
                    NumAtom::ZeroDenom
                } else {
                    NumAtom::Value(rat_norm(int_val(numer), int_val(denom)))
                }
            } else {
                NumAtom::NotNumber
            }
        },
    }
}

/// How an atom resolves to a term head: operator names first, then
/// named float constants, then exact rational literals; anything else is
/// a variable. Only a fraction with a zero denominator fails.
pub open spec fn classify_atom(s: Seq<char>) -> Option<MathModel> {
    if op_of_name(s) is Some {
        Some(MathModel::Op(op_of_name(s)->Some_0))
    } else if fp_of_name(s) is Some {
        Some(MathModel::FPConstant(fp_of_name(s)->Some_0))
    } else {
        match num_atom(s) {
            NumAtom::Value(v) => Some(MathModel::Constant(v)),
            NumAtom::ZeroDenom => None,
            NumAtom::NotNumber => Some(MathModel::Variable(s)),
        }
    }
}

/// The model of an optional term head.
pub open spec fn opt_math_model(r: Option<Math>) -> Option<MathModel> {
    match r {
        Some(m) => Some(m@),
        None => None,
    }
}

/// Whether the characters in `[from, to)` are all decimal digits.
fn check_digits(s: &Vec<char>, from: usize, to: usize) -> (r: bool)
    requires
        from <= to <= s@.len(),
    ensures
        r == all_digits(s@.subrange(from as int, to as int)),
{
    let ghost sub = s@.subrange(from as int, to as int);
    let mut i: usize = from;
    while i < to
        invariant
            from <= i <= to <= s@.len(),
            sub == s@.subrange(from as int, to as int),
            forall|j: int| 0 <= j < i - from ==> is_digit(#[trigger] sub[j]),
        decreases to - i,
    {
        let u: u32 = s[i] as u32;
        if !(48 <= u && u <= 57) {
            proof {
                assert(sub[i - from] == s@[i as int]);
                assert(!is_digit(sub[i - from]));
            }
            return false;
        }
        proof {
            assert(sub[i - from] == s@[i as int]);
        }
        i += 1;
    }
    true
}

/// The value of the digit run in `[from, to)`, as an exact rational.
fn digits_rat(s: &Vec<char>, from: usize, to: usize) -> (r: Rat)
    requires
        from <= to <= s@.len(),
        all_digits(s@.subrange(from as int, to as int)),
    ensures
        r@ == int_rat(digits_val(s@.subrange(from as int, to as int))),
{
    let ghost sub = s@.subrange(from as int, to as int);
    let mut acc: Rat = Rat::of_i64(0);
    let ten: Rat = Rat::of_i64(10);
    let mut i: usize = from;
    proof {
        assert(s@.subrange(from as int, from as int) =~= Seq::<char>::empty());
    }
    while i < to
        invariant
            from <= i <= to <= s@.len(),
            sub == s@.subrange(from as int, to as int),
            all_digits(sub),
            ten@ == int_rat(10),
            acc@ == int_rat(digits_val(s@.subrange(from as int, i as int))),
        decreases to - i,
    {
        let ghost pre = s@.subrange(from as int, i as int);
        let ghost v = digits_val(pre);
        let ghost acc0 = acc@;
        proof {
            assert(sub[i - from] == s@[i as int]);
            assert(is_digit(sub[i - from]));
        }
        let u: u32 = s[i] as u32;
        let d: i64 = (u - 48) as i64;
        let shifted = Rat::mul(&acc, &ten);
        let dr = Rat::of_i64(d);
        acc = Rat::add(&shifted, &dr);
        proof {
            crate::rat::lemma_int_mul_model(v, 10);
            assert(shifted@ == int_rat(v * 10));
            crate::rat::lemma_int_add_model(v * 10, u as int - 48);
            assert(acc@ == int_rat(v * 10 + (u as int - 48)));
            assert(u as int - 48 == digit_val(s@[i as int]));
        }
        i += 1;
        proof {
            let cur = s@.subrange(from as int, i as int);
            assert(cur.drop_last() =~= pre);
            assert(cur.last() == s@[i as int - 1]);
            assert(digits_val(cur) == v * 10 + digit_val(s@[i as int - 1]));
        }
    }
    proof {
        assert(s@.subrange(from as int, i as int) =~= sub);
    }
    acc
}

/// The decimal integer in `[from, to)`, as an exact rational; `None`
/// when that range is not an integer.
fn parse_int(s: &Vec<char>, from: usize, to: usize) -> (r: Option<Rat>)
    requires
        from <= to <= s@.len(),
    ensures
        int_shape(s@.subrange(from as int, to as int)) ==> (r matches Some(v) && v@ == int_rat(
            int_val(s@.subrange(from as int, to as int)),
        )),
        !int_shape(s@.subrange(from as int, to as int)) ==> r is None,
{
    let ghost sub = s@.subrange(from as int, to as int);
    if from >= to {
        return None;
    }
    proof {
        assert(sub[0] == s@[from as int]);
    }
    if s[from] == '-' {
        if from + 1 >= to {
            return None;
        }
        proof {
            assert(sub.skip(1) =~= s@.subrange(from as int + 1, to as int));
        }
        if check_digits(s, from + 1, to) {
            let mag = digits_rat(s, from + 1, to);
            let r = Rat::neg(&mag);
            Some(r)
        } else {
            None
        }
    } else {
        if check_digits(s, from, to) {
            Some(digits_rat(s, from, to))
        } else {
            None
        }
    }
}

/// The position of the first `/` in the atom, if any.
fn find_slash_exec(s: &Vec<char>) -> (r: Option<usize>)
    ensures
        match r {
            Some(k) => find_slash(s@, 0) == Some(k as int) && k < s@.len(),
            None => find_slash(s@, 0) is None,
        },
{
    let mut i: usize = 0;
    while i < s.len()
        invariant
            0 <= i <= s@.len(),
            find_slash(s@, 0) == find_slash(s@, i as int),
        decreases s.len() - i,
    {
        if s[i] == '/' {
            return Some(i);
        }
        i += 1;
    }
    None
}

/// Resolve an atom to a term head; `None` only for a fraction with an
/// exactly zero denominator.
pub fn classify(a: &Vec<char>) -> (r: Option<Math>)
    ensures
        opt_math_model(r) == classify_atom(a@),
{
    match op_lookup(a) {
        Some(t) => {
            return Some(Math::Op(t));
        },
        None => {},
    }
    match fp_lookup(a) {
        Some(c) => {
            return Some(Math::FPConstant(c));
        },
        None => {},
    }
    match find_slash_exec(a) {
        None => {
            proof {
                assert(a@.subrange(0, a@.len() as int) =~= a@);
            }
            match parse_int(a, 0, a.len()) {
                Some(v) => Some(Math::Constant(v)),
                None => Some(Math::Variable(chars_string(a))),
            }
        },
        Some(k) => {
            proof {
                assert(a@.subrange(0, k as int) =~= a@.take(k as int));
                assert(a@.subrange(k as int + 1, a@.len() as int) =~= a@.skip(k as int + 1));
            }
            let n = a.len();
            let n_opt = parse_int(a, 0, k);
            let d_opt = parse_int(a, k + 1, n);
            match (n_opt, d_opt) {
                (Some(n), Some(d)) => {
                    if d.is_zero() {
                        None
                    } else {
                        let q = Rat::div(&n, &d);
                        proof {
                            crate::rat::lemma_int_div_model(
                                int_val(a@.take(k as int)),
                                int_val(a@.skip(k as int + 1)),
                            );
                        }
                        Some(Math::Constant(q))
                    }
                },
                _ => Some(Math::Variable(chars_string(a))),
            }
        },
    }
}


/// A rewrite pattern: a pattern variable, or a term head applied to
/// child patterns.
pub enum Pattern {
    PatVar(String),
    Term(Math, Vec<Pattern>),
}

/// The value of a pattern.
pub enum PatternModel {
    PatVar(Seq<char>),
    Term(MathModel, Seq<PatternModel>),
}

impl Pattern {
    pub open spec fn model(self) -> PatternModel
        decreases self, 1int,
    {
        match self {
            Pattern::PatVar(v) => PatternModel::PatVar(v@),
            Pattern::Term(op, args) => {
                proof {
                    broadcast use vstd::std_specs::vec::group_vec_axioms;
                    assert(decreases_to!(self => args));
                    assert(decreases_to!(args => args@));
                }
                PatternModel::Term(op@, Pattern::models(args@))
            },
        }
    }

    pub open spec fn models(s: Seq<Pattern>) -> Seq<PatternModel>
        decreases s, 0int,
    {
        if s.len() == 0 {
            Seq::empty()
        } else {
            Pattern::models(s.drop_last()).push(s.last().model())
        }
    }

    /// The models of a sequence of patterns are the patterns' models,
    /// in order.
    pub proof fn lemma_models(s: Seq<Pattern>)
        ensures
            Pattern::models(s).len() == s.len(),
            forall|i: int| 0 <= i < s.len() ==> Pattern::models(s)[i] == s[i].model(),
        decreases s.len(),
    {
        if s.len() > 0 {
            Pattern::lemma_models(s.drop_last());
        }
    }
}

impl View for Pattern {
    type V = PatternModel;

    open spec fn view(&self) -> PatternModel {
        self.model()
    }
}

/// One pattern, parsed from the tokens starting at `i`: either a single
/// atom, or a parenthesized head with child patterns. Returns the
/// pattern and the position just after it. `fuel` only bounds the
/// recursion; one unit is spent per nesting level and per list element,
/// so any fuel beyond the number of tokens is enough.
pub open spec fn spec_parse_at(toks: Seq<TokenModel>, i: int, fuel: nat) -> Option<
    (PatternModel, int),
>
    decreases fuel, 0int,
{
    if fuel == 0 || i < 0 || i >= toks.len() {
        None
    } else {
        match toks[i] {
            TokenModel::RP => None,
            TokenModel::Atom(s) => {
                if s.len() >= 1 && s[0] == '?' {
                    if s.len() >= 2 {
                        Some((PatternModel::PatVar(s.skip(1)), i + 1))
                    } else {
                        None
                    }
                } else {
                    match classify_atom(s) {
                        Some(m) => Some((PatternModel::Term(m, Seq::empty()), i + 1)),
                        None => None,
                    }
                }
            },
            TokenModel::LP => {
                if i + 1 < toks.len() {
                    match toks[i + 1] {
                        TokenModel::Atom(s) => {
                            if s.len() >= 1 && s[0] == '?' {
                                None
                            } else {
                                match classify_atom(s) {
                                    Some(m) => match spec_parse_list(
                                        toks,
                                        i + 2,
                                        (fuel - 1) as nat,
                                    ) {
                                        Some((args, j)) => Some((PatternModel::Term(m, args), j)),
                                        None => None,
                                    },
                                    None => None,
                                }
                            }
                        },
                        _ => None,
                    }
                } else {
                    None
                }
            },
        }
    }
}

/// Child patterns up to and including the closing parenthesis; returns
/// them and the position just after that parenthesis.
pub open spec fn spec_parse_list(toks: Seq<TokenModel>, i: int, fuel: nat) -> Option<
    (Seq<PatternModel>, int),
>
    decreases fuel, 1int,
{
    if i < 0 || i >= toks.len() {
        None
    } else if toks[i] is RP {
        Some((Seq::empty(), i + 1))
    } else {
        match spec_parse_at(toks, i, fuel) {
            Some((p, j)) => {
                if fuel == 0 {
                    None
                } else {
                    match spec_parse_list(toks, j, (fuel - 1) as nat) {
                        Some((rest, k)) => Some((seq![p] + rest, k)),
                        None => None,
                    }
                }
            },
            None => None,
        }
    }
}

/// The pattern written in the text: the tokens must form exactly one
/// pattern, with nothing left over.
#[verifier::opaque]
pub open spec fn spec_parse_pattern(s: Seq<char>) -> Option<PatternModel> {
    let toks = spec_tokenize(s, 0);
    if toks.len() + 1 > usize::MAX {
        None
    } else {
        match spec_parse_at(toks, 0, (toks.len() + 1) as nat) {
            Some((p, j)) => {
                if j == toks.len() {
                    Some(p)
                } else {
                    None
                }
            },
            None => None,
        }
    }
}

/// The model of an optional parse result.
pub open spec fn opt_parse_model(r: Option<(Pattern, usize)>) -> Option<(PatternModel, int)> {
    match r {
        Some((p, j)) => Some((p@, j as int)),
        None => None,
    }
}

fn parse_at(toks: &Vec<Token>, i: usize, fuel: usize) -> (r: Option<(Pattern, usize)>)
    ensures
        opt_parse_model(r) == spec_parse_at(token_models(toks@), i as int, fuel as nat),
        r matches Some((p, j)) ==> j <= toks@.len(),
    decreases fuel, 0int,
{
    let ghost tm = token_models(toks@);
    if fuel == 0 || i >= toks.len() {
        return None;
    }
    proof {
        assert(tm[i as int] == toks@[i as int]@);
    }
    match &toks[i] {
        Token::RP => None,
        Token::Atom(s) => {
            if s.len() >= 1 && s[0] == '?' {
                if s.len() >= 2 {
                    let mut rest: Vec<char> = Vec::new();
                    let mut k: usize = 1;
                    while k < s.len()
                        invariant
                            1 <= k <= s@.len(),
                            rest@ == s@.subrange(1, k as int),
                        decreases s.len() - k,
                    {
                        rest.push(s[k]);
                        k += 1;
                        proof {
                            assert(rest@ =~= s@.subrange(1, k as int));
                        }
                    }
                    proof {
                        assert(rest@ =~= s@.skip(1));
                    }
                    let name = chars_string(&rest);
                    Some((Pattern::PatVar(name), i + 1))
                } else {
                    None
                }
            } else {
                match classify(s) {
                    Some(m) => {
                        let p = Pattern::Term(m, Vec::new());
                        proof {
                            assert(p@ == PatternModel::Term(m@, Pattern::models(Seq::empty())));
                            assert(Pattern::models(Seq::empty()) =~= Seq::<PatternModel>::empty());
                        }
                        Some((p, i + 1))
                    },
                    None => None,
                }
            }
        },
        Token::LP => {
            if i + 1 < toks.len() {
                proof {
                    assert(tm[i as int + 1] == toks@[i as int + 1]@);
                }
                match &toks[i + 1] {
                    Token::Atom(s) => {
                        if s.len() >= 1 && s[0] == '?' {
                            None
                        } else {
                            match classify(s) {
                                Some(m) => match parse_list(toks, i + 2, fuel - 1) {
                                    Some((args, j)) => {
                                        let p = Pattern::Term(m, args);
                                        proof {
                                            assert(p@ == PatternModel::Term(
                                                m@,
                                                Pattern::models(p->Term_1@),
                                            ));
                                        }
                                        Some((p, j))
                                    },
                                    None => None,
                                },
                                None => None,
                            }
                        }
                    },
                    _ => None,
                }
            } else {
                None
            }
        },
    }
}

fn parse_list(toks: &Vec<Token>, i: usize, fuel: usize) -> (r: Option<(Vec<Pattern>, usize)>)
    ensures
        match r {
            Some((ps, j)) => spec_parse_list(token_models(toks@), i as int, fuel as nat) == Some(
                (Pattern::models(ps@), j as int),
            ) && j <= toks@.len(),
            None => spec_parse_list(token_models(toks@), i as int, fuel as nat) is None,
        },
    decreases fuel, 1int,
{
    let ghost tm = token_models(toks@);
    if i >= toks.len() {
        return None;
    }
    proof {
        assert(tm[i as int] == toks@[i as int]@);
    }
    match &toks[i] {
        Token::RP => {
            proof {
                assert(Pattern::models(Seq::empty()) =~= Seq::<PatternModel>::empty());
            }
            Some((Vec::new(), i + 1))
        },
        _ => {
            match parse_at(toks, i, fuel) {
                Some((p, j)) => {
                    if fuel == 0 {
                        return None;
                    }
                    match parse_list(toks, j, fuel - 1) {
                        Some((rest, k)) => {
                            let mut ps: Vec<Pattern> = Vec::new();
                            ps.push(p);
                            let ghost rest0 = rest@;
                            let mut rest = rest;
                            ps.append(&mut rest);
                            proof {
                                assert(ps@ =~= seq![p] + rest0);
                                Pattern::lemma_models(ps@);
                                Pattern::lemma_models(rest0);
                                assert(Pattern::models(ps@) =~= seq![p@] + Pattern::models(rest0));
                            }
                            Some((ps, k))
                        },
                        None => None,
                    }
                },
                None => None,
            }
        },
    }
}

/// Parse one pattern from text: exactly one s-expression over the term
/// vocabulary and pattern variables, or nothing.
pub fn parse_pattern(text: &str) -> (r: Option<Pattern>)
    ensures
        match r {
            Some(p) => spec_parse_pattern(text@) == Some(p@),
            None => spec_parse_pattern(text@) is None,
        },
{
    proof {
        reveal(spec_parse_pattern);
    }
    let cs = str_chars(text);
    let toks = tokenize(&cs);
    if toks.len() == usize::MAX {
        return None;
    }
    match parse_at(&toks, 0, toks.len() + 1) {
        Some((p, j)) => {
            if j == toks.len() {
                Some(p)
            } else {
                None
            }
        },
        None => None,
    }
}


} // verus!
