//! The term vocabulary: operator tags, named float constants, and the
//! canonical textual name of each tag.
//!
//! `Constant`, `Variable` and `FPConstant` are the leaves; every other
//! tag is an operator that is applied to child terms. Each operator and
//! each named float constant has exactly one canonical name, the spelling
//! used by the rule corpus and by the hosting engine's parser.
use vstd::prelude::*;
use crate::rat::{Rat, RatModel};

verus! {

/// The fixed operator tags (everything that is not a leaf).
#[derive(Clone, Copy, PartialEq, Eq, Structural, Debug, Hash)]
pub enum OpTag {
    Neg,
    Not,
    And,
    Or,
    If,
    Less,
    Greater,
    LessEq,
    GreaterEq,
    Re,
    Im,
    Complex,
    Conj,
    Addc,
    Subc,
    Negc,
    Divc,
    Mulc,
    Erf,
    Erfc,
    Tgamma,
    Lgamma,
    Ceil,
    Floor,
    Fmod,
    Remainder,
    Fmax,
    Fmin,
    Fdim,
    Copysign,
    Trunc,
    Round,
    NearbyInt,
    Add,
    Sub,
    Mul,
    Div,
    Pow,
    Exp,
    Exp2,
    Log,
    Sqrt,
    Cbrt,
    Fabs,
    Sin,
    Cos,
    Tan,
    Asin,
    Acos,
    Atan,
    Atan2,
    Sinh,
    Cosh,
    Tanh,
    Asinh,
    Acosh,
    Atanh,
    Fma,
    Log1p,
    Log10,
    Log2,
    Expm1,
    Hypot,
    PositAdd,
    PositSub,
    PositMul,
    PositDiv,
    RealToPosit,
}

/// The named float constants: opaque symbolic leaves that are never
/// evaluated numerically by this crate.
#[derive(Clone, Copy, PartialEq, Eq, Structural, Debug, Hash)]
pub enum FPConstant {
    True,
    False,
    E,
    Log2E,
    Log10E,
    Ln2,
    Ln10,
    Pi,
    Pi2,
    Pi4,
    Pi1Alt,
    Pi2Alt,
    Sqrtpi2,
    Sqrt2,
    Sqrt1_2,
    Infinity,
    Nan,
}

/// A term head: an exact rational constant, a named float constant, a
/// variable, or an operator tag.
pub enum Math {
    Constant(Rat),
    FPConstant(FPConstant),
    Variable(String),
    Op(OpTag),
}

/// The mathematical value of a term head.
pub enum MathModel {
    Constant(RatModel),
    FPConstant(FPConstant),
    Variable(Seq<char>),
    Op(OpTag),
}

impl View for Math {
    type V = MathModel;

    open spec fn view(&self) -> MathModel {
        match self {
            Math::Constant(c) => MathModel::Constant(c@),
            Math::FPConstant(c) => MathModel::FPConstant(*c),
            Math::Variable(v) => MathModel::Variable(v@),
            Math::Op(t) => MathModel::Op(*t),
        }
    }
}

/// Whether a term head is a leaf (zero arity by definition).
pub open spec fn is_leaf(m: MathModel) -> bool {
    match m {
        MathModel::Constant(_) => true,
        MathModel::FPConstant(_) => true,
        MathModel::Variable(_) => true,
        MathModel::Op(_) => false,
    }
}

/// The canonical name of an operator tag.
pub open spec fn op_name(t: OpTag) -> Seq<char> {
    match t {
        OpTag::Neg => "neg"@,
        OpTag::Not => "not"@,
        OpTag::And => "and"@,
        OpTag::Or => "or"@,
        OpTag::If => "if"@,
        OpTag::Less => "<"@,
        OpTag::Greater => ">"@,
        OpTag::LessEq => "<="@,
        OpTag::GreaterEq => ">="@,
        OpTag::Re => "re"@,
        OpTag::Im => "im"@,
        OpTag::Complex => "complex"@,
        OpTag::Conj => "conj"@,
        OpTag::Addc => "+.c"@,
        OpTag::Subc => "-.c"@,
        OpTag::Negc => "neg.c"@,
        OpTag::Divc => "/.c"@,
        OpTag::Mulc => "*.c"@,
        OpTag::Erf => "erf"@,
        OpTag::Erfc => "erfc"@,
        OpTag::Tgamma => "tgamma"@,
        OpTag::Lgamma => "lgamma"@,
        OpTag::Ceil => "ceil"@,
        OpTag::Floor => "floor"@,
        OpTag::Fmod => "fmod"@,
        OpTag::Remainder => "remainder"@,
        OpTag::Fmax => "fmax"@,
        OpTag::Fmin => "fmin"@,
        OpTag::Fdim => "fdim"@,
        OpTag::Copysign => "copysign"@,
        OpTag::Trunc => "trunc"@,
        OpTag::Round => "round"@,
        OpTag::NearbyInt => "nearbyint"@,
        OpTag::Add => "+"@,
        OpTag::Sub => "-"@,
        OpTag::Mul => "*"@,
        OpTag::Div => "/"@,
        OpTag::Pow => "pow"@,
        OpTag::Exp => "exp"@,
        OpTag::Exp2 => "exp2"@,
        OpTag::Log => "log"@,
        OpTag::Sqrt => "sqrt"@,
        OpTag::Cbrt => "cbrt"@,
        OpTag::Fabs => "fabs"@,
        OpTag::Sin => "sin"@,
        OpTag::Cos => "cos"@,
        OpTag::Tan => "tan"@,
        OpTag::Asin => "asin"@,
        OpTag::Acos => "acos"@,
        OpTag::Atan => "atan"@,
        OpTag::Atan2 => "atan2"@,
        OpTag::Sinh => "sinh"@,
        OpTag::Cosh => "cosh"@,
        OpTag::Tanh => "tanh"@,
        OpTag::Asinh => "asinh"@,
        OpTag::Acosh => "acosh"@,
        OpTag::Atanh => "atanh"@,
        OpTag::Fma => "fma"@,
        OpTag::Log1p => "log1p"@,
        OpTag::Log10 => "log10"@,
        OpTag::Log2 => "log2"@,
        OpTag::Expm1 => "expm1"@,
        OpTag::Hypot => "hypot"@,
        OpTag::PositAdd => "+.p16"@,
        OpTag::PositSub => "-.p16"@,
        OpTag::PositMul => "*.p16"@,
        OpTag::PositDiv => "/.p16"@,
        OpTag::RealToPosit => "real->posit"@,
    }
}

/// The canonical name of a named float constant.
pub open spec fn fp_name(c: FPConstant) -> Seq<char> {
    match c {
        FPConstant::True => "TRUE"@,
        FPConstant::False => "FALSE"@,
        FPConstant::E => "E"@,
        FPConstant::Log2E => "LOG2E"@,
        FPConstant::Log10E => "LOG10E"@,
        FPConstant::Ln2 => "LN2"@,
        FPConstant::Ln10 => "LN10"@,
        FPConstant::Pi => "PI"@,
        FPConstant::Pi2 => "PI_2"@,
        FPConstant::Pi4 => "PI_4"@,
        FPConstant::Pi1Alt => "1_PI"@,
        FPConstant::Pi2Alt => "2_PI"@,
        FPConstant::Sqrtpi2 => "2_SQRTPI"@,
        FPConstant::Sqrt2 => "SQRT2"@,
        FPConstant::Sqrt1_2 => "SQRT1_2"@,
        FPConstant::Infinity => "INFINITY"@,
        FPConstant::Nan => "NAN"@,
    }
}

/// The operator tag with the given canonical name, if any.
pub open spec fn op_of_name(s: Seq<char>) -> Option<OpTag> {
    if s == "neg"@ {
        Some(OpTag::Neg)
    } else
    if s == "not"@ {
        Some(OpTag::Not)
    } else
    if s == "and"@ {
        Some(OpTag::And)
    } else
    if s == "or"@ {
        Some(OpTag::Or)
    } else
    if s == "if"@ {
        Some(OpTag::If)
    } else
    if s == "<"@ {
        Some(OpTag::Less)
    } else
    if s == ">"@ {
        Some(OpTag::Greater)
    } else
    if s == "<="@ {
        Some(OpTag::LessEq)
    } else
    if s == ">="@ {
        Some(OpTag::GreaterEq)
    } else
    if s == "re"@ {
        Some(OpTag::Re)
    } else
    if s == "im"@ {
        Some(OpTag::Im)
    } else
    if s == "complex"@ {
        Some(OpTag::Complex)
    } else
    if s == "conj"@ {
        Some(OpTag::Conj)
    } else
    if s == "+.c"@ {
        Some(OpTag::Addc)
    } else
    if s == "-.c"@ {
        Some(OpTag::Subc)
    } else
    if s == "neg.c"@ {
        Some(OpTag::Negc)
    } else
    if s == "/.c"@ {
        Some(OpTag::Divc)
    } else
    if s == "*.c"@ {
        Some(OpTag::Mulc)
    } else
    if s == "erf"@ {
        Some(OpTag::Erf)
    } else
    if s == "erfc"@ {
        Some(OpTag::Erfc)
    } else
    if s == "tgamma"@ {
        Some(OpTag::Tgamma)
    } else
    if s == "lgamma"@ {
        Some(OpTag::Lgamma)
    } else
    if s == "ceil"@ {
        Some(OpTag::Ceil)
    } else
    if s == "floor"@ {
        Some(OpTag::Floor)
    } else
    if s == "fmod"@ {
        Some(OpTag::Fmod)
    } else
    if s == "remainder"@ {
        Some(OpTag::Remainder)
    } else
    if s == "fmax"@ {
        Some(OpTag::Fmax)
    } else
    if s == "fmin"@ {
        Some(OpTag::Fmin)
    } else
    if s == "fdim"@ {
        Some(OpTag::Fdim)
    } else
    if s == "copysign"@ {
        Some(OpTag::Copysign)
    } else
    if s == "trunc"@ {
        Some(OpTag::Trunc)
    } else
    if s == "round"@ {
        Some(OpTag::Round)
    } else
    if s == "nearbyint"@ {
        Some(OpTag::NearbyInt)
    } else
    if s == "+"@ {
        Some(OpTag::Add)
    } else
    if s == "-"@ {
        Some(OpTag::Sub)
    } else
    if s == "*"@ {
        Some(OpTag::Mul)
    } else
    if s == "/"@ {
        Some(OpTag::Div)
    } else
    if s == "pow"@ {
        Some(OpTag::Pow)
    } else
    if s == "exp"@ {
        Some(OpTag::Exp)
    } else
    if s == "exp2"@ {
        Some(OpTag::Exp2)
    } else
    if s == "log"@ {
        Some(OpTag::Log)
    } else
    if s == "sqrt"@ {
        Some(OpTag::Sqrt)
    } else
    if s == "cbrt"@ {
        Some(OpTag::Cbrt)
    } else
    if s == "fabs"@ {
        Some(OpTag::Fabs)
    } else
    if s == "sin"@ {
        Some(OpTag::Sin)
    } else
    if s == "cos"@ {
        Some(OpTag::Cos)
    } else
    if s == "tan"@ {
        Some(OpTag::Tan)
    } else
    if s == "asin"@ {
        Some(OpTag::Asin)
    } else
    if s == "acos"@ {
        Some(OpTag::Acos)
    } else
    if s == "atan"@ {
        Some(OpTag::Atan)
    } else
    if s == "atan2"@ {
        Some(OpTag::Atan2)
    } else
    if s == "sinh"@ {
        Some(OpTag::Sinh)
    } else
    if s == "cosh"@ {
        Some(OpTag::Cosh)
    } else
    if s == "tanh"@ {
        Some(OpTag::Tanh)
    } else
    if s == "asinh"@ {
        Some(OpTag::Asinh)
    } else
    if s == "acosh"@ {
        Some(OpTag::Acosh)
    } else
    if s == "atanh"@ {
        Some(OpTag::Atanh)
    } else
    if s == "fma"@ {
        Some(OpTag::Fma)
    } else
    if s == "log1p"@ {
        Some(OpTag::Log1p)
    } else
    if s == "log10"@ {
        Some(OpTag::Log10)
    } else
    if s == "log2"@ {
        Some(OpTag::Log2)
    } else
    if s == "expm1"@ {
        Some(OpTag::Expm1)
    } else
    if s == "hypot"@ {
        Some(OpTag::Hypot)
    } else
    if s == "+.p16"@ {
        Some(OpTag::PositAdd)
    } else
    if s == "-.p16"@ {
        Some(OpTag::PositSub)
    } else
    if s == "*.p16"@ {
        Some(OpTag::PositMul)
    } else
    if s == "/.p16"@ {
        Some(OpTag::PositDiv)
    } else
    if s == "real->posit"@ {
        Some(OpTag::RealToPosit)
    } else {
        None
    }
}

/// The named float constant with the given canonical name, if any.
pub open spec fn fp_of_name(s: Seq<char>) -> Option<FPConstant> {
    if s == "TRUE"@ {
        Some(FPConstant::True)
    } else
    if s == "FALSE"@ {
        Some(FPConstant::False)
    } else
    if s == "E"@ {
        Some(FPConstant::E)
    } else
    if s == "LOG2E"@ {
        Some(FPConstant::Log2E)
    } else
    if s == "LOG10E"@ {
        Some(FPConstant::Log10E)
    } else
    if s == "LN2"@ {
        Some(FPConstant::Ln2)
    } else
    if s == "LN10"@ {
        Some(FPConstant::Ln10)
    } else
    if s == "PI"@ {
        Some(FPConstant::Pi)
    } else
    if s == "PI_2"@ {
        Some(FPConstant::Pi2)
    } else
    if s == "PI_4"@ {
        Some(FPConstant::Pi4)
    } else
    if s == "1_PI"@ {
        Some(FPConstant::Pi1Alt)
    } else
    if s == "2_PI"@ {
        Some(FPConstant::Pi2Alt)
    } else
    if s == "2_SQRTPI"@ {
        Some(FPConstant::Sqrtpi2)
    } else
    if s == "SQRT2"@ {
        Some(FPConstant::Sqrt2)
    } else
    if s == "SQRT1_2"@ {
        Some(FPConstant::Sqrt1_2)
    } else
    if s == "INFINITY"@ {
        Some(FPConstant::Infinity)
    } else
    if s == "NAN"@ {
        Some(FPConstant::Nan)
    } else {
        None
    }
}

impl Math {
    /// Whether this head is a leaf.
    pub fn leaf(&self) -> (r: bool)
        ensures
            r == is_leaf(self@),
    {
        match self {
            Math::Op(_) => false,
            _ => true,
        }
    }
}

/// The canonical name of an operator tag, as text.
pub fn op_text(t: OpTag) -> (r: &'static str)
    ensures
        r@ == op_name(t),
{
    match t {
        OpTag::Neg => "neg",
        OpTag::Not => "not",
        OpTag::And => "and",
        OpTag::Or => "or",
        OpTag::If => "if",
        OpTag::Less => "<",
        OpTag::Greater => ">",
        OpTag::LessEq => "<=",
        OpTag::GreaterEq => ">=",
        OpTag::Re => "re",
        OpTag::Im => "im",
        OpTag::Complex => "complex",
        OpTag::Conj => "conj",
        OpTag::Addc => "+.c",
        OpTag::Subc => "-.c",
        OpTag::Negc => "neg.c",
        OpTag::Divc => "/.c",
        OpTag::Mulc => "*.c",
        OpTag::Erf => "erf",
        OpTag::Erfc => "erfc",
        OpTag::Tgamma => "tgamma",
        OpTag::Lgamma => "lgamma",
        OpTag::Ceil => "ceil",
        OpTag::Floor => "floor",
        OpTag::Fmod => "fmod",
        OpTag::Remainder => "remainder",
        OpTag::Fmax => "fmax",
        OpTag::Fmin => "fmin",
        OpTag::Fdim => "fdim",
        OpTag::Copysign => "copysign",
        OpTag::Trunc => "trunc",
        OpTag::Round => "round",
        OpTag::NearbyInt => "nearbyint",
        OpTag::Add => "+",
        OpTag::Sub => "-",
        OpTag::Mul => "*",
        OpTag::Div => "/",
        OpTag::Pow => "pow",
        OpTag::Exp => "exp",
        OpTag::Exp2 => "exp2",
        OpTag::Log => "log",
        OpTag::Sqrt => "sqrt",
        OpTag::Cbrt => "cbrt",
        OpTag::Fabs => "fabs",
        OpTag::Sin => "sin",
        OpTag::Cos => "cos",
        OpTag::Tan => "tan",
        OpTag::Asin => "asin",
        OpTag::Acos => "acos",
        OpTag::Atan => "atan",
        OpTag::Atan2 => "atan2",
        OpTag::Sinh => "sinh",
        OpTag::Cosh => "cosh",
        OpTag::Tanh => "tanh",
        OpTag::Asinh => "asinh",
        OpTag::Acosh => "acosh",
        OpTag::Atanh => "atanh",
        OpTag::Fma => "fma",
        OpTag::Log1p => "log1p",
        OpTag::Log10 => "log10",
        OpTag::Log2 => "log2",
        OpTag::Expm1 => "expm1",
        OpTag::Hypot => "hypot",
        OpTag::PositAdd => "+.p16",
        OpTag::PositSub => "-.p16",
        OpTag::PositMul => "*.p16",
        OpTag::PositDiv => "/.p16",
        OpTag::RealToPosit => "real->posit",
    }
}

/// The canonical name of a named float constant, as text.
pub fn fp_text(c: FPConstant) -> (r: &'static str)
    ensures
        r@ == fp_name(c),
{
    match c {
        FPConstant::True => "TRUE",
        FPConstant::False => "FALSE",
        FPConstant::E => "E",
        FPConstant::Log2E => "LOG2E",
        FPConstant::Log10E => "LOG10E",
        FPConstant::Ln2 => "LN2",
        FPConstant::Ln10 => "LN10",
        FPConstant::Pi => "PI",
        FPConstant::Pi2 => "PI_2",
        FPConstant::Pi4 => "PI_4",
        FPConstant::Pi1Alt => "1_PI",
        FPConstant::Pi2Alt => "2_PI",
        FPConstant::Sqrtpi2 => "2_SQRTPI",
        FPConstant::Sqrt2 => "SQRT2",
        FPConstant::Sqrt1_2 => "SQRT1_2",
        FPConstant::Infinity => "INFINITY",
        FPConstant::Nan => "NAN",
    }
}


/// The canonical-name table is a bijection on operator tags: each tag's
/// name resolves back to exactly that tag, so no two operator tags can
/// share a name.
#[verifier::rlimit(100)]
pub proof fn lemma_op_names_unique()
    ensures
        forall|t: OpTag| #[trigger] op_of_name(op_name(t)) == Some(t),
{
    reveal_strlit("neg");
    reveal_strlit("not");
    reveal_strlit("and");
    reveal_strlit("or");
    reveal_strlit("if");
    reveal_strlit("<");
    reveal_strlit(">");
    reveal_strlit("<=");
    reveal_strlit(">=");
    reveal_strlit("re");
    reveal_strlit("im");
    reveal_strlit("complex");
    reveal_strlit("conj");
    reveal_strlit("+.c");
    reveal_strlit("-.c");
    reveal_strlit("neg.c");
    reveal_strlit("/.c");
    reveal_strlit("*.c");
    reveal_strlit("erf");
    reveal_strlit("erfc");
    reveal_strlit("tgamma");
    reveal_strlit("lgamma");
    reveal_strlit("ceil");
    reveal_strlit("floor");
    reveal_strlit("fmod");
    reveal_strlit("remainder");
    reveal_strlit("fmax");
    reveal_strlit("fmin");
    reveal_strlit("fdim");
    reveal_strlit("copysign");
    reveal_strlit("trunc");
    reveal_strlit("round");
    reveal_strlit("nearbyint");
    reveal_strlit("+");
    reveal_strlit("-");
    reveal_strlit("*");
    reveal_strlit("/");
    reveal_strlit("pow");
    reveal_strlit("exp");
    reveal_strlit("exp2");
    reveal_strlit("log");
    reveal_strlit("sqrt");
    reveal_strlit("cbrt");
    reveal_strlit("fabs");
    reveal_strlit("sin");
    reveal_strlit("cos");
    reveal_strlit("tan");
    reveal_strlit("asin");
    reveal_strlit("acos");
    reveal_strlit("atan");
    reveal_strlit("atan2");
    reveal_strlit("sinh");
    reveal_strlit("cosh");
    reveal_strlit("tanh");
    reveal_strlit("asinh");
    reveal_strlit("acosh");
    reveal_strlit("atanh");
    reveal_strlit("fma");
    reveal_strlit("log1p");
    reveal_strlit("log10");
    reveal_strlit("log2");
    reveal_strlit("expm1");
    reveal_strlit("hypot");
    reveal_strlit("+.p16");
    reveal_strlit("-.p16");
    reveal_strlit("*.p16");
    reveal_strlit("/.p16");
    reveal_strlit("real->posit");
    reveal_strlit("TRUE");
    reveal_strlit("FALSE");
    reveal_strlit("E");
    reveal_strlit("LOG2E");
    reveal_strlit("LOG10E");
    reveal_strlit("LN2");
    reveal_strlit("LN10");
    reveal_strlit("PI");
    reveal_strlit("PI_2");
    reveal_strlit("PI_4");
    reveal_strlit("1_PI");
    reveal_strlit("2_PI");
    reveal_strlit("2_SQRTPI");
    reveal_strlit("SQRT2");
    reveal_strlit("SQRT1_2");
    reveal_strlit("INFINITY");
    reveal_strlit("NAN");
    assert forall|t: OpTag| #[trigger] op_of_name(op_name(t)) == Some(t) by {
        match t {
            OpTag::Neg => {
                assert(op_name(OpTag::Neg) == "neg"@);
                assert(op_of_name("neg"@) == Some(OpTag::Neg));
            },
            OpTag::Not => {
                assert(op_name(OpTag::Not) == "not"@);
                assert("not"@[1] != "neg"@[1]);
                assert("not"@ != "neg"@);
                assert(op_of_name("not"@) == Some(OpTag::Not));
            },
            OpTag::And => {
                assert(op_name(OpTag::And) == "and"@);
                assert("and"@[0] != "neg"@[0]);
                assert("and"@ != "neg"@);
                assert("and"@[0] != "not"@[0]);
                assert("and"@ != "not"@);
                assert(op_of_name("and"@) == Some(OpTag::And));
            },
            OpTag::Or => {
                assert(op_name(OpTag::Or) == "or"@);
                assert(op_of_name("or"@) == Some(OpTag::Or));
            },
            OpTag::If => {
                assert(op_name(OpTag::If) == "if"@);
                assert("if"@[0] != "or"@[0]);
                assert("if"@ != "or"@);
                assert(op_of_name("if"@) == Some(OpTag::If));
            },
            OpTag::Less => {
                assert(op_name(OpTag::Less) == "<"@);
                assert(op_of_name("<"@) == Some(OpTag::Less));
            },
            OpTag::Greater => {
                assert(op_name(OpTag::Greater) == ">"@);
                assert(">"@[0] != "<"@[0]);
                assert(">"@ != "<"@);
                assert(op_of_name(">"@) == Some(OpTag::Greater));
            },
            OpTag::LessEq => {
                assert(op_name(OpTag::LessEq) == "<="@);
                assert("<="@[0] != "or"@[0]);
                assert("<="@ != "or"@);
                assert("<="@[0] != "if"@[0]);
                assert("<="@ != "if"@);
                assert(op_of_name("<="@) == Some(OpTag::LessEq));
            },
            OpTag::GreaterEq => {
                assert(op_name(OpTag::GreaterEq) == ">="@);
                assert(">="@[0] != "or"@[0]);
                assert(">="@ != "or"@);
                assert(">="@[0] != "if"@[0]);
                assert(">="@ != "if"@);
                assert(">="@[0] != "<="@[0]);
                assert(">="@ != "<="@);
                assert(op_of_name(">="@) == Some(OpTag::GreaterEq));
            },
            OpTag::Re => {
                assert(op_name(OpTag::Re) == "re"@);
                assert("re"@[0] != "or"@[0]);
                assert("re"@ != "or"@);
                assert("re"@[0] != "if"@[0]);
                assert("re"@ != "if"@);
                assert("re"@[0] != "<="@[0]);
                assert("re"@ != "<="@);
                assert("re"@[0] != ">="@[0]);
                assert("re"@ != ">="@);
                assert(op_of_name("re"@) == Some(OpTag::Re));
            },
            OpTag::Im => {
                assert(op_name(OpTag::Im) == "im"@);
                assert("im"@[0] != "or"@[0]);
                assert("im"@ != "or"@);
                assert("im"@[1] != "if"@[1]);
                assert("im"@ != "if"@);
                assert("im"@[0] != "<="@[0]);
                assert("im"@ != "<="@);
                assert("im"@[0] != ">="@[0]);
                assert("im"@ != ">="@);
                assert("im"@[0] != "re"@[0]);
                assert("im"@ != "re"@);
                assert(op_of_name("im"@) == Some(OpTag::Im));
            },
            OpTag::Complex => {
                assert(op_name(OpTag::Complex) == "complex"@);
                assert(op_of_name("complex"@) == Some(OpTag::Complex));
            },
            OpTag::Conj => {
                assert(op_name(OpTag::Conj) == "conj"@);
                assert(op_of_name("conj"@) == Some(OpTag::Conj));
            },
            OpTag::Addc => {
                assert(op_name(OpTag::Addc) == "+.c"@);
                assert("+.c"@[0] != "neg"@[0]);
                assert("+.c"@ != "neg"@);
                assert("+.c"@[0] != "not"@[0]);
                assert("+.c"@ != "not"@);
                assert("+.c"@[0] != "and"@[0]);
                assert("+.c"@ != "and"@);
                assert(op_of_name("+.c"@) == Some(OpTag::Addc));
            },
            OpTag::Subc => {
                assert(op_name(OpTag::Subc) == "-.c"@);
                assert("-.c"@[0] != "neg"@[0]);
                assert("-.c"@ != "neg"@);
                assert("-.c"@[0] != "not"@[0]);
                assert("-.c"@ != "not"@);
                assert("-.c"@[0] != "and"@[0]);
                assert("-.c"@ != "and"@);
                assert("-.c"@[0] != "+.c"@[0]);
                assert("-.c"@ != "+.c"@);
                assert(op_of_name("-.c"@) == Some(OpTag::Subc));
            },
            OpTag::Negc => {
                assert(op_name(OpTag::Negc) == "neg.c"@);
                assert(op_of_name("neg.c"@) == Some(OpTag::Negc));
            },
            OpTag::Divc => {
                assert(op_name(OpTag::Divc) == "/.c"@);
                assert("/.c"@[0] != "neg"@[0]);
                assert("/.c"@ != "neg"@);
                assert("/.c"@[0] != "not"@[0]);
                assert("/.c"@ != "not"@);
                assert("/.c"@[0] != "and"@[0]);
                assert("/.c"@ != "and"@);
                assert("/.c"@[0] != "+.c"@[0]);
                assert("/.c"@ != "+.c"@);
                assert("/.c"@[0] != "-.c"@[0]);
                assert("/.c"@ != "-.c"@);
                assert(op_of_name("/.c"@) == Some(OpTag::Divc));
            },
            OpTag::Mulc => {
                assert(op_name(OpTag::Mulc) == "*.c"@);
                assert("*.c"@[0] != "neg"@[0]);
                assert("*.c"@ != "neg"@);
                assert("*.c"@[0] != "not"@[0]);
                assert("*.c"@ != "not"@);
                assert("*.c"@[0] != "and"@[0]);
                assert("*.c"@ != "and"@);
                assert("*.c"@[0] != "+.c"@[0]);
                assert("*.c"@ != "+.c"@);
                assert("*.c"@[0] != "-.c"@[0]);
                assert("*.c"@ != "-.c"@);
                assert("*.c"@[0] != "/.c"@[0]);
                assert("*.c"@ != "/.c"@);
                assert(op_of_name("*.c"@) == Some(OpTag::Mulc));
            },
            OpTag::Erf => {
                assert(op_name(OpTag::Erf) == "erf"@);
                assert("erf"@[0] != "neg"@[0]);
                assert("erf"@ != "neg"@);
                assert("erf"@[0] != "not"@[0]);
                assert("erf"@ != "not"@);
                assert("erf"@[0] != "and"@[0]);
                assert("erf"@ != "and"@);
                assert("erf"@[0] != "+.c"@[0]);
                assert("erf"@ != "+.c"@);
                assert("erf"@[0] != "-.c"@[0]);
                assert("erf"@ != "-.c"@);
                assert("erf"@[0] != "/.c"@[0]);
                assert("erf"@ != "/.c"@);
                assert("erf"@[0] != "*.c"@[0]);
                assert("erf"@ != "*.c"@);
                assert(op_of_name("erf"@) == Some(OpTag::Erf));
            },
            OpTag::Erfc => {
                assert(op_name(OpTag::Erfc) == "erfc"@);
                assert("erfc"@[0] != "conj"@[0]);
                assert("erfc"@ != "conj"@);
                assert(op_of_name("erfc"@) == Some(OpTag::Erfc));
            },
            OpTag::Tgamma => {
                assert(op_name(OpTag::Tgamma) == "tgamma"@);
                assert(op_of_name("tgamma"@) == Some(OpTag::Tgamma));
            },
            OpTag::Lgamma => {
                assert(op_name(OpTag::Lgamma) == "lgamma"@);
                assert("lgamma"@[0] != "tgamma"@[0]);
                assert("lgamma"@ != "tgamma"@);
                assert(op_of_name("lgamma"@) == Some(OpTag::Lgamma));
            },
            OpTag::Ceil => {
                assert(op_name(OpTag::Ceil) == "ceil"@);
                assert("ceil"@[1] != "conj"@[1]);
                assert("ceil"@ != "conj"@);
                assert("ceil"@[0] != "erfc"@[0]);
                assert("ceil"@ != "erfc"@);
                assert(op_of_name("ceil"@) == Some(OpTag::Ceil));
            },
            OpTag::Floor => {
                assert(op_name(OpTag::Floor) == "floor"@);
                assert("floor"@[0] != "neg.c"@[0]);
                assert("floor"@ != "neg.c"@);
                assert(op_of_name("floor"@) == Some(OpTag::Floor));
            },
            OpTag::Fmod => {
                assert(op_name(OpTag::Fmod) == "fmod"@);
                assert("fmod"@[0] != "conj"@[0]);
                assert("fmod"@ != "conj"@);
                assert("fmod"@[0] != "erfc"@[0]);
                assert("fmod"@ != "erfc"@);
                assert("fmod"@[0] != "ceil"@[0]);
                assert("fmod"@ != "ceil"@);
                assert(op_of_name("fmod"@) == Some(OpTag::Fmod));
            },
            OpTag::Remainder => {
                assert(op_name(OpTag::Remainder) == "remainder"@);
                assert(op_of_name("remainder"@) == Some(OpTag::Remainder));
            },
            OpTag::Fmax => {
                assert(op_name(OpTag::Fmax) == "fmax"@);
                assert("fmax"@[0] != "conj"@[0]);
                assert("fmax"@ != "conj"@);
                assert("fmax"@[0] != "erfc"@[0]);
                assert("fmax"@ != "erfc"@);
                assert("fmax"@[0] != "ceil"@[0]);
                assert("fmax"@ != "ceil"@);
                assert("fmax"@[2] != "fmod"@[2]);
                assert("fmax"@ != "fmod"@);
                assert(op_of_name("fmax"@) == Some(OpTag::Fmax));
            },
            OpTag::Fmin => {
                assert(op_name(OpTag::Fmin) == "fmin"@);
                assert("fmin"@[0] != "conj"@[0]);
                assert("fmin"@ != "conj"@);
                assert("fmin"@[0] != "erfc"@[0]);
                assert("fmin"@ != "erfc"@);
                assert("fmin"@[0] != "ceil"@[0]);
                assert("fmin"@ != "ceil"@);
                assert("fmin"@[2] != "fmod"@[2]);
                assert("fmin"@ != "fmod"@);
                assert("fmin"@[2] != "fmax"@[2]);
                assert("fmin"@ != "fmax"@);
                assert(op_of_name("fmin"@) == Some(OpTag::Fmin));
            },
            OpTag::Fdim => {
                assert(op_name(OpTag::Fdim) == "fdim"@);
                assert("fdim"@[0] != "conj"@[0]);
                assert("fdim"@ != "conj"@);
                assert("fdim"@[0] != "erfc"@[0]);
                assert("fdim"@ != "erfc"@);
                assert("fdim"@[0] != "ceil"@[0]);
                assert("fdim"@ != "ceil"@);
                assert("fdim"@[1] != "fmod"@[1]);
                assert("fdim"@ != "fmod"@);
                assert("fdim"@[1] != "fmax"@[1]);
                assert("fdim"@ != "fmax"@);
                assert("fdim"@[1] != "fmin"@[1]);
                assert("fdim"@ != "fmin"@);
                assert(op_of_name("fdim"@) == Some(OpTag::Fdim));
            },
            OpTag::Copysign => {
                assert(op_name(OpTag::Copysign) == "copysign"@);
                assert(op_of_name("copysign"@) == Some(OpTag::Copysign));
            },
            OpTag::Trunc => {
                assert(op_name(OpTag::Trunc) == "trunc"@);
                assert("trunc"@[0] != "neg.c"@[0]);
                assert("trunc"@ != "neg.c"@);
                assert("trunc"@[0] != "floor"@[0]);
                assert("trunc"@ != "floor"@);
                assert(op_of_name("trunc"@) == Some(OpTag::Trunc));
            },
            OpTag::Round => {
                assert(op_name(OpTag::Round) == "round"@);
                assert("round"@[0] != "neg.c"@[0]);
                assert("round"@ != "neg.c"@);
                assert("round"@[0] != "floor"@[0]);
                assert("round"@ != "floor"@);
                assert("round"@[0] != "trunc"@[0]);
                assert("round"@ != "trunc"@);
                assert(op_of_name("round"@) == Some(OpTag::Round));
            },
            OpTag::NearbyInt => {
                assert(op_name(OpTag::NearbyInt) == "nearbyint"@);
                assert("nearbyint"@[0] != "remainder"@[0]);
                assert("nearbyint"@ != "remainder"@);
                assert(op_of_name("nearbyint"@) == Some(OpTag::NearbyInt));
            },
            OpTag::Add => {
                assert(op_name(OpTag::Add) == "+"@);
                assert("+"@[0] != "<"@[0]);
                assert("+"@ != "<"@);
                assert("+"@[0] != ">"@[0]);
                assert("+"@ != ">"@);
                assert(op_of_name("+"@) == Some(OpTag::Add));
            },
            OpTag::Sub => {
                assert(op_name(OpTag::Sub) == "-"@);
                assert("-"@[0] != "<"@[0]);
                assert("-"@ != "<"@);
                assert("-"@[0] != ">"@[0]);
                assert("-"@ != ">"@);
                assert("-"@[0] != "+"@[0]);
                assert("-"@ != "+"@);
                assert(op_of_name("-"@) == Some(OpTag::Sub));
            },
            OpTag::Mul => {
                assert(op_name(OpTag::Mul) == "*"@);
                assert("*"@[0] != "<"@[0]);
                assert("*"@ != "<"@);
                assert("*"@[0] != ">"@[0]);
                assert("*"@ != ">"@);
                assert("*"@[0] != "+"@[0]);
                assert("*"@ != "+"@);
                assert("*"@[0] != "-"@[0]);
                assert("*"@ != "-"@);
                assert(op_of_name("*"@) == Some(OpTag::Mul));
            },
            OpTag::Div => {
                assert(op_name(OpTag::Div) == "/"@);
                assert("/"@[0] != "<"@[0]);
                assert("/"@ != "<"@);
                assert("/"@[0] != ">"@[0]);
                assert("/"@ != ">"@);
                assert("/"@[0] != "+"@[0]);
                assert("/"@ != "+"@);
                assert("/"@[0] != "-"@[0]);
                assert("/"@ != "-"@);
                assert("/"@[0] != "*"@[0]);
                assert("/"@ != "*"@);
                assert(op_of_name("/"@) == Some(OpTag::Div));
            },
            OpTag::Pow => {
                assert(op_name(OpTag::Pow) == "pow"@);
                assert("pow"@[0] != "neg"@[0]);
                assert("pow"@ != "neg"@);
                assert("pow"@[0] != "not"@[0]);
                assert("pow"@ != "not"@);
                assert("pow"@[0] != "and"@[0]);
                assert("pow"@ != "and"@);
                assert("pow"@[0] != "+.c"@[0]);
                assert("pow"@ != "+.c"@);
                assert("pow"@[0] != "-.c"@[0]);
                assert("pow"@ != "-.c"@);
                assert("pow"@[0] != "/.c"@[0]);
                assert("pow"@ != "/.c"@);
                assert("pow"@[0] != "*.c"@[0]);
                assert("pow"@ != "*.c"@);
                assert("pow"@[0] != "erf"@[0]);
                assert("pow"@ != "erf"@);
                assert(op_of_name("pow"@) == Some(OpTag::Pow));
            },
            OpTag::Exp => {
                assert(op_name(OpTag::Exp) == "exp"@);
                assert("exp"@[0] != "neg"@[0]);
                assert("exp"@ != "neg"@);
                assert("exp"@[0] != "not"@[0]);
                assert("exp"@ != "not"@);
                assert("exp"@[0] != "and"@[0]);
                assert("exp"@ != "and"@);
                assert("exp"@[0] != "+.c"@[0]);
                assert("exp"@ != "+.c"@);
                assert("exp"@[0] != "-.c"@[0]);
                assert("exp"@ != "-.c"@);
                assert("exp"@[0] != "/.c"@[0]);
                assert("exp"@ != "/.c"@);
                assert("exp"@[0] != "*.c"@[0]);
                assert("exp"@ != "*.c"@);
                assert("exp"@[1] != "erf"@[1]);
                assert("exp"@ != "erf"@);
                assert("exp"@[0] != "pow"@[0]);
                assert("exp"@ != "pow"@);
                assert(op_of_name("exp"@) == Some(OpTag::Exp));
            },
            OpTag::Exp2 => {
                assert(op_name(OpTag::Exp2) == "exp2"@);
                assert("exp2"@[0] != "conj"@[0]);
                assert("exp2"@ != "conj"@);
                assert("exp2"@[1] != "erfc"@[1]);
                assert("exp2"@ != "erfc"@);
                assert("exp2"@[0] != "ceil"@[0]);
                assert("exp2"@ != "ceil"@);
                assert("exp2"@[0] != "fmod"@[0]);
                assert("exp2"@ != "fmod"@);
                assert("exp2"@[0] != "fmax"@[0]);
                assert("exp2"@ != "fmax"@);
                assert("exp2"@[0] != "fmin"@[0]);
                assert("exp2"@ != "fmin"@);
                assert("exp2"@[0] != "fdim"@[0]);
                assert("exp2"@ != "fdim"@);
                assert(op_of_name("exp2"@) == Some(OpTag::Exp2));
            },
            OpTag::Log => {
                assert(op_name(OpTag::Log) == "log"@);
                assert("log"@[0] != "neg"@[0]);
                assert("log"@ != "neg"@);
                assert("log"@[0] != "not"@[0]);
                assert("log"@ != "not"@);
                assert("log"@[0] != "and"@[0]);
                assert("log"@ != "and"@);
                assert("log"@[0] != "+.c"@[0]);
                assert("log"@ != "+.c"@);
                assert("log"@[0] != "-.c"@[0]);
                assert("log"@ != "-.c"@);
                assert("log"@[0] != "/.c"@[0]);
                assert("log"@ != "/.c"@);
                assert("log"@[0] != "*.c"@[0]);
                assert("log"@ != "*.c"@);
                assert("log"@[0] != "erf"@[0]);
                assert("log"@ != "erf"@);
                assert("log"@[0] != "pow"@[0]);
                assert("log"@ != "pow"@);
                assert("log"@[0] != "exp"@[0]);
                assert("log"@ != "exp"@);
                assert(op_of_name("log"@) == Some(OpTag::Log));
            },
            OpTag::Sqrt => {
                assert(op_name(OpTag::Sqrt) == "sqrt"@);
                assert("sqrt"@[0] != "conj"@[0]);
                assert("sqrt"@ != "conj"@);
                assert("sqrt"@[0] != "erfc"@[0]);
                assert("sqrt"@ != "erfc"@);
                assert("sqrt"@[0] != "ceil"@[0]);
                assert("sqrt"@ != "ceil"@);
                assert("sqrt"@[0] != "fmod"@[0]);
                assert("sqrt"@ != "fmod"@);
                assert("sqrt"@[0] != "fmax"@[0]);
                assert("sqrt"@ != "fmax"@);
                assert("sqrt"@[0] != "fmin"@[0]);
                assert("sqrt"@ != "fmin"@);
                assert("sqrt"@[0] != "fdim"@[0]);
                assert("sqrt"@ != "fdim"@);
                assert("sqrt"@[0] != "exp2"@[0]);
                assert("sqrt"@ != "exp2"@);
                assert(op_of_name("sqrt"@) == Some(OpTag::Sqrt));
            },
            OpTag::Cbrt => {
                assert(op_name(OpTag::Cbrt) == "cbrt"@);
                assert("cbrt"@[1] != "conj"@[1]);
                assert("cbrt"@ != "conj"@);
                assert("cbrt"@[0] != "erfc"@[0]);
                assert("cbrt"@ != "erfc"@);
                assert("cbrt"@[1] != "ceil"@[1]);
                assert("cbrt"@ != "ceil"@);
                assert("cbrt"@[0] != "fmod"@[0]);
                assert("cbrt"@ != "fmod"@);
                assert("cbrt"@[0] != "fmax"@[0]);
                assert("cbrt"@ != "fmax"@);
                assert("cbrt"@[0] != "fmin"@[0]);
                assert("cbrt"@ != "fmin"@);
                assert("cbrt"@[0] != "fdim"@[0]);
                assert("cbrt"@ != "fdim"@);
                assert("cbrt"@[0] != "exp2"@[0]);
                assert("cbrt"@ != "exp2"@);
                assert("cbrt"@[0] != "sqrt"@[0]);
                assert("cbrt"@ != "sqrt"@);
                assert(op_of_name("cbrt"@) == Some(OpTag::Cbrt));
            },
            OpTag::Fabs => {
                assert(op_name(OpTag::Fabs) == "fabs"@);
                assert("fabs"@[0] != "conj"@[0]);
                assert("fabs"@ != "conj"@);
                assert("fabs"@[0] != "erfc"@[0]);
                assert("fabs"@ != "erfc"@);
                assert("fabs"@[0] != "ceil"@[0]);
                assert("fabs"@ != "ceil"@);
                assert("fabs"@[1] != "fmod"@[1]);
                assert("fabs"@ != "fmod"@);
                assert("fabs"@[1] != "fmax"@[1]);
                assert("fabs"@ != "fmax"@);
                assert("fabs"@[1] != "fmin"@[1]);
                assert("fabs"@ != "fmin"@);
                assert("fabs"@[1] != "fdim"@[1]);
                assert("fabs"@ != "fdim"@);
                assert("fabs"@[0] != "exp2"@[0]);
                assert("fabs"@ != "exp2"@);
                assert("fabs"@[0] != "sqrt"@[0]);
                assert("fabs"@ != "sqrt"@);
                assert("fabs"@[0] != "cbrt"@[0]);
                assert("fabs"@ != "cbrt"@);
                assert(op_of_name("fabs"@) == Some(OpTag::Fabs));
            },
            OpTag::Sin => {
                assert(op_name(OpTag::Sin) == "sin"@);
                assert("sin"@[0] != "neg"@[0]);
                assert("sin"@ != "neg"@);
                assert("sin"@[0] != "not"@[0]);
                assert("sin"@ != "not"@);
                assert("sin"@[0] != "and"@[0]);
                assert("sin"@ != "and"@);
                assert("sin"@[0] != "+.c"@[0]);
                assert("sin"@ != "+.c"@);
                assert("sin"@[0] != "-.c"@[0]);
                assert("sin"@ != "-.c"@);
                assert("sin"@[0] != "/.c"@[0]);
                assert("sin"@ != "/.c"@);
                assert("sin"@[0] != "*.c"@[0]);
                assert("sin"@ != "*.c"@);
                assert("sin"@[0] != "erf"@[0]);
                assert("sin"@ != "erf"@);
                assert("sin"@[0] != "pow"@[0]);
                assert("sin"@ != "pow"@);
                assert("sin"@[0] != "exp"@[0]);
                assert("sin"@ != "exp"@);
                assert("sin"@[0] != "log"@[0]);
                assert("sin"@ != "log"@);
                assert(op_of_name("sin"@) == Some(OpTag::Sin));
            },
            OpTag::Cos => {
                assert(op_name(OpTag::Cos) == "cos"@);
                assert("cos"@[0] != "neg"@[0]);
                assert("cos"@ != "neg"@);
                assert("cos"@[0] != "not"@[0]);
                assert("cos"@ != "not"@);
                assert("cos"@[0] != "and"@[0]);
                assert("cos"@ != "and"@);
                assert("cos"@[0] != "+.c"@[0]);
                assert("cos"@ != "+.c"@);
                assert("cos"@[0] != "-.c"@[0]);
                assert("cos"@ != "-.c"@);
                assert("cos"@[0] != "/.c"@[0]);
                assert("cos"@ != "/.c"@);
                assert("cos"@[0] != "*.c"@[0]);
                assert("cos"@ != "*.c"@);
                assert("cos"@[0] != "erf"@[0]);
                assert("cos"@ != "erf"@);
                assert("cos"@[0] != "pow"@[0]);
                assert("cos"@ != "pow"@);
                assert("cos"@[0] != "exp"@[0]);
                assert("cos"@ != "exp"@);
                assert("cos"@[0] != "log"@[0]);
                assert("cos"@ != "log"@);
                assert("cos"@[0] != "sin"@[0]);
                assert("cos"@ != "sin"@);
                assert(op_of_name("cos"@) == Some(OpTag::Cos));
            },
            OpTag::Tan => {
                assert(op_name(OpTag::Tan) == "tan"@);
                assert("tan"@[0] != "neg"@[0]);
                assert("tan"@ != "neg"@);
                assert("tan"@[0] != "not"@[0]);
                assert("tan"@ != "not"@);
                assert("tan"@[0] != "and"@[0]);
                assert("tan"@ != "and"@);
                assert("tan"@[0] != "+.c"@[0]);
                assert("tan"@ != "+.c"@);
                assert("tan"@[0] != "-.c"@[0]);
                assert("tan"@ != "-.c"@);
                assert("tan"@[0] != "/.c"@[0]);
                assert("tan"@ != "/.c"@);
                assert("tan"@[0] != "*.c"@[0]);
                assert("tan"@ != "*.c"@);
                assert("tan"@[0] != "erf"@[0]);
                assert("tan"@ != "erf"@);
                assert("tan"@[0] != "pow"@[0]);
                assert("tan"@ != "pow"@);
                assert("tan"@[0] != "exp"@[0]);
                assert("tan"@ != "exp"@);
                assert("tan"@[0] != "log"@[0]);
                assert("tan"@ != "log"@);
                assert("tan"@[0] != "sin"@[0]);
                assert("tan"@ != "sin"@);
                assert("tan"@[0] != "cos"@[0]);
                assert("tan"@ != "cos"@);
                assert(op_of_name("tan"@) == Some(OpTag::Tan));
            },
            OpTag::Asin => {
                assert(op_name(OpTag::Asin) == "asin"@);
                assert("asin"@[0] != "conj"@[0]);
                assert("asin"@ != "conj"@);
                assert("asin"@[0] != "erfc"@[0]);
                assert("asin"@ != "erfc"@);
                assert("asin"@[0] != "ceil"@[0]);
                assert("asin"@ != "ceil"@);
                assert("asin"@[0] != "fmod"@[0]);
                assert("asin"@ != "fmod"@);
                assert("asin"@[0] != "fmax"@[0]);
                assert("asin"@ != "fmax"@);
                assert("asin"@[0] != "fmin"@[0]);
                assert("asin"@ != "fmin"@);
                assert("asin"@[0] != "fdim"@[0]);
                assert("asin"@ != "fdim"@);
                assert("asin"@[0] != "exp2"@[0]);
                assert("asin"@ != "exp2"@);
                assert("asin"@[0] != "sqrt"@[0]);
                assert("asin"@ != "sqrt"@);
                assert("asin"@[0] != "cbrt"@[0]);
                assert("asin"@ != "cbrt"@);
                assert("asin"@[0] != "fabs"@[0]);
                assert("asin"@ != "fabs"@);
                assert(op_of_name("asin"@) == Some(OpTag::Asin));
            },
            OpTag::Acos => {
                assert(op_name(OpTag::Acos) == "acos"@);
                assert("acos"@[0] != "conj"@[0]);
                assert("acos"@ != "conj"@);
                assert("acos"@[0] != "erfc"@[0]);
                assert("acos"@ != "erfc"@);
                assert("acos"@[0] != "ceil"@[0]);
                assert("acos"@ != "ceil"@);
                assert("acos"@[0] != "fmod"@[0]);
                assert("acos"@ != "fmod"@);
                assert("acos"@[0] != "fmax"@[0]);
                assert("acos"@ != "fmax"@);
                assert("acos"@[0] != "fmin"@[0]);
                assert("acos"@ != "fmin"@);
                assert("acos"@[0] != "fdim"@[0]);
                assert("acos"@ != "fdim"@);
                assert("acos"@[0] != "exp2"@[0]);
                assert("acos"@ != "exp2"@);
                assert("acos"@[0] != "sqrt"@[0]);
                assert("acos"@ != "sqrt"@);
                assert("acos"@[0] != "cbrt"@[0]);
                assert("acos"@ != "cbrt"@);
                assert("acos"@[0] != "fabs"@[0]);
                assert("acos"@ != "fabs"@);
                assert("acos"@[1] != "asin"@[1]);
                assert("acos"@ != "asin"@);
                assert(op_of_name("acos"@) == Some(OpTag::Acos));
            },
            OpTag::Atan => {
                assert(op_name(OpTag::Atan) == "atan"@);
                assert("atan"@[0] != "conj"@[0]);
                assert("atan"@ != "conj"@);
                assert("atan"@[0] != "erfc"@[0]);
                assert("atan"@ != "erfc"@);
                assert("atan"@[0] != "ceil"@[0]);
                assert("atan"@ != "ceil"@);
                assert("atan"@[0] != "fmod"@[0]);
                assert("atan"@ != "fmod"@);
                assert("atan"@[0] != "fmax"@[0]);
                assert("atan"@ != "fmax"@);
                assert("atan"@[0] != "fmin"@[0]);
                assert("atan"@ != "fmin"@);
                assert("atan"@[0] != "fdim"@[0]);
                assert("atan"@ != "fdim"@);
                assert("atan"@[0] != "exp2"@[0]);
                assert("atan"@ != "exp2"@);
                assert("atan"@[0] != "sqrt"@[0]);
                assert("atan"@ != "sqrt"@);
                assert("atan"@[0] != "cbrt"@[0]);
                assert("atan"@ != "cbrt"@);
                assert("atan"@[0] != "fabs"@[0]);
                assert("atan"@ != "fabs"@);
                assert("atan"@[1] != "asin"@[1]);
                assert("atan"@ != "asin"@);
                assert("atan"@[1] != "acos"@[1]);
                assert("atan"@ != "acos"@);
                assert(op_of_name("atan"@) == Some(OpTag::Atan));
            },
            OpTag::Atan2 => {
                assert(op_name(OpTag::Atan2) == "atan2"@);
                assert("atan2"@[0] != "neg.c"@[0]);
                assert("atan2"@ != "neg.c"@);
                assert("atan2"@[0] != "floor"@[0]);
                assert("atan2"@ != "floor"@);
                assert("atan2"@[0] != "trunc"@[0]);
                assert("atan2"@ != "trunc"@);
                assert("atan2"@[0] != "round"@[0]);
                assert("atan2"@ != "round"@);
                assert(op_of_name("atan2"@) == Some(OpTag::Atan2));
            },
            OpTag::Sinh => {
                assert(op_name(OpTag::Sinh) == "sinh"@);
                assert("sinh"@[0] != "conj"@[0]);
                assert("sinh"@ != "conj"@);
                assert("sinh"@[0] != "erfc"@[0]);
                assert("sinh"@ != "erfc"@);
                assert("sinh"@[0] != "ceil"@[0]);
                assert("sinh"@ != "ceil"@);
                assert("sinh"@[0] != "fmod"@[0]);
                assert("sinh"@ != "fmod"@);
                assert("sinh"@[0] != "fmax"@[0]);
                assert("sinh"@ != "fmax"@);
                assert("sinh"@[0] != "fmin"@[0]);
                assert("sinh"@ != "fmin"@);
                assert("sinh"@[0] != "fdim"@[0]);
                assert("sinh"@ != "fdim"@);
                assert("sinh"@[0] != "exp2"@[0]);
                assert("sinh"@ != "exp2"@);
                assert("sinh"@[1] != "sqrt"@[1]);
                assert("sinh"@ != "sqrt"@);
                assert("sinh"@[0] != "cbrt"@[0]);
                assert("sinh"@ != "cbrt"@);
                assert("sinh"@[0] != "fabs"@[0]);
                assert("sinh"@ != "fabs"@);
                assert("sinh"@[0] != "asin"@[0]);
                assert("sinh"@ != "asin"@);
                assert("sinh"@[0] != "acos"@[0]);
                assert("sinh"@ != "acos"@);
                assert("sinh"@[0] != "atan"@[0]);
                assert("sinh"@ != "atan"@);
                assert(op_of_name("sinh"@) == Some(OpTag::Sinh));
            },
            OpTag::Cosh => {
                assert(op_name(OpTag::Cosh) == "cosh"@);
                assert("cosh"@[2] != "conj"@[2]);
                assert("cosh"@ != "conj"@);
                assert("cosh"@[0] != "erfc"@[0]);
                assert("cosh"@ != "erfc"@);
                assert("cosh"@[1] != "ceil"@[1]);
                assert("cosh"@ != "ceil"@);
                assert("cosh"@[0] != "fmod"@[0]);
                assert("cosh"@ != "fmod"@);
                assert("cosh"@[0] != "fmax"@[0]);
                assert("cosh"@ != "fmax"@);
                assert("cosh"@[0] != "fmin"@[0]);
                assert("cosh"@ != "fmin"@);
                assert("cosh"@[0] != "fdim"@[0]);
                assert("cosh"@ != "fdim"@);
                assert("cosh"@[0] != "exp2"@[0]);
                assert("cosh"@ != "exp2"@);
                assert("cosh"@[0] != "sqrt"@[0]);
                assert("cosh"@ != "sqrt"@);
                assert("cosh"@[1] != "cbrt"@[1]);
                assert("cosh"@ != "cbrt"@);
                assert("cosh"@[0] != "fabs"@[0]);
                assert("cosh"@ != "fabs"@);
                assert("cosh"@[0] != "asin"@[0]);
                assert("cosh"@ != "asin"@);
                assert("cosh"@[0] != "acos"@[0]);
                assert("cosh"@ != "acos"@);
                assert("cosh"@[0] != "atan"@[0]);
                assert("cosh"@ != "atan"@);
                assert("cosh"@[0] != "sinh"@[0]);
                assert("cosh"@ != "sinh"@);
                assert(op_of_name("cosh"@) == Some(OpTag::Cosh));
            },
            OpTag::Tanh => {
                assert(op_name(OpTag::Tanh) == "tanh"@);
                assert("tanh"@[0] != "conj"@[0]);
                assert("tanh"@ != "conj"@);
                assert("tanh"@[0] != "erfc"@[0]);
                assert("tanh"@ != "erfc"@);
                assert("tanh"@[0] != "ceil"@[0]);
                assert("tanh"@ != "ceil"@);
                assert("tanh"@[0] != "fmod"@[0]);
                assert("tanh"@ != "fmod"@);
                assert("tanh"@[0] != "fmax"@[0]);
                assert("tanh"@ != "fmax"@);
                assert("tanh"@[0] != "fmin"@[0]);
                assert("tanh"@ != "fmin"@);
                assert("tanh"@[0] != "fdim"@[0]);
                assert("tanh"@ != "fdim"@);
                assert("tanh"@[0] != "exp2"@[0]);
                assert("tanh"@ != "exp2"@);
                assert("tanh"@[0] != "sqrt"@[0]);
                assert("tanh"@ != "sqrt"@);
                assert("tanh"@[0] != "cbrt"@[0]);
                assert("tanh"@ != "cbrt"@);
                assert("tanh"@[0] != "fabs"@[0]);
                assert("tanh"@ != "fabs"@);
                assert("tanh"@[0] != "asin"@[0]);
                assert("tanh"@ != "asin"@);
                assert("tanh"@[0] != "acos"@[0]);
                assert("tanh"@ != "acos"@);
                assert("tanh"@[0] != "atan"@[0]);
                assert("tanh"@ != "atan"@);
                assert("tanh"@[0] != "sinh"@[0]);
                assert("tanh"@ != "sinh"@);
                assert("tanh"@[0] != "cosh"@[0]);
                assert("tanh"@ != "cosh"@);
                assert(op_of_name("tanh"@) == Some(OpTag::Tanh));
            },
            OpTag::Asinh => {
                assert(op_name(OpTag::Asinh) == "asinh"@);
                assert("asinh"@[0] != "neg.c"@[0]);
                assert("asinh"@ != "neg.c"@);
                assert("asinh"@[0] != "floor"@[0]);
                assert("asinh"@ != "floor"@);
                assert("asinh"@[0] != "trunc"@[0]);
                assert("asinh"@ != "trunc"@);
                assert("asinh"@[0] != "round"@[0]);
                assert("asinh"@ != "round"@);
                assert("asinh"@[1] != "atan2"@[1]);
                assert("asinh"@ != "atan2"@);
                assert(op_of_name("asinh"@) == Some(OpTag::Asinh));
            },
            OpTag::Acosh => {
                assert(op_name(OpTag::Acosh) == "acosh"@);
                assert("acosh"@[0] != "neg.c"@[0]);
                assert("acosh"@ != "neg.c"@);
                assert("acosh"@[0] != "floor"@[0]);
                assert("acosh"@ != "floor"@);
                assert("acosh"@[0] != "trunc"@[0]);
                assert("acosh"@ != "trunc"@);
                assert("acosh"@[0] != "round"@[0]);
                assert("acosh"@ != "round"@);
                assert("acosh"@[1] != "atan2"@[1]);
                assert("acosh"@ != "atan2"@);
                assert("acosh"@[1] != "asinh"@[1]);
                assert("acosh"@ != "asinh"@);
                assert(op_of_name("acosh"@) == Some(OpTag::Acosh));
            },
            OpTag::Atanh => {
                assert(op_name(OpTag::Atanh) == "atanh"@);
                assert("atanh"@[0] != "neg.c"@[0]);
                assert("atanh"@ != "neg.c"@);
                assert("atanh"@[0] != "floor"@[0]);
                assert("atanh"@ != "floor"@);
                assert("atanh"@[0] != "trunc"@[0]);
                assert("atanh"@ != "trunc"@);
                assert("atanh"@[0] != "round"@[0]);
                assert("atanh"@ != "round"@);
                assert("atanh"@[4] != "atan2"@[4]);
                assert("atanh"@ != "atan2"@);
                assert("atanh"@[1] != "asinh"@[1]);
                assert("atanh"@ != "asinh"@);
                assert("atanh"@[1] != "acosh"@[1]);
                assert("atanh"@ != "acosh"@);
                assert(op_of_name("atanh"@) == Some(OpTag::Atanh));
            },
            OpTag::Fma => {
                assert(op_name(OpTag::Fma) == "fma"@);
                assert("fma"@[0] != "neg"@[0]);
                assert("fma"@ != "neg"@);
                assert("fma"@[0] != "not"@[0]);
                assert("fma"@ != "not"@);
                assert("fma"@[0] != "and"@[0]);
                assert("fma"@ != "and"@);
                assert("fma"@[0] != "+.c"@[0]);
                assert("fma"@ != "+.c"@);
                assert("fma"@[0] != "-.c"@[0]);
                assert("fma"@ != "-.c"@);
                assert("fma"@[0] != "/.c"@[0]);
                assert("fma"@ != "/.c"@);
                assert("fma"@[0] != "*.c"@[0]);
                assert("fma"@ != "*.c"@);
                assert("fma"@[0] != "erf"@[0]);
                assert("fma"@ != "erf"@);
                assert("fma"@[0] != "pow"@[0]);
                assert("fma"@ != "pow"@);
                assert("fma"@[0] != "exp"@[0]);
                assert("fma"@ != "exp"@);
                assert("fma"@[0] != "log"@[0]);
                assert("fma"@ != "log"@);
                assert("fma"@[0] != "sin"@[0]);
                assert("fma"@ != "sin"@);
                assert("fma"@[0] != "cos"@[0]);
                assert("fma"@ != "cos"@);
                assert("fma"@[0] != "tan"@[0]);
                assert("fma"@ != "tan"@);
                assert(op_of_name("fma"@) == Some(OpTag::Fma));
            },
            OpTag::Log1p => {
                assert(op_name(OpTag::Log1p) == "log1p"@);
                assert("log1p"@[0] != "neg.c"@[0]);
                assert("log1p"@ != "neg.c"@);
                assert("log1p"@[0] != "floor"@[0]);
                assert("log1p"@ != "floor"@);
                assert("log1p"@[0] != "trunc"@[0]);
                assert("log1p"@ != "trunc"@);
                assert("log1p"@[0] != "round"@[0]);
                assert("log1p"@ != "round"@);
                assert("log1p"@[0] != "atan2"@[0]);
                assert("log1p"@ != "atan2"@);
                assert("log1p"@[0] != "asinh"@[0]);
                assert("log1p"@ != "asinh"@);
                assert("log1p"@[0] != "acosh"@[0]);
                assert("log1p"@ != "acosh"@);
                assert("log1p"@[0] != "atanh"@[0]);
                assert("log1p"@ != "atanh"@);
                assert(op_of_name("log1p"@) == Some(OpTag::Log1p));
            },
            OpTag::Log10 => {
                assert(op_name(OpTag::Log10) == "log10"@);
                assert("log10"@[0] != "neg.c"@[0]);
                assert("log10"@ != "neg.c"@);
                assert("log10"@[0] != "floor"@[0]);
                assert("log10"@ != "floor"@);
                assert("log10"@[0] != "trunc"@[0]);
                assert("log10"@ != "trunc"@);
                assert("log10"@[0] != "round"@[0]);
                assert("log10"@ != "round"@);
                assert("log10"@[0] != "atan2"@[0]);
                assert("log10"@ != "atan2"@);
                assert("log10"@[0] != "asinh"@[0]);
                assert("log10"@ != "asinh"@);
                assert("log10"@[0] != "acosh"@[0]);
                assert("log10"@ != "acosh"@);
                assert("log10"@[0] != "atanh"@[0]);
                assert("log10"@ != "atanh"@);
                assert("log10"@[4] != "log1p"@[4]);
                assert("log10"@ != "log1p"@);
                assert(op_of_name("log10"@) == Some(OpTag::Log10));
            },
            OpTag::Log2 => {
                assert(op_name(OpTag::Log2) == "log2"@);
                assert("log2"@[0] != "conj"@[0]);
                assert("log2"@ != "conj"@);
                assert("log2"@[0] != "erfc"@[0]);
                assert("log2"@ != "erfc"@);
                assert("log2"@[0] != "ceil"@[0]);
                assert("log2"@ != "ceil"@);
                assert("log2"@[0] != "fmod"@[0]);
                assert("log2"@ != "fmod"@);
                assert("log2"@[0] != "fmax"@[0]);
                assert("log2"@ != "fmax"@);
                assert("log2"@[0] != "fmin"@[0]);
                assert("log2"@ != "fmin"@);
                assert("log2"@[0] != "fdim"@[0]);
                assert("log2"@ != "fdim"@);
                assert("log2"@[0] != "exp2"@[0]);
                assert("log2"@ != "exp2"@);
                assert("log2"@[0] != "sqrt"@[0]);
                assert("log2"@ != "sqrt"@);
                assert("log2"@[0] != "cbrt"@[0]);
                assert("log2"@ != "cbrt"@);
                assert("log2"@[0] != "fabs"@[0]);
                assert("log2"@ != "fabs"@);
                assert("log2"@[0] != "asin"@[0]);
                assert("log2"@ != "asin"@);
                assert("log2"@[0] != "acos"@[0]);
                assert("log2"@ != "acos"@);
                assert("log2"@[0] != "atan"@[0]);
                assert("log2"@ != "atan"@);
                assert("log2"@[0] != "sinh"@[0]);
                assert("log2"@ != "sinh"@);
                assert("log2"@[0] != "cosh"@[0]);
                assert("log2"@ != "cosh"@);
                assert("log2"@[0] != "tanh"@[0]);
                assert("log2"@ != "tanh"@);
                assert(op_of_name("log2"@) == Some(OpTag::Log2));
            },
            OpTag::Expm1 => {
                assert(op_name(OpTag::Expm1) == "expm1"@);
                assert("expm1"@[0] != "neg.c"@[0]);
                assert("expm1"@ != "neg.c"@);
                assert("expm1"@[0] != "floor"@[0]);
                assert("expm1"@ != "floor"@);
                assert("expm1"@[0] != "trunc"@[0]);
                assert("expm1"@ != "trunc"@);
                assert("expm1"@[0] != "round"@[0]);
                assert("expm1"@ != "round"@);
                assert("expm1"@[0] != "atan2"@[0]);
                assert("expm1"@ != "atan2"@);
                assert("expm1"@[0] != "asinh"@[0]);
                assert("expm1"@ != "asinh"@);
                assert("expm1"@[0] != "acosh"@[0]);
                assert("expm1"@ != "acosh"@);
                assert("expm1"@[0] != "atanh"@[0]);
                assert("expm1"@ != "atanh"@);
                assert("expm1"@[0] != "log1p"@[0]);
                assert("expm1"@ != "log1p"@);
                assert("expm1"@[0] != "log10"@[0]);
                assert("expm1"@ != "log10"@);
                assert(op_of_name("expm1"@) == Some(OpTag::Expm1));
            },
            OpTag::Hypot => {
                assert(op_name(OpTag::Hypot) == "hypot"@);
                assert("hypot"@[0] != "neg.c"@[0]);
                assert("hypot"@ != "neg.c"@);
                assert("hypot"@[0] != "floor"@[0]);
                assert("hypot"@ != "floor"@);
                assert("hypot"@[0] != "trunc"@[0]);
                assert("hypot"@ != "trunc"@);
                assert("hypot"@[0] != "round"@[0]);
                assert("hypot"@ != "round"@);
                assert("hypot"@[0] != "atan2"@[0]);
                assert("hypot"@ != "atan2"@);
                assert("hypot"@[0] != "asinh"@[0]);
                assert("hypot"@ != "asinh"@);
                assert("hypot"@[0] != "acosh"@[0]);
                assert("hypot"@ != "acosh"@);
                assert("hypot"@[0] != "atanh"@[0]);
                assert("hypot"@ != "atanh"@);
                assert("hypot"@[0] != "log1p"@[0]);
                assert("hypot"@ != "log1p"@);
                assert("hypot"@[0] != "log10"@[0]);
                assert("hypot"@ != "log10"@);
                assert("hypot"@[0] != "expm1"@[0]);
                assert("hypot"@ != "expm1"@);
                assert(op_of_name("hypot"@) == Some(OpTag::Hypot));
            },
            OpTag::PositAdd => {
                assert(op_name(OpTag::PositAdd) == "+.p16"@);
                assert("+.p16"@[0] != "neg.c"@[0]);
                assert("+.p16"@ != "neg.c"@);
                assert("+.p16"@[0] != "floor"@[0]);
                assert("+.p16"@ != "floor"@);
                assert("+.p16"@[0] != "trunc"@[0]);
                assert("+.p16"@ != "trunc"@);
                assert("+.p16"@[0] != "round"@[0]);
                assert("+.p16"@ != "round"@);
                assert("+.p16"@[0] != "atan2"@[0]);
                assert("+.p16"@ != "atan2"@);
                assert("+.p16"@[0] != "asinh"@[0]);
                assert("+.p16"@ != "asinh"@);
                assert("+.p16"@[0] != "acosh"@[0]);
                assert("+.p16"@ != "acosh"@);
                assert("+.p16"@[0] != "atanh"@[0]);
                assert("+.p16"@ != "atanh"@);
                assert("+.p16"@[0] != "log1p"@[0]);
                assert("+.p16"@ != "log1p"@);
                assert("+.p16"@[0] != "log10"@[0]);
                assert("+.p16"@ != "log10"@);
                assert("+.p16"@[0] != "expm1"@[0]);
                assert("+.p16"@ != "expm1"@);
                assert("+.p16"@[0] != "hypot"@[0]);
                assert("+.p16"@ != "hypot"@);
                assert(op_of_name("+.p16"@) == Some(OpTag::PositAdd));
            },
            OpTag::PositSub => {
                assert(op_name(OpTag::PositSub) == "-.p16"@);
                assert("-.p16"@[0] != "neg.c"@[0]);
                assert("-.p16"@ != "neg.c"@);
                assert("-.p16"@[0] != "floor"@[0]);
                assert("-.p16"@ != "floor"@);
                assert("-.p16"@[0] != "trunc"@[0]);
                assert("-.p16"@ != "trunc"@);
                assert("-.p16"@[0] != "round"@[0]);
                assert("-.p16"@ != "round"@);
                assert("-.p16"@[0] != "atan2"@[0]);
                assert("-.p16"@ != "atan2"@);
                assert("-.p16"@[0] != "asinh"@[0]);
                assert("-.p16"@ != "asinh"@);
                assert("-.p16"@[0] != "acosh"@[0]);
                assert("-.p16"@ != "acosh"@);
                assert("-.p16"@[0] != "atanh"@[0]);
                assert("-.p16"@ != "atanh"@);
                assert("-.p16"@[0] != "log1p"@[0]);
                assert("-.p16"@ != "log1p"@);
                assert("-.p16"@[0] != "log10"@[0]);
                assert("-.p16"@ != "log10"@);
                assert("-.p16"@[0] != "expm1"@[0]);
                assert("-.p16"@ != "expm1"@);
                assert("-.p16"@[0] != "hypot"@[0]);
                assert("-.p16"@ != "hypot"@);
                assert("-.p16"@[0] != "+.p16"@[0]);
                assert("-.p16"@ != "+.p16"@);
                assert(op_of_name("-.p16"@) == Some(OpTag::PositSub));
            },
            OpTag::PositMul => {
                assert(op_name(OpTag::PositMul) == "*.p16"@);
                assert("*.p16"@[0] != "neg.c"@[0]);
                assert("*.p16"@ != "neg.c"@);
                assert("*.p16"@[0] != "floor"@[0]);
                assert("*.p16"@ != "floor"@);
                assert("*.p16"@[0] != "trunc"@[0]);
                assert("*.p16"@ != "trunc"@);
                assert("*.p16"@[0] != "round"@[0]);
                assert("*.p16"@ != "round"@);
                assert("*.p16"@[0] != "atan2"@[0]);
                assert("*.p16"@ != "atan2"@);
                assert("*.p16"@[0] != "asinh"@[0]);
                assert("*.p16"@ != "asinh"@);
                assert("*.p16"@[0] != "acosh"@[0]);
                assert("*.p16"@ != "acosh"@);
                assert("*.p16"@[0] != "atanh"@[0]);
                assert("*.p16"@ != "atanh"@);
                assert("*.p16"@[0] != "log1p"@[0]);
                assert("*.p16"@ != "log1p"@);
                assert("*.p16"@[0] != "log10"@[0]);
                assert("*.p16"@ != "log10"@);
                assert("*.p16"@[0] != "expm1"@[0]);
                assert("*.p16"@ != "expm1"@);
                assert("*.p16"@[0] != "hypot"@[0]);
                assert("*.p16"@ != "hypot"@);
                assert("*.p16"@[0] != "+.p16"@[0]);
                assert("*.p16"@ != "+.p16"@);
                assert("*.p16"@[0] != "-.p16"@[0]);
                assert("*.p16"@ != "-.p16"@);
                assert(op_of_name("*.p16"@) == Some(OpTag::PositMul));
            },
            OpTag::PositDiv => {
                assert(op_name(OpTag::PositDiv) == "/.p16"@);
                assert("/.p16"@[0] != "neg.c"@[0]);
                assert("/.p16"@ != "neg.c"@);
                assert("/.p16"@[0] != "floor"@[0]);
                assert("/.p16"@ != "floor"@);
                assert("/.p16"@[0] != "trunc"@[0]);
                assert("/.p16"@ != "trunc"@);
                assert("/.p16"@[0] != "round"@[0]);
                assert("/.p16"@ != "round"@);
                assert("/.p16"@[0] != "atan2"@[0]);
                assert("/.p16"@ != "atan2"@);
                assert("/.p16"@[0] != "asinh"@[0]);
                assert("/.p16"@ != "asinh"@);
                assert("/.p16"@[0] != "acosh"@[0]);
                assert("/.p16"@ != "acosh"@);
                assert("/.p16"@[0] != "atanh"@[0]);
                assert("/.p16"@ != "atanh"@);
                assert("/.p16"@[0] != "log1p"@[0]);
                assert("/.p16"@ != "log1p"@);
                assert("/.p16"@[0] != "log10"@[0]);
                assert("/.p16"@ != "log10"@);
                assert("/.p16"@[0] != "expm1"@[0]);
                assert("/.p16"@ != "expm1"@);
                assert("/.p16"@[0] != "hypot"@[0]);
                assert("/.p16"@ != "hypot"@);
                assert("/.p16"@[0] != "+.p16"@[0]);
                assert("/.p16"@ != "+.p16"@);
                assert("/.p16"@[0] != "-.p16"@[0]);
                assert("/.p16"@ != "-.p16"@);
                assert("/.p16"@[0] != "*.p16"@[0]);
                assert("/.p16"@ != "*.p16"@);
                assert(op_of_name("/.p16"@) == Some(OpTag::PositDiv));
            },
            OpTag::RealToPosit => {
                assert(op_name(OpTag::RealToPosit) == "real->posit"@);
                assert("real->posit"@ != "neg"@);
                assert("real->posit"@ != "+"@);
                assert("real->posit"@ != "nearbyint"@);
                assert(op_of_name("real->posit"@) == Some(OpTag::RealToPosit));
            },
        }
    }
}

/// The canonical-name table is a bijection on named float constants.
#[verifier::rlimit(100)]
pub proof fn lemma_fp_names_unique()
    ensures
        forall|c: FPConstant| #[trigger] fp_of_name(fp_name(c)) == Some(c),
{
    reveal_strlit("neg");
    reveal_strlit("not");
    reveal_strlit("and");
    reveal_strlit("or");
    reveal_strlit("if");
    reveal_strlit("<");
    reveal_strlit(">");
    reveal_strlit("<=");
    reveal_strlit(">=");
    reveal_strlit("re");
    reveal_strlit("im");
    reveal_strlit("complex");
    reveal_strlit("conj");
    reveal_strlit("+.c");
    reveal_strlit("-.c");
    reveal_strlit("neg.c");
    reveal_strlit("/.c");
    reveal_strlit("*.c");
    reveal_strlit("erf");
    reveal_strlit("erfc");
    reveal_strlit("tgamma");
    reveal_strlit("lgamma");
    reveal_strlit("ceil");
    reveal_strlit("floor");
    reveal_strlit("fmod");
    reveal_strlit("remainder");
    reveal_strlit("fmax");
    reveal_strlit("fmin");
    reveal_strlit("fdim");
    reveal_strlit("copysign");
    reveal_strlit("trunc");
    reveal_strlit("round");
    reveal_strlit("nearbyint");
    reveal_strlit("+");
    reveal_strlit("-");
    reveal_strlit("*");
    reveal_strlit("/");
    reveal_strlit("pow");
    reveal_strlit("exp");
    reveal_strlit("exp2");
    reveal_strlit("log");
    reveal_strlit("sqrt");
    reveal_strlit("cbrt");
    reveal_strlit("fabs");
    reveal_strlit("sin");
    reveal_strlit("cos");
    reveal_strlit("tan");
    reveal_strlit("asin");
    reveal_strlit("acos");
    reveal_strlit("atan");
    reveal_strlit("atan2");
    reveal_strlit("sinh");
    reveal_strlit("cosh");
    reveal_strlit("tanh");
    reveal_strlit("asinh");
    reveal_strlit("acosh");
    reveal_strlit("atanh");
    reveal_strlit("fma");
    reveal_strlit("log1p");
    reveal_strlit("log10");
    reveal_strlit("log2");
    reveal_strlit("expm1");
    reveal_strlit("hypot");
    reveal_strlit("+.p16");
    reveal_strlit("-.p16");
    reveal_strlit("*.p16");
    reveal_strlit("/.p16");
    reveal_strlit("real->posit");
    reveal_strlit("TRUE");
    reveal_strlit("FALSE");
    reveal_strlit("E");
    reveal_strlit("LOG2E");
    reveal_strlit("LOG10E");
    reveal_strlit("LN2");
    reveal_strlit("LN10");
    reveal_strlit("PI");
    reveal_strlit("PI_2");
    reveal_strlit("PI_4");
    reveal_strlit("1_PI");
    reveal_strlit("2_PI");
    reveal_strlit("2_SQRTPI");
    reveal_strlit("SQRT2");
    reveal_strlit("SQRT1_2");
    reveal_strlit("INFINITY");
    reveal_strlit("NAN");
    assert forall|c: FPConstant| #[trigger] fp_of_name(fp_name(c)) == Some(c) by {
        match c {
            FPConstant::True => {
                assert(fp_name(FPConstant::True) == "TRUE"@);
                assert(fp_of_name("TRUE"@) == Some(FPConstant::True));
            },
            FPConstant::False => {
                assert(fp_name(FPConstant::False) == "FALSE"@);
                assert(fp_of_name("FALSE"@) == Some(FPConstant::False));
            },
            FPConstant::E => {
                assert(fp_name(FPConstant::E) == "E"@);
                assert(fp_of_name("E"@) == Some(FPConstant::E));
            },
            FPConstant::Log2E => {
                assert(fp_name(FPConstant::Log2E) == "LOG2E"@);
                assert("LOG2E"@[0] != "FALSE"@[0]);
                assert("LOG2E"@ != "FALSE"@);
                assert(fp_of_name("LOG2E"@) == Some(FPConstant::Log2E));
            },
            FPConstant::Log10E => {
                assert(fp_name(FPConstant::Log10E) == "LOG10E"@);
                assert(fp_of_name("LOG10E"@) == Some(FPConstant::Log10E));
            },
            FPConstant::Ln2 => {
                assert(fp_name(FPConstant::Ln2) == "LN2"@);
                assert(fp_of_name("LN2"@) == Some(FPConstant::Ln2));
            },
            FPConstant::Ln10 => {
                assert(fp_name(FPConstant::Ln10) == "LN10"@);
                assert("LN10"@[0] != "TRUE"@[0]);
                assert("LN10"@ != "TRUE"@);
                assert(fp_of_name("LN10"@) == Some(FPConstant::Ln10));
            },
            FPConstant::Pi => {
                assert(fp_name(FPConstant::Pi) == "PI"@);
                assert(fp_of_name("PI"@) == Some(FPConstant::Pi));
            },
            FPConstant::Pi2 => {
                assert(fp_name(FPConstant::Pi2) == "PI_2"@);
                assert("PI_2"@[0] != "TRUE"@[0]);
                assert("PI_2"@ != "TRUE"@);
                assert("PI_2"@[0] != "LN10"@[0]);
                assert("PI_2"@ != "LN10"@);
                assert(fp_of_name("PI_2"@) == Some(FPConstant::Pi2));
            },
            FPConstant::Pi4 => {
                assert(fp_name(FPConstant::Pi4) == "PI_4"@);
                assert("PI_4"@[0] != "TRUE"@[0]);
                assert("PI_4"@ != "TRUE"@);
                assert("PI_4"@[0] != "LN10"@[0]);
                assert("PI_4"@ != "LN10"@);
                assert("PI_4"@[3] != "PI_2"@[3]);
                assert("PI_4"@ != "PI_2"@);
                assert(fp_of_name("PI_4"@) == Some(FPConstant::Pi4));
            },
            FPConstant::Pi1Alt => {
                assert(fp_name(FPConstant::Pi1Alt) == "1_PI"@);
                assert("1_PI"@[0] != "TRUE"@[0]);
                assert("1_PI"@ != "TRUE"@);
                assert("1_PI"@[0] != "LN10"@[0]);
                assert("1_PI"@ != "LN10"@);
                assert("1_PI"@[0] != "PI_2"@[0]);
                assert("1_PI"@ != "PI_2"@);
                assert("1_PI"@[0] != "PI_4"@[0]);
                assert("1_PI"@ != "PI_4"@);
                assert(fp_of_name("1_PI"@) == Some(FPConstant::Pi1Alt));
            },
            FPConstant::Pi2Alt => {
                assert(fp_name(FPConstant::Pi2Alt) == "2_PI"@);
                assert("2_PI"@[0] != "TRUE"@[0]);
                assert("2_PI"@ != "TRUE"@);
                assert("2_PI"@[0] != "LN10"@[0]);
                assert("2_PI"@ != "LN10"@);
                assert("2_PI"@[0] != "PI_2"@[0]);
                assert("2_PI"@ != "PI_2"@);
                assert("2_PI"@[0] != "PI_4"@[0]);
                assert("2_PI"@ != "PI_4"@);
                assert("2_PI"@[0] != "1_PI"@[0]);
                assert("2_PI"@ != "1_PI"@);
                assert(fp_of_name("2_PI"@) == Some(FPConstant::Pi2Alt));
            },
            FPConstant::Sqrtpi2 => {
                assert(fp_name(FPConstant::Sqrtpi2) == "2_SQRTPI"@);
                assert(fp_of_name("2_SQRTPI"@) == Some(FPConstant::Sqrtpi2));
            },
            FPConstant::Sqrt2 => {
                assert(fp_name(FPConstant::Sqrt2) == "SQRT2"@);
                assert("SQRT2"@[0] != "FALSE"@[0]);
                assert("SQRT2"@ != "FALSE"@);
                assert("SQRT2"@[0] != "LOG2E"@[0]);
                assert("SQRT2"@ != "LOG2E"@);
                assert(fp_of_name("SQRT2"@) == Some(FPConstant::Sqrt2));
            },
            FPConstant::Sqrt1_2 => {
                assert(fp_name(FPConstant::Sqrt1_2) == "SQRT1_2"@);
                assert(fp_of_name("SQRT1_2"@) == Some(FPConstant::Sqrt1_2));
            },
            FPConstant::Infinity => {
                assert(fp_name(FPConstant::Infinity) == "INFINITY"@);
                assert("INFINITY"@[0] != "2_SQRTPI"@[0]);
                assert("INFINITY"@ != "2_SQRTPI"@);
                assert(fp_of_name("INFINITY"@) == Some(FPConstant::Infinity));
            },
            FPConstant::Nan => {
                assert(fp_name(FPConstant::Nan) == "NAN"@);
                assert("NAN"@[0] != "LN2"@[0]);
                assert("NAN"@ != "LN2"@);
                assert(fp_of_name("NAN"@) == Some(FPConstant::Nan));
            },
        }
    }
}

/// No named float constant shares its name with an operator tag: the
/// two name tables are disjoint, so every name resolves to exactly one
/// tag across the whole vocabulary.
#[verifier::rlimit(100)]
pub proof fn lemma_names_disjoint()
    ensures
        forall|c: FPConstant| #[trigger] op_of_name(fp_name(c)) is None,
{
    reveal_strlit("neg");
    reveal_strlit("not");
    reveal_strlit("and");
    reveal_strlit("or");
    reveal_strlit("if");
    reveal_strlit("<");
    reveal_strlit(">");
    reveal_strlit("<=");
    reveal_strlit(">=");
    reveal_strlit("re");
    reveal_strlit("im");
    reveal_strlit("complex");
    reveal_strlit("conj");
    reveal_strlit("+.c");
    reveal_strlit("-.c");
    reveal_strlit("neg.c");
    reveal_strlit("/.c");
    reveal_strlit("*.c");
    reveal_strlit("erf");
    reveal_strlit("erfc");
    reveal_strlit("tgamma");
    reveal_strlit("lgamma");
    reveal_strlit("ceil");
    reveal_strlit("floor");
    reveal_strlit("fmod");
    reveal_strlit("remainder");
    reveal_strlit("fmax");
    reveal_strlit("fmin");
    reveal_strlit("fdim");
    reveal_strlit("copysign");
    reveal_strlit("trunc");
    reveal_strlit("round");
    reveal_strlit("nearbyint");
    reveal_strlit("+");
    reveal_strlit("-");
    reveal_strlit("*");
    reveal_strlit("/");
    reveal_strlit("pow");
    reveal_strlit("exp");
    reveal_strlit("exp2");
    reveal_strlit("log");
    reveal_strlit("sqrt");
    reveal_strlit("cbrt");
    reveal_strlit("fabs");
    reveal_strlit("sin");
    reveal_strlit("cos");
    reveal_strlit("tan");
    reveal_strlit("asin");
    reveal_strlit("acos");
    reveal_strlit("atan");
    reveal_strlit("atan2");
    reveal_strlit("sinh");
    reveal_strlit("cosh");
    reveal_strlit("tanh");
    reveal_strlit("asinh");
    reveal_strlit("acosh");
    reveal_strlit("atanh");
    reveal_strlit("fma");
    reveal_strlit("log1p");
    reveal_strlit("log10");
    reveal_strlit("log2");
    reveal_strlit("expm1");
    reveal_strlit("hypot");
    reveal_strlit("+.p16");
    reveal_strlit("-.p16");
    reveal_strlit("*.p16");
    reveal_strlit("/.p16");
    reveal_strlit("real->posit");
    reveal_strlit("TRUE");
    reveal_strlit("FALSE");
    reveal_strlit("E");
    reveal_strlit("LOG2E");
    reveal_strlit("LOG10E");
    reveal_strlit("LN2");
    reveal_strlit("LN10");
    reveal_strlit("PI");
    reveal_strlit("PI_2");
    reveal_strlit("PI_4");
    reveal_strlit("1_PI");
    reveal_strlit("2_PI");
    reveal_strlit("2_SQRTPI");
    reveal_strlit("SQRT2");
    reveal_strlit("SQRT1_2");
    reveal_strlit("INFINITY");
    reveal_strlit("NAN");
    assert forall|c: FPConstant| #[trigger] op_of_name(fp_name(c)) is None by {
        match c {
            FPConstant::True => {
                assert(fp_name(FPConstant::True) == "TRUE"@);
                assert("TRUE"@[0] != "conj"@[0]);
                assert("TRUE"@ != "conj"@);
                assert("TRUE"@[0] != "erfc"@[0]);
                assert("TRUE"@ != "erfc"@);
                assert("TRUE"@[0] != "ceil"@[0]);
                assert("TRUE"@ != "ceil"@);
                assert("TRUE"@[0] != "fmod"@[0]);
                assert("TRUE"@ != "fmod"@);
                assert("TRUE"@[0] != "fmax"@[0]);
                assert("TRUE"@ != "fmax"@);
                assert("TRUE"@[0] != "fmin"@[0]);
                assert("TRUE"@ != "fmin"@);
                assert("TRUE"@[0] != "fdim"@[0]);
                assert("TRUE"@ != "fdim"@);
                assert("TRUE"@[0] != "exp2"@[0]);
                assert("TRUE"@ != "exp2"@);
                assert("TRUE"@[0] != "sqrt"@[0]);
                assert("TRUE"@ != "sqrt"@);
                assert("TRUE"@[0] != "cbrt"@[0]);
                assert("TRUE"@ != "cbrt"@);
                assert("TRUE"@[0] != "fabs"@[0]);
                assert("TRUE"@ != "fabs"@);
                assert("TRUE"@[0] != "asin"@[0]);
                assert("TRUE"@ != "asin"@);
                assert("TRUE"@[0] != "acos"@[0]);
                assert("TRUE"@ != "acos"@);
                assert("TRUE"@[0] != "atan"@[0]);
                assert("TRUE"@ != "atan"@);
                assert("TRUE"@[0] != "sinh"@[0]);
                assert("TRUE"@ != "sinh"@);
                assert("TRUE"@[0] != "cosh"@[0]);
                assert("TRUE"@ != "cosh"@);
                assert("TRUE"@[0] != "tanh"@[0]);
                assert("TRUE"@ != "tanh"@);
                assert("TRUE"@[0] != "log2"@[0]);
                assert("TRUE"@ != "log2"@);
                assert(op_of_name("TRUE"@) is None);
            },
            FPConstant::False => {
                assert(fp_name(FPConstant::False) == "FALSE"@);
                assert("FALSE"@[0] != "neg.c"@[0]);
                assert("FALSE"@ != "neg.c"@);
                assert("FALSE"@[0] != "floor"@[0]);
                assert("FALSE"@ != "floor"@);
                assert("FALSE"@[0] != "trunc"@[0]);
                assert("FALSE"@ != "trunc"@);
                assert("FALSE"@[0] != "round"@[0]);
                assert("FALSE"@ != "round"@);
                assert("FALSE"@[0] != "atan2"@[0]);
                assert("FALSE"@ != "atan2"@);
                assert("FALSE"@[0] != "asinh"@[0]);
                assert("FALSE"@ != "asinh"@);
                assert("FALSE"@[0] != "acosh"@[0]);
                assert("FALSE"@ != "acosh"@);
                assert("FALSE"@[0] != "atanh"@[0]);
                assert("FALSE"@ != "atanh"@);
                assert("FALSE"@[0] != "log1p"@[0]);
                assert("FALSE"@ != "log1p"@);
                assert("FALSE"@[0] != "log10"@[0]);
                assert("FALSE"@ != "log10"@);
                assert("FALSE"@[0] != "expm1"@[0]);
                assert("FALSE"@ != "expm1"@);
                assert("FALSE"@[0] != "hypot"@[0]);
                assert("FALSE"@ != "hypot"@);
                assert("FALSE"@[0] != "+.p16"@[0]);
                assert("FALSE"@ != "+.p16"@);
                assert("FALSE"@[0] != "-.p16"@[0]);
                assert("FALSE"@ != "-.p16"@);
                assert("FALSE"@[0] != "*.p16"@[0]);
                assert("FALSE"@ != "*.p16"@);
                assert("FALSE"@[0] != "/.p16"@[0]);
                assert("FALSE"@ != "/.p16"@);
                assert(op_of_name("FALSE"@) is None);
            },
            FPConstant::E => {
                assert(fp_name(FPConstant::E) == "E"@);
                assert("E"@[0] != "<"@[0]);
                assert("E"@ != "<"@);
                assert("E"@[0] != ">"@[0]);
                assert("E"@ != ">"@);
                assert("E"@[0] != "+"@[0]);
                assert("E"@ != "+"@);
                assert("E"@[0] != "-"@[0]);
                assert("E"@ != "-"@);
                assert("E"@[0] != "*"@[0]);
                assert("E"@ != "*"@);
                assert("E"@[0] != "/"@[0]);
                assert("E"@ != "/"@);
                assert(op_of_name("E"@) is None);
            },
            FPConstant::Log2E => {
                assert(fp_name(FPConstant::Log2E) == "LOG2E"@);
                assert("LOG2E"@[0] != "neg.c"@[0]);
                assert("LOG2E"@ != "neg.c"@);
                assert("LOG2E"@[0] != "floor"@[0]);
                assert("LOG2E"@ != "floor"@);
                assert("LOG2E"@[0] != "trunc"@[0]);
                assert("LOG2E"@ != "trunc"@);
                assert("LOG2E"@[0] != "round"@[0]);
                assert("LOG2E"@ != "round"@);
                assert("LOG2E"@[0] != "atan2"@[0]);
                assert("LOG2E"@ != "atan2"@);
                assert("LOG2E"@[0] != "asinh"@[0]);
                assert("LOG2E"@ != "asinh"@);
                assert("LOG2E"@[0] != "acosh"@[0]);
                assert("LOG2E"@ != "acosh"@);
                assert("LOG2E"@[0] != "atanh"@[0]);
                assert("LOG2E"@ != "atanh"@);
                assert("LOG2E"@[0] != "log1p"@[0]);
                assert("LOG2E"@ != "log1p"@);
                assert("LOG2E"@[0] != "log10"@[0]);
                assert("LOG2E"@ != "log10"@);
                assert("LOG2E"@[0] != "expm1"@[0]);
                assert("LOG2E"@ != "expm1"@);
                assert("LOG2E"@[0] != "hypot"@[0]);
                assert("LOG2E"@ != "hypot"@);
                assert("LOG2E"@[0] != "+.p16"@[0]);
                assert("LOG2E"@ != "+.p16"@);
                assert("LOG2E"@[0] != "-.p16"@[0]);
                assert("LOG2E"@ != "-.p16"@);
                assert("LOG2E"@[0] != "*.p16"@[0]);
                assert("LOG2E"@ != "*.p16"@);
                assert("LOG2E"@[0] != "/.p16"@[0]);
                assert("LOG2E"@ != "/.p16"@);
                assert(op_of_name("LOG2E"@) is None);
            },
            FPConstant::Log10E => {
                assert(fp_name(FPConstant::Log10E) == "LOG10E"@);
                assert("LOG10E"@[0] != "tgamma"@[0]);
                assert("LOG10E"@ != "tgamma"@);
                assert("LOG10E"@[0] != "lgamma"@[0]);
                assert("LOG10E"@ != "lgamma"@);
                assert(op_of_name("LOG10E"@) is None);
            },
            FPConstant::Ln2 => {
                assert(fp_name(FPConstant::Ln2) == "LN2"@);
                assert("LN2"@[0] != "neg"@[0]);
                assert("LN2"@ != "neg"@);
                assert("LN2"@[0] != "not"@[0]);
                assert("LN2"@ != "not"@);
                assert("LN2"@[0] != "and"@[0]);
                assert("LN2"@ != "and"@);
                assert("LN2"@[0] != "+.c"@[0]);
                assert("LN2"@ != "+.c"@);
                assert("LN2"@[0] != "-.c"@[0]);
                assert("LN2"@ != "-.c"@);
                assert("LN2"@[0] != "/.c"@[0]);
                assert("LN2"@ != "/.c"@);
                assert("LN2"@[0] != "*.c"@[0]);
                assert("LN2"@ != "*.c"@);
                assert("LN2"@[0] != "erf"@[0]);
                assert("LN2"@ != "erf"@);
                assert("LN2"@[0] != "pow"@[0]);
                assert("LN2"@ != "pow"@);
                assert("LN2"@[0] != "exp"@[0]);
                assert("LN2"@ != "exp"@);
                assert("LN2"@[0] != "log"@[0]);
                assert("LN2"@ != "log"@);
                assert("LN2"@[0] != "sin"@[0]);
                assert("LN2"@ != "sin"@);
                assert("LN2"@[0] != "cos"@[0]);
                assert("LN2"@ != "cos"@);
                assert("LN2"@[0] != "tan"@[0]);
                assert("LN2"@ != "tan"@);
                assert("LN2"@[0] != "fma"@[0]);
                assert("LN2"@ != "fma"@);
                assert(op_of_name("LN2"@) is None);
            },
            FPConstant::Ln10 => {
                assert(fp_name(FPConstant::Ln10) == "LN10"@);
                assert("LN10"@[0] != "conj"@[0]);
                assert("LN10"@ != "conj"@);
                assert("LN10"@[0] != "erfc"@[0]);
                assert("LN10"@ != "erfc"@);
                assert("LN10"@[0] != "ceil"@[0]);
                assert("LN10"@ != "ceil"@);
                assert("LN10"@[0] != "fmod"@[0]);
                assert("LN10"@ != "fmod"@);
                assert("LN10"@[0] != "fmax"@[0]);
                assert("LN10"@ != "fmax"@);
                assert("LN10"@[0] != "fmin"@[0]);
                assert("LN10"@ != "fmin"@);
                assert("LN10"@[0] != "fdim"@[0]);
                assert("LN10"@ != "fdim"@);
                assert("LN10"@[0] != "exp2"@[0]);
                assert("LN10"@ != "exp2"@);
                assert("LN10"@[0] != "sqrt"@[0]);
                assert("LN10"@ != "sqrt"@);
                assert("LN10"@[0] != "cbrt"@[0]);
                assert("LN10"@ != "cbrt"@);
                assert("LN10"@[0] != "fabs"@[0]);
                assert("LN10"@ != "fabs"@);
                assert("LN10"@[0] != "asin"@[0]);
                assert("LN10"@ != "asin"@);
                assert("LN10"@[0] != "acos"@[0]);
                assert("LN10"@ != "acos"@);
                assert("LN10"@[0] != "atan"@[0]);
                assert("LN10"@ != "atan"@);
                assert("LN10"@[0] != "sinh"@[0]);
                assert("LN10"@ != "sinh"@);
                assert("LN10"@[0] != "cosh"@[0]);
                assert("LN10"@ != "cosh"@);
                assert("LN10"@[0] != "tanh"@[0]);
                assert("LN10"@ != "tanh"@);
                assert("LN10"@[0] != "log2"@[0]);
                assert("LN10"@ != "log2"@);
                assert(op_of_name("LN10"@) is None);
            },
            FPConstant::Pi => {
                assert(fp_name(FPConstant::Pi) == "PI"@);
                assert("PI"@[0] != "or"@[0]);
                assert("PI"@ != "or"@);
                assert("PI"@[0] != "if"@[0]);
                assert("PI"@ != "if"@);
                assert("PI"@[0] != "<="@[0]);
                assert("PI"@ != "<="@);
                assert("PI"@[0] != ">="@[0]);
                assert("PI"@ != ">="@);
                assert("PI"@[0] != "re"@[0]);
                assert("PI"@ != "re"@);
                assert("PI"@[0] != "im"@[0]);
                assert("PI"@ != "im"@);
                assert(op_of_name("PI"@) is None);
            },
            FPConstant::Pi2 => {
                assert(fp_name(FPConstant::Pi2) == "PI_2"@);
                assert("PI_2"@[0] != "conj"@[0]);
                assert("PI_2"@ != "conj"@);
                assert("PI_2"@[0] != "erfc"@[0]);
                assert("PI_2"@ != "erfc"@);
                assert("PI_2"@[0] != "ceil"@[0]);
                assert("PI_2"@ != "ceil"@);
                assert("PI_2"@[0] != "fmod"@[0]);
                assert("PI_2"@ != "fmod"@);
                assert("PI_2"@[0] != "fmax"@[0]);
                assert("PI_2"@ != "fmax"@);
                assert("PI_2"@[0] != "fmin"@[0]);
                assert("PI_2"@ != "fmin"@);
                assert("PI_2"@[0] != "fdim"@[0]);
                assert("PI_2"@ != "fdim"@);
                assert("PI_2"@[0] != "exp2"@[0]);
                assert("PI_2"@ != "exp2"@);
                assert("PI_2"@[0] != "sqrt"@[0]);
                assert("PI_2"@ != "sqrt"@);
                assert("PI_2"@[0] != "cbrt"@[0]);
                assert("PI_2"@ != "cbrt"@);
                assert("PI_2"@[0] != "fabs"@[0]);
                assert("PI_2"@ != "fabs"@);
                assert("PI_2"@[0] != "asin"@[0]);
                assert("PI_2"@ != "asin"@);
                assert("PI_2"@[0] != "acos"@[0]);
                assert("PI_2"@ != "acos"@);
                assert("PI_2"@[0] != "atan"@[0]);
                assert("PI_2"@ != "atan"@);
                assert("PI_2"@[0] != "sinh"@[0]);
                assert("PI_2"@ != "sinh"@);
                assert("PI_2"@[0] != "cosh"@[0]);
                assert("PI_2"@ != "cosh"@);
                assert("PI_2"@[0] != "tanh"@[0]);
                assert("PI_2"@ != "tanh"@);
                assert("PI_2"@[0] != "log2"@[0]);
                assert("PI_2"@ != "log2"@);
                assert(op_of_name("PI_2"@) is None);
            },
            FPConstant::Pi4 => {
                assert(fp_name(FPConstant::Pi4) == "PI_4"@);
                assert("PI_4"@[0] != "conj"@[0]);
                assert("PI_4"@ != "conj"@);
                assert("PI_4"@[0] != "erfc"@[0]);
                assert("PI_4"@ != "erfc"@);
                assert("PI_4"@[0] != "ceil"@[0]);
                assert("PI_4"@ != "ceil"@);
                assert("PI_4"@[0] != "fmod"@[0]);
                assert("PI_4"@ != "fmod"@);
                assert("PI_4"@[0] != "fmax"@[0]);
                assert("PI_4"@ != "fmax"@);
                assert("PI_4"@[0] != "fmin"@[0]);
                assert("PI_4"@ != "fmin"@);
                assert("PI_4"@[0] != "fdim"@[0]);
                assert("PI_4"@ != "fdim"@);
                assert("PI_4"@[0] != "exp2"@[0]);
                assert("PI_4"@ != "exp2"@);
                assert("PI_4"@[0] != "sqrt"@[0]);
                assert("PI_4"@ != "sqrt"@);
                assert("PI_4"@[0] != "cbrt"@[0]);
                assert("PI_4"@ != "cbrt"@);
                assert("PI_4"@[0] != "fabs"@[0]);
                assert("PI_4"@ != "fabs"@);
                assert("PI_4"@[0] != "asin"@[0]);
                assert("PI_4"@ != "asin"@);
                assert("PI_4"@[0] != "acos"@[0]);
                assert("PI_4"@ != "acos"@);
                assert("PI_4"@[0] != "atan"@[0]);
                assert("PI_4"@ != "atan"@);
                assert("PI_4"@[0] != "sinh"@[0]);
                assert("PI_4"@ != "sinh"@);
                assert("PI_4"@[0] != "cosh"@[0]);
                assert("PI_4"@ != "cosh"@);
                assert("PI_4"@[0] != "tanh"@[0]);
                assert("PI_4"@ != "tanh"@);
                assert("PI_4"@[0] != "log2"@[0]);
                assert("PI_4"@ != "log2"@);
                assert(op_of_name("PI_4"@) is None);
            },
            FPConstant::Pi1Alt => {
                assert(fp_name(FPConstant::Pi1Alt) == "1_PI"@);
                assert("1_PI"@[0] != "conj"@[0]);
                assert("1_PI"@ != "conj"@);
                assert("1_PI"@[0] != "erfc"@[0]);
                assert("1_PI"@ != "erfc"@);
                assert("1_PI"@[0] != "ceil"@[0]);
                assert("1_PI"@ != "ceil"@);
                assert("1_PI"@[0] != "fmod"@[0]);
                assert("1_PI"@ != "fmod"@);
                assert("1_PI"@[0] != "fmax"@[0]);
                assert("1_PI"@ != "fmax"@);
                assert("1_PI"@[0] != "fmin"@[0]);
                assert("1_PI"@ != "fmin"@);
                assert("1_PI"@[0] != "fdim"@[0]);
                assert("1_PI"@ != "fdim"@);
                assert("1_PI"@[0] != "exp2"@[0]);
                assert("1_PI"@ != "exp2"@);
                assert("1_PI"@[0] != "sqrt"@[0]);
                assert("1_PI"@ != "sqrt"@);
                assert("1_PI"@[0] != "cbrt"@[0]);
                assert("1_PI"@ != "cbrt"@);
                assert("1_PI"@[0] != "fabs"@[0]);
                assert("1_PI"@ != "fabs"@);
                assert("1_PI"@[0] != "asin"@[0]);
                assert("1_PI"@ != "asin"@);
                assert("1_PI"@[0] != "acos"@[0]);
                assert("1_PI"@ != "acos"@);
                assert("1_PI"@[0] != "atan"@[0]);
                assert("1_PI"@ != "atan"@);
                assert("1_PI"@[0] != "sinh"@[0]);
                assert("1_PI"@ != "sinh"@);
                assert("1_PI"@[0] != "cosh"@[0]);
                assert("1_PI"@ != "cosh"@);
                assert("1_PI"@[0] != "tanh"@[0]);
                assert("1_PI"@ != "tanh"@);
                assert("1_PI"@[0] != "log2"@[0]);
                assert("1_PI"@ != "log2"@);
                assert(op_of_name("1_PI"@) is None);
            },
            FPConstant::Pi2Alt => {
                assert(fp_name(FPConstant::Pi2Alt) == "2_PI"@);
                assert("2_PI"@[0] != "conj"@[0]);
                assert("2_PI"@ != "conj"@);
                assert("2_PI"@[0] != "erfc"@[0]);
                assert("2_PI"@ != "erfc"@);
                assert("2_PI"@[0] != "ceil"@[0]);
                assert("2_PI"@ != "ceil"@);
                assert("2_PI"@[0] != "fmod"@[0]);
                assert("2_PI"@ != "fmod"@);
                assert("2_PI"@[0] != "fmax"@[0]);
                assert("2_PI"@ != "fmax"@);
                assert("2_PI"@[0] != "fmin"@[0]);
                assert("2_PI"@ != "fmin"@);
                assert("2_PI"@[0] != "fdim"@[0]);
                assert("2_PI"@ != "fdim"@);
                assert("2_PI"@[0] != "exp2"@[0]);
                assert("2_PI"@ != "exp2"@);
                assert("2_PI"@[0] != "sqrt"@[0]);
                assert("2_PI"@ != "sqrt"@);
                assert("2_PI"@[0] != "cbrt"@[0]);
                assert("2_PI"@ != "cbrt"@);
                assert("2_PI"@[0] != "fabs"@[0]);
                assert("2_PI"@ != "fabs"@);
                assert("2_PI"@[0] != "asin"@[0]);
                assert("2_PI"@ != "asin"@);
                assert("2_PI"@[0] != "acos"@[0]);
                assert("2_PI"@ != "acos"@);
                assert("2_PI"@[0] != "atan"@[0]);
                assert("2_PI"@ != "atan"@);
                assert("2_PI"@[0] != "sinh"@[0]);
                assert("2_PI"@ != "sinh"@);
                assert("2_PI"@[0] != "cosh"@[0]);
                assert("2_PI"@ != "cosh"@);
                assert("2_PI"@[0] != "tanh"@[0]);
                assert("2_PI"@ != "tanh"@);
                assert("2_PI"@[0] != "log2"@[0]);
                assert("2_PI"@ != "log2"@);
                assert(op_of_name("2_PI"@) is None);
            },
            FPConstant::Sqrtpi2 => {
                assert(fp_name(FPConstant::Sqrtpi2) == "2_SQRTPI"@);
                assert("2_SQRTPI"@[0] != "copysign"@[0]);
                assert("2_SQRTPI"@ != "copysign"@);
                assert(op_of_name("2_SQRTPI"@) is None);
            },
            FPConstant::Sqrt2 => {
                assert(fp_name(FPConstant::Sqrt2) == "SQRT2"@);
                assert("SQRT2"@[0] != "neg.c"@[0]);
                assert("SQRT2"@ != "neg.c"@);
                assert("SQRT2"@[0] != "floor"@[0]);
                assert("SQRT2"@ != "floor"@);
                assert("SQRT2"@[0] != "trunc"@[0]);
                assert("SQRT2"@ != "trunc"@);
                assert("SQRT2"@[0] != "round"@[0]);
                assert("SQRT2"@ != "round"@);
                assert("SQRT2"@[0] != "atan2"@[0]);
                assert("SQRT2"@ != "atan2"@);
                assert("SQRT2"@[0] != "asinh"@[0]);
                assert("SQRT2"@ != "asinh"@);
                assert("SQRT2"@[0] != "acosh"@[0]);
                assert("SQRT2"@ != "acosh"@);
                assert("SQRT2"@[0] != "atanh"@[0]);
                assert("SQRT2"@ != "atanh"@);
                assert("SQRT2"@[0] != "log1p"@[0]);
                assert("SQRT2"@ != "log1p"@);
                assert("SQRT2"@[0] != "log10"@[0]);
                assert("SQRT2"@ != "log10"@);
                assert("SQRT2"@[0] != "expm1"@[0]);
                assert("SQRT2"@ != "expm1"@);
                assert("SQRT2"@[0] != "hypot"@[0]);
                assert("SQRT2"@ != "hypot"@);
                assert("SQRT2"@[0] != "+.p16"@[0]);
                assert("SQRT2"@ != "+.p16"@);
                assert("SQRT2"@[0] != "-.p16"@[0]);
                assert("SQRT2"@ != "-.p16"@);
                assert("SQRT2"@[0] != "*.p16"@[0]);
                assert("SQRT2"@ != "*.p16"@);
                assert("SQRT2"@[0] != "/.p16"@[0]);
                assert("SQRT2"@ != "/.p16"@);
                assert(op_of_name("SQRT2"@) is None);
            },
            FPConstant::Sqrt1_2 => {
                assert(fp_name(FPConstant::Sqrt1_2) == "SQRT1_2"@);
                assert("SQRT1_2"@[0] != "complex"@[0]);
                assert("SQRT1_2"@ != "complex"@);
                assert(op_of_name("SQRT1_2"@) is None);
            },
            FPConstant::Infinity => {
                assert(fp_name(FPConstant::Infinity) == "INFINITY"@);
                assert("INFINITY"@[0] != "copysign"@[0]);
                assert("INFINITY"@ != "copysign"@);
                assert(op_of_name("INFINITY"@) is None);
            },
            FPConstant::Nan => {
                assert(fp_name(FPConstant::Nan) == "NAN"@);
                assert("NAN"@[0] != "neg"@[0]);
                assert("NAN"@ != "neg"@);
                assert("NAN"@[0] != "not"@[0]);
                assert("NAN"@ != "not"@);
                assert("NAN"@[0] != "and"@[0]);
                assert("NAN"@ != "and"@);
                assert("NAN"@[0] != "+.c"@[0]);
                assert("NAN"@ != "+.c"@);
                assert("NAN"@[0] != "-.c"@[0]);
                assert("NAN"@ != "-.c"@);
                assert("NAN"@[0] != "/.c"@[0]);
                assert("NAN"@ != "/.c"@);
                assert("NAN"@[0] != "*.c"@[0]);
                assert("NAN"@ != "*.c"@);
                assert("NAN"@[0] != "erf"@[0]);
                assert("NAN"@ != "erf"@);
                assert("NAN"@[0] != "pow"@[0]);
                assert("NAN"@ != "pow"@);
                assert("NAN"@[0] != "exp"@[0]);
                assert("NAN"@ != "exp"@);
                assert("NAN"@[0] != "log"@[0]);
                assert("NAN"@ != "log"@);
                assert("NAN"@[0] != "sin"@[0]);
                assert("NAN"@ != "sin"@);
                assert("NAN"@[0] != "cos"@[0]);
                assert("NAN"@ != "cos"@);
                assert("NAN"@[0] != "tan"@[0]);
                assert("NAN"@ != "tan"@);
                assert("NAN"@[0] != "fma"@[0]);
                assert("NAN"@ != "fma"@);
                assert(op_of_name("NAN"@) is None);
            },
        }
    }
}

} // verus!
