use vstd::prelude::*;
use vstd::string::StringExecFns;
use crate::error::{Error, Fault};
use crate::expression::{Expression, Term, ONE, ZERO};
use crate::text::{order_texts, text_order, Order};

verus! {

/// The binary operators of the language.
#[derive(Debug, Clone, Copy, PartialEq, Eq, Structural)]
pub enum Operator {
    Add,
    Sub,
    Mul,
    Div,
    Rem,
    Less,
    LessEqual,
    Greater,
    GreaterEqual,
    Equal,
    NotEqual,
    And,
    Or,
}

impl Operator {
    /// The symbol that names this operator in source text.
    pub open spec fn symbol(self) -> Seq<char> {
        match self {
            Operator::Add => "+"@,
            Operator::Sub => "-"@,
            Operator::Mul => "*"@,
            Operator::Div => "/"@,
            Operator::Rem => "%"@,
            Operator::Less => "<"@,
            Operator::LessEqual => "<="@,
            Operator::Greater => ">"@,
            Operator::GreaterEqual => ">="@,
            Operator::Equal => "="@,
            Operator::NotEqual => "!="@,
            Operator::And => "&"@,
            Operator::Or => "|"@,
        }
    }

    /// Whether this operator gives a number: `+ - * / %`.
    pub open spec fn arithmetic(self) -> bool {
        self is Add || self is Sub || self is Mul || self is Div || self is Rem
    }

    /// Whether this operator works on truth values only: `& |`.
    pub open spec fn logical(self) -> bool {
        self is And || self is Or
    }

    /// Whether this operator compares: `< <= > >= = !=`.
    pub open spec fn comparing(self) -> bool {
        !self.arithmetic() && !self.logical()
    }

    /// The operator that `name` names, if it names one.
    pub open spec fn named(name: Seq<char>) -> Option<Operator> {
        if name == "+"@ {
            Some(Operator::Add)
        } else if name == "-"@ {
            Some(Operator::Sub)
        } else if name == "*"@ {
            Some(Operator::Mul)
        } else if name == "/"@ {
            Some(Operator::Div)
        } else if name == "%"@ {
            Some(Operator::Rem)
        } else if name == "<"@ {
            Some(Operator::Less)
        } else if name == "<="@ {
            Some(Operator::LessEqual)
        } else if name == ">"@ {
            Some(Operator::Greater)
        } else if name == ">="@ {
            Some(Operator::GreaterEqual)
        } else if name == "="@ {
            Some(Operator::Equal)
        } else if name == "!="@ {
            Some(Operator::NotEqual)
        } else if name == "&"@ {
            Some(Operator::And)
        } else if name == "|"@ {
            Some(Operator::Or)
        } else {
            None
        }
    }

    /// The operator that `name` names, if it names one.
    pub fn from_symbol(name: &String) -> (r: Option<Operator>)
        ensures
            r == Operator::named(name@),
    {
        if *name == String::from_str("+") {
            Some(Operator::Add)
        } else if *name == String::from_str("-") {
            Some(Operator::Sub)
        } else if *name == String::from_str("*") {
            Some(Operator::Mul)
        } else if *name == String::from_str("/") {
            Some(Operator::Div)
        } else if *name == String::from_str("%") {
            Some(Operator::Rem)
        } else if *name == String::from_str("<") {
            Some(Operator::Less)
        } else if *name == String::from_str("<=") {
            Some(Operator::LessEqual)
        } else if *name == String::from_str(">") {
            Some(Operator::Greater)
        } else if *name == String::from_str(">=") {
            Some(Operator::GreaterEqual)
        } else if *name == String::from_str("=") {
            Some(Operator::Equal)
        } else if *name == String::from_str("!=") {
            Some(Operator::NotEqual)
        } else if *name == String::from_str("&") {
            Some(Operator::And)
        } else if *name == String::from_str("|") {
            Some(Operator::Or)
        } else {
            None
        }
    }

    /// The symbol that names this operator in source text.
    pub fn name(self) -> (r: String)
        ensures
            r@ == self.symbol(),
    {
        match self {
            Operator::Add => String::from_str("+"),
            Operator::Sub => String::from_str("-"),
            Operator::Mul => String::from_str("*"),
            Operator::Div => String::from_str("/"),
            Operator::Rem => String::from_str("%"),
            Operator::Less => String::from_str("<"),
            Operator::LessEqual => String::from_str("<="),
            Operator::Greater => String::from_str(">"),
            Operator::GreaterEqual => String::from_str(">="),
            Operator::Equal => String::from_str("="),
            Operator::NotEqual => String::from_str("!="),
            Operator::And => String::from_str("&"),
            Operator::Or => String::from_str("|"),
        }
    }

    /// Whether this operator gives a number.
    pub fn is_arithmetic(self) -> (r: bool)
        ensures
            r == self.arithmetic(),
    {
        match self {
            Operator::Add | Operator::Sub | Operator::Mul | Operator::Div | Operator::Rem => true,
            _ => false,
        }
    }

    /// Whether this operator works on truth values only.
    pub fn is_logical(self) -> (r: bool)
        ensures
            r == self.logical(),
    {
        match self {
            Operator::And | Operator::Or => true,
            _ => false,
        }
    }
}

/// What a comparing operator says of two values that stand in the given order.
/// Of the six, only `!=` holds of values that are not ordered at all.
pub open spec fn holds(op: Operator, order: Order) -> bool {
    match op {
        Operator::Less => order == Order::Less,
        Operator::LessEqual => order == Order::Less || order == Order::Equal,
        Operator::Greater => order == Order::Greater,
        Operator::GreaterEqual => order == Order::Greater || order == Order::Equal,
        Operator::Equal => order == Order::Equal,
        Operator::NotEqual => order != Order::Equal,
        _ => false,
    }
}

/// What a comparing operator says of two values that stand in the given order.
pub fn decide(op: Operator, order: Order) -> (r: bool)
    ensures
        r == holds(op, order),
{
    match op {
        Operator::Less => order == Order::Less,
        Operator::LessEqual => order == Order::Less || order == Order::Equal,
        Operator::Greater => order == Order::Greater,
        Operator::GreaterEqual => order == Order::Greater || order == Order::Equal,
        Operator::Equal => order == Order::Equal,
        Operator::NotEqual => order != Order::Equal,
        _ => false,
    }
}

/// The number that an operand counts as: a number is itself, `true` is one and
/// `false` is zero; nothing else is a number.
pub open spec fn numeric(t: Term) -> Option<u64> {
    match t {
        Term::Number(n) => Some(n),
        Term::Boolean(b) => Some(if b { ONE } else { ZERO }),
        _ => None,
    }
}

/// The fault for operands that an operator does not take.
pub open spec fn type_fault(op: Operator) -> Fault {
    Fault::Invalid("invalid type for "@ + op.symbol() + " operator"@)
}

/// What is to be done with two operands: the mathematical value of a
/// [`Combination`].
pub enum Verdict {
    /// The result is known.
    Value(Term),
    /// The two numbers are to be combined by the arithmetic operator.
    Calculate(Operator, u64, u64),
    /// The two numbers are to be put in order, and the operator then decides.
    Compare(Operator, u64, u64),
    /// The operator does not take these operands.
    Fail(Fault),
}

/// What an operator does with two evaluated operands.
///
/// `&` and `|` take two truth values and nothing else. Every other operator
/// takes numbers, a truth value counting as one or zero. `+` also joins two
/// texts, and the comparing operators also compare two texts. Everything else
/// is refused.
pub open spec fn combine(op: Operator, left: Term, right: Term) -> Verdict {
    if op.logical() {
        match (left, right) {
            (Term::Boolean(a), Term::Boolean(b)) => Verdict::Value(
                Term::Boolean(if op is And { a && b } else { a || b }),
            ),
            _ => Verdict::Fail(type_fault(op)),
        }
    } else if numeric(left) is Some && numeric(right) is Some {
        if op.arithmetic() {
            Verdict::Calculate(op, numeric(left)->Some_0, numeric(right)->Some_0)
        } else {
            Verdict::Compare(op, numeric(left)->Some_0, numeric(right)->Some_0)
        }
    } else {
        match (left, right) {
            (Term::Text(a), Term::Text(b)) => if op is Add {
                Verdict::Value(Term::Text(a + b))
            } else if op.comparing() {
                Verdict::Value(Term::Boolean(holds(op, text_order(a, b))))
            } else {
                Verdict::Fail(type_fault(op))
            },
            _ => Verdict::Fail(type_fault(op)),
        }
    }
}

/// What is to be done with two operands.
#[derive(Debug, PartialEq)]
pub enum Combination {
    Value(Expression),
    Calculate(Operator, u64, u64),
    Compare(Operator, u64, u64),
    Fail(Error),
}

impl View for Combination {
    type V = Verdict;

    open spec fn view(&self) -> Verdict {
        match self {
            Combination::Value(e) => Verdict::Value(e@),
            Combination::Calculate(op, a, b) => Verdict::Calculate(*op, *a, *b),
            Combination::Compare(op, a, b) => Verdict::Compare(*op, *a, *b),
            Combination::Fail(e) => Verdict::Fail(e@),
        }
    }
}

/// The number that an operand counts as.
pub fn as_number(e: &Expression) -> (r: Option<u64>)
    ensures
        r == numeric(e@),
{
    match e {
        Expression::Number(n) => Some(*n),
        Expression::Boolean(b) => Some(if *b { ONE } else { ZERO }),
        _ => None,
    }
}

/// The error for operands that an operator does not take.
pub fn type_error(op: Operator) -> (r: Error)
    ensures
        r@ == type_fault(op),
{
    Error::Invalid(
        String::from_str("invalid type for ").concat(op.name().as_str()).concat(" operator"),
    )
}

/// Applies an operator to two evaluated operands as far as that can be done
/// without arithmetic on numbers.
pub fn apply(op: Operator, left: &Expression, right: &Expression) -> (r: Combination)
    ensures
        r@ == combine(op, left@, right@),
{
    if op.is_logical() {
        return match (left, right) {
            (Expression::Boolean(a), Expression::Boolean(b)) => {
                let both = match op {
                    Operator::And => *a && *b,
                    _ => *a || *b,
                };
                Combination::Value(Expression::Boolean(both))
            },
            _ => Combination::Fail(type_error(op)),
        };
    }
    match (as_number(left), as_number(right)) {
        (Some(a), Some(b)) => {
            if op.is_arithmetic() {
                Combination::Calculate(op, a, b)
            } else {
                Combination::Compare(op, a, b)
            }
        },
        _ => match (left, right) {
            (Expression::String(a), Expression::String(b)) => {
                if op.is_arithmetic() {
                    match op {
                        Operator::Add => Combination::Value(
                            Expression::String(a.clone().concat(b.as_str())),
                        ),
                        _ => Combination::Fail(type_error(op)),
                    }
                } else {
                    Combination::Value(
                        Expression::Boolean(decide(op, order_texts(a.as_str(), b.as_str()))),
                    )
                }
            },
            _ => Combination::Fail(type_error(op)),
        },
    }
}

/// `&` and `|` take two truth values and refuse everything else.
pub proof fn lemma_logical_takes_truth_values_only(op: Operator, left: Term, right: Term)
    requires
        op.logical(),
    ensures
        left is Boolean && right is Boolean ==> combine(op, left, right) == Verdict::Value(
            Term::Boolean(
                if op is And {
                    left->Boolean_0 && right->Boolean_0
                } else {
                    left->Boolean_0 || right->Boolean_0
                },
            ),
        ),
        !(left is Boolean && right is Boolean) ==> combine(op, left, right) == Verdict::Fail(
            type_fault(op),
        ),
{
}

/// For the arithmetic and the comparing operators a truth value counts as the
/// number one or zero, on either side.
pub proof fn lemma_truth_value_counts_as_number(op: Operator, a: bool, n: u64)
    requires
        !op.logical(),
    ensures
        combine(op, Term::Boolean(a), Term::Number(n)) == combine(
            op,
            Term::Number(if a { ONE } else { ZERO }),
            Term::Number(n),
        ),
        combine(op, Term::Number(n), Term::Boolean(a)) == combine(
            op,
            Term::Number(n),
            Term::Number(if a { ONE } else { ZERO }),
        ),
        combine(op, Term::Number(n), Term::Number(n)) == (if op.arithmetic() {
            Verdict::Calculate(op, n, n)
        } else {
            Verdict::Compare(op, n, n)
        }),
{
}

/// Operands that are neither two numbers (or truth values) nor two texts are
/// refused, and so are two texts by every arithmetic operator but `+`.
pub proof fn lemma_other_operands_refused(op: Operator, left: Term, right: Term)
    requires
        !op.logical(),
        numeric(left) is None || numeric(right) is None,
    ensures
        !(left is Text && right is Text) ==> combine(op, left, right) == Verdict::Fail(
            type_fault(op),
        ),
        left is Text && right is Text && op.arithmetic() && !(op is Add) ==> combine(
            op,
            left,
            right,
        ) == Verdict::Fail(type_fault(op)),
{
}

} // verus!
