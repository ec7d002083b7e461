use vstd::prelude::*;
use vstd::string::*;

use crate::error::{new, FailedOperationError, UnsupportedOperatorError};

verus! {

/// A binary arithmetic operator, or `Unset` while none has been chosen.
#[derive(PartialEq, Eq, Structural, Clone, Copy, Debug)]
pub enum Operator {
    Add,
    Subtract,
    Multiply,
    Divide,
    Unset,
}

/// The arithmetic that executing an operator performs on its two operands.
#[derive(PartialEq, Eq, Structural, Clone, Copy, Debug)]
pub enum Arithmetic {
    /// `a + b`
    Sum,
    /// `a - b`
    Difference,
    /// `a * b`
    Product,
    /// `a / b`, with `b` not zero
    Quotient,
}

/// Reason given when executing without an operator.
pub open spec fn no_operator_reason() -> Seq<char> {
    "No supported operator provided"@
}

/// Reason given when dividing by zero.
pub open spec fn zero_divisor_reason() -> Seq<char> {
    "zero divisor"@
}

/// Reason given when an operator is asked to act as another one.
pub open spec fn wrong_operator_reason(op: Operator) -> Seq<char> {
    "wrong operator "@ + op.spec_symbol()
}

/// The operator that a piece of text names, if any: exactly one of
/// `+`, `-`, `*`, `/`, with nothing around it.
pub open spec fn spec_parse(s: Seq<char>) -> Option<Operator> {
    if s.len() != 1 {
        Option::None
    } else if s[0] == '+' {
        Some(Operator::Add)
    } else if s[0] == '-' {
        Some(Operator::Subtract)
    } else if s[0] == '*' {
        Some(Operator::Multiply)
    } else if s[0] == '/' {
        Some(Operator::Divide)
    } else {
        Option::None
    }
}

impl Operator {
    /// Whether this is one of the four arithmetic operators.
    pub open spec fn is_operational(self) -> bool {
        self != Operator::Unset
    }

    /// How the operator is written; `Unset` has a placeholder that no text parses to.
    pub open spec fn spec_symbol(self) -> Seq<char> {
        match self {
            Operator::Add => seq!['+'],
            Operator::Subtract => seq!['-'],
            Operator::Multiply => seq!['*'],
            Operator::Divide => seq!['/'],
            Operator::Unset => seq!['<', 'n', 'o', 'n', 'e', '>'],
        }
    }

    /// The outcome of executing this operator, given whether the divisor is zero;
    /// a failure carries its reason.
    pub open spec fn spec_prepare(self, divisor_is_zero: bool) -> Result<Arithmetic, Seq<char>> {
        match self {
            Operator::Add => Ok(Arithmetic::Sum),
            Operator::Subtract => Ok(Arithmetic::Difference),
            Operator::Multiply => Ok(Arithmetic::Product),
            Operator::Divide => if divisor_is_zero {
                Err(zero_divisor_reason())
            } else {
                Ok(Arithmetic::Quotient)
            },
            Operator::Unset => Err(no_operator_reason()),
        }
    }

    /// How the operator is written: `+`, `-`, `*`, `/`, or `<none>`.
    pub fn symbol(&self) -> (r: &'static str)
        ensures
            r@ == self.spec_symbol(),
    {
        proof {
            reveal_strlit("+");
            reveal_strlit("-");
            reveal_strlit("*");
            reveal_strlit("/");
            reveal_strlit("<none>");
        }
        match self {
            Operator::Add => "+",
            Operator::Subtract => "-",
            Operator::Multiply => "*",
            Operator::Divide => "/",
            Operator::Unset => "<none>",
        }
    }

    /// The operator as text, as `symbol` gives it.
    pub fn render(&self) -> (r: String)
        ensures
            r@ == self.spec_symbol(),
    {
        String::from_str(self.symbol())
    }

    /// Reads an operator from text that is exactly one of `+`, `-`, `*`, `/`;
    /// any other text is refused and carried verbatim in the error.
    pub fn parse(s: &str) -> (r: Result<Operator, UnsupportedOperatorError>)
        ensures
            match spec_parse(s@) {
                Some(op) => r == Ok::<Operator, UnsupportedOperatorError>(op),
                None => r is Err && r->Err_0@ == s@,
            },
    {
        if s.unicode_len() == 1 {
            let c = s.get_char(0);
            if c == '+' {
                return Ok(Operator::Add);
            } else if c == '-' {
                return Ok(Operator::Subtract);
            } else if c == '*' {
                return Ok(Operator::Multiply);
            } else if c == '/' {
                return Ok(Operator::Divide);
            }
        }
        Err(new(String::from_str(s)))
    }

    /// Succeeds exactly when this operator is `expected`; otherwise fails
    /// with `wrong operator <symbol>`, naming this operator.
    pub fn guard(&self, expected: Operator) -> (r: Result<(), FailedOperationError>)
        ensures
            r is Ok <==> *self == expected,
            r is Err ==> r->Err_0.reason@ == wrong_operator_reason(*self),
    {
        if *self != expected {
            let reason = String::from_str("wrong operator ").concat(self.symbol());
            return Err(FailedOperationError { reason });
        }
        Ok(())
    }

    /// Decides what executing this operator does: the arithmetic to perform on
    /// the two operands, or the failure (no operator chosen, or a zero divisor).
    pub fn prepare(&self, divisor_is_zero: bool) -> (r: Result<Arithmetic, FailedOperationError>)
        ensures
            match self.spec_prepare(divisor_is_zero) {
                Ok(a) => r is Ok && r->Ok_0 == a,
                Err(reason) => r is Err && r->Err_0.reason@ == reason,
            },
    {
        match self {
            Operator::Add => {
                match self.guard(Operator::Add) {
                    Ok(()) => Ok(Arithmetic::Sum),
                    Err(e) => Err(e),
                }
            },
            Operator::Subtract => {
                match self.guard(Operator::Subtract) {
                    Ok(()) => Ok(Arithmetic::Difference),
                    Err(e) => Err(e),
                }
            },
            Operator::Multiply => {
                match self.guard(Operator::Multiply) {
                    Ok(()) => Ok(Arithmetic::Product),
                    Err(e) => Err(e),
                }
            },
            Operator::Divide => {
                match self.guard(Operator::Divide) {
                    Ok(()) => {
                        if divisor_is_zero {
                            Err(FailedOperationError { reason: String::from_str("zero divisor") })
                        } else {
                            Ok(Arithmetic::Quotient)
                        }
                    },
                    Err(e) => Err(e),
                }
            },
            Operator::Unset => Err(
                FailedOperationError { reason: String::from_str("No supported operator provided") },
            ),
        }
    }
}

impl Default for Operator {
    /// No operator chosen yet.
    fn default() -> (r: Operator)
        ensures
            r == Operator::Unset,
    {
        Operator::Unset
    }
}

impl std::str::FromStr for Operator {
    type Err = UnsupportedOperatorError;

    /// Same as `Operator::parse`.
    fn from_str(s: &str) -> (r: Result<Operator, UnsupportedOperatorError>)
        ensures
            match spec_parse(s@) {
                Some(op) => r == Ok::<Operator, UnsupportedOperatorError>(op),
                None => r is Err && r->Err_0@ == s@,
            },
    {
        Operator::parse(s)
    }
}

/// Parsing the symbol of any of the four arithmetic operators gives that
/// operator back, while the placeholder of `Unset` parses to nothing.
pub proof fn parse_inverts_symbol(op: Operator)
    ensures
        op.is_operational() ==> spec_parse(op.spec_symbol()) == Some(op),
        !op.is_operational() ==> spec_parse(op.spec_symbol()) is None,
{
}

/// Whatever text parses to an operator is exactly that operator's symbol.
pub proof fn symbol_inverts_parse(s: Seq<char>)
    ensures
        spec_parse(s) is Some ==> spec_parse(s)->0.spec_symbol() == s,
        spec_parse(s) is Some ==> spec_parse(s)->0.is_operational(),
{
    if spec_parse(s) is Some {
        assert(s =~= seq![s[0]]);
    }
}

/// Adding, subtracting and multiplying go ahead whatever the operands are,
/// and dividing goes ahead whenever the divisor is not zero, each with its
/// own arithmetic.
pub proof fn operators_select_their_arithmetic(op: Operator, divisor_is_zero: bool)
    ensures
        op == Operator::Add
            ==> op.spec_prepare(divisor_is_zero) == Ok::<Arithmetic, Seq<char>>(Arithmetic::Sum),
        op == Operator::Subtract
            ==> op.spec_prepare(divisor_is_zero) == Ok::<Arithmetic, Seq<char>>(Arithmetic::Difference),
        op == Operator::Multiply
            ==> op.spec_prepare(divisor_is_zero) == Ok::<Arithmetic, Seq<char>>(Arithmetic::Product),
        op == Operator::Divide && !divisor_is_zero
            ==> op.spec_prepare(divisor_is_zero) == Ok::<Arithmetic, Seq<char>>(Arithmetic::Quotient),
{
}

/// Dividing by zero fails with the reason `zero divisor`, whatever the dividend.
pub proof fn division_by_zero_fails()
    ensures
        Operator::Divide.spec_prepare(true)
            == Err::<Arithmetic, Seq<char>>(zero_divisor_reason()),
{
}

/// Executing with no operator chosen, as after `Operator::default()`, fails
/// with the reason `No supported operator provided`, whatever the operands.
pub proof fn unset_operator_fails(divisor_is_zero: bool)
    ensures
        Operator::Unset.spec_prepare(divisor_is_zero)
            == Err::<Arithmetic, Seq<char>>(no_operator_reason()),
{
}

} // verus!
