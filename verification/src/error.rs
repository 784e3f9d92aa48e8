use vstd::prelude::*;

verus! {

/// The character for the decimal digit `d`.
pub open spec fn spec_digit_char(d: int) -> char {
    if d == 0 {
        '0'
    } else if d == 1 {
        '1'
    } else if d == 2 {
        '2'
    } else if d == 3 {
        '3'
    } else if d == 4 {
        '4'
    } else if d == 5 {
        '5'
    } else if d == 6 {
        '6'
    } else if d == 7 {
        '7'
    } else if d == 8 {
        '8'
    } else {
        '9'
    }
}

/// The decimal digits of the non-negative number `n`, most significant first.
pub open spec fn spec_decimal_digits(n: nat) -> Seq<char>
    decreases n,
{
    if n < 10 {
        seq![spec_digit_char(n as int)]
    } else {
        spec_decimal_digits(n / 10) + seq![spec_digit_char((n % 10) as int)]
    }
}

/// The decimal rendering of `v`, with a leading minus sign when negative.
pub open spec fn spec_decimal(v: int) -> Seq<char> {
    if v < 0 {
        seq!['-'] + spec_decimal_digits((-v) as nat)
    } else {
        spec_decimal_digits(v as nat)
    }
}

/// A one-character string holding the decimal digit `d`.
fn digit_str(d: u64) -> (r: &'static str)
    requires
        d < 10,
    ensures
        r@ == seq![spec_digit_char(d as int)],
{
    proof {
        reveal_strlit("0");
        reveal_strlit("1");
        reveal_strlit("2");
        reveal_strlit("3");
        reveal_strlit("4");
        reveal_strlit("5");
        reveal_strlit("6");
        reveal_strlit("7");
        reveal_strlit("8");
        reveal_strlit("9");
    }
    let r: &'static str = if d == 0 {
        "0"
    } else if d == 1 {
        "1"
    } else if d == 2 {
        "2"
    } else if d == 3 {
        "3"
    } else if d == 4 {
        "4"
    } else if d == 5 {
        "5"
    } else if d == 6 {
        "6"
    } else if d == 7 {
        "7"
    } else if d == 8 {
        "8"
    } else {
        "9"
    };
    proof {
        assert(r@ =~= seq![spec_digit_char(d as int)]);
    }
    r
}

/// The decimal digits of `n` as a string.
fn decimal_digits(n: u64) -> (r: String)
    ensures
        r@ == spec_decimal_digits(n as nat),
    decreases n,
{
    if n < 10 {
        String::from_str(digit_str(n))
    } else {
        let mut s = decimal_digits(n / 10);
        s.append(digit_str(n % 10));
        s
    }
}

/// The decimal rendering of `v` as a string.
pub fn to_decimal(v: i64) -> (r: String)
    ensures
        r@ == spec_decimal(v as int),
{
    if v >= 0 {
        decimal_digits(v as u64)
    } else {
        // The magnitude is computed as `-(v + 1) + 1` so that it stays in
        // range even for the smallest representable value.
        let magnitude: u64 = ((-(v + 1)) as u64) + 1;
        assert(magnitude == -(v as int));
        let mut s = String::from_str("-");
        s.append(decimal_digits(magnitude).as_str());
        proof {
            reveal_strlit("-");
            assert(s@ =~= spec_decimal(v as int));
        }
        s
    }
}

/// An error indicating that a passed argument was outside the valid range.
#[derive(Debug, Clone)]
pub struct ArgumentRange {
    /// Name of the argument.
    pub name: &'static str,
    /// The minimum allowed value (inclusive).
    pub min: i64,
    /// The maximum allowed value (inclusive).
    pub max: i64,
    /// The value that was provided.
    pub value: i64,
    /// Given if the valid range is conditional on other parameters.
    pub conditional_message: Option<String>,
}

/// The rendering of an `ArgumentRange` error: the argument's name, its
/// valid inclusive bounds, the offending value and, when present, the
/// qualifier explaining the conditional bound.
pub open spec fn spec_argument_range_message(e: ArgumentRange) -> Seq<char> {
    let base = e.name@ + " must be in the range "@ + spec_decimal(e.min as int) + "..="@
        + spec_decimal(e.max as int) + ", but "@ + spec_decimal(e.value as int)
        + " was provided"@;
    match e.conditional_message {
        Some(m) => base + ": "@ + m@,
        None => base,
    }
}

impl ArgumentRange {
    /// The human-readable description of this error.
    pub fn message(&self) -> (r: String)
        ensures
            r@ == spec_argument_range_message(*self),
    {
        let mut s = String::from_str(self.name);
        s.append(" must be in the range ");
        s.append(to_decimal(self.min).as_str());
        s.append("..=");
        s.append(to_decimal(self.max).as_str());
        s.append(", but ");
        s.append(to_decimal(self.value).as_str());
        s.append(" was provided");
        match &self.conditional_message {
            Some(m) => {
                s.append(": ");
                s.append(m.as_str());
            },
            None => {},
        }
        s
    }
}

/// An error indicating that a date precondition requiring one date not to
/// come after another was violated.
#[derive(Debug, Clone, Copy, PartialEq, Eq, Structural)]
pub struct InvalidDate;

impl InvalidDate {
    /// The human-readable description of this error.
    pub fn message(&self) -> (r: String)
        ensures
            r@ == "an invalid date was provided"@,
    {
        String::from_str("an invalid date was provided")
    }
}

/// An error indicating that a narrowing conversion failed because the
/// original value was of a different variant.
#[derive(Debug, Clone, Copy, PartialEq, Eq, Structural)]
pub struct DifferentVariant;

impl DifferentVariant {
    /// The human-readable description of this error.
    pub fn message(&self) -> (r: String)
        ensures
            r@ == "value was of a different variant than required"@,
    {
        String::from_str("value was of a different variant than required")
    }
}

/// The rendering of a `ConditionalArgumentRange` error.
pub open spec fn spec_conditional_argument_range_message(e: ConditionalArgumentRange) -> Seq<
    char,
> {
    e.name@ + " must be in the range "@ + spec_decimal(e.min as int) + "..="@ + spec_decimal(
        e.max as int,
    ) + ", but "@ + spec_decimal(e.value as int) + " was provided: "@ + e.conditional_message@
}

/// An argument-range error whose valid bounds depend on other parameters,
/// carrying the explanation of that dependence.
#[derive(Debug, Clone)]
pub struct ConditionalArgumentRange {
    /// Name of the argument.
    pub name: &'static str,
    /// The minimum allowed value (inclusive).
    pub min: i64,
    /// The maximum allowed value (inclusive).
    pub max: i64,
    /// The value that was provided.
    pub value: i64,
    /// Why the valid range is what it is.
    pub conditional_message: String,
}

impl ConditionalArgumentRange {
    /// The human-readable description of this error.
    pub fn message(&self) -> (r: String)
        ensures
            r@ == spec_conditional_argument_range_message(*self),
    {
        let mut s = String::from_str(self.name);
        s.append(" must be in the range ");
        s.append(to_decimal(self.min).as_str());
        s.append("..=");
        s.append(to_decimal(self.max).as_str());
        s.append(", but ");
        s.append(to_decimal(self.value).as_str());
        s.append(" was provided: ");
        s.append(self.conditional_message.as_str());
        s
    }
}

/// The closed set of errors this library returns.
#[derive(Debug, Clone)]
pub enum LibraError {
    /// An argument fell outside its valid inclusive bounds.
    ArgumentRange(ArgumentRange),
    /// An argument fell outside bounds that depend on other parameters.
    ConditionalArgumentRange(ConditionalArgumentRange),
    /// A date ordering precondition was violated.
    InvalidDate(InvalidDate),
    /// A narrowing to a specific error kind failed.
    DifferentVariant(DifferentVariant),
}

impl LibraError {
    /// Narrows this error to an `ArgumentRange`, failing with
    /// `DifferentVariant` when it holds a different kind.
    pub fn into_argument_range(self) -> (r: Result<ArgumentRange, DifferentVariant>)
        ensures
            match self {
                LibraError::ArgumentRange(e) => r == Ok::<ArgumentRange, DifferentVariant>(e),
                _ => r == Err::<ArgumentRange, DifferentVariant>(DifferentVariant),
            },
    {
        match self {
            LibraError::ArgumentRange(e) => Ok(e),
            _ => Err(DifferentVariant),
        }
    }

    /// Narrows this error to an `InvalidDate`, failing with
    /// `DifferentVariant` when it holds a different kind.
    pub fn into_invalid_date(self) -> (r: Result<InvalidDate, DifferentVariant>)
        ensures
            match self {
                LibraError::InvalidDate(e) => r == Ok::<InvalidDate, DifferentVariant>(e),
                _ => r == Err::<InvalidDate, DifferentVariant>(DifferentVariant),
            },
    {
        match self {
            LibraError::InvalidDate(e) => Ok(e),
            _ => Err(DifferentVariant),
        }
    }

    /// Narrows this error to a `DifferentVariant`, failing with
    /// `DifferentVariant` when it holds a different kind.
    pub fn into_different_variant(self) -> (r: Result<DifferentVariant, DifferentVariant>)
        ensures
            match self {
                LibraError::DifferentVariant(e) => r == Ok::<DifferentVariant, DifferentVariant>(
                    e,
                ),
                _ => r == Err::<DifferentVariant, DifferentVariant>(DifferentVariant),
            },
    {
        match self {
            LibraError::DifferentVariant(e) => Ok(e),
            _ => Err(DifferentVariant),
        }
    }

    /// The human-readable description of this error.
    pub fn message(&self) -> (r: String)
        ensures
            match self {
                LibraError::ArgumentRange(e) => r@ == spec_argument_range_message(*e),
                LibraError::ConditionalArgumentRange(e) => r@
                    == spec_conditional_argument_range_message(*e),
                LibraError::InvalidDate(_) => r@ == "an invalid date was provided"@,
                LibraError::DifferentVariant(_) => r@
                    == "value was of a different variant than required"@,
            },
    {
        match self {
            LibraError::ArgumentRange(e) => e.message(),
            LibraError::ConditionalArgumentRange(e) => e.message(),
            LibraError::InvalidDate(e) => e.message(),
            LibraError::DifferentVariant(e) => e.message(),
        }
    }
}

} // verus!
