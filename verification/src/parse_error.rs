use vstd::prelude::*;

verus! {

/// Capability of a numeric-parse error: it can render itself as text.
/// The fraction-error display delegates to this when it wraps such an error.
pub trait ErrorText {
    /// The text this error renders as.
    spec fn text_spec(&self) -> Seq<char>;

    /// Renders the error as text.
    fn text(&self) -> (r: String)
        ensures
            r@ == self.text_spec(),
    ;
}

/// Defines types of errors that might occur when parsing fractions.
#[derive(Debug, PartialEq, Eq, Structural)]
pub enum FractionParseErr<E> {
    /// The input text did not have the `<numerator>/<denominator>` shape.
    IncorrectForm,
    /// Both parts parsed as numbers, but the denominator was zero.
    ZeroDenominator,
    /// Parsing the numerator or denominator into a number failed;
    /// the underlying numeric-parse error is carried along.
    NumParseErr(E),
}

impl<E> FractionParseErr<E> {
    /// Returns the underlying parse error (wrapped) if it occurred, `None` otherwise.
    pub fn num_parse_err(self) -> (r: Option<E>)
        ensures
            self matches FractionParseErr::NumParseErr(e) ==> r == Some(e),
            self !is NumParseErr ==> r is None,
    {
        match self {
            FractionParseErr::NumParseErr(err) => Some(err),
            _ => None,
        }
    }

    /// Returns `true` if an underlying parse error occurred, false otherwise.
    pub fn is_num_parse_err(&self) -> (r: bool)
        ensures
            r == (self is NumParseErr),
    {
        match self {
            FractionParseErr::NumParseErr(_) => true,
            _ => false,
        }
    }
}

/// The message shown for an incorrectly formed fraction.
pub open spec fn incorrect_form_text() -> Seq<char> {
    "Incorrectly formed fraction (format should be <D>/<N>)"@
}

/// The message shown for a fraction with a zero denominator.
pub open spec fn zero_denominator_text() -> Seq<char> {
    "Fraction denominator cannot be zero"@
}

/// The prefix put before the wrapped numeric-parse error's own text.
pub open spec fn num_parse_prefix() -> Seq<char> {
    "Error when parsing fraction: "@
}

impl<E: ErrorText> FractionParseErr<E> {
    /// The text each variant displays as: a fixed message for the first two
    /// variants, and the prefix followed by the wrapped error's text for the third.
    pub open spec fn display_text_spec(&self) -> Seq<char> {
        match self {
            FractionParseErr::IncorrectForm => incorrect_form_text(),
            FractionParseErr::ZeroDenominator => zero_denominator_text(),
            FractionParseErr::NumParseErr(err) => num_parse_prefix() + err.text_spec(),
        }
    }

    /// Produces the human-readable message for this error.
    pub fn to_display_text(&self) -> (r: String)
        ensures
            r@ == self.display_text_spec(),
    {
        match self {
            FractionParseErr::IncorrectForm => {
                "Incorrectly formed fraction (format should be <D>/<N>)".to_owned()
            },
            FractionParseErr::ZeroDenominator => {
                "Fraction denominator cannot be zero".to_owned()
            },
            FractionParseErr::NumParseErr(err) => {
                let text = err.text();
                "Error when parsing fraction: ".to_owned().concat(text.as_str())
            },
        }
    }

    /// Returns a borrowed reference to the wrapped numeric-parse error when
    /// there is one, `None` otherwise, so callers can walk the cause chain.
    pub fn cause(&self) -> (r: Option<&E>)
        ensures
            self matches FractionParseErr::NumParseErr(e) ==> (r matches Some(c) && *c == e),
            self !is NumParseErr ==> r is None,
    {
        match self {
            FractionParseErr::NumParseErr(err) => Some(err),
            _ => None,
        }
    }
}

/// Every incorrectly-formed-fraction error wraps no numeric-parse error and
/// displays exactly the fixed incorrect-form message.
pub proof fn lemma_incorrect_form<E: ErrorText>(err: FractionParseErr<E>)
    requires
        err is IncorrectForm,
    ensures
        !(err is NumParseErr),
        err.display_text_spec() == incorrect_form_text(),
{
}

/// Every zero-denominator error wraps no numeric-parse error and displays
/// exactly the fixed zero-denominator message.
pub proof fn lemma_zero_denominator<E: ErrorText>(err: FractionParseErr<E>)
    requires
        err is ZeroDenominator,
    ensures
        !(err is NumParseErr),
        err.display_text_spec() == zero_denominator_text(),
{
}

/// Every error that wraps a numeric-parse error displays the fixed prefix
/// followed by that error's own text, and wraps that error and no other.
pub proof fn lemma_num_parse<E: ErrorText>(err: FractionParseErr<E>, e: E)
    requires
        err == FractionParseErr::NumParseErr(e),
    ensures
        err is NumParseErr,
        err->0 == e,
        err.display_text_spec() == num_parse_prefix() + e.text_spec(),
{
}

/// Equality on the taxonomy is an equivalence relation.
pub proof fn lemma_eq_equivalence<E>(
    a: FractionParseErr<E>,
    b: FractionParseErr<E>,
    c: FractionParseErr<E>,
)
    ensures
        a == a,
        a == b ==> b == a,
        a == b && b == c ==> a == c,
{
}

/// Equal errors are of the same variant, so errors of different variants are
/// never equal; and two wrapped numeric-parse errors are equal exactly when
/// their payloads are.
pub proof fn lemma_eq_variants<E>(a: FractionParseErr<E>, b: FractionParseErr<E>)
    ensures
        a == b ==> (a is IncorrectForm <==> b is IncorrectForm),
        a == b ==> (a is ZeroDenominator <==> b is ZeroDenominator),
        a == b ==> (a is NumParseErr <==> b is NumParseErr),
        a is NumParseErr && b is NumParseErr ==> ((a == b) <==> a->0 == b->0),
{
}

/// A ready-made numeric-parse error that carries its message as plain text.
/// It stands in for whatever error the numeric parser on the platform
/// produces, holding exactly what this taxonomy reads of it: its display text.
#[derive(Debug, PartialEq, Eq, Clone)]
pub struct NumericParseError {
    text: String,
}

impl NumericParseError {
    /// Wraps the given message.
    pub fn new(text: String) -> (r: Self)
        ensures
            r.text_spec() == text@,
    {
        NumericParseError { text }
    }
}

impl ErrorText for NumericParseError {
    closed spec fn text_spec(&self) -> Seq<char> {
        self.text@
    }

    fn text(&self) -> (r: String)
        ensures
            r@ == self.text_spec(),
    {
        self.text.clone()
    }
}

} // verus!
