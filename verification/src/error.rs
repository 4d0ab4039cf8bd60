use vstd::prelude::*;
use vstd::string::StringExecFns;

verus! {

/// What went wrong, by kind, each with its description.
#[derive(Debug, Clone, PartialEq, PartialOrd)]
pub enum Error {
    /// A special form of the wrong shape, or operands of the wrong type.
    Invalid(String),
    /// A failure at run time that has no kind of its own.
    Reason(String),
    /// A name that no reachable scope defines.
    Reference(String),
    /// Text that cannot be cut into tokens.
    Token(String),
    /// Tokens that do not nest.
    Parse(String),
}

/// The mathematical value of an [`Error`].
pub enum Fault {
    Invalid(Seq<char>),
    Reason(Seq<char>),
    Reference(Seq<char>),
    Token(Seq<char>),
    Parse(Seq<char>),
}

impl Fault {
    /// The line that reports this fault to a reader.
    pub open spec fn message(self) -> Seq<char> {
        match self {
            Fault::Invalid(e) => "invalid statement: "@ + e,
            Fault::Parse(e) => "parsing error: "@ + e,
            Fault::Reason(e) => e,
            Fault::Reference(e) => "reference error: "@ + e,
            Fault::Token(e) => "missing token: "@ + e,
        }
    }
}

impl View for Error {
    type V = Fault;

    open spec fn view(&self) -> Fault {
        match self {
            Error::Invalid(e) => Fault::Invalid(e@),
            Error::Reason(e) => Fault::Reason(e@),
            Error::Reference(e) => Fault::Reference(e@),
            Error::Token(e) => Fault::Token(e@),
            Error::Parse(e) => Fault::Parse(e@),
        }
    }
}

impl Error {
    /// An error of kind `Invalid` with the given description.
    pub fn invalid(text: &str) -> (r: Error)
        ensures
            r@ == Fault::Invalid(text@),
    {
        Error::Invalid(String::from_str(text))
    }

    /// An error of kind `Reason` with the given description.
    pub fn reason(text: &str) -> (r: Error)
        ensures
            r@ == Fault::Reason(text@),
    {
        Error::Reason(String::from_str(text))
    }

    /// The error for a name that no reachable scope defines.
    pub fn undefined(name: &str) -> (r: Error)
        ensures
            r@ == Fault::Reference(name@ + " is not defined"@),
    {
        Error::Reference(String::from_str(name).concat(" is not defined"))
    }

    /// A copy with the same value.
    pub fn copy(&self) -> (r: Error)
        ensures
            r@ == self@,
    {
        match self {
            Error::Invalid(e) => Error::Invalid(e.clone()),
            Error::Reason(e) => Error::Reason(e.clone()),
            Error::Reference(e) => Error::Reference(e.clone()),
            Error::Token(e) => Error::Token(e.clone()),
            Error::Parse(e) => Error::Parse(e.clone()),
        }
    }

    /// The line that reports this error: the kind's prefix, then the description.
    pub fn message(&self) -> (r: String)
        ensures
            r@ == self@.message(),
    {
        match self {
            Error::Invalid(e) => String::from_str("invalid statement: ").concat(e.as_str()),
            Error::Parse(e) => String::from_str("parsing error: ").concat(e.as_str()),
            Error::Reason(e) => e.clone(),
            Error::Reference(e) => String::from_str("reference error: ").concat(e.as_str()),
            Error::Token(e) => String::from_str("missing token: ").concat(e.as_str()),
        }
    }
}

} // verus!
