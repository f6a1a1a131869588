use vstd::prelude::*;

verus! {

/// The failures the library itself detects.  Protocol and I/O failures happen
/// outside the library and are reported by the surrounding program.
#[derive(Clone, Copy, Debug, PartialEq, Eq, Structural)]
pub enum Error {
    /// A position axis spec was not a decimal number in range.
    ParseInt,
    /// No monitor with a nonzero pixel area was reported.
    NoScreenFound,
    /// The position spec lacked the `,` separator between its two axes.
    InvalidPosition,
}

impl Error {
    /// A short human-readable description, for the surrounding program to print.
    pub fn message(&self) -> (r: &'static str)
        ensures
            *self is ParseInt ==> r@ == "invalid number in position spec"@,
            *self is NoScreenFound ==> r@ == "no screen found"@,
            *self is InvalidPosition ==> r@ == "invalid position specified"@,
    {
        match self {
            Error::ParseInt => "invalid number in position spec",
            Error::NoScreenFound => "no screen found",
            Error::InvalidPosition => "invalid position specified",
        }
    }
}

} // verus!
