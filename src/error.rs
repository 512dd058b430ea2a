use vstd::prelude::*;

verus! {

/// `std::io::Error` is carried through the error model as an opaque value.
#[verifier::external_type_specification]
#[verifier::external_body]
pub struct ExIoError(std::io::Error);

/// The failures a stage can report.
///
/// No variant carries a partial result: an error ends the run that made it.
#[derive(Debug)]
pub enum Error {
    /// A transport-level failure.
    Network,
    /// An I/O failure, keeping the platform's cause.
    Io(std::io::Error),
    /// Any other failure, kept as its cause's message. The cause itself is
    /// not held: Verus does not accept a boxed `dyn std::error::Error`
    /// ("trait core::error::Error not declared to Verus").
    Other(String),
}

impl Error {
    /// A human-readable rendering of the error.
    pub fn describe(&self) -> (r: String)
        ensures
            (self is Network) ==> r@ == "network failure"@,
            (self is Io) ==> "io failure: "@.is_prefix_of(r@),
            (self is Other) ==> r@ == self->Other_0@,
    {
        match self {
            Error::Network => String::from_str("network failure"),
            Error::Io(e) => {
                let mut r = String::from_str("io failure: ");
                let cause = io_message(e);
                r.append(cause.as_str());
                r
            },
            Error::Other(s) => s.clone(),
        }
    }
}

/// Relies on `std::io::Error`'s `Display` implementation for its message.
#[verifier::external_body]
fn io_message(e: &std::io::Error) -> (r: String) {
    e.to_string()
}

impl From<std::io::Error> for Error {
    fn from(e: std::io::Error) -> (r: Error)
        ensures
            r == Error::Io(e),
    {
        Error::Io(e)
    }
}

impl vstd::std_specs::convert::FromSpecImpl<std::io::Error> for Error {
    open spec fn obeys_from_spec() -> bool {
        true
    }

    open spec fn from_spec(e: std::io::Error) -> Error {
        Error::Io(e)
    }
}

} // verus!
