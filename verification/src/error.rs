use vstd::prelude::*;
use vstd::string::*;

verus! {

/// The error of the framework and of its plugins.
#[derive(Debug)]
pub enum Error {
    /// A value that was asked for is not held by the state container.
    NotPresent,
    /// A value that was to be taken out is not held by the state container.
    NotPresentToTake,
    /// A row did not fit the columns of a query.
    ValuesMismatch,
    /// Any other failure, described by its message.
    Message(String),
}

/// The result of a framework operation.
pub type Res<T> = Result<T, Error>;

/// The result of a framework operation that yields nothing.
pub type R = Res<()>;

pub open spec fn not_present_text() -> Seq<char> {
    "Required type is not present in State container"@
}

pub open spec fn not_present_to_take_text() -> Seq<char> {
    "required type is not present in State container"@
}

pub open spec fn values_mismatch_text() -> Seq<char> {
    "Columns and values length mismatch"@
}

impl Error {
    /// The text that describes the error.
    pub open spec fn spec_message(&self) -> Seq<char> {
        match self {
            Error::NotPresent => not_present_text(),
            Error::NotPresentToTake => not_present_to_take_text(),
            Error::ValuesMismatch => values_mismatch_text(),
            Error::Message(m) => m@,
        }
    }

    /// The text that describes the error.
    pub fn message(&self) -> (r: String)
        ensures r@ == self.spec_message(),
    {
        match self {
            Error::NotPresent => String::from_str("Required type is not present in State container"),
            Error::NotPresentToTake => String::from_str("required type is not present in State container"),
            Error::ValuesMismatch => String::from_str("Columns and values length mismatch"),
            Error::Message(m) => m.clone(),
        }
    }
}

} // verus!
