use vstd::prelude::*;

verus! {

/// The ways in which an RTM evaluation can fail.
#[derive(Debug, Clone, Copy, PartialEq, Eq, Structural)]
pub enum RtmError {
    /// The inputs don't have the expected shape(s).
    InconsistentInputs,
    /// Couldn't find the surface index.
    NoSurface,
    /// An array is not contiguous when it was assumed to be.
    NotContiguous,
    /// The operation was aborted early.
    Cancelled,
}

/// The human-readable description of each error kind.
pub open spec fn error_message(e: RtmError) -> Seq<char> {
    match e {
        RtmError::InconsistentInputs => "inputs to RTM have the wrong shape"@,
        RtmError::NoSurface => "couldn't find the surface index"@,
        RtmError::NotContiguous => "array slice not contiguous in memory"@,
        RtmError::Cancelled => "operation cancelled early"@,
    }
}

impl RtmError {
    /// Describes the error in words.
    pub fn message(&self) -> (r: String)
        ensures
            r@ == error_message(*self),
    {
        match self {
            RtmError::InconsistentInputs => String::from_str("inputs to RTM have the wrong shape"),
            RtmError::NoSurface => String::from_str("couldn't find the surface index"),
            RtmError::NotContiguous => String::from_str("array slice not contiguous in memory"),
            RtmError::Cancelled => String::from_str("operation cancelled early"),
        }
    }
}

} // verus!
