use vstd::prelude::*;

verus! {

/// The error taxonomy for attribute/index resolution, lens application and
/// casting. Every failure is a recoverable value; none is process-fatal.
#[derive(Clone, Copy, Debug, PartialEq, Eq, Structural)]
pub enum Error {
    /// A guard was acquired after a prior panic while the lock was held.
    AccessError,
    /// The access kind (name vs. index) is unsupported by the class variant,
    /// a lens was applied to a mismatched origin identity, or a cast was
    /// attempted through an untyped (aggregate) class.
    TypeError,
    /// A name was not found on an aggregate class.
    AttributeError,
    /// A numeric index was out of bounds for an array class.
    IndexError,
    /// A cast's target tag does not equal the leaf's type-identity tag.
    ValueError,
}

impl Error {
    /// The name of the error kind.
    pub open spec fn spec_message(&self) -> Seq<char> {
        match self {
            Error::AccessError => "AccessError"@,
            Error::TypeError => "TypeError"@,
            Error::AttributeError => "AttributeError"@,
            Error::IndexError => "IndexError"@,
            Error::ValueError => "ValueError"@,
        }
    }

    /// The name of the error kind, for reporting.
    pub fn message(&self) -> (s: String)
        ensures
            s@ == self.spec_message(),
    {
        match self {
            Error::AccessError => "AccessError".to_owned(),
            Error::TypeError => "TypeError".to_owned(),
            Error::AttributeError => "AttributeError".to_owned(),
            Error::IndexError => "IndexError".to_owned(),
            Error::ValueError => "ValueError".to_owned(),
        }
    }
}

} // verus!
