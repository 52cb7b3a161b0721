use vstd::prelude::*;

verus! {

/// Why a call to the service failed.
#[derive(Clone, Debug, PartialEq, Eq)]
pub enum AddieError {
    /// The request did not reach the service, or no response came back.
    Transport(String),
    /// The service answered with a status outside the success range.
    Status(u16),
    /// The service answered, but the body did not have the expected shape.
    Decode(String),
}

impl AddieError {
    pub open spec fn spec_is_transport(&self) -> bool {
        self is Transport || self is Status
    }

    pub open spec fn spec_is_decode(&self) -> bool {
        self is Decode
    }

    /// Whether the service could not be reached or rejected the request.
    pub fn is_transport(&self) -> (r: bool)
        ensures
            r == self.spec_is_transport(),
    {
        match self {
            AddieError::Transport(_) => true,
            AddieError::Status(_) => true,
            AddieError::Decode(_) => false,
        }
    }

    /// Whether the service replied with a body of an unexpected shape.
    pub fn is_decode(&self) -> (r: bool)
        ensures
            r == self.spec_is_decode(),
    {
        match self {
            AddieError::Decode(_) => true,
            _ => false,
        }
    }
}

/// Whether an HTTP status is in the success range.
pub open spec fn is_success_status(status: u16) -> bool {
    200 <= status < 300
}

/// The result of a call whose response came back with `status` and whose body
/// decoded to `decoded`.
pub open spec fn outcome<T>(status: u16, decoded: Result<T, String>) -> Result<T, AddieError> {
    if !is_success_status(status) {
        Err(AddieError::Status(status))
    } else {
        match decoded {
            Ok(v) => Ok(v),
            Err(m) => Err(AddieError::Decode(m)),
        }
    }
}

/// Settles a response: a status outside the success range fails the call as a
/// transport failure; otherwise the decoded body is the result, and a body that
/// did not decode fails the call as a decode failure.
pub fn settle<T>(status: u16, decoded: Result<T, String>) -> (r: Result<T, AddieError>)
    ensures
        r == outcome(status, decoded),
{
    if status < 200 || status >= 300 {
        Err(AddieError::Status(status))
    } else {
        match decoded {
            Ok(v) => Ok(v),
            Err(m) => Err(AddieError::Decode(m)),
        }
    }
}

/// A failed call is a decode failure or a transport failure, never both: it is a
/// decode failure exactly when the service answered with success and the body
/// did not decode.
pub proof fn lemma_failures_distinct<T>(status: u16, decoded: Result<T, String>)
    ensures
        outcome(status, decoded) is Err ==> {
            let e = outcome(status, decoded)->Err_0;
            &&& e.spec_is_decode() != e.spec_is_transport()
            &&& e.spec_is_decode() <==> (is_success_status(status) && decoded is Err)
        },
        outcome(status, decoded) is Ok <==> (is_success_status(status) && decoded is Ok),
{
}

} // verus!
