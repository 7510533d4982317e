use vstd::prelude::*;

verus! {

/// Why one fetch produced no value. Each kind is scoped to that one attempt.
#[derive(Debug, Clone, Copy, PartialEq, Eq, Structural)]
pub enum FetchError {
    /// The request could not be sent or no response came back in time.
    Transport,
    /// A response came back with a status outside the 2xx range.
    Status(u16),
    /// The body was not JSON, or not of the expected shape.
    Decode,
}

/// Success is exactly the 2xx range of status codes.
pub open spec fn is_success_spec(status: u16) -> bool {
    200 <= status && status < 300
}

/// Whether an HTTP status code signals success.
pub fn is_success_status(status: u16) -> (r: bool)
    ensures
        r == is_success_spec(status),
{
    200 <= status && status < 300
}

/// The verdict on a received status: a 2xx status lets the fetch go on to
/// decode the body; any other status ends it, carrying the code, and the body
/// is discarded.
pub fn check_status(status: u16) -> (r: Result<(), FetchError>)
    ensures
        r is Ok <==> is_success_spec(status),
        !is_success_spec(status) ==> r == Err::<(), FetchError>(FetchError::Status(status)),
{
    if is_success_status(status) {
        Ok(())
    } else {
        Err(FetchError::Status(status))
    }
}

/// The outcome of sending the request: a response goes on, anything else is a
/// transport failure.
pub fn check_sent<R, E>(sent: Result<R, E>) -> (r: Result<R, FetchError>)
    ensures
        match sent {
            Ok(v) => r == Ok::<R, FetchError>(v),
            Err(_) => r == Err::<R, FetchError>(FetchError::Transport),
        },
{
    match sent {
        Ok(v) => Ok(v),
        Err(_) => Err(FetchError::Transport),
    }
}

/// The outcome of decoding the body: the decoded value unchanged, or a decode
/// failure.
pub fn check_decoded<T, E>(decoded: Result<T, E>) -> (r: Result<T, FetchError>)
    ensures
        match decoded {
            Ok(v) => r == Ok::<T, FetchError>(v),
            Err(_) => r == Err::<T, FetchError>(FetchError::Decode),
        },
{
    match decoded {
        Ok(v) => Ok(v),
        Err(_) => Err(FetchError::Decode),
    }
}

} // verus!
