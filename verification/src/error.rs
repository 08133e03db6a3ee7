//! Errors of a connection, and their conversion from the conversation layer.
use vstd::prelude::*;
use async_io_converse::Error as ConverseError;

verus! {

/// `std::io::Error`, carried through unchanged.
#[verifier::external_type_specification]
#[verifier::external_body]
pub struct ExIoError(std::io::Error);

/// `bincode::ErrorKind`, carried through unchanged (boxed, as `bincode::Error`).
#[verifier::external_type_specification]
#[verifier::external_body]
pub struct ExBincodeErrorKind(bincode::ErrorKind);

/// The error enum of the conversation layer. Its variants are read as they
/// are declared in `async_io_converse`.
#[verifier::external_type_specification]
pub struct ExConverseError(ConverseError);

/// Errors which can occur on an `interprocess-converse` connection.
#[derive(Debug)]
pub enum Error {
    /// Error from `std::io`
    Io(std::io::Error),
    /// Error from the `bincode` crate
    Bincode(Box<bincode::ErrorKind>),
    /// A message was received that exceeded the configured length limit
    ReceivedMessageTooLarge,
    /// A message was sent that exceeded the configured length limit
    SentMessageTooLarge,
    /// A reply wasn't received within the timeout specified
    Timeout,
    /// The read half was dropped, crippling the ability to receive replies.
    ReadHalfDropped,
}

/// The error of this crate that stands for an error of the conversation
/// layer: the variant of the same name, with the same payload.
pub open spec fn converse_error_to_error(e: ConverseError) -> Error {
    match e {
        ConverseError::Io(inner) => Error::Io(inner),
        ConverseError::Bincode(inner) => Error::Bincode(inner),
        ConverseError::ReceivedMessageTooLarge => Error::ReceivedMessageTooLarge,
        ConverseError::SentMessageTooLarge => Error::SentMessageTooLarge,
        ConverseError::Timeout => Error::Timeout,
        ConverseError::ReadHalfDropped => Error::ReadHalfDropped,
    }
}

impl vstd::std_specs::convert::FromSpecImpl<ConverseError> for Error {
    open spec fn obeys_from_spec() -> bool {
        true
    }

    open spec fn from_spec(v: ConverseError) -> Self {
        converse_error_to_error(v)
    }
}

impl From<ConverseError> for Error {
    fn from(e: ConverseError) -> (r: Self)
        ensures
            r == converse_error_to_error(e),
            e matches ConverseError::Io(x) ==> r matches Error::Io(y) && y == x,
            e matches ConverseError::Bincode(x) ==> r matches Error::Bincode(y) && y == x,
            e is ReceivedMessageTooLarge ==> r is ReceivedMessageTooLarge,
            e is SentMessageTooLarge ==> r is SentMessageTooLarge,
            e is Timeout ==> r is Timeout,
            e is ReadHalfDropped ==> r is ReadHalfDropped,
    {
        match e {
            ConverseError::Io(inner) => Error::Io(inner),
            ConverseError::Bincode(inner) => Error::Bincode(inner),
            ConverseError::ReceivedMessageTooLarge => Error::ReceivedMessageTooLarge,
            ConverseError::SentMessageTooLarge => Error::SentMessageTooLarge,
            ConverseError::Timeout => Error::Timeout,
            ConverseError::ReadHalfDropped => Error::ReadHalfDropped,
        }
    }
}

/// What a result of the conversation layer becomes: a value passes through
/// unchanged, an error becomes the error of this crate of the same name.
pub open spec fn converse_result_to_result<T>(r: Result<T, ConverseError>) -> Result<T, Error> {
    match r {
        Ok(v) => Ok(v),
        Err(e) => Err(converse_error_to_error(e)),
    }
}

/// Converts the outcome of an operation of the conversation layer (a send, a
/// reply awaited, a message received) into the outcome this crate reports.
pub fn from_converse_result<T>(r: Result<T, ConverseError>) -> (out: Result<T, Error>)
    ensures
        out == converse_result_to_result(r),
        r matches Ok(v) ==> out == Ok::<T, Error>(v),
        r matches Err(e) ==> out == Err::<T, Error>(converse_error_to_error(e)),
        r matches Err(ConverseError::Io(x)) ==> out matches Err(Error::Io(y)) && y == x,
        r matches Err(ConverseError::Bincode(x)) ==> out matches Err(Error::Bincode(y)) && y == x,
        r matches Err(ConverseError::ReceivedMessageTooLarge) ==> out matches Err(
            Error::ReceivedMessageTooLarge,
        ),
        r matches Err(ConverseError::SentMessageTooLarge) ==> out matches Err(
            Error::SentMessageTooLarge,
        ),
        r matches Err(ConverseError::Timeout) ==> out matches Err(Error::Timeout),
        r matches Err(ConverseError::ReadHalfDropped) ==> out matches Err(Error::ReadHalfDropped),
{
    match r {
        Ok(v) => Ok(v),
        Err(e) => Err(Error::from(e)),
    }
}

/// No two errors of the conversation layer become the same error of this
/// crate: the conversion keeps the kind and the payload of each error.
pub proof fn lemma_error_conversion_injective(a: ConverseError, b: ConverseError)
    requires
        converse_error_to_error(a) == converse_error_to_error(b),
    ensures
        a == b,
{
}

/// A failure of the conversation layer is reported as a failure, and a
/// success as a success carrying the same value.
pub proof fn lemma_result_conversion_keeps_outcome<T>(r: Result<T, ConverseError>)
    ensures
        converse_result_to_result(r) is Ok <==> r is Ok,
        r matches Ok(v) ==> converse_result_to_result(r) == Ok::<T, Error>(v),
{
}

/// Every error of the conversation layer is reported as the error of this
/// crate of the same kind, carrying the same payload: an I/O error stays the
/// same I/O error, a decoding error the same decoding error, a message too
/// large on receipt is never reported as one too large to send, and a dropped
/// read half is never reported as a timeout.
pub proof fn lemma_error_conversion_keeps_kind(e: ConverseError)
    ensures
        e matches ConverseError::Io(x) ==> converse_error_to_error(e) matches Error::Io(y) && y
            == x,
        e matches ConverseError::Bincode(x) ==> converse_error_to_error(e) matches Error::Bincode(
            y,
        ) && y == x,
        e is ReceivedMessageTooLarge <==> converse_error_to_error(e) is ReceivedMessageTooLarge,
        e is SentMessageTooLarge <==> converse_error_to_error(e) is SentMessageTooLarge,
        e is Timeout <==> converse_error_to_error(e) is Timeout,
        e is ReadHalfDropped <==> converse_error_to_error(e) is ReadHalfDropped,
        e is Io <==> converse_error_to_error(e) is Io,
        e is Bincode <==> converse_error_to_error(e) is Bincode,
{
}

/// The outcome reported for an operation of the conversation layer is that
/// operation's outcome: a success with the same value, or a failure whose
/// error has the same kind and payload as the layer's error.
pub proof fn lemma_result_conversion_reports_same_error<T>(r: Result<T, ConverseError>)
    ensures
        r matches Ok(v) ==> converse_result_to_result(r) == Ok::<T, Error>(v),
        r matches Err(ConverseError::Io(x)) ==> converse_result_to_result(r) matches Err(
            Error::Io(y),
        ) && y == x,
        r matches Err(ConverseError::Bincode(x)) ==> converse_result_to_result(r) matches Err(
            Error::Bincode(y),
        ) && y == x,
        r matches Err(ConverseError::ReceivedMessageTooLarge) <==> converse_result_to_result(
            r,
        ) matches Err(Error::ReceivedMessageTooLarge),
        r matches Err(ConverseError::SentMessageTooLarge) <==> converse_result_to_result(
            r,
        ) matches Err(Error::SentMessageTooLarge),
        r matches Err(ConverseError::Timeout) <==> converse_result_to_result(r) matches Err(
            Error::Timeout,
        ),
        r matches Err(ConverseError::ReadHalfDropped) <==> converse_result_to_result(r) matches Err(
            Error::ReadHalfDropped,
        ),
{
}

} // verus!
