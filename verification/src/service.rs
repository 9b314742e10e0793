//! Services: the errors of a call, and what a call returns.

use vstd::prelude::*;
use vstd::string::StringExecFns;

verus! {

/// Error returned when a service call fails.
#[derive(Debug, Clone, Copy, PartialEq, Eq, Structural)]
pub enum ServiceError {
    /// The service channel was closed (app shutting down).
    ChannelClosed,
    /// The service dropped before responding (likely panicked).
    ServiceDropped,
    /// The operation timed out.
    Timeout,
}

impl ServiceError {
    /// The text of the error.
    pub open spec fn text(self) -> Seq<char> {
        match self {
            ServiceError::ChannelClosed => "service channel closed"@,
            ServiceError::ServiceDropped => "service dropped before responding"@,
            ServiceError::Timeout => "operation timed out"@,
        }
    }

    /// The text of the error.
    pub fn message(self) -> (message: String)
        ensures
            message@ == self.text(),
    {
        match self {
            ServiceError::ChannelClosed => String::from_str("service channel closed"),
            ServiceError::ServiceDropped => String::from_str("service dropped before responding"),
            ServiceError::Timeout => String::from_str("operation timed out"),
        }
    }
}

/// What a call that expects no reply returns, once its message was sent or refused.
pub fn fire_outcome<R>(sent: Result<(), R>) -> (outcome: Result<(), ServiceError>)
    ensures
        outcome == if sent is Ok {
            Ok::<(), ServiceError>(())
        } else {
            Err(ServiceError::ChannelClosed)
        },
{
    match sent {
        Ok(()) => Ok(()),
        Err(_) => Err(ServiceError::ChannelClosed),
    }
}

/// What a call returns whose message was sent, once its reply came or was given up.
pub fn reply_outcome<T, R>(reply: Result<T, R>) -> (outcome: Result<T, ServiceError>)
    ensures
        outcome == match reply {
            Ok(value) => Ok::<T, ServiceError>(value),
            Err(_) => Err(ServiceError::ServiceDropped),
        },
{
    match reply {
        Ok(value) => Ok(value),
        Err(_) => Err(ServiceError::ServiceDropped),
    }
}

/// What a call with a time limit returns: its own result if that came in time.
pub fn timeout_outcome<T, L>(in_time: Result<Result<T, ServiceError>, L>) -> (outcome: Result<
    T,
    ServiceError,
>)
    ensures
        outcome == match in_time {
            Ok(result) => result,
            Err(_) => Err(ServiceError::Timeout),
        },
{
    match in_time {
        Ok(result) => result,
        Err(_) => Err(ServiceError::Timeout),
    }
}

/// Flattens `Result<Result<T, E>, ServiceError>` into `Result<T, U>`.
pub trait ServiceResultExt<T, E>: Sized {
    /// The nested result.
    spec fn nested(self) -> Result<Result<T, E>, ServiceError>;

    /// The value of a call that succeeded; the error of the service, or that of the call,
    /// converted.
    fn flatten_into<U: From<ServiceError> + From<E>>(self) -> (flat: Result<T, U>)
        ensures
            match self.nested() {
                Ok(Ok(value)) => flat == Ok::<T, U>(value),
                Ok(Err(error)) => flat matches Err(converted) && call_ensures(
                    <U as From<E>>::from,
                    (error,),
                    converted,
                ),
                Err(error) => flat matches Err(converted) && call_ensures(
                    <U as From<ServiceError>>::from,
                    (error,),
                    converted,
                ),
            },
    ;
}

impl<T, E> ServiceResultExt<T, E> for Result<Result<T, E>, ServiceError> {
    open spec fn nested(self) -> Result<Result<T, E>, ServiceError> {
        self
    }

    fn flatten_into<U: From<ServiceError> + From<E>>(self) -> (flat: Result<T, U>) {
        match self {
            Ok(Ok(value)) => Ok(value),
            Ok(Err(error)) => Err(<U as From<E>>::from(error)),
            Err(error) => Err(<U as From<ServiceError>>::from(error)),
        }
    }
}

/// A call without a reply succeeds exactly when its message was sent, and fails as closed.
pub proof fn law_fire_outcome<R>(sent: Result<(), R>, outcome: Result<(), ServiceError>)
    requires
        call_ensures(fire_outcome::<R>, (sent,), outcome),
    ensures
        sent is Ok <==> outcome is Ok,
        sent is Err ==> outcome->Err_0 is ChannelClosed,
{
}

/// A call with a reply returns the reply that came, and fails as dropped where none did.
pub proof fn law_reply_outcome<T, R>(reply: Result<T, R>, outcome: Result<T, ServiceError>)
    requires
        call_ensures(reply_outcome::<T, R>, (reply,), outcome),
    ensures
        reply is Ok <==> outcome is Ok,
        reply is Ok ==> outcome->Ok_0 == reply->Ok_0,
        reply is Err ==> outcome->Err_0 is ServiceDropped,
{
}

/// A call with a time limit returns what it would return without, if that came in time, else that
/// it timed out.
pub proof fn law_timeout_outcome<T, L>(
    in_time: Result<Result<T, ServiceError>, L>,
    outcome: Result<T, ServiceError>,
)
    requires
        call_ensures(timeout_outcome::<T, L>, (in_time,), outcome),
    ensures
        in_time is Ok ==> outcome == in_time->Ok_0,
        in_time is Err ==> outcome is Err && outcome->Err_0 is Timeout,
{
}

/// A flattened result holds the value where there is one, else the error of the service or of the
/// call, converted.
pub proof fn law_flat_result<T, E, U: From<ServiceError> + From<E>>(
    nested: Result<Result<T, E>, ServiceError>,
    flat: Result<T, U>,
)
    requires
        call_ensures(
            <Result<Result<T, E>, ServiceError> as ServiceResultExt<T, E>>::flatten_into::<U>,
            (nested,),
            flat,
        ),
    ensures
        flat is Ok <==> nested is Ok && nested->Ok_0 is Ok,
        flat is Ok ==> flat->Ok_0 == nested->Ok_0->Ok_0,
        nested is Ok && nested->Ok_0 is Err ==> call_ensures(
            <U as From<E>>::from,
            (nested->Ok_0->Err_0,),
            flat->Err_0,
        ),
        nested is Err ==> call_ensures(
            <U as From<ServiceError>>::from,
            (nested->Err_0,),
            flat->Err_0,
        ),
{
}

/// Each error of a call has a text of its own.
pub proof fn law_service_error_texts(error: ServiceError, message: String)
    requires
        call_ensures(ServiceError::message, (error,), message),
    ensures
        error is ChannelClosed ==> message@ == "service channel closed"@,
        error is ServiceDropped ==> message@ == "service dropped before responding"@,
        error is Timeout ==> message@ == "operation timed out"@,
{
}

} // verus!
