//! The service manager and its notifications.

use vstd::prelude::*;

use crate::error::{is_failure, Error, ResultCode};

verus! {

/// The result code with which a wait ends when its time has run out. It is no failure.
pub const WAIT_TIMED_OUT: i32 = 0x09401BFE;

/// The semaphore on which the system signals notifications.
#[derive(Debug)]
pub struct NotificationSem {
    handle: u32,
}

impl NotificationSem {
    /// The handle of the semaphore.
    pub closed spec fn spec_handle(&self) -> u32 {
        self.handle
    }

    /// The handle of the semaphore, to wait on.
    #[verifier::when_used_as_spec(spec_handle)]
    pub fn handle(&self) -> (handle: u32)
        ensures
            handle == self.spec_handle(),
    {
        self.handle
    }

    /// Decides how subscribing to a notification ends, from the result code of the request.
    pub fn subscribe(&self, code: i32) -> (r: Result<(), Error>)
        ensures
            r == if is_failure(code) {
                Err::<(), Error>(Error::Os(code))
            } else {
                Ok::<(), Error>(())
            },
    {
        ResultCode(code).into_result()
    }

    /// Decides how unsubscribing from a notification ends, from the result code of the request.
    pub fn unsubscribe(&self, code: i32) -> (r: Result<(), Error>)
        ensures
            r == if is_failure(code) {
                Err::<(), Error>(Error::Os(code))
            } else {
                Ok::<(), Error>(())
            },
    {
        ResultCode(code).into_result()
    }

    /// The length of a wait in nanoseconds, as the system takes it: the low 64
    /// bits of `nanos`, read as a signed number.
    pub fn wait_nanos(nanos: u128) -> (r: i64)
        ensures
            r == nanos as i64,
            nanos <= i64::MAX ==> r == nanos,
    {
        assert(nanos <= 0x7fff_ffff_ffff_ffff ==> (nanos as i64) == nanos) by (bit_vector);
        #[verifier::truncate]
        (nanos as i64)
    }

    /// Whether a notification is to be fetched after a wait that ended with
    /// `wait_code`: it is unless the wait timed out or failed.
    pub fn must_receive(wait_code: i32) -> (r: bool)
        ensures
            r == (wait_code != WAIT_TIMED_OUT && !is_failure(wait_code)),
    {
        wait_code != WAIT_TIMED_OUT && wait_code >= 0
    }

    /// Decides how waiting for a notification ends.
    ///
    /// `wait_code` is the result code of the wait on the semaphore. A wait
    /// that timed out gives `None` and is no error. A wait that failed
    /// gives its code as the error. Otherwise `received` holds the result
    /// code of fetching the notification and the notification that the
    /// system filled in: a failing code is the error, and a succeeding one
    /// gives the notification.
    pub fn recv_notification_timeout(&self, wait_code: i32, received: (i32, u32)) -> (r: Result<
        Option<u32>,
        Error,
    >)
        ensures
            r == if wait_code == WAIT_TIMED_OUT {
                Ok::<Option<u32>, Error>(None)
            } else if is_failure(wait_code) {
                Err::<Option<u32>, Error>(Error::Os(wait_code))
            } else if is_failure(received.0) {
                Err::<Option<u32>, Error>(Error::Os(received.0))
            } else {
                Ok::<Option<u32>, Error>(Some(received.1))
            },
    {
        if wait_code == WAIT_TIMED_OUT {
            return Ok(None);
        }
        match ResultCode(wait_code).into_result() {
            Err(e) => {
                return Err(e);
            },
            Ok(_) => (),
        }
        match ResultCode(received.0).into_result() {
            Err(e) => Err(e),
            Ok(_) => Ok(Some(received.1)),
        }
    }
}

/// The service manager, initialised.
#[derive(Debug)]
pub struct Srv(());

impl Srv {
    /// Decides how initialising the service ends, from the result code of the request.
    pub fn init(code: i32) -> (r: Result<Srv, Error>)
        ensures
            is_failure(code) ==> r.is_err() && r.unwrap_err() == Error::Os(code),
            !is_failure(code) ==> r.is_ok(),
    {
        match ResultCode(code).into_result() {
            Err(e) => Err(e),
            Ok(_) => Ok(Srv(())),
        }
    }

    /// Decides how enabling notifications ends, from the result code of the
    /// request and the semaphore handle that the system filled in.
    pub fn enable_notification(&self, code: i32, handle: u32) -> (r: Result<NotificationSem, Error>)
        ensures
            is_failure(code) ==> r.is_err() && r.unwrap_err() == Error::Os(code),
            !is_failure(code) ==> r.is_ok() && r.unwrap().spec_handle() == handle,
    {
        match ResultCode(code).into_result() {
            Err(e) => Err(e),
            Ok(_) => Ok(NotificationSem { handle }),
        }
    }
}

} // verus!
