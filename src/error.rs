use vstd::prelude::*;

verus! {

/// Win32 status: an overlapped operation was queued and will complete later.
pub const ERROR_IO_PENDING: i32 = 997;

/// WinSock status: an overlapped socket operation was queued and will complete later.
pub const WSA_IO_PENDING: i32 = 997;

/// Win32 status: no outstanding operation matched a cancellation request.
pub const ERROR_NOT_FOUND: i32 = 1168;

/// Win32 status: a wait ended because its timeout elapsed.
pub const WAIT_TIMEOUT: i32 = 258;

/// Win32 status: a parameter was rejected; association of a handle that is
/// already bound to a completion port reports it.
pub const ERROR_INVALID_PARAMETER: i32 = 87;

/// WinSock's failure return value.
pub const SOCKET_ERROR: i32 = -1;

/// Failure of an operation of this library.
#[derive(Clone, Copy, Debug, PartialEq, Eq, Structural)]
pub enum IocpError {
    /// A poll deadline elapsed with no completion ready.
    Timeout,
    /// The handle is already bound to a completion port.
    RegistrationConflict,
    /// Any other failure, with the operating system's error code.
    Os(i32),
}

/// The error that a failed wait on a completion port stands for.
pub open spec fn poll_error_spec(code: i32) -> IocpError {
    if code == WAIT_TIMEOUT {
        IocpError::Timeout
    } else {
        IocpError::Os(code)
    }
}

/// The error that a failed registration on a completion port stands for.
pub open spec fn registration_error_spec(code: i32) -> IocpError {
    if code == ERROR_INVALID_PARAMETER {
        IocpError::RegistrationConflict
    } else {
        IocpError::Os(code)
    }
}

impl IocpError {
    /// The error of a failed wait: a timeout is told apart from every other code.
    pub fn from_poll_code(code: i32) -> (e: IocpError)
        ensures
            e == poll_error_spec(code),
            e == IocpError::Timeout <==> code == WAIT_TIMEOUT,
    {
        if code == WAIT_TIMEOUT {
            IocpError::Timeout
        } else {
            IocpError::Os(code)
        }
    }

    /// The error of a failed registration: a handle that is already bound is a
    /// conflict, every other code is passed on.
    pub fn from_registration_code(code: i32) -> (e: IocpError)
        ensures
            e == registration_error_spec(code),
            e == IocpError::RegistrationConflict <==> code == ERROR_INVALID_PARAMETER,
    {
        if code == ERROR_INVALID_PARAMETER {
            IocpError::RegistrationConflict
        } else {
            IocpError::Os(code)
        }
    }

    /// The operating system's error code, where there is one.
    pub fn raw_os_error(&self) -> (r: Option<i32>)
        ensures
            r == match *self {
                IocpError::Os(c) => Some(c),
                IocpError::Timeout => Some(WAIT_TIMEOUT),
                IocpError::RegistrationConflict => Some(ERROR_INVALID_PARAMETER),
            },
    {
        match *self {
            IocpError::Os(c) => Some(c),
            IocpError::Timeout => Some(WAIT_TIMEOUT),
            IocpError::RegistrationConflict => Some(ERROR_INVALID_PARAMETER),
        }
    }
}

} // verus!
