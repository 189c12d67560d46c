pub mod as_handle;
pub mod completion_port;
pub mod context;
pub mod error;
pub mod operational_result;
pub mod sockaddr;
pub mod subsystem;
pub mod utils;

pub use as_handle::AsHandle;
pub use completion_port::{polled_many, polled_one, port_created, posted, registered};
pub use context::{
    cancel_outcome, finish_file_submission, finish_socket_submission, join_offset, split_offset,
    Context, IOType,
};
pub use error::{
    IocpError, ERROR_INVALID_PARAMETER, ERROR_IO_PENDING, ERROR_NOT_FOUND, SOCKET_ERROR,
    WAIT_TIMEOUT, WSA_IO_PENDING,
};
pub use operational_result::{CompletionRecord, OperationalResult};
pub use sockaddr::{SockAddr, AF_INET, AF_INET6, SOCKADDR_IN6_LEN, SOCKADDR_IN_LEN};
pub use subsystem::NetworkSubsystem;
pub use utils::{cvt, cvt_for_socket, dur_to_ms, len, timeout_ms, INFINITE};
