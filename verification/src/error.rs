//! The errors of the seat daemon and their messages.
use vstd::prelude::*;

verus! {

/// What can go wrong. Failures of the operating system and of the transport
/// are carried as the text that they were reported with.
#[derive(Debug, Clone, PartialEq, Eq)]
pub enum SeatError {
    /// An I/O failure, with its message.
    Io(String),
    /// A failure of the client/server transport, with its message.
    Ipc(String),
    NoSeat,
    SeatAlreadyOpen,
    DeviceNotFound(String),
    PermissionDenied(String),
    InvalidDevice(String),
}

/// An error as a mathematical value: the variant and the text it carries.
pub enum ErrorView {
    Io(Seq<char>),
    Ipc(Seq<char>),
    NoSeat,
    SeatAlreadyOpen,
    DeviceNotFound(Seq<char>),
    PermissionDenied(Seq<char>),
    InvalidDevice(Seq<char>),
}

impl View for SeatError {
    type V = ErrorView;

    open spec fn view(&self) -> ErrorView {
        match self {
            SeatError::Io(m) => ErrorView::Io(m@),
            SeatError::Ipc(m) => ErrorView::Ipc(m@),
            SeatError::NoSeat => ErrorView::NoSeat,
            SeatError::SeatAlreadyOpen => ErrorView::SeatAlreadyOpen,
            SeatError::DeviceNotFound(m) => ErrorView::DeviceNotFound(m@),
            SeatError::PermissionDenied(m) => ErrorView::PermissionDenied(m@),
            SeatError::InvalidDevice(m) => ErrorView::InvalidDevice(m@),
        }
    }
}

/// A result with its error taken by its view.
pub open spec fn result_view<T>(r: Result<T, SeatError>) -> Result<T, ErrorView> {
    match r {
        Ok(x) => Ok(x),
        Err(e) => Err(e@),
    }
}

/// The message of an error, as it is shown to users and sent to clients.
pub open spec fn error_message(e: ErrorView) -> Seq<char> {
    match e {
        ErrorView::Io(m) => "io: "@ + m,
        ErrorView::Ipc(m) => "ipc: "@ + m,
        ErrorView::NoSeat => "no active seat"@,
        ErrorView::SeatAlreadyOpen => "seat already open"@,
        ErrorView::DeviceNotFound(m) => "device not found: "@ + m,
        ErrorView::PermissionDenied(m) => "permission denied: "@ + m,
        ErrorView::InvalidDevice(m) => "invalid device: "@ + m,
    }
}

/// The error answered to a request from a process that does not own the seat.
pub open spec fn not_owner_error() -> ErrorView {
    ErrorView::PermissionDenied("not seat owner"@)
}

impl SeatError {
    /// The message of this error (what `Display` writes for it).
    pub fn message(&self) -> (m: String)
        ensures
            m@ == error_message(self@),
    {
        match self {
            SeatError::Io(m) => "io: ".to_string().concat(m.as_str()),
            SeatError::Ipc(m) => "ipc: ".to_string().concat(m.as_str()),
            SeatError::NoSeat => "no active seat".to_string(),
            SeatError::SeatAlreadyOpen => "seat already open".to_string(),
            SeatError::DeviceNotFound(m) => "device not found: ".to_string().concat(m.as_str()),
            SeatError::PermissionDenied(m) => "permission denied: ".to_string().concat(m.as_str()),
            SeatError::InvalidDevice(m) => "invalid device: ".to_string().concat(m.as_str()),
        }
    }
}

/// The error for a request from a process that does not own the seat.
pub fn not_seat_owner() -> (e: SeatError)
    ensures
        e@ == not_owner_error(),
{
    SeatError::PermissionDenied("not seat owner".to_string())
}

} // verus!
