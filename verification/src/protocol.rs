//! The messages that clients and the server exchange.
use vstd::prelude::*;

verus! {

/// Request from client to server
#[derive(Debug, Clone, PartialEq, Eq)]
pub enum Request {
    /// Open a seat and become the active client
    OpenSeat,
    /// Close the seat and release all devices
    CloseSeat,
    /// Request access to a device (fd returned alongside the reply)
    OpenDevice { path: String },
    /// Release a previously opened device
    CloseDevice { device_id: u32 },
    /// Acknowledge that the client is ready to be disabled.
    /// Sent in response to a Disable event after releasing resources.
    DisableSeat,
    /// Request to switch to a different VT/session
    SwitchSession { vt: u32 },
    /// Ping to check connection
    Ping,
}

/// Response from server to client
#[derive(Debug, Clone, PartialEq, Eq)]
pub enum Response {
    /// Seat opened successfully
    SeatOpened { seat_id: u32 },
    /// Seat closed
    SeatClosed,
    /// Device opened (fd sent alongside the reply)
    DeviceOpened { device_id: u32 },
    /// Device closed
    DeviceClosed,
    /// Seat disabled acknowledged
    SeatDisabled,
    /// Session switch completed
    SessionSwitched,
    /// Pong response
    Pong,
    /// Error occurred
    Error { message: String },
}

/// Event pushed from server to client (unsolicited)
#[derive(Debug, Clone, Copy, PartialEq, Eq)]
pub enum Event {
    /// Session activated (VT switched to this session)
    Enable,
    /// Session deactivated (VT switched away)
    Disable,
}

/// Combined message type for server-to-client communication
#[derive(Debug, Clone, PartialEq, Eq)]
pub enum ServerMessage {
    Response(Response),
    Event(Event),
}

/// A request as a mathematical value.
pub enum RequestView {
    OpenSeat,
    CloseSeat,
    OpenDevice { path: Seq<char> },
    CloseDevice { device_id: u32 },
    DisableSeat,
    SwitchSession { vt: u32 },
    Ping,
}

/// A response as a mathematical value.
pub enum ResponseView {
    SeatOpened { seat_id: u32 },
    SeatClosed,
    DeviceOpened { device_id: u32 },
    DeviceClosed,
    SeatDisabled,
    SessionSwitched,
    Pong,
    Error { message: Seq<char> },
}

/// A server message as a mathematical value.
pub enum ServerMessageView {
    Response(ResponseView),
    Event(Event),
}

impl View for Request {
    type V = RequestView;

    open spec fn view(&self) -> RequestView {
        match self {
            Request::OpenSeat => RequestView::OpenSeat,
            Request::CloseSeat => RequestView::CloseSeat,
            Request::OpenDevice { path } => RequestView::OpenDevice { path: path@ },
            Request::CloseDevice { device_id } => RequestView::CloseDevice { device_id: *device_id },
            Request::DisableSeat => RequestView::DisableSeat,
            Request::SwitchSession { vt } => RequestView::SwitchSession { vt: *vt },
            Request::Ping => RequestView::Ping,
        }
    }
}

impl View for Response {
    type V = ResponseView;

    open spec fn view(&self) -> ResponseView {
        match self {
            Response::SeatOpened { seat_id } => ResponseView::SeatOpened { seat_id: *seat_id },
            Response::SeatClosed => ResponseView::SeatClosed,
            Response::DeviceOpened { device_id } => ResponseView::DeviceOpened {
                device_id: *device_id,
            },
            Response::DeviceClosed => ResponseView::DeviceClosed,
            Response::SeatDisabled => ResponseView::SeatDisabled,
            Response::SessionSwitched => ResponseView::SessionSwitched,
            Response::Pong => ResponseView::Pong,
            Response::Error { message } => ResponseView::Error { message: message@ },
        }
    }
}

impl View for ServerMessage {
    type V = ServerMessageView;

    open spec fn view(&self) -> ServerMessageView {
        match self {
            ServerMessage::Response(r) => ServerMessageView::Response(r@),
            ServerMessage::Event(e) => ServerMessageView::Event(*e),
        }
    }
}

/// Where the server listens.
pub const SOCKET_PATH: &'static str = "/run/seatd.sock";

} // verus!
