//! The client side: one call per request, and the reading of the server's answer.
//!
//! Each call takes `call`, the transport, which sends a request to the socket
//! at the given path and answers the server's message (or the transport's
//! error). The daemon's own transport is in the program around this library.
use crate::error::{result_view, ErrorView, SeatError};
use crate::protocol::{
    Request, RequestView, Response, ResponseView, ServerMessage, ServerMessageView, SOCKET_PATH,
};
use vstd::prelude::*;

verus! {

/// The error for a message that does not answer the request.
pub open spec fn unexpected_response() -> ErrorView {
    ErrorView::PermissionDenied("unexpected response"@)
}

/// How the client reads the answer to `OpenSeat`.
pub open spec fn open_seat_reply(m: ServerMessageView) -> Result<u32, ErrorView> {
    match m {
        ServerMessageView::Response(ResponseView::SeatOpened { seat_id }) => Ok(seat_id),
        ServerMessageView::Response(ResponseView::Error { message }) => Err(
            ErrorView::PermissionDenied(message),
        ),
        _ => Err(unexpected_response()),
    }
}

/// How the client reads the answer to `CloseSeat`.
pub open spec fn close_seat_reply(m: ServerMessageView) -> Result<(), ErrorView> {
    match m {
        ServerMessageView::Response(ResponseView::SeatClosed) => Ok(()),
        ServerMessageView::Response(ResponseView::Error { message }) => Err(
            ErrorView::PermissionDenied(message),
        ),
        _ => Err(unexpected_response()),
    }
}

/// How the client reads the answer to `OpenDevice`, with the handles that came
/// along with it: the device id and the first handle.
pub open spec fn open_device_reply<F>(m: ServerMessageView, fds: Seq<F>) -> Result<(u32, F), ErrorView> {
    match m {
        ServerMessageView::Response(ResponseView::DeviceOpened { device_id }) => if fds.len() > 0 {
            Ok((device_id, fds[0]))
        } else {
            Err(ErrorView::DeviceNotFound("no fd received"@))
        },
        ServerMessageView::Response(ResponseView::Error { message }) => Err(
            ErrorView::DeviceNotFound(message),
        ),
        _ => Err(unexpected_response()),
    }
}

/// How the client reads the answer to `CloseDevice`.
pub open spec fn close_device_reply(m: ServerMessageView) -> Result<(), ErrorView> {
    match m {
        ServerMessageView::Response(ResponseView::DeviceClosed) => Ok(()),
        ServerMessageView::Response(ResponseView::Error { message }) => Err(
            ErrorView::DeviceNotFound(message),
        ),
        _ => Err(unexpected_response()),
    }
}

/// How the client reads the answer to `Ping`: only `Pong` is a success.
pub open spec fn ping_reply(m: ServerMessageView) -> Result<(), ErrorView> {
    match m {
        ServerMessageView::Response(ResponseView::Pong) => Ok(()),
        _ => Err(unexpected_response()),
    }
}

fn unexpected() -> (e: SeatError)
    ensures
        e@ == unexpected_response(),
{
    SeatError::PermissionDenied("unexpected response".to_string())
}

/// Reads the answer to `OpenSeat`: the seat id.
pub fn decode_open_seat(response: ServerMessage) -> (r: Result<u32, SeatError>)
    ensures
        result_view(r) == open_seat_reply(response@),
{
    match response {
        ServerMessage::Response(Response::SeatOpened { seat_id }) => Ok(seat_id),
        ServerMessage::Response(Response::Error { message }) => Err(
            SeatError::PermissionDenied(message),
        ),
        _ => Err(unexpected()),
    }
}

/// Reads the answer to `CloseSeat`.
pub fn decode_close_seat(response: ServerMessage) -> (r: Result<(), SeatError>)
    ensures
        result_view(r) == close_seat_reply(response@),
{
    match response {
        ServerMessage::Response(Response::SeatClosed) => Ok(()),
        ServerMessage::Response(Response::Error { message }) => Err(
            SeatError::PermissionDenied(message),
        ),
        _ => Err(unexpected()),
    }
}

/// Reads the answer to `OpenDevice`: the device id and the device's handle.
pub fn decode_open_device<F>(response: ServerMessage, fds: Vec<F>) -> (r: Result<(u32, F), SeatError>)
    ensures
        result_view(r) == open_device_reply(response@, fds@),
{
    match response {
        ServerMessage::Response(Response::DeviceOpened { device_id }) => {
            let mut fds = fds;
            if fds.len() == 0 {
                return Err(SeatError::DeviceNotFound("no fd received".to_string()));
            }
            let fd = fds.remove(0);
            Ok((device_id, fd))
        },
        ServerMessage::Response(Response::Error { message }) => Err(
            SeatError::DeviceNotFound(message),
        ),
        _ => Err(unexpected()),
    }
}

/// Reads the answer to `CloseDevice`.
pub fn decode_close_device(response: ServerMessage) -> (r: Result<(), SeatError>)
    ensures
        result_view(r) == close_device_reply(response@),
{
    match response {
        ServerMessage::Response(Response::DeviceClosed) => Ok(()),
        ServerMessage::Response(Response::Error { message }) => Err(
            SeatError::DeviceNotFound(message),
        ),
        _ => Err(unexpected()),
    }
}

/// Reads the answer to `Ping`.
pub fn decode_ping(response: ServerMessage) -> (r: Result<(), SeatError>)
    ensures
        result_view(r) == ping_reply(response@),
{
    match response {
        ServerMessage::Response(Response::Pong) => Ok(()),
        _ => Err(unexpected()),
    }
}

/// What a call answers: the server's message read by `decode`, or the
/// transport's error as it is.
pub open spec fn through<T>(
    answer: Result<ServerMessage, SeatError>,
    decode: spec_fn(ServerMessageView) -> Result<T, ErrorView>,
) -> Result<T, ErrorView> {
    match answer {
        Ok(m) => decode(m@),
        Err(e) => Err(e@),
    }
}

/// `call` was asked to send `request` to `socket_path` and answered `answer`.
pub open spec fn sent<C: FnOnce(String, Request) -> Result<ServerMessage, SeatError>>(
    call: C,
    socket_path: Seq<char>,
    request: RequestView,
    answer: Result<ServerMessage, SeatError>,
) -> bool {
    exists|p: String, q: Request| p@ == socket_path && q@ == request && call.ensures((p, q), answer)
}

fn send<C>(call: C, socket_path: &str, request: Request) -> (answer: Result<ServerMessage, SeatError>) where
    C: FnOnce(String, Request) -> Result<ServerMessage, SeatError>,
    requires
        forall|p: String, q: Request| call.requires((p, q)),
    ensures
        sent(call, socket_path@, request@, answer),
{
    let p = socket_path.to_string();
    let ghost gp = p;
    let ghost gq = request;
    let answer = call(p, request);
    assert(gp@ == socket_path@ && gq@ == request@ && call.ensures((gp, gq), answer));
    answer
}

/// Open a seat at a custom socket path and return the seat ID
pub fn open_seat_at<C>(socket_path: &str, call: C) -> (r: Result<u32, SeatError>) where
    C: FnOnce(String, Request) -> Result<ServerMessage, SeatError>,
    requires
        forall|p: String, q: Request| call.requires((p, q)),
    ensures
        exists|a: Result<ServerMessage, SeatError>|
            sent(call, socket_path@, RequestView::OpenSeat, a) && result_view(r) == through(
                a,
                |m: ServerMessageView| open_seat_reply(m),
            ),
{
    match send(call, socket_path, Request::OpenSeat) {
        Ok(m) => decode_open_seat(m),
        Err(e) => Err(e),
    }
}

/// Open a seat and return the seat ID
pub fn open_seat<C>(call: C) -> (r: Result<u32, SeatError>) where
    C: FnOnce(String, Request) -> Result<ServerMessage, SeatError>,
    requires
        forall|p: String, q: Request| call.requires((p, q)),
    ensures
        exists|a: Result<ServerMessage, SeatError>|
            sent(call, SOCKET_PATH@, RequestView::OpenSeat, a) && result_view(r) == through(
                a,
                |m: ServerMessageView| open_seat_reply(m),
            ),
{
    open_seat_at(SOCKET_PATH, call)
}

/// Close the current seat at a custom socket path
pub fn close_seat_at<C>(socket_path: &str, call: C) -> (r: Result<(), SeatError>) where
    C: FnOnce(String, Request) -> Result<ServerMessage, SeatError>,
    requires
        forall|p: String, q: Request| call.requires((p, q)),
    ensures
        exists|a: Result<ServerMessage, SeatError>|
            sent(call, socket_path@, RequestView::CloseSeat, a) && result_view(r) == through(
                a,
                |m: ServerMessageView| close_seat_reply(m),
            ),
{
    match send(call, socket_path, Request::CloseSeat) {
        Ok(m) => decode_close_seat(m),
        Err(e) => Err(e),
    }
}

/// Close the current seat
pub fn close_seat<C>(call: C) -> (r: Result<(), SeatError>) where
    C: FnOnce(String, Request) -> Result<ServerMessage, SeatError>,
    requires
        forall|p: String, q: Request| call.requires((p, q)),
    ensures
        exists|a: Result<ServerMessage, SeatError>|
            sent(call, SOCKET_PATH@, RequestView::CloseSeat, a) && result_view(r) == through(
                a,
                |m: ServerMessageView| close_seat_reply(m),
            ),
{
    close_seat_at(SOCKET_PATH, call)
}

/// Close a device by ID at a custom socket path
pub fn close_device_at<C>(socket_path: &str, device_id: u32, call: C) -> (r: Result<(), SeatError>) where
    C: FnOnce(String, Request) -> Result<ServerMessage, SeatError>,
    requires
        forall|p: String, q: Request| call.requires((p, q)),
    ensures
        exists|a: Result<ServerMessage, SeatError>|
            sent(call, socket_path@, RequestView::CloseDevice { device_id }, a) && result_view(r) == through(
                a,
                |m: ServerMessageView| close_device_reply(m),
            ),
{
    match send(call, socket_path, Request::CloseDevice { device_id }) {
        Ok(m) => decode_close_device(m),
        Err(e) => Err(e),
    }
}

/// Close a device by ID
pub fn close_device<C>(device_id: u32, call: C) -> (r: Result<(), SeatError>) where
    C: FnOnce(String, Request) -> Result<ServerMessage, SeatError>,
    requires
        forall|p: String, q: Request| call.requires((p, q)),
    ensures
        exists|a: Result<ServerMessage, SeatError>|
            sent(call, SOCKET_PATH@, RequestView::CloseDevice { device_id }, a) && result_view(r) == through(
                a,
                |m: ServerMessageView| close_device_reply(m),
            ),
{
    close_device_at(SOCKET_PATH, device_id, call)
}

/// Ping the server at a custom socket path
pub fn ping_at<C>(socket_path: &str, call: C) -> (r: Result<(), SeatError>) where
    C: FnOnce(String, Request) -> Result<ServerMessage, SeatError>,
    requires
        forall|p: String, q: Request| call.requires((p, q)),
    ensures
        exists|a: Result<ServerMessage, SeatError>|
            sent(call, socket_path@, RequestView::Ping, a) && result_view(r) == through(
                a,
                |m: ServerMessageView| ping_reply(m),
            ),
{
    match send(call, socket_path, Request::Ping) {
        Ok(m) => decode_ping(m),
        Err(e) => Err(e),
    }
}

/// Ping the server
pub fn ping<C>(call: C) -> (r: Result<(), SeatError>) where
    C: FnOnce(String, Request) -> Result<ServerMessage, SeatError>,
    requires
        forall|p: String, q: Request| call.requires((p, q)),
    ensures
        exists|a: Result<ServerMessage, SeatError>|
            sent(call, SOCKET_PATH@, RequestView::Ping, a) && result_view(r) == through(
                a,
                |m: ServerMessageView| ping_reply(m),
            ),
{
    ping_at(SOCKET_PATH, call)
}

/// `call` was asked to send `request` to `socket_path` and answered `answer`,
/// a message with the handles that came along with it.
pub open spec fn sent_with_fds<F, C: FnOnce(String, Request) -> Result<(ServerMessage, Vec<F>), SeatError>>(
    call: C,
    socket_path: Seq<char>,
    request: RequestView,
    answer: Result<(ServerMessage, Vec<F>), SeatError>,
) -> bool {
    exists|p: String, q: Request| p@ == socket_path && q@ == request && call.ensures((p, q), answer)
}

/// What an `OpenDevice` call answers: the server's message and handles read
/// by the client, or the transport's error as it is.
pub open spec fn open_device_through<F>(answer: Result<(ServerMessage, Vec<F>), SeatError>) -> Result<
    (u32, F),
    ErrorView,
> {
    match answer {
        Ok((m, fds)) => open_device_reply(m@, fds@),
        Err(e) => Err(e@),
    }
}

/// Open a device at a custom socket path and return (device_id, fd)
pub fn open_device_at<F, C>(socket_path: &str, path: &str, call: C) -> (r: Result<(u32, F), SeatError>) where
    C: FnOnce(String, Request) -> Result<(ServerMessage, Vec<F>), SeatError>,
    requires
        forall|p: String, q: Request| call.requires((p, q)),
    ensures
        exists|a: Result<(ServerMessage, Vec<F>), SeatError>|
            sent_with_fds(call, socket_path@, RequestView::OpenDevice { path: path@ }, a)
                && result_view(r) == open_device_through(a),
{
    let p = socket_path.to_string();
    let request = Request::OpenDevice { path: path.to_string() };
    let ghost gp = p;
    let ghost gq = request;
    let answer = call(p, request);
    let ghost ga = answer;
    assert(gp@ == socket_path@ && gq@ == (RequestView::OpenDevice { path: path@ }) && call.ensures((gp, gq), answer));
    assert(sent_with_fds(call, socket_path@, RequestView::OpenDevice { path: path@ }, ga));
    let r = match answer {
        Ok((m, fds)) => decode_open_device(m, fds),
        Err(e) => Err(e),
    };
    assert(result_view(r) == open_device_through(ga));
    r
}

/// Open a device and return (device_id, fd)
pub fn open_device<F, C>(path: &str, call: C) -> (r: Result<(u32, F), SeatError>) where
    C: FnOnce(String, Request) -> Result<(ServerMessage, Vec<F>), SeatError>,
    requires
        forall|p: String, q: Request| call.requires((p, q)),
    ensures
        exists|a: Result<(ServerMessage, Vec<F>), SeatError>|
            sent_with_fds(call, SOCKET_PATH@, RequestView::OpenDevice { path: path@ }, a)
                && result_view(r) == open_device_through(a),
{
    open_device_at(SOCKET_PATH, path, call)
}

} // verus!
