use seatd::client::{
    close_device, close_device_at, close_seat_at, decode_close_device, decode_close_seat,
    decode_open_device, decode_open_seat, decode_ping, open_device_at, open_seat, open_seat_at,
    ping_at,
};
use seatd::{Request, Response, SeatError, ServerMessage, SOCKET_PATH};
use std::cell::RefCell;

fn assert_contains_error<T: std::fmt::Debug>(result: Result<T, SeatError>, needle: &str) {
    let error = result.unwrap_err().message();
    assert!(
        error.contains(needle),
        "expected error containing {needle:?}, got {error:?}"
    );
}

#[test]
fn decodes_open_seat_responses() {
    assert_eq!(
        decode_open_seat(ServerMessage::Response(Response::SeatOpened { seat_id: 9 })).unwrap(),
        9
    );
    assert_contains_error(
        decode_open_seat(ServerMessage::Response(Response::Error {
            message: "denied".to_string(),
        })),
        "denied",
    );
    assert_contains_error(
        decode_open_seat(ServerMessage::Response(Response::Pong)),
        "unexpected response",
    );
}

#[test]
fn decodes_close_seat_responses() {
    assert!(decode_close_seat(ServerMessage::Response(Response::SeatClosed)).is_ok());
    assert_contains_error(
        decode_close_seat(ServerMessage::Response(Response::Error {
            message: "no seat".to_string(),
        })),
        "no seat",
    );
    assert_contains_error(
        decode_close_seat(ServerMessage::Response(Response::Pong)),
        "unexpected response",
    );
}

#[test]
fn decodes_open_device_responses() {
    let fd: u32 = 3;
    let (device_id, _fd) = decode_open_device(
        ServerMessage::Response(Response::DeviceOpened { device_id: 3 }),
        vec![fd],
    )
    .unwrap();
    assert_eq!(device_id, 3);

    assert_contains_error(
        decode_open_device(
            ServerMessage::Response(Response::DeviceOpened { device_id: 3 }),
            Vec::<u32>::new(),
        ),
        "no fd received",
    );
    assert_contains_error(
        decode_open_device(
            ServerMessage::Response(Response::Error {
                message: "missing".to_string(),
            }),
            Vec::<u32>::new(),
        ),
        "missing",
    );
    assert_contains_error(
        decode_open_device(ServerMessage::Response(Response::Pong), Vec::<u32>::new()),
        "unexpected response",
    );
}

#[test]
fn decodes_close_device_responses() {
    assert!(decode_close_device(ServerMessage::Response(Response::DeviceClosed)).is_ok());
    assert_contains_error(
        decode_close_device(ServerMessage::Response(Response::Error {
            message: "missing".to_string(),
        })),
        "missing",
    );
    assert_contains_error(
        decode_close_device(ServerMessage::Response(Response::Pong)),
        "unexpected response",
    );
}

#[test]
fn decodes_ping_responses() {
    assert!(decode_ping(ServerMessage::Response(Response::Pong)).is_ok());
    assert_contains_error(
        decode_ping(ServerMessage::Response(Response::SeatClosed)),
        "unexpected response",
    );
}

#[test]
fn decode_errors_keep_their_kind_and_message() {
    assert_eq!(
        decode_open_seat(ServerMessage::Response(Response::Error {
            message: "seat already open".to_string(),
        })),
        Err(SeatError::PermissionDenied("seat already open".to_string()))
    );
    assert_eq!(
        decode_close_device(ServerMessage::Response(Response::Error {
            message: "device not found: device_id 9999".to_string(),
        })),
        Err(SeatError::DeviceNotFound("device not found: device_id 9999".to_string()))
    );
    assert_eq!(
        decode_ping(ServerMessage::Response(Response::Error {
            message: "x".to_string(),
        })),
        Err(SeatError::PermissionDenied("unexpected response".to_string()))
    );
    assert_eq!(
        decode_open_device(
            ServerMessage::Response(Response::DeviceOpened { device_id: 4 }),
            vec![10u32, 11u32],
        ),
        Ok((4, 10))
    );
}

#[test]
fn calls_send_the_request_to_the_socket() {
    let seen: RefCell<Vec<(String, Request)>> = RefCell::new(Vec::new());
    let result = open_seat_at("/tmp/test.sock", |path: String, request: Request| {
        seen.borrow_mut().push((path, request));
        Ok(ServerMessage::Response(Response::SeatOpened { seat_id: 5 }))
    });
    assert_eq!(result, Ok(5));
    let result = close_device_at("/tmp/other.sock", 12, |path: String, request: Request| {
        seen.borrow_mut().push((path, request));
        Ok(ServerMessage::Response(Response::DeviceClosed))
    });
    assert_eq!(result, Ok(()));
    let result = open_seat(|path: String, request: Request| {
        seen.borrow_mut().push((path, request));
        Ok(ServerMessage::Response(Response::Pong))
    });
    assert_eq!(
        result,
        Err(SeatError::PermissionDenied("unexpected response".to_string()))
    );
    let result = close_device(1, |path: String, request: Request| {
        seen.borrow_mut().push((path, request));
        Err(SeatError::Ipc("connection refused".to_string()))
    });
    assert_eq!(result, Err(SeatError::Ipc("connection refused".to_string())));
    assert_eq!(
        seen.into_inner(),
        vec![
            ("/tmp/test.sock".to_string(), Request::OpenSeat),
            ("/tmp/other.sock".to_string(), Request::CloseDevice { device_id: 12 }),
            (SOCKET_PATH.to_string(), Request::OpenSeat),
            (SOCKET_PATH.to_string(), Request::CloseDevice { device_id: 1 }),
        ]
    );
}

#[test]
fn open_device_call_takes_the_first_handle() {
    let result = open_device_at("/tmp/s.sock", "/dev/tty", |path: String, request: Request| {
        assert_eq!(path, "/tmp/s.sock");
        assert_eq!(
            request,
            Request::OpenDevice {
                path: "/dev/tty".to_string()
            }
        );
        Ok((
            ServerMessage::Response(Response::DeviceOpened { device_id: 2 }),
            vec![30u32],
        ))
    });
    assert_eq!(result, Ok((2, 30)));
    let result = open_device_at("/tmp/s.sock", "/dev/tty", |_path: String, _request: Request| {
        Ok((
            ServerMessage::Response(Response::Error {
                message: "no active seat".to_string(),
            }),
            Vec::<u32>::new(),
        ))
    });
    assert_eq!(
        result,
        Err(SeatError::DeviceNotFound("no active seat".to_string()))
    );
}

#[test]
fn close_seat_and_ping_calls_read_answers() {
    assert_eq!(
        close_seat_at("/tmp/a.sock", |_p: String, _r: Request| {
            Ok(ServerMessage::Response(Response::Error {
                message: "no active seat".to_string(),
            }))
        }),
        Err(SeatError::PermissionDenied("no active seat".to_string()))
    );
    assert_eq!(
        ping_at("/tmp/a.sock", |_p: String, r: Request| {
            assert_eq!(r, Request::Ping);
            Ok(ServerMessage::Response(Response::Pong))
        }),
        Ok(())
    );
}
