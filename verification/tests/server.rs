use seatd::client::{decode_close_device, decode_open_device, decode_open_seat};
use seatd::server::{is_allowed_device, IdKind, MasterAction, OpenedDevice, SeatState};
use seatd::{Event, Request, Response, SeatError, ServerMessage};
use std::cell::Cell;
use std::path::Path;

#[test]
fn test_is_allowed_device_drm() {
    assert!(is_allowed_device("/dev/dri/card0"));
    assert!(is_allowed_device("/dev/dri/renderD128"));
}

#[test]
fn test_is_allowed_device_input() {
    assert!(is_allowed_device("/dev/input/event0"));
    assert!(is_allowed_device("/dev/input/mouse0"));
}

#[test]
fn test_is_allowed_device_tty() {
    assert!(is_allowed_device("/dev/tty1"));
    assert!(is_allowed_device("/dev/tty"));
}

#[test]
fn test_is_allowed_device_blocked() {
    assert!(!is_allowed_device("/dev/sda"));
    assert!(!is_allowed_device("/dev/null"));
    assert!(!is_allowed_device("/etc/passwd"));
    assert!(!is_allowed_device("/dev/mem"));
}

fn opener(handle: u32) -> impl FnOnce(String) -> Result<u32, String> {
    move |_path: String| Ok(handle)
}

fn no_open() -> impl FnOnce(String) -> Result<u32, String> {
    |_path: String| -> Result<u32, String> { panic!("this request must not open a file") }
}

fn no_switch() -> impl FnOnce(u32) -> Result<(), String> {
    |_vt: u32| -> Result<(), String> { panic!("this request must not switch the VT") }
}

/// Hands out seat and device ids from two counters that start at 1, as the
/// daemon's process-wide allocator does.
struct Ids {
    seat: Cell<u32>,
    device: Cell<u32>,
}

impl Ids {
    fn new() -> Self {
        Ids {
            seat: Cell::new(1),
            device: Cell::new(1),
        }
    }

    fn next(&self) -> impl FnOnce(IdKind) -> u32 + '_ {
        move |kind: IdKind| {
            let counter = match kind {
                IdKind::Seat => &self.seat,
                IdKind::Device => &self.device,
            };
            let id = counter.get();
            counter.set(id + 1);
            id
        }
    }
}

fn no_ids() -> impl FnOnce(IdKind) -> u32 {
    |_kind: IdKind| -> u32 { panic!("this request must not take an id") }
}

fn error_text(reply: &ServerMessage) -> String {
    match reply {
        ServerMessage::Response(Response::Error { message }) => message.clone(),
        other => panic!("expected an error reply, got {other:?}"),
    }
}

#[test]
fn seat_opens_once_and_ids_count_up() {
    let ids = Ids::new();
    let mut seat: SeatState<u32> = SeatState::new();
    assert_eq!(seat.seat_id(), None);
    assert_eq!(seat.open_seat(100, ids.next()), Ok(1));
    assert_eq!(seat.seat_id(), Some(1));
    assert_eq!(seat.open_seat(100, ids.next()), Err(SeatError::SeatAlreadyOpen));
    assert_eq!(seat.open_seat(200, ids.next()), Err(SeatError::SeatAlreadyOpen));
    assert_eq!(seat.close_seat(100), Ok(()));
    assert_eq!(seat.open_seat(200, ids.next()), Ok(2));
}

#[test]
fn seat_already_open_is_answered() {
    let ids = Ids::new();
    let mut seat: SeatState<u32> = SeatState::new();
    let first = seat.handle_request(7, Request::OpenSeat, opener(0), no_switch(), ids.next());
    assert_eq!(
        first.message,
        ServerMessage::Response(Response::SeatOpened { seat_id: 1 })
    );
    let second = seat.handle_request(7, Request::OpenSeat, opener(0), no_switch(), no_ids());
    assert!(error_text(&second.message).contains("already"));
    assert!(!second.close_connection);
}

#[test]
fn requests_without_a_seat_are_refused() {
    let ids = Ids::new();
    let mut seat: SeatState<u32> = SeatState::new();
    let reply = seat.handle_request(
        7,
        Request::OpenDevice {
            path: "/dev/dri/card0".to_string(),
        },
        no_open(), no_switch(), no_ids());
    assert_eq!(error_text(&reply.message), "no active seat");
    assert!(error_text(&reply.message).contains("seat"));
    assert_eq!(reply.fd_device, None);
    let reply = seat.handle_request(7, Request::CloseSeat, opener(3), no_switch(), ids.next());
    assert_eq!(error_text(&reply.message), "no active seat");
    assert!(!reply.close_connection);
    let reply = seat.handle_request(7, Request::Ping, opener(3), no_switch(), ids.next());
    assert_eq!(reply.message, ServerMessage::Response(Response::Pong));
}

#[test]
fn blocked_devices_are_refused_before_opening() {
    let ids = Ids::new();
    let mut seat: SeatState<u32> = SeatState::new();
    seat.open_seat(7, ids.next()).unwrap();
    let reply = seat.handle_request(
        7,
        Request::OpenDevice {
            path: "/dev/sda".to_string(),
        },
        |_path: String| -> Result<u32, String> { panic!("a blocked device must not be opened") }, no_switch(), no_ids());
    let message = error_text(&reply.message);
    assert!(message.contains("not allowed"));
    assert_eq!(
        message,
        format!("invalid device: device not allowed: {:?}", Path::new("/dev/sda"))
    );
    assert_eq!(message, "invalid device: device not allowed: \"/dev/sda\"");
}

#[test]
fn other_clients_are_not_the_owner() {
    let ids = Ids::new();
    let mut seat: SeatState<u32> = SeatState::new();
    seat.open_seat(7, ids.next()).unwrap();
    for request in [
        Request::CloseSeat,
        Request::OpenDevice {
            path: "/dev/tty1".to_string(),
        },
        Request::CloseDevice { device_id: 1 },
        Request::DisableSeat,
        Request::SwitchSession { vt: 2 },
    ] {
        let reply = seat.handle_request(8, request, no_open(), no_switch(), no_ids());
        assert_eq!(
            error_text(&reply.message),
            "permission denied: not seat owner"
        );
    }
    assert_eq!(seat.seat_id(), Some(1));
}

#[test]
fn close_nonexistent_device_names_the_id() {
    let ids = Ids::new();
    let mut seat: SeatState<u32> = SeatState::new();
    seat.open_seat(7, ids.next()).unwrap();
    let reply = seat.handle_request(7, Request::CloseDevice { device_id: 9999 }, opener(0), no_switch(), ids.next());
    assert!(error_text(&reply.message).contains("9999"));
    assert_eq!(
        error_text(&reply.message),
        "device not found: device_id 9999"
    );
}

#[test]
fn devices_open_and_close() {
    let ids = Ids::new();
    let mut seat: SeatState<u32> = SeatState::new();
    seat.open_seat(7, ids.next()).unwrap();
    assert_eq!(
        seat.open_device(7, "/dev/dri/card0", opener(40), ids.next()),
        Ok(OpenedDevice {
            device_id: 1,
            set_master: true
        })
    );
    assert_eq!(
        seat.open_device(7, "/dev/input/event3", opener(41), ids.next()),
        Ok(OpenedDevice {
            device_id: 2,
            set_master: false
        })
    );
    let device = seat.device(1).unwrap();
    assert_eq!(device.fd, 40);
    assert_eq!(device.path, "/dev/dri/card0");
    assert!(device.is_drm);
    assert!(!seat.device(2).unwrap().is_drm);
    assert_eq!(seat.drm_device_ids(), vec![1]);
    assert_eq!(seat.close_device(7, 1), Ok(()));
    assert!(seat.device(1).is_none());
    assert_eq!(
        seat.close_device(7, 1),
        Err(SeatError::DeviceNotFound("device_id 1".to_string()))
    );
    assert!(seat.drm_device_ids().is_empty());
}

#[test]
fn open_device_reply_carries_the_handle_and_master() {
    let ids = Ids::new();
    let mut seat: SeatState<u32> = SeatState::new();
    seat.open_seat(7, ids.next()).unwrap();
    let reply = seat.handle_request(
        7,
        Request::OpenDevice {
            path: "/dev/dri/card1".to_string(),
        },
        opener(55), no_switch(), ids.next());
    assert_eq!(
        reply.message,
        ServerMessage::Response(Response::DeviceOpened { device_id: 1 })
    );
    assert_eq!(reply.fd_device, Some(1));
    assert_eq!(reply.master, MasterAction::Acquire { device_id: 1 });
    assert_eq!(seat.device(1).unwrap().fd, 55);
}

#[test]
fn failed_open_reports_path_and_cause() {
    let ids = Ids::new();
    let mut seat: SeatState<u32> = SeatState::new();
    seat.open_seat(7, ids.next()).unwrap();
    let reply = seat.handle_request(
        7,
        Request::OpenDevice {
            path: "/dev/tty9".to_string(),
        },
        |_path: String| -> Result<u32, String> { Err("Permission denied (os error 13)".to_string()) }, no_switch(), no_ids());
    assert_eq!(
        error_text(&reply.message),
        "device not found: /dev/tty9: Permission denied (os error 13)"
    );
    assert!(seat.device(1).is_none());
    // the failed open used no device id
    assert_eq!(
        seat.open_device(7, "/dev/tty9", opener(1), ids.next()),
        Ok(OpenedDevice {
            device_id: 1,
            set_master: false
        })
    );
}

#[test]
fn disable_handshake() {
    let ids = Ids::new();
    let mut seat: SeatState<u32> = SeatState::new();
    seat.open_seat(7, ids.next()).unwrap();
    seat.open_device(7, "/dev/dri/card0", opener(3), ids.next()).unwrap();
    let reply = seat.handle_request(7, Request::DisableSeat, opener(0), no_switch(), ids.next());
    assert_eq!(
        error_text(&reply.message),
        "invalid device: no pending disable"
    );
    assert_eq!(reply.master, MasterAction::Keep);
    assert!(seat.begin_disable());
    let reply = seat.handle_request(7, Request::DisableSeat, opener(0), no_switch(), ids.next());
    assert_eq!(reply.message, ServerMessage::Response(Response::SeatDisabled));
    assert_eq!(reply.master, MasterAction::ReleaseAll);
    // a device opened while disabled does not take master
    assert_eq!(
        seat.open_device(7, "/dev/dri/card1", opener(4), ids.next()),
        Ok(OpenedDevice {
            device_id: 2,
            set_master: false
        })
    );
    assert!(seat.enable());
    let mut drm_ids = seat.drm_device_ids();
    drm_ids.sort();
    assert_eq!(drm_ids, vec![1, 2]);
    let _ = ServerMessage::Event(Event::Enable);
}

#[test]
fn close_seat_ends_the_connection() {
    let ids = Ids::new();
    let mut seat: SeatState<u32> = SeatState::new();
    seat.open_seat(7, ids.next()).unwrap();
    let reply = seat.handle_request(7, Request::CloseSeat, opener(0), no_switch(), ids.next());
    assert_eq!(reply.message, ServerMessage::Response(Response::SeatClosed));
    assert!(reply.close_connection);
    assert_eq!(seat.seat_id(), None);
}

#[test]
fn disconnect_cleans_up_only_the_owner() {
    let ids = Ids::new();
    let mut seat: SeatState<u32> = SeatState::new();
    assert!(!seat.begin_disable());
    assert!(!seat.enable());
    seat.open_seat(7, ids.next()).unwrap();
    seat.cleanup_session(8);
    assert_eq!(seat.seat_id(), Some(1));
    seat.cleanup_session(7);
    assert_eq!(seat.seat_id(), None);
    let reply = seat.handle_request(7, Request::SwitchSession { vt: 3 }, opener(0), no_switch(), ids.next());
    assert_eq!(error_text(&reply.message), "no active seat");
}

#[test]
fn switch_session_switches_the_vt_for_the_owner() {
    let ids = Ids::new();
    let mut seat: SeatState<u32> = SeatState::new();
    seat.open_seat(7, ids.next()).unwrap();
    let switched = Cell::new(None);
    let reply = seat.handle_request(
        7,
        Request::SwitchSession { vt: 3 },
        opener(0),
        |vt: u32| -> Result<(), String> {
            switched.set(Some(vt));
            Ok(())
        },
        no_ids(),
    );
    assert_eq!(switched.get(), Some(3));
    assert_eq!(
        reply.message,
        ServerMessage::Response(Response::SessionSwitched)
    );
    let reply = seat.handle_request(
        7,
        Request::SwitchSession { vt: 4 },
        opener(0),
        |_vt: u32| -> Result<(), String> { Err("Operation not permitted (os error 1)".to_string()) },
        no_ids(),
    );
    assert_eq!(
        error_text(&reply.message),
        "io: Operation not permitted (os error 1)"
    );
    assert_eq!(seat.seat_id(), Some(1));
}

#[test]
fn client_reads_the_servers_refusals() {
    let ids = Ids::new();
    let mut seat: SeatState<u32> = SeatState::new();
    let reply = seat.handle_request(7, Request::OpenSeat, opener(0), no_switch(), ids.next());
    assert_eq!(decode_open_seat(reply.message), Ok(1));
    let reply = seat.handle_request(8, Request::OpenSeat, opener(0), no_switch(), no_ids());
    assert_eq!(
        decode_open_seat(reply.message),
        Err(SeatError::PermissionDenied("seat already open".to_string()))
    );
    let reply = seat.handle_request(7, Request::CloseDevice { device_id: 4 }, opener(0), no_switch(), ids.next());
    assert_eq!(
        decode_close_device(reply.message),
        Err(SeatError::DeviceNotFound(
            "device not found: device_id 4".to_string()
        ))
    );
    let reply = seat.handle_request(
        7,
        Request::OpenDevice {
            path: "/dev/input/event1".to_string(),
        },
        opener(21), no_switch(), ids.next());
    let fds = vec![seat.device(reply.fd_device.unwrap()).unwrap().fd];
    assert_eq!(decode_open_device(reply.message, fds), Ok((1, 21)));
}

#[test]
fn seats_of_one_process_never_share_an_id() {
    let ids = Ids::new();
    let mut first: SeatState<u32> = SeatState::new();
    let mut second: SeatState<u32> = SeatState::new();
    assert_eq!(first.open_seat(7, ids.next()), Ok(1));
    assert_eq!(second.open_seat(8, ids.next()), Ok(2));
    assert_eq!(first.close_seat(7), Ok(()));
    assert_eq!(first.open_seat(7, ids.next()), Ok(3));
    assert_eq!(
        first.open_device(7, "/dev/input/event0", opener(10), ids.next()),
        Ok(OpenedDevice {
            device_id: 1,
            set_master: false
        })
    );
    assert_eq!(
        second.open_device(8, "/dev/input/event1", opener(11), ids.next()),
        Ok(OpenedDevice {
            device_id: 2,
            set_master: false
        })
    );
    assert!(first.device(2).is_none());
    assert!(second.device(1).is_none());
    assert_eq!(second.device(2).unwrap().fd, 11);
}

#[test]
fn reopened_seat_holds_none_of_the_closed_seats_devices() {
    let ids = Ids::new();
    let mut seat: SeatState<u32> = SeatState::new();
    assert_eq!(seat.open_seat(7, ids.next()), Ok(1));
    seat.open_device(7, "/dev/dri/card0", opener(30), ids.next()).unwrap();
    assert_eq!(seat.close_seat(7), Ok(()));
    assert_eq!(seat.open_seat(9, ids.next()), Ok(2));
    assert!(seat.device(1).is_none());
    assert!(seat.drm_device_ids().is_empty());
    assert_eq!(
        seat.close_device(7, 1),
        Err(SeatError::PermissionDenied("not seat owner".to_string()))
    );
}
