//! What holds of the seat daemon across its operations, proved over the
//! models that the operations' contracts are stated in.
use crate::cli::{parse_args, CommandView};
use crate::client::{
    close_device_reply, close_seat_reply, open_device_reply, open_seat_reply, ping_reply,
};
use crate::drm::drm_prefix;
use crate::error::{error_message, not_owner_error, ErrorView};
use crate::protocol::{RequestView, ResponseView, ServerMessageView};
use crate::server::{
    allowed_device_path, begin_disable_step, cleanup_step, close_device_step, close_seat_step,
    allocates_seat, disable_seat_step, enable_step, error_answer, message_reply,
    open_device_refusal, open_device_step, open_seat_step, opens_device, request_step,
    switches_vt, DeviceView, MasterAction, OpenedDevice, SeatView,
};
use crate::text::{decimal, decimal_round_trip, is_prefix};
use vstd::prelude::*;

verus! {

/// A refused request leaves the seat as it was: whenever the reply is an
/// error, the state after the request is the state before it.
pub proof fn refused_request_changes_nothing<F>(
    s: SeatView<F>,
    pid: i32,
    req: RequestView,
    opened: Result<F, Seq<char>>,
    switched: Result<(), Seq<char>>,
    id: u32,
)
    ensures
        request_step(s, pid, req, opened, switched, id).1.message matches ServerMessageView::Response(
            ResponseView::Error { .. },
        ) ==> request_step(s, pid, req, opened, switched, id).0 == s,
{
}

/// Every request keeps the seat well formed: the seat only ever holds devices
/// with allowed paths, each marked DRM exactly when its path is a DRM path.
pub proof fn requests_keep_seat_well_formed<F>(
    s: SeatView<F>,
    pid: i32,
    req: RequestView,
    opened: Result<F, Seq<char>>,
    switched: Result<(), Seq<char>>,
    id: u32,
)
    requires
        s.wf(),
    ensures
        request_step(s, pid, req, opened, switched, id).0.wf(),
        cleanup_step(s, pid).wf(),
        begin_disable_step(s).wf(),
        enable_step(s).wf(),
{
    let t = request_step(s, pid, req, opened, switched, id);
    match req {
        RequestView::OpenDevice { path } => {
            if let (Some(ss), Some(ss2)) = (s.session, t.0.session) {
                assert forall|d: u32| #[trigger] ss2.devices.contains_key(d) implies allowed_device_path(
                    ss2.devices[d].path,
                ) && ss2.devices[d].is_drm == is_prefix(drm_prefix(), ss2.devices[d].path) by {
                    if d != id {
                        assert(ss.devices.contains_key(d));
                    }
                }
                assert(ss2.devices.dom().finite());
            }
        },
        RequestView::CloseDevice { device_id } => {
            if let (Some(ss), Some(ss2)) = (s.session, t.0.session) {
                assert forall|id: u32| #[trigger] ss2.devices.contains_key(id) implies allowed_device_path(
                    ss2.devices[id].path,
                ) && ss2.devices[id].is_drm == is_prefix(drm_prefix(), ss2.devices[id].path) by {
                    assert(ss.devices.contains_key(id));
                }
            }
        },
        _ => {},
    }
}

/// There is at most one seat: opening a seat while one is open is refused
/// with `SeatAlreadyOpen`, whoever asks, and asks the allocator for no id.
pub proof fn one_seat_at_a_time<F>(s: SeatView<F>, pid: i32, id: u32)
    requires
        s.session is Some,
    ensures
        open_seat_step(s, pid, id) == (s, Err::<u32, ErrorView>(ErrorView::SeatAlreadyOpen)),
        !allocates_seat(s, RequestView::OpenSeat),
{
}

/// Only the process that opened the seat acts on it: every request but
/// `OpenSeat` and `Ping` from another process is refused as "not seat owner"
/// and changes nothing.
pub proof fn only_the_owner_acts<F>(s: SeatView<F>, pid: i32, req: RequestView, opened: Result<F, Seq<char>>, switched: Result<(), Seq<char>>, id: u32)
    requires
        s.session matches Some(ss) && ss.owner_pid != pid,
        !(req is OpenSeat),
        !(req is Ping),
    ensures
        request_step(s, pid, req, opened, switched, id) == (s, message_reply(error_answer(not_owner_error()))),
{
}

/// Without a seat, every request but `OpenSeat` and `Ping` is refused with
/// "no active seat" and changes nothing.
pub proof fn no_seat_no_service<F>(s: SeatView<F>, pid: i32, req: RequestView, opened: Result<F, Seq<char>>, switched: Result<(), Seq<char>>, id: u32)
    requires
        s.session is None,
        !(req is OpenSeat),
        !(req is Ping),
    ensures
        request_step(s, pid, req, opened, switched, id) == (s, message_reply(error_answer(ErrorView::NoSeat))),
{
}

/// `Ping` is answered `Pong` in every state, and changes nothing.
pub proof fn ping_is_always_answered<F>(
    s: SeatView<F>,
    pid: i32,
    opened: Result<F, Seq<char>>,
    switched: Result<(), Seq<char>>,
    id: u32,
)
    ensures
        request_step(s, pid, RequestView::Ping, opened, switched, id) == (
            s,
            message_reply(ServerMessageView::Response(ResponseView::Pong)),
        ),
{
}

/// An opened seat gets the id the allocator answered, belongs to the process
/// that asked, holds no devices, and is active with nothing pending.
pub proof fn opened_seat_gets_allocated_id<F>(s: SeatView<F>, pid: i32, id: u32)
    requires
        s.session is None,
    ensures
        allocates_seat(s, RequestView::OpenSeat),
        open_seat_step(s, pid, id).1 == Ok::<u32, ErrorView>(id),
        open_seat_step(s, pid, id).0.session matches Some(ss) && ss.owner_pid == pid && ss.seat_id
            == id && ss.devices.is_empty() && ss.enabled && !ss.pending_disable,
{
}

/// The owner can close its seat, whatever devices it holds, and then a seat
/// can be opened again, by any process: it gets the allocator's id, belongs
/// to that process and holds none of the devices the closed seat held.
pub proof fn close_then_reopen<F>(s: SeatView<F>, owner: i32, next: i32, id: u32)
    requires
        s.session matches Some(ss) && ss.owner_pid == owner,
    ensures
        close_seat_step(s, owner).1 == Ok::<(), ErrorView>(()),
        close_seat_step(s, owner).0.session is None,
        open_seat_step(close_seat_step(s, owner).0, next, id).1 == Ok::<u32, ErrorView>(id),
        open_seat_step(close_seat_step(s, owner).0, next, id).0.session matches Some(ss2)
            && ss2.owner_pid == next && ss2.seat_id == id && ss2.devices.is_empty(),
{
}

/// Opening a device keeps every device held before, unchanged, and adds the
/// new one under the id the allocator answered; when that id is not held yet,
/// no open device is replaced.
pub proof fn opening_keeps_open_devices<F>(s: SeatView<F>, owner: i32, path: Seq<char>, fd: F, id: u32)
    requires
        s.session matches Some(ss) && ss.owner_pid == owner && !ss.devices.contains_key(id),
        allowed_device_path(path),
    ensures
        ({
            let ss = s.session.unwrap();
            let ss2 = open_device_step(s, owner, path, Ok(fd), id).0.session.unwrap();
            &&& ss2.devices.contains_key(id) && ss2.devices[id] == (DeviceView {
                fd,
                path,
                is_drm: is_prefix(drm_prefix(), path),
            })
            &&& forall|d: u32| #[trigger]
                ss.devices.contains_key(d) ==> ss2.devices.contains_key(d) && ss2.devices[d]
                    == ss.devices[d]
            &&& ss2.devices.dom() == ss.devices.dom().insert(id)
        }),
{
    let ss = s.session.unwrap();
    let ss2 = open_device_step(s, owner, path, Ok(fd), id).0.session.unwrap();
    assert(ss2.devices.dom() =~= ss.devices.dom().insert(id));
}

/// Opening an allowed device under an id the seat does not hold yet, and
/// closing it again, leaves the seat as it was.
pub proof fn open_then_close_device<F>(s: SeatView<F>, owner: i32, path: Seq<char>, fd: F, id: u32)
    requires
        s.session matches Some(ss) && ss.owner_pid == owner && !ss.devices.contains_key(id),
        allowed_device_path(path),
    ensures
        ({
            let opened = open_device_step(s, owner, path, Ok(fd), id);
            &&& opened.1 == Ok::<OpenedDevice, ErrorView>(
                OpenedDevice {
                    device_id: id,
                    set_master: is_prefix(drm_prefix(), path) && s.session.unwrap().enabled,
                },
            )
            &&& close_device_step(opened.0, owner, id) == (s, Ok::<(), ErrorView>(()))
        }),
{
    let ss = s.session.unwrap();
    let opened = open_device_step(s, owner, path, Ok(fd), id);
    let ss1 = opened.0.session.unwrap();
    assert(ss1.devices.remove(id) =~= ss.devices);
}

/// Switching the session leaves the seat as it was, whatever the VT switch
/// answered; the owner's request succeeds exactly when the switch does.
pub proof fn switching_changes_nothing<F>(
    s: SeatView<F>,
    owner: i32,
    vt: u32,
    opened: Result<F, Seq<char>>,
    switched: Result<(), Seq<char>>,
    id: u32,
)
    requires
        s.session matches Some(ss) && ss.owner_pid == owner,
    ensures
        switches_vt(s, owner, RequestView::SwitchSession { vt }),
        request_step(s, owner, RequestView::SwitchSession { vt }, opened, switched, id).0 == s,
        request_step(s, owner, RequestView::SwitchSession { vt }, opened, switched, id).1.message
            == (match switched {
            Ok(_) => ServerMessageView::Response(ResponseView::SessionSwitched),
            Err(m) => error_answer(ErrorView::Io(m)),
        }),
{
}

/// A request for a device outside the allowed directories is refused before
/// any file is opened: it is not one that opens a device, so
/// `SeatState::open_device` and `SeatState::handle_request` may not call their
/// opener for it.
pub proof fn disallowed_devices_are_refused<F>(s: SeatView<F>, owner: i32, path: Seq<char>)
    requires
        s.session matches Some(ss) && ss.owner_pid == owner,
        !allowed_device_path(path),
    ensures
        !opens_device(s, owner, RequestView::OpenDevice { path }),
        open_device_refusal(s, owner, path) matches Some(ErrorView::InvalidDevice(_)),
{
}

/// Every DRM device is an allowed device.
pub proof fn drm_devices_are_allowed(path: Seq<char>)
    requires
        is_prefix(drm_prefix(), path),
    ensures
        allowed_device_path(path),
{
}

/// The disable handshake: after a disable is announced, the owner's
/// `DisableSeat` succeeds and leaves the session inactive with nothing
/// pending; without an announced disable it is refused.
pub proof fn disable_handshake<F>(s: SeatView<F>, owner: i32)
    requires
        s.session matches Some(ss) && ss.owner_pid == owner,
    ensures
        ({
            let announced = begin_disable_step(s);
            let done = disable_seat_step(announced, owner);
            &&& done.1 == Ok::<(), ErrorView>(())
            &&& done.0.session matches Some(ss) && !ss.enabled && !ss.pending_disable
        }),
        !s.session.unwrap().pending_disable ==> disable_seat_step(s, owner) == (
            s,
            Err::<(), ErrorView>(ErrorView::InvalidDevice("no pending disable"@)),
        ),
        enable_step(s).session matches Some(ss) && ss.enabled,
{
}

/// When the owner disconnects its session ends; another client's leaving
/// changes nothing.
pub proof fn cleanup_only_ends_own_session<F>(s: SeatView<F>, pid: i32)
    ensures
        (s.session matches Some(ss) && ss.owner_pid == pid) ==> cleanup_step(s, pid).session is None,
        !(s.session matches Some(ss) && ss.owner_pid == pid) ==> cleanup_step(s, pid) == s,
{
}

/// The client reads the server's reply to each request as the server decided
/// it: a success as the value the server gave, a refusal as an error carrying
/// the server's message.
pub proof fn client_reads_server_replies<F>(
    s: SeatView<F>,
    pid: i32,
    path: Seq<char>,
    fd: F,
    device_id: u32,
    id: u32,
)
    ensures
        open_seat_reply(
            request_step(s, pid, RequestView::OpenSeat, Err(Seq::empty()), Ok(()), id).1.message,
        ) == match open_seat_step(s, pid, id).1 {
            Ok(i) => Ok(i),
            Err(e) => Err(ErrorView::PermissionDenied(error_message(e))),
        },
        close_seat_reply(
            request_step(s, pid, RequestView::CloseSeat, Err(Seq::empty()), Ok(()), id).1.message,
        ) == match close_seat_step(s, pid).1 {
            Ok(_) => Ok(()),
            Err(e) => Err(ErrorView::PermissionDenied(error_message(e))),
        },
        close_device_reply(
            request_step(
                s,
                pid,
                RequestView::CloseDevice { device_id },
                Err(Seq::empty()),
                Ok(()),
                id,
            ).1.message,
        ) == match close_device_step(s, pid, device_id).1 {
            Ok(_) => Ok(()),
            Err(e) => Err(ErrorView::DeviceNotFound(error_message(e))),
        },
        ping_reply(request_step(s, pid, RequestView::Ping, Err(Seq::empty()), Ok(()), id).1.message)
            == Ok::<(), ErrorView>(()),
        ({
            let t = request_step(s, pid, RequestView::OpenDevice { path }, Ok(fd), Ok(()), id);
            open_device_reply(t.1.message, seq![fd]) == match open_device_step(
                s,
                pid,
                path,
                Ok(fd),
                id,
            ).1 {
                Ok(o) => Ok((o.device_id, fd)),
                Err(e) => Err(ErrorView::DeviceNotFound(error_message(e))),
            } && (t.1.fd_device matches Some(d) ==> t.0.session matches Some(ss)
                && ss.devices.contains_key(d) && ss.devices[d].fd == fd)
        }),
{
}

/// Only the owner's `CloseSeat` ends the connection: every other request, and
/// a refused `CloseSeat`, leaves the client connected, whatever the seat, the
/// opened file, the VT switch and the allocator answered.
pub proof fn only_closing_the_seat_ends_the_connection<F>(
    s: SeatView<F>,
    pid: i32,
    req: RequestView,
    opened: Result<F, Seq<char>>,
    switched: Result<(), Seq<char>>,
    id: u32,
)
    ensures
        request_step(s, pid, req, opened, switched, id).1.close_connection == (req is CloseSeat
            && (s.session matches Some(ss) && ss.owner_pid == pid)),
{
}

/// DRM master is dropped on all devices only when the owner acknowledges an
/// announced disable, and taken only on a device just opened; closing a
/// device never touches it.
pub proof fn master_changes_only_on_disable_and_open<F>(
    s: SeatView<F>,
    pid: i32,
    req: RequestView,
    opened: Result<F, Seq<char>>,
    switched: Result<(), Seq<char>>,
    id: u32,
)
    ensures
        request_step(s, pid, req, opened, switched, id).1.master == MasterAction::ReleaseAll <==> (
        req is DisableSeat && (s.session matches Some(ss) && ss.owner_pid == pid
            && ss.pending_disable)),
        request_step(s, pid, req, opened, switched, id).1.master is Acquire ==> req is OpenDevice,
        req is CloseDevice ==> request_step(s, pid, req, opened, switched, id).1.master
            == MasterAction::Keep,
{
}

/// The owner's successful `OpenDevice` of an allowed path answers the
/// allocator's id, hands that device's handle back, and takes DRM master on
/// it exactly when it is a DRM device and the session is active; the device
/// is held under that id with the opened handle.
pub proof fn opened_device_takes_master_only_when_active<F>(
    s: SeatView<F>,
    pid: i32,
    path: Seq<char>,
    fd: F,
    switched: Result<(), Seq<char>>,
    id: u32,
)
    requires
        s.session matches Some(ss) && ss.owner_pid == pid,
        allowed_device_path(path),
    ensures
        ({
            let ss = s.session.unwrap();
            let t = request_step(s, pid, RequestView::OpenDevice { path }, Ok(fd), switched, id);
            &&& t.1.message == ServerMessageView::Response(ResponseView::DeviceOpened { device_id: id })
            &&& t.1.fd_device == Some(id)
            &&& t.1.master == if is_prefix(drm_prefix(), path) && ss.enabled {
                MasterAction::Acquire { device_id: id }
            } else {
                MasterAction::Keep
            }
            &&& !t.1.close_connection
            &&& t.0.session matches Some(ss2) && ss2.devices.contains_key(id)
                && ss2.devices[id].fd == fd && ss2.owner_pid == pid && ss2.enabled == ss.enabled
        }),
{
}

/// The disable handshake only moves the session's two flags: announcing a
/// disable marks it pending, the owner's acknowledgement makes the session
/// inactive with nothing pending, and enabling makes it active again. The
/// owner, the seat id and the devices stay as they were, and without a
/// session nothing changes.
pub proof fn handshake_changes_only_the_flags<F>(s: SeatView<F>, owner: i32)
    ensures
        s.session matches Some(ss) ==> (enable_step(s).session matches Some(e) && e.enabled
            && e.owner_pid == ss.owner_pid && e.seat_id == ss.seat_id && e.devices == ss.devices
            && e.pending_disable == ss.pending_disable),
        s.session matches Some(ss) ==> (begin_disable_step(s).session matches Some(b)
            && b.pending_disable && b.owner_pid == ss.owner_pid && b.seat_id == ss.seat_id
            && b.devices == ss.devices && b.enabled == ss.enabled),
        (s.session matches Some(ss) && ss.owner_pid == owner && ss.pending_disable) ==> (
        disable_seat_step(s, owner).1 is Ok && (disable_seat_step(s, owner).0.session matches Some(d)
            && !d.enabled && !d.pending_disable && d.owner_pid == owner && d.seat_id
            == s.session.unwrap().seat_id && d.devices == s.session.unwrap().devices)),
        s.session is None ==> enable_step(s) == s && begin_disable_step(s) == s,
{
}

/// A handle goes along with a reply, and DRM master is taken, only for a
/// device that was just opened, and only for the id the allocator answered
/// for it.
pub proof fn handles_go_only_with_opened_devices<F>(
    s: SeatView<F>,
    pid: i32,
    req: RequestView,
    opened: Result<F, Seq<char>>,
    switched: Result<(), Seq<char>>,
    id: u32,
)
    ensures
        request_step(s, pid, req, opened, switched, id).1.fd_device matches Some(d) ==> (
        req is OpenDevice && opened is Ok && d == id),
        request_step(s, pid, req, opened, switched, id).1.master matches MasterAction::Acquire {
            device_id,
        } ==> (req is OpenDevice && opened is Ok && device_id == id),
{
}

/// Each request that succeeds is answered with its own response, with no
/// handle and no change of DRM master (but for the disable's release): the
/// seat opened with the allocator's id, the seat closed, the device closed
/// (only it is released), the seat disabled.
pub proof fn successes_are_answered<F>(
    s: SeatView<F>,
    pid: i32,
    device_id: u32,
    opened: Result<F, Seq<char>>,
    switched: Result<(), Seq<char>>,
    id: u32,
)
    ensures
        s.session is None ==> ({
            let t = request_step(s, pid, RequestView::OpenSeat, opened, switched, id);
            &&& t.1.message == ServerMessageView::Response(ResponseView::SeatOpened { seat_id: id })
            &&& t.1.fd_device is None && t.1.master == MasterAction::Keep && !t.1.close_connection
        }),
        (s.session matches Some(ss) && ss.owner_pid == pid) ==> ({
            let t = request_step(s, pid, RequestView::CloseSeat, opened, switched, id);
            &&& t.1.message == ServerMessageView::Response(ResponseView::SeatClosed)
            &&& t.1.fd_device is None && t.1.master == MasterAction::Keep && t.1.close_connection
            &&& t.0.session is None
        }),
        (s.session matches Some(ss) && ss.owner_pid == pid && ss.devices.contains_key(device_id))
            ==> ({
            let ss = s.session.unwrap();
            let t = request_step(s, pid, RequestView::CloseDevice { device_id }, opened, switched, id);
            &&& t.1.message == ServerMessageView::Response(ResponseView::DeviceClosed)
            &&& t.1.fd_device is None && t.1.master == MasterAction::Keep && !t.1.close_connection
            &&& t.0.session matches Some(ss2) && !ss2.devices.contains_key(device_id)
                && ss2.owner_pid == pid && ss2.enabled == ss.enabled && ss2.seat_id == ss.seat_id
                && (forall|d: u32| d != device_id ==> (#[trigger] ss2.devices.contains_key(d)
                    == ss.devices.contains_key(d) && (ss.devices.contains_key(d) ==> ss2.devices[d]
                    == ss.devices[d])))
        }),
        (s.session matches Some(ss) && ss.owner_pid == pid && ss.pending_disable) ==> ({
            let t = request_step(s, pid, RequestView::DisableSeat, opened, switched, id);
            &&& t.1.message == ServerMessageView::Response(ResponseView::SeatDisabled)
            &&& t.1.fd_device is None && t.1.master == MasterAction::ReleaseAll
            &&& !t.1.close_connection
        }),
{
}

/// The command line reads back the device id it is given in decimal.
pub proof fn close_device_takes_decimal_ids(program: Seq<char>, device_id: u32)
    ensures
        parse_args(seq![program, "close-device"@, decimal(device_id as nat)]) == Ok::<
            CommandView,
            crate::cli::OutcomeView,
        >(CommandView::CloseDevice(device_id)),
{
    decimal_round_trip(device_id);
    crate::cli::lemma_command_names();
    reveal_strlit("server");
    reveal_strlit("open-seat");
    reveal_strlit("close-seat");
    reveal_strlit("open-device");
    reveal_strlit("close-device");
}

} // verus!
