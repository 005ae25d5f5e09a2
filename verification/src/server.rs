//! The seat: which client holds it, which devices it opened, and whether it is
//! active. Every request a client sends is decided here; the daemon around it
//! only moves bytes and file descriptors.
use crate::drm::{drm_prefix, is_drm_device};
use crate::error::{error_message, result_view, not_owner_error, not_seat_owner, ErrorView, SeatError};
use crate::protocol::{Request, RequestView, Response, ResponseView, ServerMessage, ServerMessageView};
use crate::text::{decimal, is_prefix, path_debug, path_debug_text, starts_with};
use std::collections::HashMap;
use vstd::prelude::*;

verus! {

broadcast use vstd::std_specs::hash::group_hash_axioms;

/// A device that the seat's client opened, with the handle the daemon keeps
/// open for it.
pub struct Device<F> {
    pub fd: F,
    pub path: String,
    pub is_drm: bool,
}

/// A device as a mathematical value.
pub struct DeviceView<F> {
    pub fd: F,
    pub path: Seq<char>,
    pub is_drm: bool,
}

impl<F> View for Device<F> {
    type V = DeviceView<F>;

    open spec fn view(&self) -> DeviceView<F> {
        DeviceView { fd: self.fd, path: self.path@, is_drm: self.is_drm }
    }
}

/// The active session: the client that opened the seat and what it holds.
struct Session<F> {
    seat_id: u32,
    owner_pid: i32,
    devices: HashMap<u32, Device<F>>,
    /// Whether the session is currently active (holds DRM master)
    enabled: bool,
    /// Waiting for the client to acknowledge a disable
    pending_disable: bool,
}

/// The session as a mathematical value.
pub struct SessionView<F> {
    pub seat_id: u32,
    pub owner_pid: i32,
    pub devices: Map<u32, DeviceView<F>>,
    pub enabled: bool,
    pub pending_disable: bool,
}

/// The seat as a mathematical value.
pub struct SeatView<F> {
    pub session: Option<SessionView<F>>,
}

/// The state of the seat daemon, generic over the handle kept for an open
/// device (a file descriptor in the daemon). Seat and device ids come from an
/// allocator that the daemon owns, shared by the whole process.
pub struct SeatState<F> {
    session: Option<Session<F>>,
}

/// Which kind of id the allocator is asked for.
#[derive(Debug, Clone, Copy, PartialEq, Eq)]
pub enum IdKind {
    Seat,
    Device,
}

/// The paths of the devices a client may open: DRM (GPU), input, and TTY/VT devices.
pub open spec fn allowed_device_path(path: Seq<char>) -> bool {
    ||| is_prefix(drm_prefix(), path)
    ||| is_prefix("/dev/input/"@, path)
    ||| is_prefix("/dev/tty"@, path)
}

/// Whether a client may open the device at `path`.
pub fn is_allowed_device(path: &str) -> (res: bool)
    ensures
        res == allowed_device_path(path@),
{
    if starts_with(path, "/dev/dri/") {
        return true;
    }
    if starts_with(path, "/dev/input/") {
        return true;
    }
    if starts_with(path, "/dev/tty") {
        return true;
    }
    false
}

impl<F> SeatView<F> {
    /// Every device the seat holds has an allowed path, and is marked DRM
    /// exactly when its path is a DRM path.
    pub open spec fn wf(self) -> bool {
        self.session matches Some(ss) ==> {
            &&& ss.devices.dom().finite()
            &&& forall|id: u32| #[trigger]
                ss.devices.contains_key(id) ==> allowed_device_path(ss.devices[id].path)
                    && ss.devices[id].is_drm == is_prefix(drm_prefix(), ss.devices[id].path)
        }
    }

    /// The session, when `pid` owns it; otherwise the error its requests get.
    pub open spec fn owned_by(self, pid: i32) -> Result<SessionView<F>, ErrorView> {
        match self.session {
            None => Err(ErrorView::NoSeat),
            Some(ss) => if ss.owner_pid == pid {
                Ok(ss)
            } else {
                Err(not_owner_error())
            },
        }
    }

    pub open spec fn with_session(self, ss: Option<SessionView<F>>) -> SeatView<F> {
        SeatView { session: ss, ..self }
    }
}

/// `OpenSeat` from `pid`, when the allocator answered `id`: the seat is
/// opened for `pid` with that id, unless a seat is already open (and then no
/// id is asked for).
pub open spec fn open_seat_step<F>(s: SeatView<F>, pid: i32, id: u32) -> (SeatView<F>, Result<u32, ErrorView>) {
    if s.session is Some {
        (s, Err(ErrorView::SeatAlreadyOpen))
    } else {
        (
            SeatView {
                session: Some(
                    SessionView {
                        seat_id: id,
                        owner_pid: pid,
                        devices: Map::empty(),
                        enabled: true,
                        pending_disable: false,
                    },
                ),
            },
            Ok(id),
        )
    }
}

/// What a successful `OpenDevice` tells the daemon: the new device's id, and
/// whether DRM master must be taken on it (a DRM device of an active session).
#[derive(Debug, Clone, Copy, PartialEq, Eq)]
pub struct OpenedDevice {
    pub device_id: u32,
    pub set_master: bool,
}

/// The refusal of `OpenDevice` that comes before any device is opened:
/// no seat, not the owner, or a path outside the allowed devices.
pub open spec fn open_device_refusal<F>(s: SeatView<F>, pid: i32, path: Seq<char>) -> Option<ErrorView> {
    match s.owned_by(pid) {
        Err(e) => Some(e),
        Ok(_) => if !allowed_device_path(path) {
            Some(ErrorView::InvalidDevice("device not allowed: "@ + path_debug_text(path)))
        } else {
            None
        },
    }
}

/// What opening a file answered, with the failure taken as its message.
pub open spec fn opened_view<F>(o: Result<F, String>) -> Result<F, Seq<char>> {
    match o {
        Ok(fd) => Ok(fd),
        Err(m) => Err(m@),
    }
}

/// `OpenDevice` of `path` from `pid`, when opening the file answered `opened`
/// and, after a successful open, the allocator answered `id`: the device is
/// registered under that id.
pub open spec fn open_device_step<F>(
    s: SeatView<F>,
    pid: i32,
    path: Seq<char>,
    opened: Result<F, Seq<char>>,
    id: u32,
) -> (SeatView<F>, Result<OpenedDevice, ErrorView>) {
    match open_device_refusal(s, pid, path) {
        Some(e) => (s, Err(e)),
        None => match opened {
            Err(msg) => (s, Err(ErrorView::DeviceNotFound(path + ": "@ + msg))),
            Ok(fd) => {
                let ss = s.session.unwrap();
                let is_drm = is_prefix(drm_prefix(), path);
                (
                    SeatView {
                        session: Some(
                            SessionView {
                                devices: ss.devices.insert(
                                    id,
                                    DeviceView { fd, path, is_drm },
                                ),
                                ..ss
                            },
                        ),
                    },
                    Ok(OpenedDevice { device_id: id, set_master: is_drm && ss.enabled }),
                )
            },
        },
    }
}

/// The ids of the DRM devices the seat holds.
pub open spec fn drm_device_set<F>(s: SeatView<F>) -> Set<u32> {
    match s.session {
        Some(ss) => Set::new(|id: u32| ss.devices.contains_key(id) && ss.devices[id].is_drm),
        None => Set::empty(),
    }
}

/// What the daemon does about DRM master once a request is decided.
#[derive(Debug, Clone, Copy, PartialEq, Eq)]
pub enum MasterAction {
    /// Nothing.
    Keep,
    /// Take DRM master on the device just opened.
    Acquire { device_id: u32 },
    /// Drop DRM master on every DRM device of the session.
    ReleaseAll,
}

/// The decision on one request: the message to answer, the device whose
/// handle goes along with it, what to do about DRM master, and whether the
/// connection ends after the answer.
pub struct Reply {
    pub message: ServerMessage,
    pub fd_device: Option<u32>,
    pub master: MasterAction,
    pub close_connection: bool,
}

/// A reply as a mathematical value.
pub struct ReplyView {
    pub message: ServerMessageView,
    pub fd_device: Option<u32>,
    pub master: MasterAction,
    pub close_connection: bool,
}

impl View for Reply {
    type V = ReplyView;

    open spec fn view(&self) -> ReplyView {
        ReplyView {
            message: self.message@,
            fd_device: self.fd_device,
            master: self.master,
            close_connection: self.close_connection,
        }
    }
}

/// The answer to a refused request: the error's message.
pub open spec fn error_answer(e: ErrorView) -> ServerMessageView {
    ServerMessageView::Response(ResponseView::Error { message: error_message(e) })
}

/// A reply that is only a message.
pub open spec fn message_reply(message: ServerMessageView) -> ReplyView {
    ReplyView { message, fd_device: None, master: MasterAction::Keep, close_connection: false }
}

/// The reply to an operation with no result, `ok` when it succeeds.
pub open spec fn unit_reply(r: Result<(), ErrorView>, ok: ResponseView) -> ReplyView {
    match r {
        Ok(_) => message_reply(ServerMessageView::Response(ok)),
        Err(e) => message_reply(error_answer(e)),
    }
}

/// Whether deciding `req` asks for a file to be opened: an `OpenDevice` that
/// nothing refuses beforehand.
pub open spec fn opens_device<F>(s: SeatView<F>, pid: i32, req: RequestView) -> bool {
    req matches RequestView::OpenDevice { path } && open_device_refusal(s, pid, path) is None
}

/// Whether deciding `req` asks for the VT to be switched: a `SwitchSession`
/// from the seat's owner.
pub open spec fn switches_vt<F>(s: SeatView<F>, pid: i32, req: RequestView) -> bool {
    req is SwitchSession && s.owned_by(pid) is Ok
}

/// Whether deciding `req` asks the allocator for a seat id: an `OpenSeat`
/// while no seat is open.
pub open spec fn allocates_seat<F>(s: SeatView<F>, req: RequestView) -> bool {
    req is OpenSeat && s.session is None
}

/// The seat after `pid` sent `req`, and the reply; `opened` is what opening
/// the file answered, where the request opens one, `switched` what switching
/// the VT answered, where the request switches it, and `id` what the allocator
/// answered, where the request asks it for an id.
pub open spec fn request_step<F>(
    s: SeatView<F>,
    pid: i32,
    req: RequestView,
    opened: Result<F, Seq<char>>,
    switched: Result<(), Seq<char>>,
    id: u32,
) -> (SeatView<F>, ReplyView) {
    match req {
        RequestView::OpenSeat => {
            let t = open_seat_step(s, pid, id);
            (
                t.0,
                match t.1 {
                    Ok(id) => message_reply(
                        ServerMessageView::Response(ResponseView::SeatOpened { seat_id: id }),
                    ),
                    Err(e) => message_reply(error_answer(e)),
                },
            )
        },
        RequestView::CloseSeat => {
            let t = close_seat_step(s, pid);
            (
                t.0,
                ReplyView {
                    close_connection: t.1 is Ok,
                    ..unit_reply(t.1, ResponseView::SeatClosed)
                },
            )
        },
        RequestView::OpenDevice { path } => {
            let t = open_device_step(s, pid, path, opened, id);
            (
                t.0,
                match t.1 {
                    Ok(o) => ReplyView {
                        message: ServerMessageView::Response(
                            ResponseView::DeviceOpened { device_id: o.device_id },
                        ),
                        fd_device: Some(o.device_id),
                        master: if o.set_master {
                            MasterAction::Acquire { device_id: o.device_id }
                        } else {
                            MasterAction::Keep
                        },
                        close_connection: false,
                    },
                    Err(e) => message_reply(error_answer(e)),
                },
            )
        },
        RequestView::CloseDevice { device_id } => {
            let t = close_device_step(s, pid, device_id);
            (t.0, unit_reply(t.1, ResponseView::DeviceClosed))
        },
        RequestView::DisableSeat => {
            let t = disable_seat_step(s, pid);
            (
                t.0,
                ReplyView {
                    master: if t.1 is Ok {
                        MasterAction::ReleaseAll
                    } else {
                        MasterAction::Keep
                    },
                    ..unit_reply(t.1, ResponseView::SeatDisabled)
                },
            )
        },
        RequestView::SwitchSession { vt } => {
            let t = switch_session_step(s, pid, switched);
            (t.0, unit_reply(t.1, ResponseView::SessionSwitched))
        },
        RequestView::Ping => (s, message_reply(ServerMessageView::Response(ResponseView::Pong))),
    }
}

/// `CloseSeat` from `pid`: the owner's session ends, with all its devices.
pub open spec fn close_seat_step<F>(s: SeatView<F>, pid: i32) -> (SeatView<F>, Result<(), ErrorView>) {
    match s.owned_by(pid) {
        Err(e) => (s, Err(e)),
        Ok(_) => (s.with_session(None), Ok(())),
    }
}

/// The refusal of `CloseDevice` for an id the session does not hold.
pub open spec fn unknown_device_error(device_id: u32) -> ErrorView {
    ErrorView::DeviceNotFound("device_id "@ + decimal(device_id as nat))
}

/// `CloseDevice` from `pid`: the device is released.
pub open spec fn close_device_step<F>(s: SeatView<F>, pid: i32, device_id: u32) -> (
    SeatView<F>,
    Result<(), ErrorView>,
) {
    match s.owned_by(pid) {
        Err(e) => (s, Err(e)),
        Ok(ss) => if !ss.devices.contains_key(device_id) {
            (s, Err(unknown_device_error(device_id)))
        } else {
            (
                s.with_session(Some(SessionView { devices: ss.devices.remove(device_id), ..ss })),
                Ok(()),
            )
        },
    }
}

/// `DisableSeat` from `pid`: the owner acknowledges a pending disable and the
/// session becomes inactive.
pub open spec fn disable_seat_step<F>(s: SeatView<F>, pid: i32) -> (SeatView<F>, Result<(), ErrorView>) {
    match s.owned_by(pid) {
        Err(e) => (s, Err(e)),
        Ok(ss) => if !ss.pending_disable {
            (s, Err(ErrorView::InvalidDevice("no pending disable"@)))
        } else {
            (
                s.with_session(Some(SessionView { enabled: false, pending_disable: false, ..ss })),
                Ok(()),
            )
        },
    }
}

/// What switching the VT answered, with a failure taken as its message.
pub open spec fn switched_view(w: Result<(), String>) -> Result<(), Seq<char>> {
    match w {
        Ok(_) => Ok(()),
        Err(m) => Err(m@),
    }
}

/// `SwitchSession` from `pid`, when switching the VT answered `switched`: the
/// owner's switch succeeds or fails as the VT switch did; the seat is unchanged.
pub open spec fn switch_session_step<F>(s: SeatView<F>, pid: i32, switched: Result<(), Seq<char>>) -> (
    SeatView<F>,
    Result<(), ErrorView>,
) {
    match s.owned_by(pid) {
        Err(e) => (s, Err(e)),
        Ok(_) => match switched {
            Ok(_) => (s, Ok(())),
            Err(m) => (s, Err(ErrorView::Io(m))),
        },
    }
}

/// The client `pid` went away: its session, if it owns the seat, ends.
pub open spec fn cleanup_step<F>(s: SeatView<F>, pid: i32) -> SeatView<F> {
    match s.session {
        Some(ss) => if ss.owner_pid == pid {
            s.with_session(None)
        } else {
            s
        },
        None => s,
    }
}

/// A disable is announced to the session: it must acknowledge it.
pub open spec fn begin_disable_step<F>(s: SeatView<F>) -> SeatView<F> {
    match s.session {
        Some(ss) => s.with_session(Some(SessionView { pending_disable: true, ..ss })),
        None => s,
    }
}

/// The session is activated again.
pub open spec fn enable_step<F>(s: SeatView<F>) -> SeatView<F> {
    match s.session {
        Some(ss) => s.with_session(Some(SessionView { enabled: true, ..ss })),
        None => s,
    }
}

impl<F> Session<F> {
    closed spec fn view(&self) -> SessionView<F> {
        SessionView {
            seat_id: self.seat_id,
            owner_pid: self.owner_pid,
            devices: self.devices@.map_values(|d: Device<F>| d@),
            enabled: self.enabled,
            pending_disable: self.pending_disable,
        }
    }
}

impl<F> View for SeatState<F> {
    type V = SeatView<F>;

    closed spec fn view(&self) -> SeatView<F> {
        SeatView {
            session: match self.session {
                Some(ss) => Some(ss.view()),
                None => None,
            },
        }
    }
}

impl<F> SeatState<F> {
    /// Every value of the daemon's state is well formed.
    #[verifier::type_invariant]
    spec fn well_formed(self) -> bool {
        self@.wf()
    }

    /// A seat daemon with no seat open.
    pub fn new() -> (s: Self)
        ensures
            s@ == (SeatView::<F> { session: None }),
    {
        SeatState { session: None }
    }

    fn check_owner(&self, caller_pid: i32) -> (r: Result<(), SeatError>)
        ensures
            match self@.owned_by(caller_pid) {
                Ok(_) => r is Ok,
                Err(e) => r matches Err(x) && x@ == e,
            },
    {
        match &self.session {
            None => Err(SeatError::NoSeat),
            Some(ss) => if ss.owner_pid != caller_pid {
                Err(not_seat_owner())
            } else {
                Ok(())
            },
        }
    }

    /// Opens the seat for `caller_pid` and returns its id.
    pub fn open_seat<A>(&mut self, caller_pid: i32, next_id: A) -> (r: Result<u32, SeatError>) where
        A: FnOnce(IdKind) -> u32,
        requires
            old(self)@.session is None ==> next_id.requires((IdKind::Seat,)),
        ensures
            old(self)@.session is Some ==> (final(self)@, result_view(r)) == open_seat_step(
                old(self)@,
                caller_pid,
                0,
            ),
            old(self)@.session is None ==> exists|id: u32|
                next_id.ensures((IdKind::Seat,), id) && (final(self)@, result_view(r))
                    == open_seat_step(old(self)@, caller_pid, id),
    {
        if self.session.is_some() {
            return Err(SeatError::SeatAlreadyOpen);
        }
        let seat_id = next_id(IdKind::Seat);
        let devices: HashMap<u32, Device<F>> = HashMap::new();
        let session = Session {
            seat_id,
            owner_pid: caller_pid,
            devices,
            enabled: true,
            pending_disable: false,
        };
        assert(session.view().devices =~= Map::empty());
        self.session = Some(session);
        proof {
            assert(next_id.ensures((IdKind::Seat,), seat_id) && (self@, result_view(
                Ok::<u32, SeatError>(seat_id),
            )) == open_seat_step(old(self)@, caller_pid, seat_id));
        }
        Ok(seat_id)
    }
    /// Closes the seat of `caller_pid`, releasing all its devices.
    pub fn close_seat(&mut self, caller_pid: i32) -> (r: Result<(), SeatError>)
        ensures
            (final(self)@, result_view(r)) == close_seat_step(old(self)@, caller_pid),
    {
        self.check_owner(caller_pid)?;
        self.session = None;
        Ok(())
    }

    /// Releases the device `device_id` of the seat of `caller_pid`.
    pub fn close_device(&mut self, caller_pid: i32, device_id: u32) -> (r: Result<(), SeatError>)
        ensures
            (final(self)@, result_view(r)) == close_device_step(old(self)@, caller_pid, device_id),
    {
        proof { use_type_invariant(&*self); }
        self.check_owner(caller_pid)?;
        let mut session: Option<Session<F>> = None;
        std::mem::swap(&mut session, &mut self.session);
        let mut r: Result<(), SeatError> = Ok(());
        match &mut session {
            Some(ss) => {
                let ghost old_devices = ss.devices@;
                let removed = ss.devices.remove(&device_id);
                proof {
                    assert(ss.devices@.map_values(|d: Device<F>| d@) =~= old_devices.map_values(
                        |d: Device<F>| d@,
                    ).remove(device_id));
                }
                if removed.is_none() {
                    proof {
                        assert(ss.devices@.map_values(|d: Device<F>| d@) =~= old_devices.map_values(
                            |d: Device<F>| d@,
                        ));
                    }
                    let mut message = "device_id ".to_string();
                    crate::text::push_decimal(&mut message, device_id);
                    r = Err(SeatError::DeviceNotFound(message));
                }
            },
            None => {},
        }
        self.session = session;
        r
    }

    /// The owner acknowledges a pending disable: the session becomes inactive.
    pub fn disable_seat(&mut self, caller_pid: i32) -> (r: Result<(), SeatError>)
        ensures
            (final(self)@, result_view(r)) == disable_seat_step(old(self)@, caller_pid),
    {
        proof { use_type_invariant(&*self); }
        self.check_owner(caller_pid)?;
        let mut session: Option<Session<F>> = None;
        std::mem::swap(&mut session, &mut self.session);
        let mut r: Result<(), SeatError> = Ok(());
        match &mut session {
            Some(ss) => {
                if ss.pending_disable {
                    ss.enabled = false;
                    ss.pending_disable = false;
                } else {
                    r = Err(SeatError::InvalidDevice("no pending disable".to_string()));
                }
            },
            None => {},
        }
        self.session = session;
        r
    }

    /// A request of `caller_pid` to switch to VT `vt`. Only for the owner is
    /// `switch` asked to switch the VT; it answers success or the failure's message.
    pub fn switch_session<W>(&self, caller_pid: i32, vt: u32, switch: W) -> (r: Result<(), SeatError>) where
        W: FnOnce(u32) -> Result<(), String>,
        requires
            self@.owned_by(caller_pid) is Ok ==> switch.requires((vt,)),
        ensures
            self@.owned_by(caller_pid) matches Err(e) ==> (r matches Err(x) && x@ == e),
            self@.owned_by(caller_pid) is Ok ==> exists|w: Result<(), String>|
                switch.ensures((vt,), w) && (self@, result_view(r)) == switch_session_step(
                    self@,
                    caller_pid,
                    switched_view(w),
                ),
    {
        self.check_owner(caller_pid)?;
        let switched = switch(vt);
        let ghost w = switched;
        let r = match switched {
            Ok(()) => Ok(()),
            Err(message) => Err(SeatError::Io(message)),
        };
        assert(switch.ensures((vt,), w) && (self@, result_view(r)) == switch_session_step(
            self@,
            caller_pid,
            switched_view(w),
        ));
        r
    }

    /// The client `caller_pid` disconnected: its session, if it owns the seat, ends.
    pub fn cleanup_session(&mut self, caller_pid: i32)
        ensures
            final(self)@ == cleanup_step(old(self)@, caller_pid),
    {
        let owned = match &self.session {
            Some(ss) => ss.owner_pid == caller_pid,
            None => false,
        };
        if owned {
            self.session = None;
        }
    }

    /// Marks the session as waiting for the client to acknowledge a disable.
    /// Returns whether there is a session to send the `Disable` event to.
    pub fn begin_disable(&mut self) -> (sent: bool)
        ensures
            final(self)@ == begin_disable_step(old(self)@),
            sent == old(self)@.session is Some,
    {
        proof { use_type_invariant(&*self); }
        let mut session: Option<Session<F>> = None;
        std::mem::swap(&mut session, &mut self.session);
        let sent = match &mut session {
            Some(ss) => {
                ss.pending_disable = true;
                true
            },
            None => false,
        };
        self.session = session;
        sent
    }

    /// Activates the session again. Returns whether there is a session to send
    /// the `Enable` event to (and whose DRM devices take master again).
    pub fn enable(&mut self) -> (sent: bool)
        ensures
            final(self)@ == enable_step(old(self)@),
            sent == old(self)@.session is Some,
    {
        proof { use_type_invariant(&*self); }
        let mut session: Option<Session<F>> = None;
        std::mem::swap(&mut session, &mut self.session);
        let sent = match &mut session {
            Some(ss) => {
                ss.enabled = true;
                true
            },
            None => false,
        };
        self.session = session;
        sent
    }
    /// Opens the device at `path` for the seat of `caller_pid`. `open` is asked
    /// to open the file only when the caller owns the seat and the path is an
    /// allowed device; it answers the handle or the failure's message.
    pub fn open_device<O, A>(&mut self, caller_pid: i32, path: &str, open: O, next_id: A) -> (r: Result<
        OpenedDevice,
        SeatError,
    >) where O: FnOnce(String) -> Result<F, String>, A: FnOnce(IdKind) -> u32
        requires
            forall|p: String|
                p@ == path@ && open_device_refusal(old(self)@, caller_pid, path@) is None
                    ==> open.requires((p,)),
            forall|p: String, fd: F|
                p@ == path@ && open_device_refusal(old(self)@, caller_pid, path@) is None
                    && open.ensures((p,), Ok::<F, String>(fd)) ==> next_id.requires((IdKind::Device,)),
        ensures
            open_device_refusal(old(self)@, caller_pid, path@) matches Some(e) ==> (final(self)@
                == old(self)@ && (r matches Err(x) && x@ == e)),
            open_device_refusal(old(self)@, caller_pid, path@) is None ==> exists|
                p: String,
                o: Result<F, String>,
                id: u32,
            |
                p@ == path@ && open.ensures((p,), o) && (o is Ok ==> next_id.ensures(
                    (IdKind::Device,),
                    id,
                )) && (final(self)@, result_view(r)) == open_device_step(
                    old(self)@,
                    caller_pid,
                    path@,
                    opened_view(o),
                    id,
                ),
    {
        proof { use_type_invariant(&*self); }
        self.check_owner(caller_pid)?;
        if !is_allowed_device(path) {
            let message = "device not allowed: ".to_string().concat(path_debug(path).as_str());
            return Err(SeatError::InvalidDevice(message));
        }
        let arg = path.to_string();
        let ghost arg_view = arg;
        let opened = open(arg);
        let ghost opened_copy = opened;
        let fd = match opened {
            Ok(fd) => fd,
            Err(e) => {
                let message = path.to_string().concat(": ").concat(e.as_str());
                let ghost id: u32 = 0;
                assert(arg_view@ == path@ && open.ensures((arg_view,), opened_copy));
                assert((self@, result_view(Err::<OpenedDevice, SeatError>(SeatError::DeviceNotFound(message))))
                    == open_device_step(old(self)@, caller_pid, path@, opened_view(opened_copy), id));
                return Err(SeatError::DeviceNotFound(message));
            },
        };
        let device_id = next_id(IdKind::Device);
        let is_drm = is_drm_device(path);
        let mut set_master = false;
        let mut session: Option<Session<F>> = None;
        std::mem::swap(&mut session, &mut self.session);
        match &mut session {
            Some(ss) => {
                set_master = is_drm && ss.enabled;
                let ghost old_devices = ss.devices@;
                let device = Device { fd, path: path.to_string(), is_drm };
                let ghost dv = device@;
                ss.devices.insert(device_id, device);
                proof {
                    assert(ss.devices@.map_values(|d: Device<F>| d@) =~= old_devices.map_values(
                        |d: Device<F>| d@,
                    ).insert(device_id, dv));
                }
            },
            None => {},
        }
        self.session = session;
        assert(arg_view@ == path@ && open.ensures((arg_view,), opened_copy));
        let r = OpenedDevice { device_id, set_master };
        assert(next_id.ensures((IdKind::Device,), device_id));
        assert((self@, result_view(Ok::<OpenedDevice, SeatError>(r))) == open_device_step(
            old(self)@,
            caller_pid,
            path@,
            opened_view(opened_copy),
            device_id,
        ));
        Ok(r)
    }
    /// The ids of the DRM devices of the session, each once, in the order the
    /// device table yields them.
    pub fn drm_device_ids(&self) -> (ids: Vec<u32>)
        ensures
            ids@.no_duplicates(),
            forall|id: u32| ids@.contains(id) <==> drm_device_set(self@).contains(id),
    {
        let mut ids: Vec<u32> = Vec::new();
        match &self.session {
            None => {},
            Some(ss) => {
                let ghost m = ss.devices@;
                for id in it: ss.devices.keys()
                    invariant
                        ss.devices@ == m,
                        it.seq().unref().to_set() == m.dom(),
                        it.seq().unref().no_duplicates(),
                        ids@.no_duplicates(),
                        forall|j: int| 0 <= j < ids.len() ==> m.contains_key(#[trigger] ids@[j]) && m[ids@[j]].is_drm,
                        forall|j: int| 0 <= j < ids.len() ==> it.seq().unref().take(it.index() as int).contains(#[trigger] ids@[j]),
                        forall|k: int| 0 <= k < it.index() && m.contains_key(*it.seq()[k]) && m[*it.seq()[k]].is_drm ==> ids@.contains(*it.seq()[k]),
                    ensures
                        forall|x: u32| ids@.contains(x) <==> m.contains_key(x) && m[x].is_drm,
                {
                    let key = *id;
                    let ghost idx = it.index();
                    let ghost old_ids = ids@;
                    match ss.devices.get(&key) {
                        Some(d) => {
                            if d.is_drm {
                                ids.push(key);
                                assert(ids@[old_ids.len() as int] == key);
                            }
                        },
                        None => {},
                    }
                    assert forall|j: int| 0 <= j < ids.len() implies it.seq().unref().take(idx + 1).contains(
                        #[trigger] ids@[j],
                    ) by {
                        if j < old_ids.len() {
                            let k = choose|k: int|
                                0 <= k < idx && it.seq().unref().take(idx as int)[k] == old_ids[j];
                            assert(it.seq().unref().take(idx + 1)[k] == ids@[j]);
                        } else {
                            assert(it.seq().unref().take(idx + 1)[idx as int] == ids@[j]);
                        }
                    }
                    assert forall|k: int|
                        0 <= k < idx + 1 && m.contains_key(*it.seq()[k]) && m[*it.seq()[k]].is_drm
                        implies ids@.contains(*it.seq()[k]) by {
                        if k < idx {
                            let x = *it.seq()[k];
                            let j = choose|j: int| 0 <= j < old_ids.len() && old_ids[j] == x;
                            assert(ids@[j] == x);
                        }
                    }
                }

            },
        }
        ids
    }
    /// The device `device_id` of the session, if the session holds it.
    pub fn device(&self, device_id: u32) -> (d: Option<&Device<F>>)
        ensures
            match d {
                Some(d) => self@.session matches Some(ss) && ss.devices.contains_key(device_id)
                    && ss.devices[device_id] == d@,
                None => !(self@.session matches Some(ss) && ss.devices.contains_key(device_id)),
            },
    {
        match &self.session {
            Some(ss) => ss.devices.get(&device_id),
            None => None,
        }
    }

    /// The id of the open seat, if any.
    pub fn seat_id(&self) -> (id: Option<u32>)
        ensures
            match self@.session {
                Some(ss) => id == Some(ss.seat_id),
                None => id is None,
            },
    {
        match &self.session {
            Some(ss) => Some(ss.seat_id),
            None => None,
        }
    }

    /// Decides a request from the client `caller_pid`. Opening a device asks
    /// `open` for the file, switching the session asks `switch` to switch the
    /// VT, each only when nothing refuses the request beforehand; a new seat or
    /// a device that was opened gets its id from `next_id`. The reply says
    /// what to answer and what else to do.
    pub fn handle_request<O, W, A>(
        &mut self,
        caller_pid: i32,
        request: Request,
        open: O,
        switch: W,
        next_id: A,
    ) -> (reply: Reply) where
        O: FnOnce(String) -> Result<F, String>,
        W: FnOnce(u32) -> Result<(), String>,
        A: FnOnce(IdKind) -> u32,
        requires
            forall|p: String|
                opens_device(old(self)@, caller_pid, request@) && p@ == request@->path
                    ==> open.requires((p,)),
            forall|p: String, fd: F|
                opens_device(old(self)@, caller_pid, request@) && p@ == request@->path
                    && open.ensures((p,), Ok::<F, String>(fd)) ==> next_id.requires((IdKind::Device,)),
            switches_vt(old(self)@, caller_pid, request@) ==> switch.requires((request@->vt,)),
            allocates_seat(old(self)@, request@) ==> next_id.requires((IdKind::Seat,)),
        ensures
            exists|o: Result<F, Seq<char>>, w: Result<(), Seq<char>>, id: u32|
                #![trigger request_step(old(self)@, caller_pid, request@, o, w, id)]
                (final(self)@, reply@) == request_step(old(self)@, caller_pid, request@, o, w, id)
                    && (opens_device(old(self)@, caller_pid, request@) ==> exists|
                    p: String,
                    oe: Result<F, String>,
                |
                    p@ == request@->path && open.ensures((p,), oe) && opened_view(oe) == o && (
                    oe is Ok ==> next_id.ensures((IdKind::Device,), id)))
                    && (switches_vt(old(self)@, caller_pid, request@) ==> exists|we: Result<(), String>|
                    switch.ensures((request@->vt,), we) && switched_view(we) == w)
                    && (allocates_seat(old(self)@, request@) ==> next_id.ensures((IdKind::Seat,), id)),
    {
        let ghost old_view = self@;
        match request {
            Request::OpenSeat => {
                let r = self.open_seat(caller_pid, next_id);
                let message = match r {
                    Ok(seat_id) => ServerMessage::Response(Response::SeatOpened { seat_id }),
                    Err(e) => error_reply_message(&e),
                };
                let reply = plain(message);
                proof {
                    let o: Result<F, Seq<char>> = Err(Seq::empty());
                    let w: Result<(), Seq<char>> = Ok(());
                    if old_view.session is None {
                        let id = choose|id: u32|
                            next_id.ensures((IdKind::Seat,), id) && (self@, result_view(r))
                                == open_seat_step(old_view, caller_pid, id);
                        assert((self@, reply@) == request_step(old_view, caller_pid, request@, o, w, id));
                    } else {
                        assert((self@, reply@) == request_step(old_view, caller_pid, request@, o, w, 0));
                    }
                }
                reply
            },
            Request::CloseSeat => {
                let r = self.close_seat(caller_pid);
                let closed = r.is_ok();
                let mut reply = unit(r, Response::SeatClosed);
                reply.close_connection = closed;
                proof { witness_step(old_view, caller_pid, request@, self@, reply@); }
                reply
            },
            Request::OpenDevice { path } => {
                let r = self.open_device(caller_pid, path.as_str(), open, next_id);
                let reply = match r {
                    Ok(o) => Reply {
                        message: ServerMessage::Response(Response::DeviceOpened { device_id: o.device_id }),
                        fd_device: Some(o.device_id),
                        master: if o.set_master {
                            MasterAction::Acquire { device_id: o.device_id }
                        } else {
                            MasterAction::Keep
                        },
                        close_connection: false,
                    },
                    Err(e) => plain(error_reply_message(&e)),
                };
                proof {
                    if open_device_refusal(old_view, caller_pid, path@) is None {
                        let (p, oe, id) = choose|p: String, oe: Result<F, String>, id: u32|
                            p@ == path@ && open.ensures((p,), oe) && (oe is Ok ==> next_id.ensures(
                                (IdKind::Device,),
                                id,
                            )) && (self@, result_view(r)) == open_device_step(
                                old_view,
                                caller_pid,
                                path@,
                                opened_view(oe),
                                id,
                            );
                        let w: Result<(), Seq<char>> = Ok(());
                        assert((self@, reply@) == request_step(old_view, caller_pid, request@, opened_view(oe), w, id));
                    } else {
                        witness_step(old_view, caller_pid, request@, self@, reply@);
                    }
                }
                reply
            },
            Request::CloseDevice { device_id } => {
                let r = self.close_device(caller_pid, device_id);
                let reply = unit(r, Response::DeviceClosed);
                proof { witness_step(old_view, caller_pid, request@, self@, reply@); }
                reply
            },
            Request::DisableSeat => {
                let r = self.disable_seat(caller_pid);
                let disabled = r.is_ok();
                let mut reply = unit(r, Response::SeatDisabled);
                if disabled {
                    reply.master = MasterAction::ReleaseAll;
                }
                proof { witness_step(old_view, caller_pid, request@, self@, reply@); }
                reply
            },
            Request::SwitchSession { vt } => {
                let r = self.switch_session(caller_pid, vt, switch);
                let reply = unit(r, Response::SessionSwitched);
                proof {
                    if old_view.owned_by(caller_pid) is Ok {
                        let we = choose|we: Result<(), String>|
                            switch.ensures((vt,), we) && (self@, result_view(r))
                                == switch_session_step(old_view, caller_pid, switched_view(we));
                        let o: Result<F, Seq<char>> = Err(Seq::empty());
                        assert((self@, reply@) == request_step(old_view, caller_pid, request@, o, switched_view(we), 0));
                    } else {
                        witness_step(old_view, caller_pid, request@, self@, reply@);
                    }
                }
                reply
            },
            Request::Ping => {
                let reply = plain(ServerMessage::Response(Response::Pong));
                proof { witness_step(old_view, caller_pid, request@, self@, reply@); }
                reply
            },
        }
    }
}

/// The message that answers a refused request.
fn error_reply_message(e: &SeatError) -> (m: ServerMessage)
    ensures
        m@ == error_answer(e@),
{
    ServerMessage::Response(Response::Error { message: e.message() })
}

fn plain(message: ServerMessage) -> (r: Reply)
    ensures
        r@ == message_reply(message@),
{
    Reply { message, fd_device: None, master: MasterAction::Keep, close_connection: false }
}

fn unit(r: Result<(), SeatError>, ok: Response) -> (reply: Reply)
    ensures
        reply@ == unit_reply(result_view(r), ok@),
{
    match r {
        Ok(()) => plain(ServerMessage::Response(ok)),
        Err(e) => plain(error_reply_message(&e)),
    }
}

/// For a request that neither opens a file, switches the VT nor asks for an
/// id, the step does not depend on what those would have answered.
proof fn witness_step<F>(s: SeatView<F>, pid: i32, req: RequestView, s2: SeatView<F>, r: ReplyView)
    requires
        !opens_device(s, pid, req),
        !switches_vt(s, pid, req),
        !allocates_seat(s, req),
        forall|o: Result<F, Seq<char>>, w: Result<(), Seq<char>>, id: u32|
            (s2, r) == request_step(s, pid, req, o, w, id),
    ensures
        exists|o: Result<F, Seq<char>>, w: Result<(), Seq<char>>, id: u32|
            #![trigger request_step(s, pid, req, o, w, id)]
            (s2, r) == request_step(s, pid, req, o, w, id),
{
    let o: Result<F, Seq<char>> = Err(Seq::empty());
    let w: Result<(), Seq<char>> = Ok(());
    assert((s2, r) == request_step(s, pid, req, o, w, 0));
}

} // verus!
