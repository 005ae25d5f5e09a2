//! The command line: which command the arguments name, and what is printed
//! for what the command answered.
use crate::error::{error_message, result_view, ErrorView, SeatError};
use crate::text::{decimal, decimal_u32, parse_u32, push_decimal, str_equal};
use vstd::prelude::*;

verus! {

/// The commands the program carries out. The daemon implements them with the
/// client calls and the server; tests implement them with fakes.
///
/// `permits` says which command this object may be asked to carry out; each
/// method may only be called for the command it carries out. The `*_answers`
/// relations name what a method answered, for the argument it was given. Their
/// defaults admit every command and every answer; an implementation may
/// narrow them. Code generic over `Commands` does not see them, so there a
/// method can only be called for a command known to be permitted.
pub trait Commands {
    open spec fn permits(&self, cmd: CommandView) -> bool {
        true
    }

    open spec fn run_server_answers(&self, r: Result<(), ErrorView>) -> bool {
        true
    }

    open spec fn open_seat_answers(&self, r: Result<u32, ErrorView>) -> bool {
        true
    }

    open spec fn close_seat_answers(&self, r: Result<(), ErrorView>) -> bool {
        true
    }

    open spec fn open_device_answers(&self, path: Seq<char>, r: Result<(u32, Seq<char>), ErrorView>) -> bool {
        true
    }

    open spec fn close_device_answers(&self, device_id: u32, r: Result<(), ErrorView>) -> bool {
        true
    }

    open spec fn ping_answers(&self, r: Result<(), ErrorView>) -> bool {
        true
    }

    fn run_server(&self) -> (r: Result<(), SeatError>)
        requires
            self.permits(CommandView::Server),
        ensures
            self.run_server_answers(result_view(r)),
    ;

    fn open_seat(&self) -> (r: Result<u32, SeatError>)
        requires
            self.permits(CommandView::OpenSeat),
        ensures
            self.open_seat_answers(result_view(r)),
    ;

    fn close_seat(&self) -> (r: Result<(), SeatError>)
        requires
            self.permits(CommandView::CloseSeat),
        ensures
            self.close_seat_answers(result_view(r)),
    ;

    /// Opens the device at `path`; answers its id and a rendering of its handle.
    fn open_device(&self, path: &str) -> (r: Result<(u32, String), SeatError>)
        requires
            self.permits(CommandView::OpenDevice(path@)),
        ensures
            self.open_device_answers(path@, device_result_view(r)),
    ;

    fn close_device(&self, device_id: u32) -> (r: Result<(), SeatError>)
        requires
            self.permits(CommandView::CloseDevice(device_id)),
        ensures
            self.close_device_answers(device_id, result_view(r)),
    ;

    fn ping(&self) -> (r: Result<(), SeatError>)
        requires
            self.permits(CommandView::Ping),
        ensures
            self.ping_answers(result_view(r)),
    ;
}

/// An `open-device` answer with the handle's rendering taken as text.
pub open spec fn device_result_view(r: Result<(u32, String), SeatError>) -> Result<(u32, Seq<char>), ErrorView> {
    match r {
        Ok(d) => Ok((d.0, d.1@)),
        Err(e) => Err(e@),
    }
}

/// What the program prints.
#[derive(Debug, PartialEq, Eq)]
pub enum Outcome {
    Stdout(String),
    Stderr(String),
    Usage,
}

/// What the program prints, as a mathematical value.
pub enum OutcomeView {
    Stdout(Seq<char>),
    Stderr(Seq<char>),
    Usage,
}

impl View for Outcome {
    type V = OutcomeView;

    open spec fn view(&self) -> OutcomeView {
        match self {
            Outcome::Stdout(s) => OutcomeView::Stdout(s@),
            Outcome::Stderr(s) => OutcomeView::Stderr(s@),
            Outcome::Usage => OutcomeView::Usage,
        }
    }
}

/// A command named on the command line, with its argument.
pub enum CommandView {
    Server,
    OpenSeat,
    CloseSeat,
    OpenDevice(Seq<char>),
    CloseDevice(u32),
    Ping,
}

pub open spec fn open_device_usage() -> Seq<char> {
    "Usage: seatd open-device <path>"@
}

pub open spec fn close_device_usage() -> Seq<char> {
    "Usage: seatd close-device <device_id>"@
}

/// The command that the arguments name (the first is the program's name), or
/// what is printed instead of running one.
pub open spec fn parse_args(args: Seq<Seq<char>>) -> Result<CommandView, OutcomeView> {
    if args.len() < 2 {
        Err(OutcomeView::Usage)
    } else {
        let c = args[1];
        if c == "server"@ {
            Ok(CommandView::Server)
        } else if c == "open-seat"@ {
            Ok(CommandView::OpenSeat)
        } else if c == "close-seat"@ {
            Ok(CommandView::CloseSeat)
        } else if c == "open-device"@ {
            if args.len() < 3 {
                Err(OutcomeView::Stderr(open_device_usage()))
            } else {
                Ok(CommandView::OpenDevice(args[2]))
            }
        } else if c == "close-device"@ {
            if args.len() < 3 {
                Err(OutcomeView::Stderr(close_device_usage()))
            } else {
                match decimal_u32(args[2]) {
                    Some(id) => Ok(CommandView::CloseDevice(id)),
                    None => Err(OutcomeView::Stderr("Invalid device ID"@)),
                }
            }
        } else if c == "ping"@ {
            Ok(CommandView::Ping)
        } else {
            Err(OutcomeView::Usage)
        }
    }
}

/// What is printed for a command that failed with `e`.
pub open spec fn error_outcome(e: ErrorView) -> OutcomeView {
    OutcomeView::Stderr("Error: "@ + error_message(e))
}

/// What is printed for a command without a value: `text`, or the error.
pub open spec fn unit_answer(r: Result<(), ErrorView>, text: Seq<char>) -> OutcomeView {
    match r {
        Ok(_) => OutcomeView::Stdout(text),
        Err(e) => error_outcome(e),
    }
}

/// What is printed for `open-seat`'s answer.
pub open spec fn seat_answer(r: Result<u32, ErrorView>) -> OutcomeView {
    match r {
        Ok(id) => OutcomeView::Stdout(seat_opened_text(id)),
        Err(e) => error_outcome(e),
    }
}

/// What is printed for `open-device`'s answer: the device id and the handle's rendering.
pub open spec fn device_answer(r: Result<(u32, Seq<char>), ErrorView>) -> OutcomeView {
    match r {
        Ok(d) => OutcomeView::Stdout(device_opened_text(d.0, d.1)),
        Err(e) => error_outcome(e),
    }
}

pub open spec fn seat_opened_text(seat_id: u32) -> Seq<char> {
    "Seat opened: "@ + decimal(seat_id as nat)
}

pub open spec fn device_opened_text(device_id: u32, fd: Seq<char>) -> Seq<char> {
    "Device opened: id="@ + decimal(device_id as nat) + " fd="@ + fd
}

pub open spec fn device_closed_text(device_id: u32) -> Seq<char> {
    "Device "@ + decimal(device_id as nat) + " closed"@
}

/// `out` is what is printed for the answer that `commands` gave when it
/// carried out `cmd`, with `cmd`'s argument.
pub open spec fn printed_answer<C: Commands>(commands: &C, cmd: CommandView, out: OutcomeView) -> bool {
    match cmd {
        CommandView::Server => exists|r: Result<(), ErrorView>|
            #[trigger] commands.run_server_answers(r) && out == unit_answer(r, "Server stopped"@),
        CommandView::OpenSeat => exists|r: Result<u32, ErrorView>|
            #[trigger] commands.open_seat_answers(r) && out == seat_answer(r),
        CommandView::CloseSeat => exists|r: Result<(), ErrorView>|
            #[trigger] commands.close_seat_answers(r) && out == unit_answer(r, "Seat closed"@),
        CommandView::OpenDevice(path) => printed_device_answer(commands, path, out),
        CommandView::CloseDevice(id) => exists|r: Result<(), ErrorView>|
            #[trigger] commands.close_device_answers(id, r) && out == unit_answer(
                r,
                device_closed_text(id),
            ),
        CommandView::Ping => exists|r: Result<(), ErrorView>|
            #[trigger] commands.ping_answers(r) && out == unit_answer(r, "Pong!"@),
    }
}

/// `out` is what is printed for the answer that `commands` gave when it
/// opened the device at `path`.
pub open spec fn printed_device_answer<C: Commands>(commands: &C, path: Seq<char>, out: OutcomeView) -> bool {
    exists|r: Result<(u32, Seq<char>), ErrorView>|
        #[trigger] commands.open_device_answers(path, r) && out == device_answer(r)
}

/// `commands` may carry out the command that the arguments name, if they name one.
pub open spec fn permits_named<C: Commands>(commands: &C, args: Seq<Seq<char>>) -> bool {
    forall|c: CommandView|
        parse_args(args) == Ok::<CommandView, OutcomeView>(c) ==> #[trigger] commands.permits(c)
}

pub(crate) proof fn lemma_command_names()
    ensures
        "open-device"@ != "server"@,
        "open-device"@ != "open-seat"@,
        "open-device"@ != "close-seat"@,
        "close-device"@ != "server"@,
        "close-device"@ != "open-seat"@,
        "close-device"@ != "close-seat"@,
        "close-device"@ != "open-device"@,
{
    reveal_strlit("server");
    reveal_strlit("open-seat");
    reveal_strlit("close-seat");
    reveal_strlit("open-device");
    reveal_strlit("close-device");
    assert("open-device"@[0] != "server"@[0]);
    assert("open-device"@[0] != "close-seat"@[0]);
    assert("open-device"@.len() != "open-seat"@.len());
    assert("close-device"@[0] != "server"@[0]);
    assert("close-device"@[0] != "open-seat"@[0]);
    assert("close-device"@.len() != "close-seat"@.len());
    assert("close-device"@[0] != "open-device"@[0]);
}

/// The arguments' texts.
pub open spec fn args_view(args: &[String]) -> Seq<Seq<char>> {
    args@.map_values(|a: String| a@)
}

/// What is printed for a command's answer: the text `success` makes of its
/// value, or `Error: ` and the error's message.
pub fn result_to_outcome<T, S>(result: Result<T, SeatError>, success: S) -> (out: Outcome) where
    S: FnOnce(T) -> String,
    requires
        forall|v: T| success.requires((v,)),
    ensures
        match result {
            Ok(v) => exists|s: String| success.ensures((v,), s) && out@ == OutcomeView::Stdout(s@),
            Err(e) => out@ == error_outcome(e@),
        },
{
    match result {
        Ok(value) => Outcome::Stdout(success(value)),
        Err(error) => Outcome::Stderr("Error: ".to_string().concat(error.message().as_str())),
    }
}

fn seat_opened_line(seat_id: u32) -> (s: String)
    ensures
        s@ == seat_opened_text(seat_id),
{
    let mut s = "Seat opened: ".to_string();
    push_decimal(&mut s, seat_id);
    s
}

fn device_opened_line(d: (u32, String)) -> (s: String)
    ensures
        s@ == device_opened_text(d.0, d.1@),
{
    let mut s = "Device opened: id=".to_string();
    push_decimal(&mut s, d.0);
    s.append(" fd=");
    s.append(d.1.as_str());
    s
}

fn unit_outcome(result: Result<(), SeatError>, text: &str) -> (out: Outcome)
    ensures
        out@ == unit_answer(result_view(result), text@),
{
    result_to_outcome(result, |u: ()| -> (s: String) ensures s@ == text@ { text.to_string() })
}

/// Runs `open-device` with the arguments' path.
fn open_device<C: Commands>(args: &[String], commands: &C) -> (out: Outcome)
    requires
        args@.len() >= 2,
        args@[1]@ == "open-device"@,
        permits_named(commands, args_view(args)),
    ensures
        match parse_args(args_view(args)) {
            Err(o) => out@ == o,
            Ok(cmd) => printed_answer(commands, cmd, out@),
        },
{
    proof {
        lemma_command_names();
        assert(args_view(args)[1] == args@[1]@);
        assert(args_view(args).len() == args@.len());
    }
    if args.len() < 3 {
        return Outcome::Stderr("Usage: seatd open-device <path>".to_string());
    }
    assert(args_view(args)[2] == args@[2]@);
    assert(commands.permits(CommandView::OpenDevice(args@[2]@)));
    let result = commands.open_device(args[2].as_str());
    let out = result_to_outcome(result, device_opened_line);
    assert(commands.open_device_answers(args_view(args)[2], device_result_view(result)));
    out
}

/// Runs `close-device` with the arguments' device id.
fn close_device<C: Commands>(args: &[String], commands: &C) -> (out: Outcome)
    requires
        args@.len() >= 2,
        args@[1]@ == "close-device"@,
        permits_named(commands, args_view(args)),
    ensures
        match parse_args(args_view(args)) {
            Err(o) => out@ == o,
            Ok(cmd) => printed_answer(commands, cmd, out@),
        },
{
    proof {
        lemma_command_names();
        assert(args_view(args)[1] == args@[1]@);
        assert(args_view(args).len() == args@.len());
    }
    if args.len() < 3 {
        return Outcome::Stderr("Usage: seatd close-device <device_id>".to_string());
    }
    assert(args_view(args)[2] == args@[2]@);
    match parse_u32(args[2].as_str()) {
        Some(device_id) => {
            assert(commands.permits(CommandView::CloseDevice(device_id)));
            let result = commands.close_device(device_id);
            let mut text = "Device ".to_string();
            push_decimal(&mut text, device_id);
            text.append(" closed");
            let out = unit_outcome(result, text.as_str());
            assert(commands.close_device_answers(device_id, result_view(result)));
            out
        },
        None => Outcome::Stderr("Invalid device ID".to_string()),
    }
}

/// Carries out the command that the arguments name (the first argument is the
/// program's name) and says what to print: the command is asked once, with the
/// argument the arguments give, and what it answered is printed; where the
/// arguments name no command, nothing is asked.
pub fn dispatch<C: Commands>(args: &[String], commands: &C) -> (out: Outcome)
    requires
        permits_named(commands, args_view(args)),
    ensures
        match parse_args(args_view(args)) {
            Err(o) => out@ == o,
            Ok(cmd) => printed_answer(commands, cmd, out@),
        },
{
    if args.len() < 2 {
        return Outcome::Usage;
    }
    let command = args[1].as_str();
    assert(args_view(args)[1] == args@[1]@);
    if str_equal(command, "server") {
        assert(commands.permits(CommandView::Server));
        let result = commands.run_server();
        let out = unit_outcome(result, "Server stopped");
        assert(commands.run_server_answers(result_view(result)));
        out
    } else if str_equal(command, "open-seat") {
        assert(commands.permits(CommandView::OpenSeat));
        let result = commands.open_seat();
        let out = result_to_outcome(result, seat_opened_line);
        assert(commands.open_seat_answers(result_view(result)) && seat_answer(result_view(result)) == out@);
        out
    } else if str_equal(command, "close-seat") {
        assert(commands.permits(CommandView::CloseSeat));
        let result = commands.close_seat();
        let out = unit_outcome(result, "Seat closed");
        assert(commands.close_seat_answers(result_view(result)));
        out
    } else if str_equal(command, "open-device") {
        open_device(args, commands)
    } else if str_equal(command, "close-device") {
        close_device(args, commands)
    } else if str_equal(command, "ping") {
        assert(commands.permits(CommandView::Ping));
        let result = commands.ping();
        let out = unit_outcome(result, "Pong!");
        assert(commands.ping_answers(result_view(result)));
        out
    } else {
        Outcome::Usage
    }
}

} // verus!


