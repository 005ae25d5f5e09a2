use seatd::cli::{dispatch, result_to_outcome, Commands, Outcome};
use seatd::SeatError;
use std::cell::RefCell;
use std::path::PathBuf;

#[derive(Default)]
struct FakeCommands {
    calls: RefCell<Vec<String>>,
    error: Option<SeatError>,
}

impl FakeCommands {
    fn calls(&self) -> Vec<String> {
        self.calls.borrow().clone()
    }

    fn result<T>(&self, value: T) -> Result<T, SeatError> {
        match &self.error {
            Some(error) => Err(SeatError::PermissionDenied(error.message())),
            None => Ok(value),
        }
    }
}

impl Commands for FakeCommands {
    fn run_server(&self) -> Result<(), SeatError> {
        self.calls.borrow_mut().push("server".to_string());
        self.result(())
    }

    fn open_seat(&self) -> Result<u32, SeatError> {
        self.calls.borrow_mut().push("open-seat".to_string());
        self.result(42)
    }

    fn close_seat(&self) -> Result<(), SeatError> {
        self.calls.borrow_mut().push("close-seat".to_string());
        self.result(())
    }

    fn open_device(&self, path: &str) -> Result<(u32, String), SeatError> {
        self.calls.borrow_mut().push(format!("open-device:{}", path));
        self.result((7, "fd(3)".to_string()))
    }

    fn close_device(&self, device_id: u32) -> Result<(), SeatError> {
        self.calls
            .borrow_mut()
            .push(format!("close-device:{device_id}"));
        self.result(())
    }

    fn ping(&self) -> Result<(), SeatError> {
        self.calls.borrow_mut().push("ping".to_string());
        self.result(())
    }
}

fn args(values: &[&str]) -> Vec<String> {
    values.iter().map(|value| value.to_string()).collect()
}

#[test]
fn dispatch_without_command_prints_usage() {
    let commands = FakeCommands::default();

    assert_eq!(dispatch(&args(&["seatd"]), &commands), Outcome::Usage);
    assert!(commands.calls().is_empty());
}

#[test]
fn dispatch_unknown_command_prints_usage() {
    let commands = FakeCommands::default();

    assert_eq!(
        dispatch(&args(&["seatd", "bogus"]), &commands),
        Outcome::Usage
    );
    assert!(commands.calls().is_empty());
}

#[test]
fn dispatch_runs_simple_commands() {
    let commands = FakeCommands::default();

    assert_eq!(
        dispatch(&args(&["seatd", "open-seat"]), &commands),
        Outcome::Stdout("Seat opened: 42".to_string())
    );
    assert_eq!(
        dispatch(&args(&["seatd", "close-seat"]), &commands),
        Outcome::Stdout("Seat closed".to_string())
    );
    assert_eq!(
        dispatch(&args(&["seatd", "ping"]), &commands),
        Outcome::Stdout("Pong!".to_string())
    );
    assert_eq!(commands.calls(), vec!["open-seat", "close-seat", "ping"]);
}

#[test]
fn dispatch_runs_server() {
    let commands = FakeCommands::default();

    assert_eq!(
        dispatch(&args(&["seatd", "server"]), &commands),
        Outcome::Stdout("Server stopped".to_string())
    );
    assert_eq!(commands.calls(), vec!["server"]);
}

#[test]
fn dispatch_opens_device() {
    let commands = FakeCommands::default();

    assert_eq!(
        dispatch(&args(&["seatd", "open-device", "/dev/tty1"]), &commands),
        Outcome::Stdout("Device opened: id=7 fd=fd(3)".to_string())
    );
    assert_eq!(commands.calls(), vec!["open-device:/dev/tty1"]);
}

#[test]
fn dispatch_requires_open_device_path() {
    let commands = FakeCommands::default();

    assert_eq!(
        dispatch(&args(&["seatd", "open-device"]), &commands),
        Outcome::Stderr("Usage: seatd open-device <path>".to_string())
    );
    assert!(commands.calls().is_empty());
}

#[test]
fn dispatch_closes_device() {
    let commands = FakeCommands::default();

    assert_eq!(
        dispatch(&args(&["seatd", "close-device", "9"]), &commands),
        Outcome::Stdout("Device 9 closed".to_string())
    );
    assert_eq!(commands.calls(), vec!["close-device:9"]);
}

#[test]
fn dispatch_rejects_invalid_close_device_id() {
    let commands = FakeCommands::default();

    assert_eq!(
        dispatch(&args(&["seatd", "close-device", "not-a-number"]), &commands),
        Outcome::Stderr("Invalid device ID".to_string())
    );
    assert!(commands.calls().is_empty());
}

#[test]
fn dispatch_requires_close_device_id() {
    let commands = FakeCommands::default();

    assert_eq!(
        dispatch(&args(&["seatd", "close-device"]), &commands),
        Outcome::Stderr("Usage: seatd close-device <device_id>".to_string())
    );
    assert!(commands.calls().is_empty());
}

#[test]
fn dispatch_reports_command_errors() {
    let commands = FakeCommands {
        calls: RefCell::new(Vec::new()),
        error: Some(SeatError::PermissionDenied("denied".to_string())),
    };

    assert_eq!(
        dispatch(&args(&["seatd", "ping"]), &commands),
        Outcome::Stderr("Error: permission denied: permission denied: denied".to_string())
    );
    assert_eq!(commands.calls(), vec!["ping"]);
}

#[test]
fn fake_open_device_records_owned_path() {
    let commands = FakeCommands::default();
    let path = PathBuf::from("/dev/input/event0");

    assert_eq!(
        commands.open_device(path.to_str().unwrap()).unwrap(),
        (7, "fd(3)".to_string())
    );
    assert_eq!(commands.calls(), vec!["open-device:/dev/input/event0"]);
}

#[test]
fn dispatch_close_device_accepts_plus_sign_and_leading_zeros() {
    let commands = FakeCommands::default();

    assert_eq!(
        dispatch(&args(&["seatd", "close-device", "+0012"]), &commands),
        Outcome::Stdout("Device 12 closed".to_string())
    );
    assert_eq!(commands.calls(), vec!["close-device:12"]);
}

#[test]
fn dispatch_rejects_out_of_range_and_signed_ids() {
    let commands = FakeCommands::default();

    for id in ["4294967296", "-1", "+", ""] {
        assert_eq!(
            dispatch(&args(&["seatd", "close-device", id]), &commands),
            Outcome::Stderr("Invalid device ID".to_string())
        );
    }
    assert_eq!(
        dispatch(&args(&["seatd", "close-device", "4294967295"]), &commands),
        Outcome::Stdout("Device 4294967295 closed".to_string())
    );
    assert_eq!(commands.calls(), vec!["close-device:4294967295"]);
}

#[test]
fn dispatch_reports_each_error_kind() {
    let cases = [
        (SeatError::NoSeat, "Error: permission denied: no active seat"),
        (SeatError::SeatAlreadyOpen, "Error: permission denied: seat already open"),
        (
            SeatError::DeviceNotFound("x".to_string()),
            "Error: permission denied: device not found: x",
        ),
        (
            SeatError::InvalidDevice("y".to_string()),
            "Error: permission denied: invalid device: y",
        ),
        (SeatError::Io("z".to_string()), "Error: permission denied: io: z"),
        (SeatError::Ipc("w".to_string()), "Error: permission denied: ipc: w"),
    ];
    for (error, expected) in cases {
        let commands = FakeCommands {
            calls: RefCell::new(Vec::new()),
            error: Some(error),
        };
        assert_eq!(
            dispatch(&args(&["seatd", "open-seat"]), &commands),
            Outcome::Stderr(expected.to_string())
        );
    }
}

#[test]
fn result_to_outcome_formats_both_cases() {
    assert_eq!(
        result_to_outcome(Ok(5u32), |v: u32| format!("v={v}")),
        Outcome::Stdout("v=5".to_string())
    );
    assert_eq!(
        result_to_outcome(Err::<u32, _>(SeatError::NoSeat), |v: u32| format!("v={v}")),
        Outcome::Stderr("Error: no active seat".to_string())
    );
}
