use cspice::error::{
    CheckStep, ErrorAction, ErrorDevice, ErrorQuery, MessageKind, NativeReply,
    ERROR_ACTION_CAPACITY, ERROR_DEVICE_CAPACITY, EXPLANATION_CAPACITY, LONG_MESSAGE_CAPACITY,
    SHORT_MESSAGE_CAPACITY, TRACEBACK_CAPACITY,
};
use cspice::{Error, Spice, SpiceLock};

fn token(lock: &mut SpiceLock) -> Spice {
    lock.try_acquire(1).unwrap().spice
}

/// A native buffer of `capacity` bytes holding `text` and a nul, as the native side fills it.
fn filled(text: &str, capacity: usize) -> Vec<u8> {
    let mut buffer = vec![0u8; capacity];
    buffer[..text.len()].copy_from_slice(text.as_bytes());
    buffer
}

/// The native side as far as the error check sees it: a failure flag and the diagnostics.
struct FakeNative {
    failed: bool,
    short: &'static str,
    explain: &'static str,
    long: &'static str,
    trace: &'static str,
    calls: Vec<ErrorQuery>,
}

impl FakeNative {
    fn failing(short: &'static str) -> FakeNative {
        FakeNative {
            failed: true,
            short,
            explain: "explanation",
            long: "long message",
            trace: "furnsh_c",
            calls: Vec::new(),
        }
    }

    fn answer(&mut self, query: ErrorQuery) -> NativeReply {
        self.calls.push(query);
        match query {
            ErrorQuery::Failed => NativeReply::Flag(self.failed),
            ErrorQuery::Message(kind) => {
                let text = match kind {
                    MessageKind::Short => self.short,
                    MessageKind::Explain => self.explain,
                    MessageKind::Long => self.long,
                };
                NativeReply::Text(filled(text, kind.capacity()))
            }
            ErrorQuery::Traceback => NativeReply::Text(filled(self.trace, TRACEBACK_CAPACITY)),
            ErrorQuery::Reset => {
                self.failed = false;
                NativeReply::Cleared
            }
        }
    }

    fn check(&mut self, spice: &Spice) -> Result<(), Error> {
        let mut check = spice.get_last_error();
        let mut query = check.pending_query();
        loop {
            let reply = self.answer(query);
            assert!(check.accepts(&reply));
            match check.advance(reply) {
                CheckStep::Ask(next) => query = next,
                CheckStep::Done(result) => return result,
            }
        }
    }
}

#[test]
fn check_on_clear_flag_asks_only_the_flag() {
    let mut lock = SpiceLock::new();
    let spice = token(&mut lock);
    let mut native = FakeNative::failing("unused");
    native.failed = false;
    assert!(native.check(&spice).is_ok());
    assert_eq!(native.calls, vec![ErrorQuery::Failed]);
}

#[test]
fn check_twice_after_failure_clears_flag() {
    let mut lock = SpiceLock::new();
    let spice = token(&mut lock);
    let mut native = FakeNative::failing("SPICE(BADTIME)");
    let error = native.check(&spice).unwrap_err();
    assert_eq!(error.short_message, "SPICE(BADTIME)");
    assert_eq!(error.explanation, "explanation");
    assert_eq!(error.long_message, "long message");
    assert_eq!(error.traceback, "furnsh_c");
    assert_eq!(
        native.calls,
        vec![
            ErrorQuery::Failed,
            ErrorQuery::Message(MessageKind::Short),
            ErrorQuery::Message(MessageKind::Explain),
            ErrorQuery::Message(MessageKind::Long),
            ErrorQuery::Traceback,
            ErrorQuery::Reset,
        ]
    );
    assert!(!native.failed);
    native.calls.clear();
    assert!(native.check(&spice).is_ok());
    assert_eq!(native.calls, vec![ErrorQuery::Failed]);
}

#[test]
fn check_decodes_unterminated_and_invalid_text() {
    let mut lock = SpiceLock::new();
    let spice = token(&mut lock);
    let mut check = spice.get_last_error();
    assert!(matches!(check.advance(NativeReply::Flag(true)), CheckStep::Ask(_)));
    check.advance(NativeReply::Text(b"NOTERM".to_vec()));
    check.advance(NativeReply::Text(vec![b'a', 0xff, b'b', 0]));
    check.advance(NativeReply::Text(vec![0, b'x', 0]));
    check.advance(NativeReply::Text(b"trace\0junk".to_vec()));
    match check.advance(NativeReply::Cleared) {
        CheckStep::Done(Err(e)) => {
            assert_eq!(e.short_message, "NOTERM");
            assert_eq!(e.explanation, "a\u{fffd}b");
            assert_eq!(e.long_message, "");
            assert_eq!(e.traceback, "trace");
        }
        _ => panic!("the check should end with the error"),
    }
}

#[test]
fn check_rejects_reply_of_wrong_kind() {
    let mut lock = SpiceLock::new();
    let spice = token(&mut lock);
    let check = spice.get_last_error();
    assert!(!check.accepts(&NativeReply::Cleared));
    assert!(!check.accepts(&NativeReply::Text(vec![0])));
    assert!(check.accepts(&NativeReply::Flag(false)));
}

#[test]
fn message_capacities() {
    assert_eq!(MessageKind::Short.capacity(), SHORT_MESSAGE_CAPACITY);
    assert_eq!(MessageKind::Explain.capacity(), EXPLANATION_CAPACITY);
    assert_eq!(MessageKind::Long.capacity(), LONG_MESSAGE_CAPACITY);
    assert_eq!(MessageKind::Short.option(), "SHORT");
    assert_eq!(MessageKind::Explain.option(), "EXPLAIN");
    assert_eq!(MessageKind::Long.option(), "LONG");
}

#[test]
fn test_furnish() {
    let mut lock = SpiceLock::new();
    let spice = token(&mut lock);
    let file = spice.furnish("NON_EXISTENT_FILE").unwrap();
    assert_eq!(file.as_bytes_with_nul(), b"NON_EXISTENT_FILE\0");
    let mut native = FakeNative::failing("SPICE(NOSUCHFILE)");
    let error = native.check(&spice).err().unwrap();
    assert_eq!(error.short_message, "SPICE(NOSUCHFILE)");
}

#[test]
fn furnish_refuses_path_with_nul() {
    let mut lock = SpiceLock::new();
    let spice = token(&mut lock);
    assert_eq!(spice.furnish("kernel\0.bsp").unwrap_err().position, 6);
    assert_eq!(spice.unload("a\0").unwrap_err().position, 1);
    assert_eq!(spice.unload("kernel.bsp").unwrap().as_str(), "kernel.bsp");
}

/// The native side keeps the name it is set with and hands it back on a query.
fn echo(argument: &cspice::SpiceString, capacity: usize) -> Vec<u8> {
    let mut buffer = vec![0u8; capacity];
    let bytes = argument.as_bytes_with_nul();
    buffer[..bytes.len()].copy_from_slice(bytes);
    buffer
}

#[test]
fn test_get_set_error_action() {
    let mut lock = SpiceLock::new();
    let spice = token(&mut lock);
    for action in [ErrorAction::Default, ErrorAction::Ignore, ErrorAction::Abort] {
        let argument = spice.set_error_action(action);
        let buffer = echo(&argument, ERROR_ACTION_CAPACITY);
        assert_eq!(
            spice.get_error_action(Ok(()), &buffer).unwrap(),
            Some(action)
        );
    }
}

#[test]
fn error_action_names() {
    let all = [
        (ErrorAction::Abort, "ABORT"),
        (ErrorAction::Ignore, "IGNORE"),
        (ErrorAction::Report, "REPORT"),
        (ErrorAction::Return, "RETURN"),
        (ErrorAction::Default, "DEFAULT"),
    ];
    for (action, name) in all {
        assert_eq!(action.name(), name);
        assert_eq!(ErrorAction::from_name(name), Some(action));
    }
    assert_eq!(ErrorAction::from_name("return"), None);
    assert_eq!(ErrorAction::from_name(""), None);
}

#[test]
fn get_error_action_passes_error_on() {
    let mut lock = SpiceLock::new();
    let spice = token(&mut lock);
    let error = Error {
        short_message: "SPICE(BUG)".to_string(),
        explanation: String::new(),
        long_message: String::new(),
        traceback: String::new(),
    };
    let result = spice.get_error_action(Err(error), &filled("ABORT", 20));
    assert_eq!(result.unwrap_err().short_message, "SPICE(BUG)");
    assert_eq!(spice.get_error_action(Ok(()), &filled("WHAT", 20)).unwrap(), None);
}

#[test]
fn test_get_set_error_output_device() {
    let mut lock = SpiceLock::new();
    let spice = token(&mut lock);
    let query = |device: &ErrorDevice| {
        let argument = spice.set_error_output_device(device).unwrap();
        let buffer = echo(&argument, ERROR_DEVICE_CAPACITY);
        spice.get_error_output_device(Ok(()), &buffer).unwrap()
    };
    assert_eq!(query(&ErrorDevice::Null), ErrorDevice::Null);
    assert_eq!(query(&ErrorDevice::Screen), ErrorDevice::Screen);
    let filename = ErrorDevice::Filename(String::from("errors.txt"));
    assert_eq!(query(&filename), filename);
}

#[test]
fn error_device_names() {
    let mut lock = SpiceLock::new();
    let spice = token(&mut lock);
    let screen = spice.set_error_output_device(&ErrorDevice::Screen).unwrap();
    assert_eq!(screen.as_bytes_with_nul(), b"SCREEN\0");
    let null = spice.set_error_output_device(&ErrorDevice::Null).unwrap();
    assert_eq!(null.as_bytes_with_nul(), b"NULL\0");
    let bad = ErrorDevice::Filename(String::from("err\0.txt"));
    assert_eq!(spice.set_error_output_device(&bad).unwrap_err().position, 3);
}
