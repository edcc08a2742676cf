//! The error bridge.
//!
//! The native library reports failure through a sticky global flag and keeps the diagnostics
//! beside it until they are read and the flag is reset. [`ErrorCheck`] is the protocol that turns
//! that into a one-shot `Result`: ask whether the flag is set; if it is, fetch the short message,
//! the explanation, the long message and the traceback, each into a buffer of the size the
//! native library documents for it, then reset the flag; and only then report the error.
use vstd::prelude::*;
use crate::lock::Spice;
use crate::string::{
    before_nul, host_text, lemma_ascii_nul_free, lemma_native_round_trip, native_text, nul_free, text_before_nul,
    NulError, SpiceString,
};
use vstd::string::StringSliceAdditionalSpecFns;
use vstd::utf8::*;

verus! {

broadcast use vstd::utf8::encode_utf8_decode_utf8, vstd::utf8::encode_utf8_valid_utf8;

/// Capacity of the short message buffer, nul included.
pub const SHORT_MESSAGE_CAPACITY: usize = 26;

/// Capacity of the explanation buffer, nul included.
pub const EXPLANATION_CAPACITY: usize = 81;

/// Capacity of the long message buffer, nul included.
pub const LONG_MESSAGE_CAPACITY: usize = 1841;

/// Capacity of the traceback buffer, nul included.
pub const TRACEBACK_CAPACITY: usize = 3800;

/// Capacity of the buffer that receives the name of the error action.
pub const ERROR_ACTION_CAPACITY: usize = 20;

/// Capacity of the buffer that receives the name of the error output device.
pub const ERROR_DEVICE_CAPACITY: usize = 255;

/// A failure reported by the native library, with its diagnostics verbatim.
#[derive(Debug, Clone)]
pub struct Error {
    pub short_message: String,
    pub explanation: String,
    pub long_message: String,
    pub traceback: String,
}

/// One of the three forms of the native error message.
#[derive(Debug, Clone, Copy, PartialEq, Eq, Structural)]
pub enum MessageKind {
    Short,
    Explain,
    Long,
}

/// The option that selects the form `kind` in the native message query.
pub open spec fn message_option(kind: MessageKind) -> Seq<char> {
    match kind {
        MessageKind::Short => "SHORT"@,
        MessageKind::Explain => "EXPLAIN"@,
        MessageKind::Long => "LONG"@,
    }
}

impl MessageKind {
    /// The option that selects this form in the native message query.
    pub fn option(&self) -> (r: &'static str)
        ensures
            r@ == message_option(*self),
    {
        match self {
            MessageKind::Short => "SHORT",
            MessageKind::Explain => "EXPLAIN",
            MessageKind::Long => "LONG",
        }
    }

    /// The capacity of the buffer that receives this form.
    pub fn capacity(&self) -> (r: usize)
        ensures
            r == match self {
                MessageKind::Short => SHORT_MESSAGE_CAPACITY,
                MessageKind::Explain => EXPLANATION_CAPACITY,
                MessageKind::Long => LONG_MESSAGE_CAPACITY,
            },
    {
        match self {
            MessageKind::Short => SHORT_MESSAGE_CAPACITY,
            MessageKind::Explain => EXPLANATION_CAPACITY,
            MessageKind::Long => LONG_MESSAGE_CAPACITY,
        }
    }
}

/// A native call that an [`ErrorCheck`] asks its caller to make.
#[derive(Debug, Clone, Copy, PartialEq, Eq, Structural)]
pub enum ErrorQuery {
    /// Whether the failure flag is set.
    Failed,
    /// One form of the message, into a buffer of [`MessageKind::capacity`] bytes.
    Message(MessageKind),
    /// The traceback, into a buffer of [`TRACEBACK_CAPACITY`] bytes.
    Traceback,
    /// Reset the failure flag and the stored diagnostics.
    Reset,
}

/// What the caller hands back after making the call that an [`ErrorQuery`] asked for.
pub enum NativeReply {
    /// The failure flag.
    Flag(bool),
    /// The buffer the native call filled.
    Text(Vec<u8>),
    /// The reset was made.
    Cleared,
}

/// What an [`ErrorCheck`] wants next.
pub enum CheckStep {
    /// Make this native call and hand back its reply.
    Ask(ErrorQuery),
    /// The check is over, with this outcome.
    Done(Result<(), Error>),
}

/// The native calls of a check, in order, against a library whose failure flag is `failed`.
pub open spec fn check_queries(failed: bool) -> Seq<ErrorQuery> {
    if failed {
        seq![
            ErrorQuery::Failed,
            ErrorQuery::Message(MessageKind::Short),
            ErrorQuery::Message(MessageKind::Explain),
            ErrorQuery::Message(MessageKind::Long),
            ErrorQuery::Traceback,
            ErrorQuery::Reset,
        ]
    } else {
        seq![ErrorQuery::Failed]
    }
}

/// `reply` is of the kind that `query` produces.
pub open spec fn fits(query: ErrorQuery, reply: NativeReply) -> bool {
    match query {
        ErrorQuery::Failed => reply is Flag,
        ErrorQuery::Message(_) => reply is Text,
        ErrorQuery::Traceback => reply is Text,
        ErrorQuery::Reset => reply is Cleared,
    }
}

/// The native failure flag after `queries`, starting from `failed`: a reset clears it, and
/// querying the flag or the diagnostics leaves it as it is.
pub open spec fn flag_after(failed: bool, queries: Seq<ErrorQuery>) -> bool
    decreases queries.len(),
{
    if queries.len() == 0 {
        failed
    } else if queries.last() is Reset {
        false
    } else {
        flag_after(failed, queries.drop_last())
    }
}

/// A check leaves the native failure flag clear, whichever way it found it; so a second check
/// right after it asks only whether the flag is set, and finds it clear.
pub proof fn lemma_check_clears_flag(failed: bool)
    ensures
        !flag_after(failed, check_queries(failed)),
        check_queries(flag_after(failed, check_queries(failed))) == seq![ErrorQuery::Failed],
{
    let q = check_queries(failed);
    if failed {
        assert(q.len() == 6 && q[5] is Reset);
        assert(q.last() is Reset);
    } else {
        assert(q.len() == 1 && q[0] is Failed);
        assert(q.drop_last() =~= Seq::<ErrorQuery>::empty());
        reveal_with_fuel(flag_after, 2);
    }
}

/// The protocol that tests, retrieves and resets the native library's last error.
///
/// Its caller makes each native call it asks for, while holding access, and hands back the
/// reply; see [`Spice::get_last_error`].
pub struct ErrorCheck {
    taken: usize,
    failed: bool,
    short_message: String,
    explanation: String,
    long_message: String,
    traceback: String,
}

impl ErrorCheck {
    /// How many replies the check has taken.
    pub closed spec fn taken(&self) -> nat {
        self.taken as nat
    }

    /// The failure flag, as the first reply gave it.
    pub closed spec fn failed(&self) -> bool {
        self.failed
    }

    /// The diagnostics collected so far: short message, explanation, long message, traceback.
    pub closed spec fn record(&self) -> Seq<Seq<char>> {
        seq![self.short_message@, self.explanation@, self.long_message@, self.traceback@]
    }

    /// Every call of the check has been made.
    pub open spec fn done(&self) -> bool {
        self.taken() > 0 && self.taken() >= check_queries(self.failed()).len()
    }

    /// The call the check waits on.
    pub open spec fn pending(&self) -> ErrorQuery {
        check_queries(true)[self.taken() as int]
    }

    /// The call the check waits on.
    pub fn pending_query(&self) -> (r: ErrorQuery)
        requires
            !self.done(),
        ensures
            r == self.pending(),
    {
        match self.taken {
            0 => ErrorQuery::Failed,
            1 => ErrorQuery::Message(MessageKind::Short),
            2 => ErrorQuery::Message(MessageKind::Explain),
            3 => ErrorQuery::Message(MessageKind::Long),
            4 => ErrorQuery::Traceback,
            _ => ErrorQuery::Reset,
        }
    }

    /// Whether `reply` is of the kind the pending call produces.
    pub fn accepts(&self, reply: &NativeReply) -> (r: bool)
        requires
            !self.done(),
        ensures
            r == fits(self.pending(), *reply),
    {
        match reply {
            NativeReply::Flag(_) => self.taken == 0,
            NativeReply::Text(_) => 1 <= self.taken && self.taken <= 4,
            NativeReply::Cleared => self.taken == 5,
        }
    }

    /// Takes the reply to the pending call and says what comes next.
    ///
    /// A clear flag ends the check at once with `Ok`. A set flag leads through the three
    /// message forms and the traceback, each decoded up to its first nul, to the reset; only
    /// after the reset does the check end, with the collected diagnostics as its error.
    pub fn advance(&mut self, reply: NativeReply) -> (step: CheckStep)
        requires
            !old(self).done(),
            fits(old(self).pending(), reply),
        ensures
            final(self).taken() == old(self).taken() + 1,
            old(self).taken() == 0 ==> final(self).failed() == (reply == NativeReply::Flag(true)),
            old(self).taken() > 0 ==> final(self).failed() == old(self).failed(),
            reply matches NativeReply::Text(b) ==> final(self).record() == old(self).record().update(
                old(self).taken() - 1,
                host_text(before_nul(b@)),
            ),
            !(reply is Text) ==> final(self).record() == old(self).record(),
            !final(self).done() ==> step == CheckStep::Ask(final(self).pending()),
            final(self).done() ==> step is Done,
            step matches CheckStep::Done(r) ==> (r is Ok <==> !final(self).failed()),
            step matches CheckStep::Done(Err(e)) ==> seq![
                e.short_message@,
                e.explanation@,
                e.long_message@,
                e.traceback@,
            ] == final(self).record(),
    {
        let ghost before = self.record();
        match reply {
            NativeReply::Flag(failed) => {
                self.taken = 1;
                self.failed = failed;
                if failed {
                    CheckStep::Ask(ErrorQuery::Message(MessageKind::Short))
                } else {
                    CheckStep::Done(Ok(()))
                }
            },
            NativeReply::Text(buffer) => {
                let text = text_before_nul(buffer.as_slice());
                if self.taken == 1 {
                    self.short_message = text;
                    self.taken = 2;
                    assert(self.record() =~= before.update(0, text@));
                    CheckStep::Ask(ErrorQuery::Message(MessageKind::Explain))
                } else if self.taken == 2 {
                    self.explanation = text;
                    self.taken = 3;
                    assert(self.record() =~= before.update(1, text@));
                    CheckStep::Ask(ErrorQuery::Message(MessageKind::Long))
                } else if self.taken == 3 {
                    self.long_message = text;
                    self.taken = 4;
                    assert(self.record() =~= before.update(2, text@));
                    CheckStep::Ask(ErrorQuery::Traceback)
                } else {
                    self.traceback = text;
                    self.taken = 5;
                    assert(self.record() =~= before.update(3, text@));
                    CheckStep::Ask(ErrorQuery::Reset)
                }
            },
            NativeReply::Cleared => {
                self.taken = 6;
                let e = Error {
                    short_message: self.short_message.clone(),
                    explanation: self.explanation.clone(),
                    long_message: self.long_message.clone(),
                    traceback: self.traceback.clone(),
                };
                CheckStep::Done(Err(e))
            },
        }
    }
}

/// The response of the native library to an error.
#[derive(Debug, Clone, Copy, PartialEq, Eq, Structural)]
pub enum ErrorAction {
    Abort,
    Ignore,
    Report,
    Return,
    Default,
}

/// The native name of `action`.
pub open spec fn action_name(action: ErrorAction) -> Seq<char> {
    match action {
        ErrorAction::Abort => "ABORT"@,
        ErrorAction::Ignore => "IGNORE"@,
        ErrorAction::Report => "REPORT"@,
        ErrorAction::Return => "RETURN"@,
        ErrorAction::Default => "DEFAULT"@,
    }
}

/// The action that the native name `text` stands for.
pub open spec fn action_of_text(text: Seq<char>) -> Option<ErrorAction> {
    if text == "ABORT"@ {
        Some(ErrorAction::Abort)
    } else if text == "IGNORE"@ {
        Some(ErrorAction::Ignore)
    } else if text == "REPORT"@ {
        Some(ErrorAction::Report)
    } else if text == "RETURN"@ {
        Some(ErrorAction::Return)
    } else if text == "DEFAULT"@ {
        Some(ErrorAction::Default)
    } else {
        None
    }
}

/// Where the native error output device goes.
#[derive(Debug, Clone, PartialEq)]
pub enum ErrorDevice {
    Screen,
    Null,
    Filename(String),
}

/// The native name of `device`.
pub open spec fn device_name(device: ErrorDevice) -> Seq<char> {
    match device {
        ErrorDevice::Screen => "SCREEN"@,
        ErrorDevice::Null => "NULL"@,
        ErrorDevice::Filename(f) => f@,
    }
}

/// The native name `text` stands for `device`: any name but the two reserved ones is a file.
pub open spec fn names_device(text: Seq<char>, device: ErrorDevice) -> bool {
    if text == "SCREEN"@ {
        device is Screen
    } else if text == "NULL"@ {
        device is Null
    } else {
        device matches ErrorDevice::Filename(f) && f@ == text
    }
}

/// Whether `a` and `b` hold the same bytes.
fn same_bytes(a: &[u8], b: &[u8]) -> (r: bool)
    ensures
        r == (a@ == b@),
{
    if a.len() != b.len() {
        return false;
    }
    let mut i: usize = 0;
    while i < a.len()
        invariant
            a@.len() == b@.len(),
            i <= a@.len(),
            a@.take(i as int) == b@.take(i as int),
        decreases a@.len() - i,
    {
        if a[i] != b[i] {
            assert(a@[i as int] != b@[i as int]);
            return false;
        }
        assert(a@.take(i as int + 1) =~= a@.take(i as int).push(a@[i as int]));
        assert(b@.take(i as int + 1) =~= b@.take(i as int).push(b@[i as int]));
        i = i + 1;
    }
    assert(a@ =~= a@.take(i as int));
    assert(b@ =~= b@.take(i as int));
    true
}

/// Whether `a` and `b` are the same text.
fn same_text(a: &str, b: &str) -> (r: bool)
    ensures
        r == (a@ == b@),
{
    let r = same_bytes(a.as_bytes(), b.as_bytes());
    proof {
        if r {
            assert(decode_utf8(encode_utf8(a@)) == decode_utf8(encode_utf8(b@)));
        }
    }
    r
}

impl ErrorAction {
    /// The native name of the action.
    pub fn name(&self) -> (r: &'static str)
        ensures
            r@ == action_name(*self),
    {
        match self {
            ErrorAction::Abort => "ABORT",
            ErrorAction::Ignore => "IGNORE",
            ErrorAction::Report => "REPORT",
            ErrorAction::Return => "RETURN",
            ErrorAction::Default => "DEFAULT",
        }
    }

    /// The action a native name stands for, if any.
    pub fn from_name(text: &str) -> (r: Option<ErrorAction>)
        ensures
            r == action_of_text(text@),
    {
        if same_text(text, "ABORT") {
            Some(ErrorAction::Abort)
        } else if same_text(text, "IGNORE") {
            Some(ErrorAction::Ignore)
        } else if same_text(text, "REPORT") {
            Some(ErrorAction::Report)
        } else if same_text(text, "RETURN") {
            Some(ErrorAction::Return)
        } else if same_text(text, "DEFAULT") {
            Some(ErrorAction::Default)
        } else {
            None
        }
    }
}

/// Each action is read back as itself from the name it is set by.
pub proof fn lemma_action_name_round_trip(action: ErrorAction)
    ensures
        action_of_text(action_name(action)) == Some(action),
{
    reveal_strlit("ABORT");
    reveal_strlit("IGNORE");
    reveal_strlit("REPORT");
    reveal_strlit("RETURN");
    reveal_strlit("DEFAULT");
    assert("IGNORE"@[0] != "REPORT"@[0]);
    assert("IGNORE"@[0] != "RETURN"@[0]);
    assert("REPORT"@[2] != "RETURN"@[2]);
    assert("ABORT"@.len() != "IGNORE"@.len());
    assert("DEFAULT"@.len() != "IGNORE"@.len());
}

/// The device that the native name `text` stands for.
fn device_of_text(text: String) -> (r: ErrorDevice)
    ensures
        names_device(text@, r),
{
    if same_text(text.as_str(), "SCREEN") {
        ErrorDevice::Screen
    } else if same_text(text.as_str(), "NULL") {
        ErrorDevice::Null
    } else {
        ErrorDevice::Filename(text)
    }
}

/// The names of the actions and of the two reserved devices are ASCII without a nul.
proof fn lemma_reserved_names_nul_free(action: ErrorAction)
    ensures
        nul_free(encode_utf8(action_name(action))),
        nul_free(encode_utf8("SCREEN"@)),
        nul_free(encode_utf8("NULL"@)),
{
    reveal_strlit("ABORT");
    reveal_strlit("IGNORE");
    reveal_strlit("REPORT");
    reveal_strlit("RETURN");
    reveal_strlit("DEFAULT");
    reveal_strlit("SCREEN");
    reveal_strlit("NULL");
    lemma_ascii_nul_free(action_name(action));
    lemma_ascii_nul_free("SCREEN"@);
    lemma_ascii_nul_free("NULL"@);
}

/// Functions relating to error handling. Each is used by the holder of the access token, around
/// the native call it prepares or whose output it reads.
impl Spice {
    /// Starts a check of the native library's last error: test the failure flag and, if it is
    /// set, retrieve the diagnostics and reset it. See [`ErrorCheck::advance`].
    pub fn get_last_error(&self) -> (r: ErrorCheck)
        ensures
            r.taken() == 0,
            !r.done(),
            r.pending() == ErrorQuery::Failed,
            r.record() == seq![Seq::<char>::empty(), Seq::<char>::empty(), Seq::<char>::empty(), Seq::<char>::empty()],
    {
        ErrorCheck {
            taken: 0,
            failed: false,
            short_message: String::new(),
            explanation: String::new(),
            long_message: String::new(),
            traceback: String::new(),
        }
    }

    /// The argument that sets the native error action to `action`: its name.
    pub fn set_error_action(&self, action: ErrorAction) -> (r: SpiceString)
        ensures
            r@ == encode_utf8(action_name(action)),
    {
        proof {
            lemma_reserved_names_nul_free(action);
        }
        SpiceString::new(action.name()).unwrap()
    }

    /// The error action, read from `buffer`, the output of the native query, once the error
    /// check that followed the query has given `status`.
    ///
    /// The error of a failed query is passed on; otherwise the text before the buffer's first
    /// nul is read as a name, and `Ok(None)` says it names no action.
    pub fn get_error_action(&self, status: Result<(), Error>, buffer: &[u8]) -> (r: Result<
        Option<ErrorAction>,
        Error,
    >)
        ensures
            status matches Err(e) ==> r == Err::<Option<ErrorAction>, Error>(e),
            status is Ok ==> r == Ok::<Option<ErrorAction>, Error>(
                action_of_text(host_text(before_nul(buffer@))),
            ),
    {
        match status {
            Err(e) => Err(e),
            Ok(()) => {
                let text = text_before_nul(buffer);
                Ok(ErrorAction::from_name(text.as_str()))
            },
        }
    }

    /// The argument that sets the native error output device to `device`: its name.
    ///
    /// Fails when a file name holds a nul byte.
    pub fn set_error_output_device(&self, device: &ErrorDevice) -> (r: Result<SpiceString, NulError>)
        ensures
            r is Ok <==> nul_free(encode_utf8(device_name(*device))),
            r matches Ok(s) ==> s@ == encode_utf8(device_name(*device)),
            !(device is Filename) ==> r is Ok,
    {
        proof {
            lemma_reserved_names_nul_free(ErrorAction::Abort);
        }
        match device {
            ErrorDevice::Screen => SpiceString::new("SCREEN"),
            ErrorDevice::Null => SpiceString::new("NULL"),
            ErrorDevice::Filename(f) => SpiceString::new(f.as_str()),
        }
    }

    /// The error output device, read from `buffer`, the output of the native query, once the
    /// error check that followed the query has given `status`.
    ///
    /// The error of a failed query is passed on; otherwise the text before the buffer's first
    /// nul names the device.
    pub fn get_error_output_device(&self, status: Result<(), Error>, buffer: &[u8]) -> (r: Result<
        ErrorDevice,
        Error,
    >)
        ensures
            status matches Err(e) ==> r == Err::<ErrorDevice, Error>(e),
            status is Ok ==> (r matches Ok(d) && names_device(host_text(before_nul(buffer@)), d)),
    {
        match status {
            Err(e) => Err(e),
            Ok(()) => Ok(device_of_text(text_before_nul(buffer))),
        }
    }
}

/// Setting the error action and then querying it gives back the action just set: the native
/// side keeps the name it was handed and returns it nul-terminated, and that reads as the same
/// action.
pub proof fn lemma_error_action_set_get(action: ErrorAction)
    ensures
        action_of_text(host_text(before_nul(native_text(action_name(action))))) == Some(action),
{
    lemma_reserved_names_nul_free(action);
    lemma_native_round_trip(action_name(action));
    lemma_action_name_round_trip(action);
}

/// Setting the error output device and then querying it gives back the device just set, for
/// every device that can be set: a file name must hold no nul and must not be one of the two
/// reserved names.
pub proof fn lemma_error_device_set_get(device: ErrorDevice)
    requires
        nul_free(encode_utf8(device_name(device))),
        device is Filename ==> device_name(device) != "SCREEN"@ && device_name(device) != "NULL"@,
    ensures
        names_device(host_text(before_nul(native_text(device_name(device)))), device),
{
    lemma_native_round_trip(device_name(device));
    reveal_strlit("SCREEN");
    reveal_strlit("NULL");
}

} // verus!
