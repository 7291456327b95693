//! Classification of signing-device and broadcast errors from their text.

use vstd::prelude::*;
use vstd::string::*;
use crate::text::{contains_seq, has_substring, lower_of, lowercase};
use crate::types::Address;
use crate::units::{hex_of, hex_text};

verus! {

/// A transient device condition (busy, HID timing, transport or I/O hiccup),
/// read from lowercased error text.
pub open spec fn transient_signal(l: Seq<char>) -> bool {
    ||| contains_seq(l, "overlapped i/o operation"@)
    ||| contains_seq(l, "overlapped io operation"@)
    ||| contains_seq(l, "busy"@)
    ||| (contains_seq(l, "hidapi"@) && !contains_seq(l, "no device"@) && !contains_seq(
        l,
        "device not found"@,
    ))
    ||| (contains_seq(l, "transport"@) && contains_seq(l, "error"@))
    ||| contains_seq(l, "i/o error"@)
    ||| contains_seq(l, "io error"@)
}

/// A locked device or a closed application (status words 6983 and 6985),
/// read from lowercased error text.
pub open spec fn locked_signal(l: Seq<char>) -> bool {
    ||| contains_seq(l, "locked"@)
    ||| contains_seq(l, "6983"@)
    ||| contains_seq(l, "6985"@)
    ||| contains_seq(l, "denied"@)
    ||| contains_seq(l, "not open"@)
}

/// A missing or disconnected device, read from lowercased error text.
pub open spec fn disconnected_signal(l: Seq<char>) -> bool {
    ||| contains_seq(l, "device not found"@)
    ||| contains_seq(l, "no device"@)
    ||| contains_seq(l, "not connected"@)
}

/// The three device conditions that an error text may show.
pub struct DeviceErrorSignals {
    pub transient: bool,
    pub locked: bool,
    pub disconnected: bool,
}

/// Reads the device conditions from error text that is already lowercased.
pub fn device_error_signals(lowered: &str) -> (r: DeviceErrorSignals)
    ensures
        r.transient == transient_signal(lowered@),
        r.locked == locked_signal(lowered@),
        r.disconnected == disconnected_signal(lowered@),
{
    let overlapped = has_substring(lowered, "overlapped i/o operation") || has_substring(
        lowered,
        "overlapped io operation",
    );
    let busy = has_substring(lowered, "busy");
    let no_device = has_substring(lowered, "no device");
    let not_found = has_substring(lowered, "device not found");
    let hid = has_substring(lowered, "hidapi") && !no_device && !not_found;
    let transport = has_substring(lowered, "transport") && has_substring(lowered, "error");
    let io = has_substring(lowered, "i/o error") || has_substring(lowered, "io error");
    let locked = has_substring(lowered, "locked") || has_substring(lowered, "6983")
        || has_substring(lowered, "6985") || has_substring(lowered, "denied") || has_substring(
        lowered,
        "not open",
    );
    let disconnected = not_found || no_device || has_substring(lowered, "not connected");
    DeviceErrorSignals {
        transient: overlapped || busy || hid || transport || io,
        locked,
        disconnected,
    }
}

/// True for device errors worth retrying: HID timing, busy device, transport
/// or I/O errors. Letter case is ignored.
pub fn is_transient_error(err_str: &str) -> (r: bool)
    ensures
        r == transient_signal(lower_of(err_str@)),
{
    let lowered = lowercase(err_str);
    device_error_signals(lowered.as_str()).transient
}

/// True for errors that show a locked device or a closed application.
/// Letter case is ignored.
pub fn is_locked_error(err_str: &str) -> (r: bool)
    ensures
        r == locked_signal(lower_of(err_str@)),
{
    let lowered = lowercase(err_str);
    device_error_signals(lowered.as_str()).locked
}

/// True for errors that show a missing or disconnected device.
/// Letter case is ignored.
pub fn is_disconnected_error(err_str: &str) -> (r: bool)
    ensures
        r == disconnected_signal(lower_of(err_str@)),
{
    let lowered = lowercase(err_str);
    device_error_signals(lowered.as_str()).disconnected
}

/// The user refused the operation on the device.
pub open spec fn user_rejected(e: Seq<char>) -> bool {
    ||| contains_seq(e, "rejected"@)
    ||| contains_seq(e, "denied"@)
    ||| contains_seq(e, "Denied"@)
}

/// The device is locked or its application is closed.
pub open spec fn device_locked(e: Seq<char>) -> bool {
    ||| contains_seq(e, "locked"@)
    ||| contains_seq(e, "6983"@)
    ||| contains_seq(e, "6985"@)
    ||| contains_seq(e, "not open"@)
}

/// The device is not reachable.
pub open spec fn device_missing(e: Seq<char>) -> bool {
    ||| contains_seq(e, "no device"@)
    ||| contains_seq(e, "device not found"@)
    ||| contains_seq(e, "not connected"@)
}

/// An error of a signing attempt is retried unless the user rejected the
/// request, the device is locked, or the device is missing. Transient I/O
/// errors and errors of no known class are retried.
pub open spec fn retryable_spec(e: Seq<char>) -> bool {
    !user_rejected(e) && !device_locked(e) && !device_missing(e)
}

/// Decides whether a failed signing attempt may be retried.
pub fn is_retryable_error(error: &str) -> (r: bool)
    ensures
        r == retryable_spec(error@),
{
    let rejected = has_substring(error, "rejected") || has_substring(error, "denied")
        || has_substring(error, "Denied");
    let locked = has_substring(error, "locked") || has_substring(error, "6983") || has_substring(
        error,
        "6985",
    ) || has_substring(error, "not open");
    let missing = has_substring(error, "no device") || has_substring(error, "device not found")
        || has_substring(error, "not connected");
    !rejected && !locked && !missing
}

/// Where the signing device stands.
pub enum LedgerStatus {
    Connected { address: Address },
    Locked,
    Disconnected,
    Checking,
    Unknown(String),
}

/// The short form of an address: its first three bytes and its last two.
pub open spec fn short_address(a: Seq<u8>) -> Seq<char> {
    "0x"@ + hex_of(a.subrange(0, 3)) + "..."@ + hex_of(a.subrange(18, 20))
}

impl LedgerStatus {
    /// Connected.
    pub fn is_ready(&self) -> (r: bool)
        ensures
            r == self is Connected,
    {
        match self {
            LedgerStatus::Connected { .. } => true,
            _ => false,
        }
    }

    /// Connected, or being checked (operations may go ahead meanwhile).
    pub fn is_usable(&self) -> (r: bool)
        ensures
            r == (self is Connected || self is Checking),
    {
        match self {
            LedgerStatus::Connected { .. } | LedgerStatus::Checking => true,
            _ => false,
        }
    }

    /// A known problem: locked, disconnected or an unknown error.
    pub fn has_problem(&self) -> (r: bool)
        ensures
            r == (self is Locked || self is Disconnected || self is Unknown),
    {
        match self {
            LedgerStatus::Locked | LedgerStatus::Disconnected | LedgerStatus::Unknown(_) => true,
            _ => false,
        }
    }

    /// A one-line description with a colour mark.
    pub fn display_text(&self) -> (r: String)
        ensures
            self matches LedgerStatus::Connected { address } ==> r@ == "\u{1f7e2} Connected: "@
                + short_address(address@),
            self is Locked ==> r@ == "\u{1f7e1} Locked / App Closed"@,
            self is Disconnected ==> r@ == "\u{1f534} Not Connected"@,
            self is Checking ==> r@ == "\u{23f3} Checking..."@,
            self matches LedgerStatus::Unknown(msg) ==> r@ == "\u{26aa} "@ + msg@,
    {
        match self {
            LedgerStatus::Connected { address } => {
                let head: Vec<u8> = vec![address[0], address[1], address[2]];
                let tail: Vec<u8> = vec![address[18], address[19]];
                let mut r = String::from_str("\u{1f7e2} Connected: 0x");
                let h = hex_text(&head);
                r.append(h.as_str());
                r.append("...");
                let t = hex_text(&tail);
                r.append(t.as_str());
                proof {
                    assert(head@ =~= address@.subrange(0, 3));
                    assert(tail@ =~= address@.subrange(18, 20));
                    reveal_strlit("\u{1f7e2} Connected: 0x");
                    reveal_strlit("\u{1f7e2} Connected: ");
                    reveal_strlit("0x");
                    assert("\u{1f7e2} Connected: 0x"@ =~= "\u{1f7e2} Connected: "@ + "0x"@);
                    assert(r@ =~= "\u{1f7e2} Connected: "@ + short_address(address@));
                }
                r
            },
            LedgerStatus::Locked => String::from_str("\u{1f7e1} Locked / App Closed"),
            LedgerStatus::Disconnected => String::from_str("\u{1f534} Not Connected"),
            LedgerStatus::Checking => String::from_str("\u{23f3} Checking..."),
            LedgerStatus::Unknown(msg) => {
                let mut r = String::from_str("\u{26aa} ");
                r.append(msg.as_str());
                r
            },
        }
    }

    /// The colour of the status, as red, green and blue.
    pub fn color(&self) -> (r: (u8, u8, u8))
        ensures
            self is Connected ==> r == (50u8, 205u8, 50u8),
            self is Locked ==> r == (255u8, 193u8, 7u8),
            self is Disconnected ==> r == (220u8, 53u8, 69u8),
            self is Checking ==> r == (100u8, 149u8, 237u8),
            self is Unknown ==> r == (150u8, 150u8, 150u8),
    {
        match self {
            LedgerStatus::Connected { .. } => (50, 205, 50),
            LedgerStatus::Locked => (255, 193, 7),
            LedgerStatus::Disconnected => (220, 53, 69),
            LedgerStatus::Checking => (100, 149, 237),
            LedgerStatus::Unknown(_) => (150, 150, 150),
        }
    }
}

/// Which transport signs: the external command-line tool or the native
/// driver.
#[derive(Clone, Copy, Debug, PartialEq, Eq, Structural)]
pub enum LedgerBackend {
    Cast,
    Native,
}

impl LedgerBackend {
    /// The backend a settings flag selects.
    pub fn from_settings(use_native_ledger: bool) -> (r: Self)
        ensures
            r == if use_native_ledger {
                LedgerBackend::Native
            } else {
                LedgerBackend::Cast
            },
    {
        if use_native_ledger {
            LedgerBackend::Native
        } else {
            LedgerBackend::Cast
        }
    }

    /// The backend's name.
    pub fn display_name(&self) -> (r: &'static str)
        ensures
            *self == LedgerBackend::Cast ==> r@ == "Foundry Cast"@,
            *self == LedgerBackend::Native ==> r@ == "Native (ethers-rs)"@,
    {
        match self {
            LedgerBackend::Cast => "Foundry Cast",
            LedgerBackend::Native => "Native (ethers-rs)",
        }
    }

    /// A sentence about the backend.
    pub fn description(&self) -> (r: &'static str)
        ensures
            *self == LedgerBackend::Cast ==> r@
                == "Uses Foundry's cast CLI for Ledger operations. Mature and well-tested."@,
            *self == LedgerBackend::Native ==> r@
                == "Uses ethers-rs native Ledger support. No external dependencies, experimental."@,
    {
        match self {
            LedgerBackend::Cast => "Uses Foundry's cast CLI for Ledger operations. Mature and well-tested.",
            LedgerBackend::Native => "Uses ethers-rs native Ledger support. No external dependencies, experimental.",
        }
    }
}

/// Reads the device conditions from error text, ignoring letter case.
pub fn classify_device_error(err_str: &str) -> (r: DeviceErrorSignals)
    ensures
        r.transient == transient_signal(lower_of(err_str@)),
        r.locked == locked_signal(lower_of(err_str@)),
        r.disconnected == disconnected_signal(lower_of(err_str@)),
{
    let lowered = lowercase(err_str);
    device_error_signals(lowered.as_str())
}

/// The message a device error is reported with, chosen from the lowercased
/// text `l`; `err` is the text as it came.
pub open spec fn ledger_error_message(l: Seq<char>, err: Seq<char>) -> Seq<char> {
    if contains_seq(l, "device not found"@) || contains_seq(l, "no device"@) || contains_seq(
        l,
        "hidapi"@,
    ) {
        "Ledger device not found. Please ensure it's connected and unlocked."@
    } else if contains_seq(l, "locked"@) || contains_seq(l, "6983"@) || contains_seq(l, "6985"@) {
        "Ledger is locked or Ethereum app is not open."@
    } else if contains_seq(l, "denied"@) || contains_seq(l, "rejected"@) {
        "Transaction was rejected on the Ledger device."@
    } else if contains_seq(l, "timeout"@) {
        "Ledger operation timed out. Please try again."@
    } else if contains_seq(l, "busy"@) {
        "Ledger device is busy. Please wait and try again."@
    } else {
        "Ledger error: "@ + err
    }
}

/// The user-facing message for a device error, from its lowercased text and
/// the text as it came.
pub fn ledger_error_message_lowered(lowered: &str, err_str: &str) -> (r: String)
    ensures
        r@ == ledger_error_message(lowered@, err_str@),
{
    if has_substring(lowered, "device not found") || has_substring(lowered, "no device")
        || has_substring(lowered, "hidapi") {
        String::from_str("Ledger device not found. Please ensure it's connected and unlocked.")
    } else if has_substring(lowered, "locked") || has_substring(lowered, "6983") || has_substring(
        lowered,
        "6985",
    ) {
        String::from_str("Ledger is locked or Ethereum app is not open.")
    } else if has_substring(lowered, "denied") || has_substring(lowered, "rejected") {
        String::from_str("Transaction was rejected on the Ledger device.")
    } else if has_substring(lowered, "timeout") {
        String::from_str("Ledger operation timed out. Please try again.")
    } else if has_substring(lowered, "busy") {
        String::from_str("Ledger device is busy. Please wait and try again.")
    } else {
        let mut r = String::from_str("Ledger error: ");
        r.append(err_str);
        r
    }
}

/// The user-facing message for a device error; letter case is ignored when
/// classifying it.
pub fn map_ledger_error(err_str: &str) -> (r: String)
    ensures
        r@ == ledger_error_message(lower_of(err_str@), err_str@),
{
    let lowered = lowercase(err_str);
    ledger_error_message_lowered(lowered.as_str(), err_str)
}

/// How many times a device call is attempted.
pub const DEVICE_MAX_ATTEMPTS: u32 = 5;

/// The pause before a device retry grows by this much per attempt.
pub const DEVICE_RETRY_BASE_DELAY_MS: u64 = 300;

/// What to do after a failed device call.
pub enum DeviceAttempt {
    /// Release the device, sleep this many milliseconds and try again.
    RetryAfter(u64),
    /// Give up with this message.
    Fail(String),
}

/// After failed native device call number `attempt` (from 1): a transient
/// error is retried while attempts remain; while opening the device
/// (`connecting`), an error that shows neither a locked nor a missing device
/// is retried too. Otherwise the call fails with `message`.
pub fn native_attempt_decision(
    attempt: u32,
    connecting: bool,
    signals: DeviceErrorSignals,
    message: String,
) -> (r: DeviceAttempt)
    requires
        attempt >= 1,
    ensures
        ({
            let retry = attempt < DEVICE_MAX_ATTEMPTS && (signals.transient || (connecting
                && !signals.locked && !signals.disconnected));
            &&& retry ==> r == DeviceAttempt::RetryAfter((300 * attempt) as u64)
            &&& !retry ==> r == DeviceAttempt::Fail(message)
        }),
{
    let retry = attempt < DEVICE_MAX_ATTEMPTS && (signals.transient || (connecting
        && !signals.locked && !signals.disconnected));
    if retry {
        DeviceAttempt::RetryAfter(DEVICE_RETRY_BASE_DELAY_MS * (attempt as u64))
    } else {
        DeviceAttempt::Fail(message)
    }
}

/// The external tool reports a locked device or a closed application.
pub open spec fn cast_locked(e: Seq<char>) -> bool {
    ||| contains_seq(e, "locked"@)
    ||| contains_seq(e, "6983"@)
    ||| contains_seq(e, "6985"@)
    ||| contains_seq(e, "Denied"@)
    ||| contains_seq(e, "not open"@)
}

/// The external tool reports no device.
pub open spec fn cast_missing(e: Seq<char>) -> bool {
    ||| contains_seq(e, "No device found"@)
    ||| contains_seq(e, "hidapi"@)
    ||| contains_seq(e, "DeviceNotFound"@)
}

/// After failed address request number `attempt` (from 1) through the
/// external tool with error text `err_str`: a locked or missing device fails
/// at once; a busy HID link is retried while attempts remain; anything else
/// fails with the tool's text.
pub fn cast_attempt_decision(attempt: u32, err_str: &str) -> (r: DeviceAttempt)
    requires
        attempt >= 1,
    ensures
        cast_locked(err_str@) ==> (r matches DeviceAttempt::Fail(m) && m@
            == "Ledger is locked or Ethereum app is not open."@),
        !cast_locked(err_str@) && cast_missing(err_str@) ==> (r matches DeviceAttempt::Fail(m)
            && m@ == "Ledger device not found. Please ensure it's connected and unlocked."@),
        !cast_locked(err_str@) && !cast_missing(err_str@) && contains_seq(
            err_str@,
            "Overlapped I/O operation is in progress"@,
        ) && attempt < DEVICE_MAX_ATTEMPTS ==> r == DeviceAttempt::RetryAfter((300 * attempt) as u64),
        !cast_locked(err_str@) && !cast_missing(err_str@) && !(contains_seq(
            err_str@,
            "Overlapped I/O operation is in progress"@,
        ) && attempt < DEVICE_MAX_ATTEMPTS) ==> (r matches DeviceAttempt::Fail(m) && m@
            == "Ledger error: "@ + err_str@),
{
    let locked = has_substring(err_str, "locked") || has_substring(err_str, "6983") || has_substring(
        err_str,
        "6985",
    ) || has_substring(err_str, "Denied") || has_substring(err_str, "not open");
    if locked {
        return DeviceAttempt::Fail(String::from_str("Ledger is locked or Ethereum app is not open."));
    }
    let missing = has_substring(err_str, "No device found") || has_substring(err_str, "hidapi")
        || has_substring(err_str, "DeviceNotFound");
    if missing {
        return DeviceAttempt::Fail(
            String::from_str("Ledger device not found. Please ensure it's connected and unlocked."),
        );
    }
    let busy = has_substring(err_str, "Overlapped I/O operation is in progress");
    if busy && attempt < DEVICE_MAX_ATTEMPTS {
        return DeviceAttempt::RetryAfter(DEVICE_RETRY_BASE_DELAY_MS * (attempt as u64));
    }
    let mut m = String::from_str("Ledger error: ");
    m.append(err_str);
    DeviceAttempt::Fail(m)
}

/// The first forty characters of a text (all of it when shorter).
pub open spec fn first_forty(e: Seq<char>) -> Seq<char> {
    if e.len() < 40 {
        e
    } else {
        e.subrange(0, 40)
    }
}

fn truncate_forty(err_str: &str) -> (r: String)
    ensures
        r@ == first_forty(err_str@),
{
    let n = err_str.unicode_len();
    let end = if n < 40 {
        n
    } else {
        40
    };
    let part = err_str.substring_char(0, end);
    proof {
        if n < 40 {
            assert(err_str@.subrange(0, n as int) =~= err_str@);
        }
    }
    part.to_owned()
}

/// The device status that a failed address request through the external
/// tool shows.
pub fn status_from_cast_error(err_str: &str) -> (r: LedgerStatus)
    ensures
        cast_locked(err_str@) ==> r is Locked,
        !cast_locked(err_str@) && cast_missing(err_str@) ==> r is Disconnected,
        !cast_locked(err_str@) && !cast_missing(err_str@) ==> (r matches LedgerStatus::Unknown(m)
            && m@ == first_forty(err_str@)),
{
    let locked = has_substring(err_str, "6983") || has_substring(err_str, "6985") || has_substring(
        err_str,
        "locked",
    ) || has_substring(err_str, "Denied") || has_substring(err_str, "not open");
    if locked {
        return LedgerStatus::Locked;
    }
    let missing = has_substring(err_str, "No device found") || has_substring(err_str, "hidapi")
        || has_substring(err_str, "DeviceNotFound");
    if missing {
        return LedgerStatus::Disconnected;
    }
    LedgerStatus::Unknown(truncate_forty(err_str))
}

/// The device status that a failed native address request shows, ignoring
/// letter case.
pub fn status_from_native_error(err_str: &str) -> (r: LedgerStatus)
    ensures
        locked_signal(lower_of(err_str@)) ==> r is Locked,
        !locked_signal(lower_of(err_str@)) && disconnected_signal(lower_of(err_str@)) ==> r is Disconnected,
        !locked_signal(lower_of(err_str@)) && !disconnected_signal(lower_of(err_str@)) ==> (r matches LedgerStatus::Unknown(m)
            && m@ == first_forty(err_str@)),
{
    let signals = classify_device_error(err_str);
    if signals.locked {
        LedgerStatus::Locked
    } else if signals.disconnected {
        LedgerStatus::Disconnected
    } else {
        LedgerStatus::Unknown(truncate_forty(err_str))
    }
}

} // verus!
