//! The security audit trail: the lines the profiles log, how the telemetry
//! panel recognises a breach, and the decisions of InGen's integrity watchdog.

use vstd::prelude::*;
use vstd::string::{StringExecFns, StringSliceAdditionalSpecFns};
use vstd::utf8::encode_utf8;
use crate::crypto::sha256;
use crate::hex::{hex_digit, nibble_str};

verus! {

/// The decimal digits of `n`, most significant first, without leading zeros.
pub open spec fn decimal_chars(n: nat) -> Seq<char>
    decreases n,
{
    if n < 10 {
        seq![hex_digit(n as u8)]
    } else {
        decimal_chars(n / 10) + seq![hex_digit((n % 10) as u8)]
    }
}

/// The number a string of decimal digits denotes.
pub open spec fn decimal_value(digits: Seq<char>) -> int
    decreases digits.len(),
{
    if digits.len() == 0 {
        0
    } else {
        decimal_value(digits.drop_last()) * 10 + (digits.last() as int - 48)
    }
}

/// The digits of a number are decimal digits, read back to the number, and
/// have no leading zero.
pub proof fn lemma_decimal_chars(n: nat)
    ensures
        decimal_chars(n).len() >= 1,
        forall|i: int| 0 <= i < decimal_chars(n).len() ==> '0' <= #[trigger] decimal_chars(n)[i] <= '9',
        decimal_value(decimal_chars(n)) == n,
        n >= 10 ==> decimal_chars(n)[0] != '0',
    decreases n,
{
    if n >= 10 {
        lemma_decimal_chars(n / 10);
        let d = decimal_chars(n);
        assert(d.drop_last() =~= decimal_chars(n / 10));
        assert(d[0] == decimal_chars(n / 10)[0]);
        assert(d.last() as int == 48 + n % 10);
        assert(n == (n / 10) * 10 + n % 10);
        assert(d.len() > 0);
        assert(decimal_value(d) == decimal_value(d.drop_last()) * 10 + (d.last() as int - 48));
        if n / 10 < 10 {
            assert(decimal_chars(n / 10)[0] == hex_digit((n / 10) as u8));
        }
    } else {
        assert(decimal_chars(n).drop_last() =~= Seq::<char>::empty());
        assert(decimal_chars(n).last() as int == 48 + n);
        assert(decimal_value(decimal_chars(n)) == decimal_value(decimal_chars(n).drop_last()) * 10
            + (decimal_chars(n).last() as int - 48));
    }
}

/// Appends the decimal digits of `n` to `out`.
fn append_decimal(out: &mut String, n: u128)
    ensures
        final(out)@ == old(out)@ + decimal_chars(n as nat),
    decreases n,
{
    if n >= 10 {
        append_decimal(out, n / 10);
    }
    out.append(nibble_str((n % 10) as u8));
    proof {
        if n >= 10 {
            assert(final(out)@ =~= old(out)@ + decimal_chars(n as nat));
        }
    }
}

/// An audit log line: `[timestamp] [event] message`.
pub open spec fn audit_line_chars(timestamp_ms: nat, event: Seq<char>, msg: Seq<char>) -> Seq<char> {
    seq!['['] + decimal_chars(timestamp_ms) + seq![']', ' ', '['] + event + seq![']', ' '] + msg
}

/// An audit line is `[`, the timestamp's digits, `] [`, the event, `] ` and
/// then the whole message, whatever the event and the message.
pub proof fn lemma_audit_line_shape(timestamp_ms: nat, event: Seq<char>, msg: Seq<char>)
    ensures
        ({
            let line = audit_line_chars(timestamp_ms, event, msg);
            let digits = decimal_chars(timestamp_ms);
            let d = digits.len() as int;
            let e = event.len() as int;
            &&& line.len() == d + e + msg.len() + 6
            &&& line[0] == '['
            &&& line.subrange(1, d + 1) == digits
            &&& line.subrange(d + 1, d + 4) == seq![']', ' ', '[']
            &&& line.subrange(d + 4, d + 4 + e) == event
            &&& line.subrange(d + 4 + e, d + 6 + e) == seq![']', ' ']
            &&& line.subrange(line.len() - msg.len(), line.len() as int) == msg
        }),
{
    let line = audit_line_chars(timestamp_ms, event, msg);
    let digits = decimal_chars(timestamp_ms);
    let d = digits.len() as int;
    let e = event.len() as int;
    assert(line.subrange(1, d + 1) =~= digits);
    assert(line.subrange(d + 1, d + 4) =~= seq![']', ' ', '[']);
    assert(line.subrange(d + 4, d + 4 + e) =~= event);
    assert(line.subrange(d + 4 + e, d + 6 + e) =~= seq![']', ' ']);
    assert(line.subrange(line.len() - msg.len(), line.len() as int) =~= msg);
}

/// Formats an audit log line for an event at a time in milliseconds since the epoch.
pub fn audit_line(timestamp_ms: u128, event: &str, msg: &str) -> (line: String)
    ensures
        line@ == audit_line_chars(timestamp_ms as nat, event@, msg@),
        line@.len() >= msg@.len(),
        line@.subrange(line@.len() - msg@.len(), line@.len() as int) == msg@,
{
    proof {
        lemma_audit_line_shape(timestamp_ms as nat, event@, msg@);
    }
    let mut line = String::new();
    line.append("[");
    append_decimal(&mut line, timestamp_ms);
    line.append("] [");
    line.append(event);
    line.append("] ");
    line.append(msg);
    proof {
        reveal_strlit("[");
        reveal_strlit("] [");
        reveal_strlit("] ");
        assert(line@ =~= audit_line_chars(timestamp_ms as nat, event@, msg@));
    }
    line
}

/// Whether `pattern` occurs in `text` starting at position `at`.
pub open spec fn occurs_at(text: Seq<u8>, pattern: Seq<u8>, at: int) -> bool {
    0 <= at && at + pattern.len() <= text.len() && text.subrange(at, at + pattern.len()) == pattern
}

/// Whether `pattern` occurs anywhere in `text`.
pub open spec fn contains_bytes(text: Seq<u8>, pattern: Seq<u8>) -> bool {
    exists|at: int| occurs_at(text, pattern, at)
}

/// The marker of a breach in the audit log.
pub open spec fn critical_marker() -> Seq<u8> {
    "[CRITICAL]".spec_bytes()
}

/// Whether `pattern` occurs in `text` at position `at`.
fn matches_at(text: &[u8], pattern: &[u8], at: usize) -> (found: bool)
    requires
        at + pattern@.len() <= text@.len(),
    ensures
        found == occurs_at(text@, pattern@, at as int),
{
    let text_len = text.len();
    let mut k: usize = 0;
    while k < pattern.len()
        invariant
            text_len == text@.len(),
            at + pattern@.len() <= text@.len(),
            k <= pattern@.len(),
            forall|j: int| 0 <= j < k ==> text@[at + j] == pattern@[j],
        decreases pattern@.len() - k,
    {
        if text[at + k] != pattern[k] {
            assert(text@.subrange(at as int, at + pattern@.len())[k as int] != pattern@[k as int]);
            return false;
        }
        k = k + 1;
    }
    assert(text@.subrange(at as int, at + pattern@.len()) =~= pattern@);
    true
}

/// Whether an audit log line records a breach, so that the telemetry panel
/// shows it in red.
pub fn is_critical_line(line: &str) -> (critical: bool)
    ensures
        critical == contains_bytes(line.spec_bytes(), critical_marker()),
{
    let text = line.as_bytes();
    let pattern = "[CRITICAL]".as_bytes();
    proof {
        reveal_strlit("[CRITICAL]");
        assert(vstd::string::is_ascii("[CRITICAL]"));
    }
    if pattern.len() > text.len() {
        return false;
    }
    let text_len = text.len();
    let last = text_len - pattern.len();
    let mut at: usize = 0;
    while at <= last
        invariant
            text_len == text@.len(),
            last + pattern@.len() == text@.len(),
            text@ == line.spec_bytes(),
            pattern@ == critical_marker(),
            pattern@.len() > 0,
            forall|j: int| 0 <= j < at ==> !occurs_at(text@, pattern@, j),
        decreases last + 1 - at,
    {
        if matches_at(text, pattern, at) {
            return true;
        }
        at = at + 1;
    }
    false
}

/// UTF-8 encoding distributes over concatenation.
pub proof fn lemma_encode_utf8_concat(a: Seq<char>, b: Seq<char>)
    ensures
        encode_utf8(a + b) == encode_utf8(a) + encode_utf8(b),
    decreases a.len(),
{
    if a.len() == 0 {
        assert(a + b =~= b);
        assert(encode_utf8(a) + encode_utf8(b) =~= encode_utf8(b));
    } else {
        assert((a + b)[0] == a[0]);
        assert((a + b).drop_first() =~= a.drop_first() + b);
        lemma_encode_utf8_concat(a.drop_first(), b);
        assert(encode_utf8(a + b) =~= encode_utf8(a) + encode_utf8(b));
    }
}

/// Every line logged for a `CRITICAL` event is recognised as a breach by the
/// telemetry panel, whatever its time and message.
pub proof fn lemma_critical_events_are_flagged(timestamp_ms: nat, msg: Seq<char>)
    ensures
        contains_bytes(encode_utf8(audit_line_chars(timestamp_ms, "CRITICAL"@, msg)), critical_marker()),
{
    reveal_strlit("CRITICAL");
    reveal_strlit("[CRITICAL]");
    let before = seq!['['] + decimal_chars(timestamp_ms) + seq![']', ' '];
    let marker = "[CRITICAL]"@;
    let after = seq![' '] + msg;
    assert(audit_line_chars(timestamp_ms, "CRITICAL"@, msg) =~= before + marker + after);
    lemma_encode_utf8_concat(before + marker, after);
    lemma_encode_utf8_concat(before, marker);
    let bytes = encode_utf8(before) + encode_utf8(marker) + encode_utf8(after);
    let at = encode_utf8(before).len() as int;
    assert(bytes.subrange(at, at + encode_utf8(marker).len()) =~= encode_utf8(marker));
    assert(occurs_at(bytes, critical_marker(), at));
}

/// Milliseconds between two integrity checks of the watchdog.
pub const WATCHDOG_PERIOD_MS: u64 = 3000;

/// Size of the manifest the watchdog hashes on every check.
pub const WATCHDOG_MANIFEST_LEN: usize = 1024 * 1024;

/// What one tick of the integrity watchdog found.
#[derive(Clone, Copy, Debug, PartialEq, Eq, Structural)]
pub enum WatchdogVerdict {
    /// Tampering was reported: the watchdog logs a breach and stops.
    TamperDetected,
    /// The manifest was hashed and the check with this number passed.
    CheckPassed(u64),
}

/// InGen's integrity watchdog: every few seconds it looks for tampering and,
/// while there is none, re-hashes the game's manifest.
pub struct Watchdog {
    checks: u64,
    manifest: Vec<u8>,
}

impl Watchdog {
    /// The number of ticks so far.
    pub closed spec fn ticks(&self) -> nat {
        self.checks as nat
    }

    /// The manifest the watchdog hashes on every check that finds no tampering.
    pub closed spec fn manifest(&self) -> Seq<u8> {
        self.manifest@
    }

    /// A watchdog that has not ticked yet, over a zeroed manifest.
    pub fn new() -> (watchdog: Self)
        ensures
            watchdog.ticks() == 0,
            watchdog.manifest() == Seq::new(WATCHDOG_MANIFEST_LEN as nat, |i: int| 0u8),
    {
        let manifest = vec![0u8; WATCHDOG_MANIFEST_LEN];
        assert(manifest@ =~= Seq::new(WATCHDOG_MANIFEST_LEN as nat, |i: int| 0u8));
        Watchdog { checks: 0, manifest }
    }

    /// The number of ticks so far.
    pub fn checks(&self) -> (n: u64)
        ensures
            n == self.ticks(),
    {
        self.checks
    }

    /// One tick, given whether tampering has been reported: the tick is
    /// counted, and either tampering is reported or the manifest is hashed and
    /// the check passes under its number.
    pub fn tick(&mut self, tampered: bool) -> (verdict: WatchdogVerdict)
        requires
            old(self).ticks() < u64::MAX,
        ensures
            final(self).ticks() == old(self).ticks() + 1,
            final(self).manifest() == old(self).manifest(),
            verdict == (if tampered {
                WatchdogVerdict::TamperDetected
            } else {
                WatchdogVerdict::CheckPassed((old(self).ticks() + 1) as u64)
            }),
    {
        self.checks = self.checks + 1;
        if tampered {
            return WatchdogVerdict::TamperDetected;
        }
        let _digest = sha256(self.manifest.as_slice());
        WatchdogVerdict::CheckPassed(self.checks)
    }
}

} // verus!
