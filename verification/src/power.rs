//! Logging out: the session manager is asked first; when that fails, the
//! user's session is ended over the system bus with the user id that `id -u`
//! printed.

use vstd::prelude::*;

use crate::text::{chars_of, trim, trim_chars};

verus! {

/// Whether every character is an ASCII decimal digit.
pub open spec fn all_digits(s: Seq<char>) -> bool {
    forall|i: int| 0 <= i < s.len() ==> '0' <= #[trigger] s[i] && s[i] <= '9'
}

/// The number that a string of decimal digits denotes.
pub open spec fn digits_value(s: Seq<char>) -> nat
    decreases s.len(),
{
    if s.len() == 0 {
        0
    } else {
        digits_value(s.drop_last()) * 10 + ((s.last() as int - '0' as int) as nat)
    }
}

/// The digits of an unsigned number: the text without one leading `+`.
pub open spec fn unsigned_digits(s: Seq<char>) -> Seq<char> {
    if s.len() > 0 && s[0] == '+' {
        s.drop_first()
    } else {
        s
    }
}

/// What `str::parse::<u32>` gives: the value of an optional `+` followed by at
/// least one decimal digit, when it fits in a `u32`; nothing otherwise.
pub open spec fn parsed_u32(s: Seq<char>) -> Option<u32> {
    let d = unsigned_digits(s);
    if d.len() > 0 && all_digits(d) && digits_value(d) <= u32::MAX {
        Some(digits_value(d) as u32)
    } else {
        None
    }
}

/// A longer run of digits denotes at least as much as its prefix.
proof fn lemma_digits_value_prefix(s: Seq<char>, k: int)
    requires
        0 <= k <= s.len(),
        all_digits(s),
    ensures
        digits_value(s.take(k)) <= digits_value(s),
    decreases s.len(),
{
    if k < s.len() {
        let init = s.drop_last();
        assert(init.take(k) =~= s.take(k));
        assert(all_digits(init)) by {
            assert forall|i: int| 0 <= i < init.len() implies '0' <= #[trigger] init[i] && init[i] <= '9' by {
                assert(init[i] == s[i]);
            }
        }
        lemma_digits_value_prefix(init, k);
    } else {
        assert(s.take(k) =~= s);
    }
}

/// Reads an unsigned decimal number as `str::parse::<u32>` does.
pub fn parse_u32(v: &Vec<char>) -> (r: Option<u32>)
    ensures
        r == parsed_u32(v@),
{
    let start: usize = if v.len() > 0 && v[0] == '+' { 1 } else { 0 };
    let ghost d = unsigned_digits(v@);
    assert(d =~= v@.skip(start as int));
    if start == v.len() {
        return None;
    }
    let mut value: u64 = 0;
    let mut i: usize = start;
    assert(d.take(0) =~= Seq::<char>::empty());
    while i < v.len()
        invariant
            start <= i <= v.len(),
            start < v.len(),
            d == v@.skip(start as int),
            d == unsigned_digits(v@),
            value <= u32::MAX,
            all_digits(d.take(i - start)),
            value == digits_value(d.take(i - start)),
        decreases v.len() - i,
    {
        let c = v[i];
        if c < '0' || c > '9' {
            assert(d[i - start] == c);
            return None;
        }
        let ghost k = i - start;
        assert(d.take(k + 1).drop_last() =~= d.take(k));
        assert(d.take(k + 1).last() == c);
        let digit: u64 = (c as u32 - '0' as u32) as u64;
        value = value * 10 + digit;
        i = i + 1;
        assert(all_digits(d.take(k + 1))) by {
            assert forall|j: int| 0 <= j < k + 1 implies '0' <= #[trigger] d.take(k + 1)[j] && d.take(k + 1)[j] <= '9' by {
                if j < k {
                    assert(d.take(k + 1)[j] == d.take(k)[j]);
                }
            }
        }
        if value > 0xffff_ffff {
            proof {
                if all_digits(d) {
                    lemma_digits_value_prefix(d, k + 1);
                }
            }
            return None;
        }
    }
    assert(d.take(d.len() as int) =~= d);
    Some(value as u32)
}

/// The user id in what `id -u` printed: the text without surrounding white
/// space, read as a `u32`.
pub fn parse_uid(text: &str) -> (r: Option<u32>)
    ensures
        r == parsed_u32(trim(text@)),
{
    let chars = chars_of(text);
    let trimmed = trim_chars(&chars);
    parse_u32(&trimmed)
}

/// What became of reading the user id with `id -u`.
#[derive(Debug)]
pub enum UidOutput {
    /// The command could not be run.
    NotRun,
    /// The command ran and failed.
    Failed,
    /// The command printed bytes that are not UTF-8.
    NotText,
    /// The command printed this text.
    Text(String),
}

/// An answer that the log-out procedure waits for.
#[derive(Debug)]
pub enum LogoutEvent {
    /// `cosmic-session exit` finished; whether it ran and succeeded.
    SessionExited(bool),
    UserIdRead(UidOutput),
    /// Ending the user's session over the system bus finished; whether it
    /// succeeded.
    UserTerminated(bool),
}

/// Why logging out failed.
#[derive(Clone, Copy, Debug, PartialEq, Eq, Structural)]
pub enum LogoutError {
    UidNotRun,
    UidFailed,
    UidNotText,
    UidNotNumber,
    Bus,
}

/// The next thing to do while logging out.
#[derive(Clone, Copy, Debug)]
pub enum LogoutStep {
    ReadUserId,
    TerminateUser(u32),
    Finish(Result<(), LogoutError>),
}

/// The next step of logging out after each answer: a successful session exit
/// finishes; otherwise the user id is read, a failure to read it finishes with
/// its error, and the session of the user id read is ended over the bus.
pub open spec fn logout_step(e: LogoutEvent) -> LogoutStep {
    match e {
        LogoutEvent::SessionExited(ok) => if ok {
            LogoutStep::Finish(Ok(()))
        } else {
            LogoutStep::ReadUserId
        },
        LogoutEvent::UserIdRead(out) => match out {
            UidOutput::NotRun => LogoutStep::Finish(Err(LogoutError::UidNotRun)),
            UidOutput::Failed => LogoutStep::Finish(Err(LogoutError::UidFailed)),
            UidOutput::NotText => LogoutStep::Finish(Err(LogoutError::UidNotText)),
            UidOutput::Text(t) => match parsed_u32(trim(t@)) {
                Some(uid) => LogoutStep::TerminateUser(uid),
                None => LogoutStep::Finish(Err(LogoutError::UidNotNumber)),
            },
        },
        LogoutEvent::UserTerminated(ok) => if ok {
            LogoutStep::Finish(Ok(()))
        } else {
            LogoutStep::Finish(Err(LogoutError::Bus))
        },
    }
}

/// Decides the next step of logging out.
pub fn next_logout_step(e: LogoutEvent) -> (r: LogoutStep)
    ensures
        r == logout_step(e),
{
    match e {
        LogoutEvent::SessionExited(ok) => if ok {
            LogoutStep::Finish(Ok(()))
        } else {
            LogoutStep::ReadUserId
        },
        LogoutEvent::UserIdRead(out) => match out {
            UidOutput::NotRun => LogoutStep::Finish(Err(LogoutError::UidNotRun)),
            UidOutput::Failed => LogoutStep::Finish(Err(LogoutError::UidFailed)),
            UidOutput::NotText => LogoutStep::Finish(Err(LogoutError::UidNotText)),
            UidOutput::Text(t) => match parse_uid(t.as_str()) {
                Some(uid) => LogoutStep::TerminateUser(uid),
                None => LogoutStep::Finish(Err(LogoutError::UidNotNumber)),
            },
        },
        LogoutEvent::UserTerminated(ok) => if ok {
            LogoutStep::Finish(Ok(()))
        } else {
            LogoutStep::Finish(Err(LogoutError::Bus))
        },
    }
}

} // verus!
