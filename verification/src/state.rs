//! The application state and the serial event handler.
//!
//! The handler is a single dispatch from event kind to action, always in the
//! same ready state. A power request asks the operating system for a
//! transition and is answered with exactly one log entry; a timer tick
//! replaces the displayed time and touches nothing else. The caller performs
//! the operating-system call and the console output, and hands the handler
//! plain values: the event, and the call's outcome.

use vstd::prelude::*;

use crate::clock::ClockTime;
use crate::clock::format_time;
use crate::clock::get_time;
use crate::clock::lemma_format_time_len;
use crate::clock::spec_format_time;

verus! {

/// The six event kinds the handler reacts to: one request per power
/// operation, plus the periodic timer tick.
#[derive(Clone, Copy, PartialEq, Eq, Structural, Debug)]
pub enum Msg {
    Shutdown,
    Reboot,
    Logout,
    Hibernate,
    Sleep,
    UpdateTime,
}

impl Msg {
    /// The five power requests ask the operating system for a power-state
    /// transition; the timer tick does not.
    pub open spec fn is_request(self) -> bool {
        self != Msg::UpdateTime
    }
}

/// The informational acknowledgment logged when the power request `m`
/// succeeds.
pub open spec fn success_text(m: Msg) -> Seq<char> {
    match m {
        Msg::Shutdown => "Shutting down, bye!"@,
        Msg::Reboot => "Rebooting, bye!"@,
        Msg::Logout => "Logging out, bye!"@,
        Msg::Hibernate => "Hibernating, bye!"@,
        Msg::Sleep => "Sleeping, bye!"@,
        Msg::UpdateTime => Seq::<char>::empty(),
    }
}

/// The text that precedes the failure description when the power request
/// `m` fails.
pub open spec fn failure_prefix(m: Msg) -> Seq<char> {
    match m {
        Msg::Shutdown => "Failed to shut down: "@,
        Msg::Reboot => "Failed to reboot: "@,
        Msg::Logout => "Failed to logout: "@,
        Msg::Hibernate => "Failed to hibernate: "@,
        Msg::Sleep => "Failed to sleep: "@,
        Msg::UpdateTime => Seq::<char>::empty(),
    }
}

/// The text of the one log entry that handling the power request `m` with
/// outcome `outcome` produces.
pub open spec fn log_text(m: Msg, outcome: Result<(), String>) -> Seq<char> {
    match outcome {
        Result::Ok(_) => success_text(m),
        Result::Err(e) => failure_prefix(m) + e@,
    }
}

/// One console line: informational on a successful power request, an error
/// line on a failed one.
pub struct LogEntry {
    pub is_error: bool,
    pub text: String,
}

/// The application state: the text the clock label shows.
pub struct AppState {
    pub displayed_time: String,
}

impl AppState {
    /// The displayed time is never empty once the state exists.
    pub open spec fn wf(self) -> bool {
        self.displayed_time@.len() > 0
    }

    /// Create the state displaying the calendar time `now`.
    pub fn new(now: ClockTime) -> (s: Self)
        requires
            now.wf(),
        ensures
            s.displayed_time@ == spec_format_time(now),
            s.wf(),
    {
        let displayed_time = format_time(&now);
        proof {
            lemma_format_time_len(now);
        }
        AppState { displayed_time }
    }

    /// Handle one of the five power requests, given the outcome of the
    /// operating-system call: the state is left untouched, and exactly one
    /// log entry comes back — the informational acknowledgment on success,
    /// an error line carrying the failure description on failure.
    pub fn handle_request(&mut self, msg: Msg, outcome: Result<(), String>) -> (log: LogEntry)
        requires
            msg.is_request(),
        ensures
            *final(self) == *old(self),
            log.is_error == (outcome is Err),
            log.text@ == log_text(msg, outcome),
    {
        match outcome {
            Result::Ok(_) => {
                let text = match msg {
                    Msg::Shutdown => String::from_str("Shutting down, bye!"),
                    Msg::Reboot => String::from_str("Rebooting, bye!"),
                    Msg::Logout => String::from_str("Logging out, bye!"),
                    Msg::Hibernate => String::from_str("Hibernating, bye!"),
                    Msg::Sleep => String::from_str("Sleeping, bye!"),
                    Msg::UpdateTime => String::new(),
                };
                LogEntry { is_error: false, text }
            },
            Result::Err(e) => {
                let mut text = match msg {
                    Msg::Shutdown => String::from_str("Failed to shut down: "),
                    Msg::Reboot => String::from_str("Failed to reboot: "),
                    Msg::Logout => String::from_str("Failed to logout: "),
                    Msg::Hibernate => String::from_str("Failed to hibernate: "),
                    Msg::Sleep => String::from_str("Failed to sleep: "),
                    Msg::UpdateTime => String::new(),
                };
                text.append(e.as_str());
                LogEntry { is_error: true, text }
            },
        }
    }

    /// Handle a timer tick produced at the calendar time `now`: the
    /// displayed time becomes exactly the rendering of `now`, and nothing
    /// else changes.
    pub fn handle_tick(&mut self, now: ClockTime)
        requires
            now.wf(),
        ensures
            final(self).displayed_time@ == spec_format_time(now),
            final(self).wf(),
    {
        self.displayed_time = format_time(&now);
        proof {
            lemma_format_time_len(now);
        }
    }

    /// Handle a timer tick against the real clock: the displayed time
    /// becomes the rendering of some displayable calendar time — the
    /// current one, which the clock supplies.
    pub fn refresh_time(&mut self)
        ensures
            final(self).wf(),
            exists|t: ClockTime| t.wf() && final(self).displayed_time@ == spec_format_time(t),
    {
        self.displayed_time = get_time();
        proof {
            let t = choose|t: ClockTime| t.wf() && self.displayed_time@ == spec_format_time(t);
            lemma_format_time_len(t);
        }
    }
}

/// Law: a successful power request is acknowledged with the informational
/// text for that request, and the acknowledgment is never empty — so every
/// success produces exactly one non-empty informational line, and the state
/// is untouched (see `handle_request`).
pub proof fn lemma_request_success_log(m: Msg)
    requires
        m.is_request(),
    ensures
        log_text(m, Result::Ok(())) == success_text(m),
        success_text(m).len() > 0,
{
    reveal_strlit("Shutting down, bye!");
    reveal_strlit("Rebooting, bye!");
    reveal_strlit("Logging out, bye!");
    reveal_strlit("Hibernating, bye!");
    reveal_strlit("Sleeping, bye!");
}

/// Law: a failed power request is reported with the request's non-empty
/// failure prefix followed by the failure description, so the one error
/// line contains the description verbatim, at the end — and the state is
/// untouched (see `handle_request`).
pub proof fn lemma_request_failure_log(m: Msg, e: String)
    requires
        m.is_request(),
    ensures
        log_text(m, Result::Err(e)) == failure_prefix(m) + e@,
        failure_prefix(m).len() > 0,
        log_text(m, Result::Err(e)).subrange(
            failure_prefix(m).len() as int,
            log_text(m, Result::Err(e)).len() as int,
        ) == e@,
{
    reveal_strlit("Failed to shut down: ");
    reveal_strlit("Failed to reboot: ");
    reveal_strlit("Failed to logout: ");
    reveal_strlit("Failed to hibernate: ");
    reveal_strlit("Failed to sleep: ");
    assert(log_text(m, Result::Err(e)).subrange(
        failure_prefix(m).len() as int,
        log_text(m, Result::Err(e)).len() as int,
    ) =~= e@);
}

} // verus!
