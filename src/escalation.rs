use vstd::prelude::*;
use crate::signal::Signal;

verus! {

/// Number of steps in the shutdown sequence.
pub const ESCALATION_STEPS: usize = 3;

/// Seconds to wait after a failed broadcast before trying the next signal.
pub const BACKOFF_SECS: u64 = 3;

/// Position of a signal in the sequence `[Term, Int, Kill]`.
pub open spec fn step_of(s: Signal) -> nat {
    match s {
        Signal::Term => 0,
        Signal::Int => 1,
        Signal::Kill => 2,
    }
}

/// The signal at a position of the sequence; positions past the end have none.
pub open spec fn signal_at(i: nat) -> Option<Signal> {
    if i == 0 {
        Some(Signal::Term)
    } else if i == 1 {
        Some(Signal::Int)
    } else if i == 2 {
        Some(Signal::Kill)
    } else {
        None
    }
}

pub open spec fn max_nat(a: nat, b: nat) -> nat {
    if a >= b { a } else { b }
}

/// Cursor after an escalation joins at `initial`: moved forward to it, never back.
pub open spec fn cursor_after_begin(c: nat, initial: Signal) -> nat {
    max_nat(c, step_of(initial))
}

/// Cursor after the broadcast of `sent` was attempted: a delivered signal
/// leaves it in place, a failed one moves it past `sent`, once.
pub open spec fn cursor_after_attempt(c: nat, sent: Signal, delivered: bool) -> nat {
    if delivered {
        c
    } else {
        max_nat(c, step_of(sent) + 1)
    }
}

/// One operation on the shared cursor, as escalations running in several
/// threads perform them one at a time.
pub enum EscalationEvent {
    Begin(Signal),
    Attempt(Signal, bool),
}

pub open spec fn cursor_after_event(c: nat, e: EscalationEvent) -> nat {
    match e {
        EscalationEvent::Begin(initial) => cursor_after_begin(c, initial),
        EscalationEvent::Attempt(sent, delivered) => cursor_after_attempt(c, sent, delivered),
    }
}

/// Cursor after a sequence of operations, in order.
pub open spec fn cursor_after_events(c: nat, events: Seq<EscalationEvent>) -> nat
    decreases events.len(),
{
    if events.len() == 0 {
        c
    } else {
        cursor_after_event(cursor_after_events(c, events.drop_last()), events.last())
    }
}

/// What an escalation does after one broadcast attempt.
#[derive(Clone, Copy, Debug, PartialEq, Eq, Structural)]
pub enum EscalationStep {
    /// The signal was delivered: this escalation is over, with no backoff.
    Done,
    /// The signal was not delivered: wait the backoff, then send the signal
    /// that the cursor then names.
    Retry,
    /// The signal was not delivered and every signal of the sequence has been
    /// tried: wait the backoff, then this escalation is over.
    Exhausted,
}

/// Whether a step calls for the backoff wait: after every failed broadcast,
/// the last one included.
pub open spec fn backs_off(s: EscalationStep) -> bool {
    s != EscalationStep::Done
}

impl EscalationStep {
    /// Whether the escalation waits the backoff before going on or ending.
    pub fn backs_off(self) -> (r: bool)
        ensures
            r == backs_off(self),
    {
        match self {
            EscalationStep::Done => false,
            EscalationStep::Retry => true,
            EscalationStep::Exhausted => true,
        }
    }
}

/// The shared, process-wide position in the shutdown sequence. It only moves
/// forward; once past `Kill` no signal is left to send.
pub struct Escalation {
    cursor: usize,
}

impl View for Escalation {
    type V = nat;

    closed spec fn view(&self) -> nat {
        self.cursor as nat
    }
}

impl Escalation {
    pub closed spec fn wf(&self) -> bool {
        self.cursor <= ESCALATION_STEPS
    }

    /// A cursor on which shutdown has not begun.
    pub fn new() -> (r: Escalation)
        ensures
            r.wf(),
            r@ == 0,
    {
        Escalation { cursor: 0 }
    }

    /// Position of the next signal to try.
    pub fn cursor(&self) -> (r: usize)
        ensures
            r == self@,
    {
        self.cursor
    }

    /// The signal the cursor names, or `None` once the sequence is exhausted.
    pub fn current(&self) -> (r: Option<Signal>)
        requires
            self.wf(),
        ensures
            r == signal_at(self@),
    {
        if self.cursor == 0 {
            Some(Signal::Term)
        } else if self.cursor == 1 {
            Some(Signal::Int)
        } else if self.cursor == 2 {
            Some(Signal::Kill)
        } else {
            None
        }
    }

    /// Joins the shutdown at `initial` and returns the signal to broadcast
    /// first. A shutdown already further along is continued, not restarted.
    pub fn begin(&mut self, initial: Signal) -> (r: Option<Signal>)
        requires
            old(self).wf(),
        ensures
            final(self).wf(),
            final(self)@ == cursor_after_begin(old(self)@, initial),
            r == signal_at(final(self)@),
    {
        let s: usize = match initial {
            Signal::Term => 0,
            Signal::Int => 1,
            Signal::Kill => 2,
        };
        if self.cursor < s {
            self.cursor = s;
        }
        self.current()
    }

    /// Records whether the broadcast of `sent` was delivered, and says what
    /// the escalation does next: a failed broadcast is always followed by the
    /// backoff, a delivered one never.
    pub fn attempted(&mut self, sent: Signal, delivered: bool) -> (r: EscalationStep)
        requires
            old(self).wf(),
        ensures
            final(self).wf(),
            final(self)@ == cursor_after_attempt(old(self)@, sent, delivered),
            backs_off(r) == !delivered,
            r == (if delivered {
                EscalationStep::Done
            } else if final(self)@ < ESCALATION_STEPS {
                EscalationStep::Retry
            } else {
                EscalationStep::Exhausted
            }),
    {
        if delivered {
            return EscalationStep::Done;
        }
        let next: usize = match sent {
            Signal::Term => 1,
            Signal::Int => 2,
            Signal::Kill => 3,
        };
        if self.cursor < next {
            self.cursor = next;
        }
        if self.cursor < ESCALATION_STEPS {
            EscalationStep::Retry
        } else {
            EscalationStep::Exhausted
        }
    }
}

/// Whatever operations concurrent escalations perform, in whatever order,
/// the cursor never moves back and never passes the end of the sequence.
pub proof fn lemma_cursor_monotone(c: nat, events: Seq<EscalationEvent>)
    requires
        c <= ESCALATION_STEPS,
    ensures
        c <= cursor_after_events(c, events) <= ESCALATION_STEPS,
    decreases events.len(),
{
    if events.len() > 0 {
        lemma_cursor_monotone(c, events.drop_last());
    }
}

/// Two escalations that both fail to deliver the same signal advance the
/// cursor by one step together, not by one step each.
pub proof fn lemma_failed_attempt_idempotent(c: nat, sent: Signal)
    ensures
        cursor_after_attempt(cursor_after_attempt(c, sent, false), sent, false)
            == cursor_after_attempt(c, sent, false),
{
}

/// Once the cursor has passed a signal, no later operation hands that signal
/// out again: `Term` is not revisited after `Int` is reached.
pub proof fn lemma_no_signal_revisited(c: nat, events: Seq<EscalationEvent>, s: Signal)
    requires
        c <= ESCALATION_STEPS,
        step_of(s) < c,
    ensures
        signal_at(cursor_after_events(c, events)) != Some(s),
{
    lemma_cursor_monotone(c, events);
}

} // verus!
