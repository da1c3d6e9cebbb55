//! The course of one handler, step by step.
//!
//! A [`Session`] is where a handler stands. The caller performs the action
//! it was given, then calls [`Session::advance`] with a [`Feedback`] that
//! says how the action went, and gets the next session and the next action.
//! A session is over once it hands out [`Action::Finish`].

use vstd::prelude::*;
use vstd::string::*;
use crate::action::{farewell_text, Action, ActionView, Controls, Outcome, RETRACT_DELAY_SECS};
use crate::text::{latency_label, latency_text};

verus! {

/// How the last action went.
#[derive(Clone, Copy, Debug, PartialEq, Eq, Structural)]
pub struct Feedback {
    /// Whether the action succeeded. Actions that cannot fail report `true`.
    pub ok: bool,
    /// Milliseconds since the handler was started.
    pub elapsed_ms: u128,
}

/// Where a handler stands: the action it is waiting on.
#[derive(Clone, Copy, Debug, PartialEq, Eq, Structural)]
pub enum Session {
    /// Waiting on the last delivery; its result is the handler's result.
    Concluding,
    /// Waiting on the acknowledgement whose delay is being measured.
    Probing { controls: Controls },
    /// Waiting on the delivery of a denial.
    Denying,
    /// Waiting for the denial's time on screen to pass.
    Holding,
    /// Waiting on the log line that names the requester.
    Announcing,
    /// Waiting on the delivery of the farewell.
    Acknowledging,
    /// Waiting on the shutdown channel.
    Signalling,
    /// Waiting on the log line about the signal.
    Reporting,
    /// Waiting on the shard to close.
    Stopping,
    /// Over.
    Closed { outcome: Outcome },
}

impl Session {
    /// The session that follows `self` once `feedback` has come in.
    pub open spec fn next(self, feedback: Feedback) -> Session {
        match self {
            Session::Concluding => Session::Closed {
                outcome: if feedback.ok {
                    Outcome::Completed
                } else {
                    Outcome::TransportFailed
                },
            },
            Session::Probing { controls } => if feedback.ok {
                Session::Concluding
            } else {
                Session::Closed { outcome: Outcome::TransportFailed }
            },
            Session::Denying => if feedback.ok {
                Session::Holding
            } else {
                Session::Closed { outcome: Outcome::TransportFailed }
            },
            Session::Holding => Session::Concluding,
            Session::Announcing => Session::Acknowledging,
            Session::Acknowledging => Session::Signalling,
            Session::Signalling => Session::Reporting,
            Session::Reporting => Session::Stopping,
            Session::Stopping => Session::Closed { outcome: Outcome::Completed },
            Session::Closed { outcome } => Session::Closed { outcome },
        }
    }

    /// The action that `self` asks for once `feedback` has come in.
    pub open spec fn request(self, feedback: Feedback) -> ActionView {
        match self {
            Session::Probing { controls } => if feedback.ok {
                ActionView::Edit { content: latency_text(feedback.elapsed_ms as nat), controls }
            } else {
                ActionView::Finish { outcome: Outcome::TransportFailed }
            },
            Session::Denying => if feedback.ok {
                ActionView::Wait { seconds: RETRACT_DELAY_SECS }
            } else {
                ActionView::Finish { outcome: Outcome::TransportFailed }
            },
            Session::Holding => ActionView::Retract,
            Session::Announcing => ActionView::Reply { content: farewell_text(), ephemeral: true },
            Session::Acknowledging => ActionView::Signal { stop: true },
            Session::Signalling => ActionView::LogSignal { delivered: feedback.ok },
            Session::Reporting => ActionView::StopShard,
            Session::Concluding | Session::Stopping | Session::Closed { .. } => ActionView::Finish {
                outcome: self.next(feedback)->outcome,
            },
        }
    }

    /// Whether the session is over.
    pub fn is_closed(&self) -> (closed: bool)
        ensures
            closed == (self is Closed),
    {
        match self {
            Session::Closed { .. } => true,
            _ => false,
        }
    }

    /// Takes the report on the last action and decides what comes next.
    ///
    /// A failed delivery ends the handler with `TransportFailed`, with two
    /// exceptions in an accepted shutdown: the farewell may fail, and the
    /// signal may find the channel closed, and the shutdown still goes on.
    /// A closed session stays closed and repeats its outcome.
    pub fn advance(self, feedback: Feedback) -> (step: (Session, Action))
        ensures
            step.0 == self.next(feedback),
            step.1@ == self.request(feedback),
    {
        let failed = (
            Session::Closed { outcome: Outcome::TransportFailed },
            Action::Finish { outcome: Outcome::TransportFailed },
        );
        match self {
            Session::Concluding => if feedback.ok {
                (
                    Session::Closed { outcome: Outcome::Completed },
                    Action::Finish { outcome: Outcome::Completed },
                )
            } else {
                failed
            },
            Session::Probing { controls } => if feedback.ok {
                (
                    Session::Concluding,
                    Action::Edit { content: latency_label(feedback.elapsed_ms), controls },
                )
            } else {
                failed
            },
            Session::Denying => if feedback.ok {
                (Session::Holding, Action::Wait { seconds: RETRACT_DELAY_SECS })
            } else {
                failed
            },
            Session::Holding => (Session::Concluding, Action::Retract),
            Session::Announcing => (
                Session::Acknowledging,
                Action::Reply { content: String::from_str("Shutting down..."), ephemeral: true },
            ),
            Session::Acknowledging => (Session::Signalling, Action::Signal { stop: true }),
            Session::Signalling => (
                Session::Reporting,
                Action::LogSignal { delivered: feedback.ok },
            ),
            Session::Reporting => (Session::Stopping, Action::StopShard),
            Session::Stopping => (
                Session::Closed { outcome: Outcome::Completed },
                Action::Finish { outcome: Outcome::Completed },
            ),
            Session::Closed { outcome } => (Session::Closed { outcome }, Action::Finish { outcome }),
        }
    }
}

/// The actions that `session` asks for, one after the other, while the
/// caller reports `reports`.
pub open spec fn transcript(session: Session, reports: Seq<Feedback>) -> Seq<ActionView>
    decreases reports.len(),
{
    if reports.len() == 0 {
        Seq::empty()
    } else {
        seq![session.request(reports[0])] + transcript(
            session.next(reports[0]),
            reports.drop_first(),
        )
    }
}

/// The session reached from `session` once the caller has reported
/// `reports`.
pub open spec fn outcome_of(session: Session, reports: Seq<Feedback>) -> Session
    decreases reports.len(),
{
    if reports.len() == 0 {
        session
    } else {
        outcome_of(session.next(reports[0]), reports.drop_first())
    }
}

impl Session {
    /// The most reports that the session can still take before it is over.
    pub open spec fn steps_left(self) -> nat {
        match self {
            Session::Closed { .. } => 0,
            Session::Concluding | Session::Stopping => 1,
            Session::Probing { .. } | Session::Holding | Session::Reporting => 2,
            Session::Denying | Session::Signalling => 3,
            Session::Acknowledging => 4,
            Session::Announcing => 5,
        }
    }

    /// Whether a signal on the shutdown channel still lies ahead.
    pub open spec fn will_signal(self) -> bool {
        self is Announcing || self is Acknowledging
    }
}

/// Every report brings a session nearer to its end, and the action that
/// ends it is `Finish`, handed out exactly when the session closes.
pub proof fn lemma_advance_makes_progress(session: Session, report: Feedback)
    ensures
        !(session is Closed) ==> session.next(report).steps_left() < session.steps_left(),
        session.request(report) is Finish <==> session.next(report) is Closed,
        session.next(report) matches Session::Closed { outcome } ==> session.request(report)
            == (ActionView::Finish { outcome }),
{
}

/// No session outlives five reports.
pub proof fn lemma_session_closes(session: Session, reports: Seq<Feedback>)
    requires
        reports.len() >= session.steps_left(),
    ensures
        outcome_of(session, reports) is Closed,
    decreases reports.len(),
{
    if reports.len() > 0 {
        lemma_advance_makes_progress(session, reports[0]);
        lemma_session_closes(session.next(reports[0]), reports.drop_first());
    }
}

/// A transcript has one action for each report.
pub proof fn lemma_transcript_len(session: Session, reports: Seq<Feedback>)
    ensures
        transcript(session, reports).len() == reports.len(),
    decreases reports.len(),
{
    if reports.len() > 0 {
        lemma_transcript_len(session.next(reports[0]), reports.drop_first());
    }
}

/// Whatever the caller reports, a session puts at most one value on the
/// shutdown channel, that value is `true`, and a session in which no
/// signal lies ahead puts none.
pub proof fn lemma_signals_at_most_once(session: Session, reports: Seq<Feedback>, i: int, j: int)
    requires
        0 <= i < reports.len(),
        0 <= j < reports.len(),
        transcript(session, reports)[i] is Signal,
        transcript(session, reports)[j] is Signal,
    ensures
        i == j,
        session.will_signal(),
        transcript(session, reports)[i] == (ActionView::Signal { stop: true }),
    decreases reports.len(),
{
    let rest = reports.drop_first();
    let next = session.next(reports[0]);
    lemma_transcript_len(next, rest);
    let tail = transcript(next, rest);
    assert(transcript(session, reports) == seq![session.request(reports[0])] + tail);
    if i > 0 {
        assert(transcript(session, reports)[i] == tail[i - 1]);
    }
    if j > 0 {
        assert(transcript(session, reports)[j] == tail[j - 1]);
    }
    if i > 0 && j > 0 {
        lemma_signals_at_most_once(next, rest, i - 1, j - 1);
    } else if i > 0 {
        lemma_signals_at_most_once(next, rest, i - 1, i - 1);
    } else if j > 0 {
        lemma_signals_at_most_once(next, rest, j - 1, j - 1);
    }
}

/// Once the signal has been handed to the channel, the shutdown goes on
/// whether or not the channel took it: the result is logged, the shard is
/// stopped, and the handler ends as completed.
pub proof fn lemma_lost_signal_is_not_fatal(sent: Feedback, logged: Feedback, stopped: Feedback)
    ensures
        transcript(Session::Signalling, seq![sent, logged, stopped]) == seq![
            ActionView::LogSignal { delivered: sent.ok },
            ActionView::StopShard,
            ActionView::Finish { outcome: Outcome::Completed },
        ],
        outcome_of(Session::Signalling, seq![sent, logged, stopped]) == (Session::Closed {
            outcome: Outcome::Completed,
        }),
{
    let reports = seq![sent, logged, stopped];
    let r1 = reports.drop_first();
    let r2 = r1.drop_first();
    assert(r1 =~= seq![logged, stopped]);
    assert(r2 =~= seq![stopped]);
    assert(r2.drop_first() =~= Seq::<Feedback>::empty());
    reveal_with_fuel(transcript, 4);
    reveal_with_fuel(outcome_of, 4);
    assert(transcript(Session::Stopping, r2) =~= seq![
        ActionView::Finish { outcome: Outcome::Completed },
    ]);
    assert(transcript(Session::Reporting, r1) =~= seq![
        ActionView::StopShard,
        ActionView::Finish { outcome: Outcome::Completed },
    ]);
    assert(transcript(Session::Signalling, reports) =~= seq![
        ActionView::LogSignal { delivered: sent.ok },
        ActionView::StopShard,
        ActionView::Finish { outcome: Outcome::Completed },
    ]);
}

} // verus!
