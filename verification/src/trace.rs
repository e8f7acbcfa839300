//! What holds of a monitor over a whole run: a sequence of reports from the
//! driver and the monitor's answers to them.

use crate::monitor::{duration_of_millis, Effect, MonitorState, Outcome, Phase, StepError};
use crate::repeat_last::{repeat_last, Cursor};
use crate::status::{Severity, Status};
use std::time::Duration;
use vstd::prelude::*;

verus! {

impl MonitorState {
    /// The state after the driver reported `outcomes`, in order.
    pub open spec fn run<E>(self, outcomes: Seq<Outcome<E>>) -> Self
        decreases outcomes.len(),
    {
        if outcomes.len() == 0 {
            self
        } else {
            self.run(outcomes.drop_last()).next(outcomes.last())
        }
    }

    /// The monitor's answers to `outcomes`, one for each report.
    pub open spec fn answers<E>(self, outcomes: Seq<Outcome<E>>) -> Seq<
        Result<Effect<E>, StepError>,
    > {
        Seq::new(outcomes.len(), |i: int| self.run(outcomes.take(i)).respond(outcomes[i]))
    }
}

/// The events that the driver reported, in order.
pub open spec fn polled<E>(outcomes: Seq<Outcome<E>>) -> Seq<E>
    decreases outcomes.len(),
{
    if outcomes.len() == 0 {
        Seq::empty()
    } else {
        match outcomes.last() {
            Outcome::Polled(event) => polled(outcomes.drop_last()).push(event),
            _ => polled(outcomes.drop_last()),
        }
    }
}

/// The events that the monitor asked the driver to publish, in order.
pub open spec fn published<E>(answers: Seq<Result<Effect<E>, StepError>>) -> Seq<E>
    decreases answers.len(),
{
    if answers.len() == 0 {
        Seq::empty()
    } else {
        match answers.last() {
            Ok(Effect::Publish(event)) => published(answers.drop_last()).push(event),
            _ => published(answers.drop_last()),
        }
    }
}

/// `k` failed attempts to establish the source, one after the other.
pub open spec fn failed_attempts<E>(k: nat) -> Seq<Outcome<E>> {
    Seq::new(k, |i: int| Outcome::EstablishFailed)
}

/// The reports of a healthy spell: the source is established, produces
/// `events`, and fails.
pub open spec fn healthy_spell<E>(events: Seq<E>) -> Seq<Outcome<E>> {
    seq![Outcome::Established] + events.map_values(|event: E| Outcome::Polled(event)) + seq![
        Outcome::PollFailed,
    ]
}

/// A run is the run of its first reports, continued by the last one.
proof fn lemma_answers_drop_last<E>(s: MonitorState, outcomes: Seq<Outcome<E>>)
    requires
        outcomes.len() > 0,
    ensures
        s.answers(outcomes).drop_last() == s.answers(outcomes.drop_last()),
        s.answers(outcomes).last() == s.run(outcomes.drop_last()).respond(outcomes.last()),
{
    let shorter = outcomes.drop_last();
    assert forall|i: int| 0 <= i < shorter.len() implies #[trigger] s.answers(outcomes)[i]
        == s.answers(shorter)[i] by {
        assert(outcomes.take(i) =~= shorter.take(i));
    }
    assert(s.answers(outcomes).drop_last() =~= s.answers(shorter));
    assert(outcomes.take(outcomes.len() - 1) =~= shorter);
}

/// Reports never change the backoff schedule, and leave a valid state valid.
pub proof fn lemma_run_keeps_schedule<E>(s: MonitorState, outcomes: Seq<Outcome<E>>)
    requires
        s.wf(),
    ensures
        s.run(outcomes).wf(),
        s.run(outcomes).backoff == s.backoff,
    decreases outcomes.len(),
{
    if outcomes.len() > 0 {
        lemma_run_keeps_schedule(s, outcomes.drop_last());
    }
}

/// Events are published in the order in which the source produced them,
/// and nothing else is published: as long as the driver reports events only
/// while the monitor has it poll, the events that the monitor hands back for
/// publishing are the reported events, in the same order.
pub proof fn lemma_published_in_order<E>(s: MonitorState, outcomes: Seq<Outcome<E>>)
    requires
        forall|i: int|
            0 <= i < outcomes.len() && #[trigger] outcomes[i] is Polled ==> s.run(
                outcomes.take(i),
            ).phase is Streaming,
    ensures
        published(s.answers(outcomes)) == polled(outcomes),
    decreases outcomes.len(),
{
    if outcomes.len() > 0 {
        let shorter = outcomes.drop_last();
        assert forall|i: int| 0 <= i < shorter.len() && #[trigger] shorter[i] is Polled implies s.run(
            shorter.take(i),
        ).phase is Streaming by {
            assert(outcomes[i] is Polled);
            assert(outcomes.take(i) =~= shorter.take(i));
        }
        lemma_published_in_order(s, shorter);
        lemma_answers_drop_last(s, outcomes);
        if outcomes.last() is Polled {
            assert(outcomes[outcomes.len() - 1] is Polled);
            assert(outcomes.take(outcomes.len() - 1) =~= shorter);
        }
    }
}

/// The monitor has the driver poll only an instance that is alive: it waits
/// for a poll exactly after the report that the source was established or
/// that the instance produced an event, never after a failure or a
/// cancellation.
pub proof fn lemma_polls_follow_success<E>(s: MonitorState, outcome: Outcome<E>)
    requires
        s.accepts(outcome),
    ensures
        s.next(outcome).phase is Streaming <==> (s.phase is Connecting && outcome is Established)
            || (s.phase is Streaming && outcome is Polled),
{
}

/// The pause after a failure in mid-stream is the same fixed delay whatever
/// the backoff schedule and however far it has escalated, and the next call
/// after it is an attempt to connect.
pub proof fn lemma_grace_is_fixed<E>(s: MonitorState)
    requires
        s.phase is Streaming,
    ensures
        s.respond(Outcome::<E>::PollFailed) == Ok::<Effect<E>, StepError>(
            Effect::Grace { delay: duration_of_millis(100) },
        ),
        s.next(Outcome::<E>::PollFailed).phase is Connecting,
        s.next(Outcome::<E>::PollFailed).cursor == s.cursor,
{
}

/// Backoff escalates over consecutive failed attempts: after `k` failed
/// attempts in a row, the wait that follows the next failed attempt is the
/// schedule's value `k` places further on, and the schedule's last value
/// once the schedule is used up. Only the first failure of an outage is
/// reported as a warning.
pub proof fn lemma_backoff_escalates<E>(s: MonitorState, k: nat)
    requires
        s.wf(),
        s.phase is Connecting,
    ensures
        s.run(failed_attempts::<E>(k)).phase is Connecting,
        s.run(failed_attempts::<E>(k)).respond(Outcome::<E>::EstablishFailed) == Ok::<
            Effect<E>,
            StepError,
        >(
            Effect::Backoff {
                severity: if k == 0 && s.status is Up {
                    Severity::Warn
                } else {
                    Severity::Info
                },
                delay: repeat_last(s.backoff, s.cursor.pos + k).unwrap(),
            },
        ),
{
    lemma_after_failed_attempts::<E>(s, k);
}

/// The state after `k` failed attempts in a row.
proof fn lemma_after_failed_attempts<E>(s: MonitorState, k: nat)
    requires
        s.wf(),
        s.phase is Connecting,
    ensures
        s.run(failed_attempts::<E>(k)) == (MonitorState {
            cursor: Cursor {
                input: s.backoff,
                pos: if s.cursor.pos + k <= s.backoff.len() {
                    s.cursor.pos + k
                } else {
                    s.backoff.len()
                },
            },
            status: if k == 0 {
                s.status
            } else {
                Status::Down
            },
            ..s
        }),
    decreases k,
{
    if k > 0 {
        let shorter = failed_attempts::<E>((k - 1) as nat);
        assert(failed_attempts::<E>(k).drop_last() =~= shorter);
        lemma_after_failed_attempts::<E>(s, (k - 1) as nat);
    }
}

/// From the start, the waits between failed attempts are the values of the
/// backoff schedule in order, then its last value for ever.
pub proof fn lemma_backoff_from_start<E>(backoff: Seq<Duration>, k: nat, i: int)
    requires
        backoff.len() > 0,
        0 <= i < k,
    ensures
        MonitorState::initial(backoff).answers(failed_attempts::<E>(k))[i] == Ok::<
            Effect<E>,
            StepError,
        >(
            Effect::Backoff {
                severity: if i == 0 {
                    Severity::Warn
                } else {
                    Severity::Info
                },
                delay: repeat_last(backoff, i as nat).unwrap(),
            },
        ),
{
    assert(failed_attempts::<E>(k).take(i) =~= failed_attempts::<E>(i as nat));
    lemma_backoff_escalates::<E>(MonitorState::initial(backoff), i as nat);
}

/// The state after a healthy spell that began in `s`.
proof fn lemma_after_healthy_spell<E>(s: MonitorState, events: Seq<E>)
    requires
        s.wf(),
        s.phase is Connecting,
    ensures
        s.run(healthy_spell(events)) == (MonitorState {
            cursor: Cursor::fresh(s.backoff),
            status: Status::Up,
            phase: Phase::Connecting,
            ..s
        }),
{
    let spell = healthy_spell(events);
    assert(spell.drop_last() =~= seq![Outcome::Established] + events.map_values(
        |event: E| Outcome::Polled(event),
    ));
    lemma_while_streaming(s, events);
}

/// The state after the source was established and produced `events`.
proof fn lemma_while_streaming<E>(s: MonitorState, events: Seq<E>)
    requires
        s.wf(),
        s.phase is Connecting,
    ensures
        s.run(
            seq![Outcome::Established] + events.map_values(|event: E| Outcome::Polled(event)),
        ) == (MonitorState {
            cursor: Cursor::fresh(s.backoff),
            status: Status::Up,
            phase: Phase::Streaming,
            ..s
        }),
    decreases events.len(),
{
    let reports = seq![Outcome::Established] + events.map_values(
        |event: E| Outcome::Polled(event),
    );
    if events.len() == 0 {
        assert(reports.drop_last() =~= Seq::<Outcome<E>>::empty());
        assert(s.run(reports.drop_last()) == s);
    } else {
        assert(reports.drop_last() =~= seq![Outcome::Established] + events.drop_last().map_values(
            |event: E| Outcome::Polled(event),
        ));
        lemma_while_streaming(s, events.drop_last());
    }
}

/// Backoff starts over after every successful connection: however far the
/// waits had escalated before the source was established, once it has been
/// healthy the waits between the failed attempts that follow are the values
/// of the schedule from its first one on, and the first of these failures is
/// reported as a warning.
pub proof fn lemma_backoff_resets<E>(s: MonitorState, events: Seq<E>, k: nat)
    requires
        s.wf(),
        s.phase is Connecting,
    ensures
        s.run(healthy_spell(events)).phase is Connecting,
        s.run(healthy_spell(events)).respond(Outcome::<E>::EstablishFailed) == Ok::<
            Effect<E>,
            StepError,
        >(Effect::Backoff { severity: Severity::Warn, delay: s.backoff[0] }),
        s.run(healthy_spell(events)).run(failed_attempts::<E>(k)).respond(
            Outcome::<E>::EstablishFailed,
        ) == Ok::<Effect<E>, StepError>(
            Effect::Backoff {
                severity: if k == 0 {
                    Severity::Warn
                } else {
                    Severity::Info
                },
                delay: repeat_last(s.backoff, k).unwrap(),
            },
        ),
{
    lemma_after_healthy_spell(s, events);
    lemma_backoff_escalates::<E>(s.run(healthy_spell(events)), k);
    lemma_backoff_escalates::<E>(s.run(healthy_spell(events)), 0);
}

/// Supervision ends by cancellation only: no failure, however often it
/// recurs, and no other report makes the monitor stop.
pub proof fn lemma_only_cancellation_stops<E>(s: MonitorState, outcome: Outcome<E>)
    requires
        !(s.phase is Stopped),
        !(outcome is Cancelled),
    ensures
        !(s.next(outcome).phase is Stopped),
        !(s.respond(outcome) == Ok::<Effect<E>, StepError>(Effect::Stop)),
{
}

/// Cancellation is final: the answer to it is to stop, in any state, and
/// from then on the monitor asks for no further call and answers every
/// report with the order to stop.
pub proof fn lemma_cancellation_is_final<E>(s: MonitorState, later: Seq<Outcome<E>>)
    ensures
        s.respond(Outcome::<E>::Cancelled) == Ok::<Effect<E>, StepError>(Effect::Stop),
        s.next(Outcome::<E>::Cancelled).phase is Stopped,
        s.next(Outcome::<E>::Cancelled).run(later).phase is Stopped,
        forall|i: int|
            0 <= i < later.len() ==> #[trigger] s.next(Outcome::<E>::Cancelled).answers(later)[i]
                == Ok::<Effect<E>, StepError>(Effect::Stop),
{
    let stopped = s.next(Outcome::<E>::Cancelled);
    lemma_stopped_stays(stopped, later);
    assert forall|i: int| 0 <= i < later.len() implies #[trigger] stopped.answers(later)[i] == Ok::<
        Effect<E>,
        StepError,
    >(Effect::Stop) by {
        lemma_stopped_stays(stopped, later.take(i));
    }
}

/// A stopped monitor stays as it is.
proof fn lemma_stopped_stays<E>(s: MonitorState, outcomes: Seq<Outcome<E>>)
    requires
        s.phase is Stopped,
    ensures
        s.run(outcomes) == s,
    decreases outcomes.len(),
{
    if outcomes.len() > 0 {
        lemma_stopped_stays(s, outcomes.drop_last());
    }
}

} // verus!
