//! The export loop as a state machine. The hosting process owns the timer and
//! performs each export; after every tick and every finished attempt it asks
//! the machine what to do next.
//!
//! A loop starts out waiting for the first tick of its timer, which fires at
//! once and is discarded, so that the first export happens one full interval
//! after the start. From then on every tick starts one export, and however
//! the export ends, the loop goes back to waiting for the next tick.

use crate::delivery::{is_success, response_result};
use crate::error::{DeliveryFailure, DeliveryFault};
use vstd::prelude::*;

verus! {

/// Where an export loop stands.
#[derive(Clone, Copy, Debug, PartialEq, Eq, Structural)]
pub enum LoopState {
    /// Started; the timer has not fired yet.
    WaitingFirstTick,
    /// Between two exports.
    Idle,
    /// An export is under way.
    Exporting,
}

/// What the hosting process does after it has reported an event.
#[derive(Clone, Debug, PartialEq, Eq)]
pub enum LoopAction {
    /// Nothing: wait for the next event.
    Wait,
    /// Take a snapshot of the metrics and deliver it.
    Export,
    /// Log the failure, then wait for the next event.
    Report(DeliveryFailure),
}

/// What happened, in the form that the machine decides on.
pub enum Signal {
    /// The timer fired.
    Tick,
    /// The export that was under way has been delivered.
    Delivered,
    /// The export that was under way has failed.
    Failed(DeliveryFault),
}

/// The mathematical form of a [`LoopAction`].
pub enum Reaction {
    Wait,
    Export,
    Report(DeliveryFault),
}

impl View for LoopAction {
    type V = Reaction;

    open spec fn view(&self) -> Reaction {
        match self {
            LoopAction::Wait => Reaction::Wait,
            LoopAction::Export => Reaction::Export,
            LoopAction::Report(failure) => Reaction::Report(failure@),
        }
    }
}

/// The state after `signal` arrives in `state`. The first tick only ends the
/// initial wait. A tick while idle starts an export; a tick during an export
/// changes nothing, so that at most one export is under way. The end of an
/// export, good or bad, makes the loop idle again.
pub open spec fn next_state(state: LoopState, signal: Signal) -> LoopState {
    match signal {
        Signal::Tick => match state {
            LoopState::WaitingFirstTick => LoopState::Idle,
            LoopState::Idle => LoopState::Exporting,
            LoopState::Exporting => LoopState::Exporting,
        },
        _ => match state {
            LoopState::Exporting => LoopState::Idle,
            other => other,
        },
    }
}

/// What is to be done when `signal` arrives in `state`: an export for a tick
/// while idle, a report for every failure, and nothing otherwise.
pub open spec fn reaction(state: LoopState, signal: Signal) -> Reaction {
    match signal {
        Signal::Tick => if state == LoopState::Idle {
            Reaction::Export
        } else {
            Reaction::Wait
        },
        Signal::Delivered => Reaction::Wait,
        Signal::Failed(fault) => Reaction::Report(fault),
    }
}

/// An event of a loop that delivers over the network.
#[derive(Clone, Debug, PartialEq, Eq)]
pub enum NetworkEvent {
    /// The timer fired.
    Tick,
    /// The endpoint answered with this status.
    Responded(u16),
    /// The attempt ended without an answer.
    Failed(DeliveryFailure),
}

/// The signal that a network event amounts to: an answer is a delivery
/// exactly when its status reports success.
pub open spec fn network_signal(event: NetworkEvent) -> Signal {
    match event {
        NetworkEvent::Tick => Signal::Tick,
        NetworkEvent::Responded(status) => if is_success(status) {
            Signal::Delivered
        } else {
            Signal::Failed(DeliveryFault::Status(status))
        },
        NetworkEvent::Failed(failure) => Signal::Failed(failure@),
    }
}

/// An event of a loop that delivers to the in-process handler.
#[derive(Clone, Debug, PartialEq, Eq)]
pub enum HandlerEvent {
    /// The timer fired.
    Tick,
    /// The handler took the batch.
    Written,
    /// The handler reported this error.
    Rejected(String),
}

/// The signal that a handler event amounts to.
pub open spec fn handler_signal(event: HandlerEvent) -> Signal {
    match event {
        HandlerEvent::Tick => Signal::Tick,
        HandlerEvent::Written => Signal::Delivered,
        HandlerEvent::Rejected(error) => Signal::Failed(DeliveryFault::Handler(error@)),
    }
}

impl LoopState {
    /// The state of a loop that has just been started.
    pub fn start() -> (state: LoopState)
        ensures
            state == LoopState::WaitingFirstTick,
    {
        LoopState::WaitingFirstTick
    }

    /// Takes the next tick of the timer.
    pub fn on_tick(self) -> (next: (LoopState, LoopAction))
        ensures
            next.0 == next_state(self, Signal::Tick),
            next.1@ == reaction(self, Signal::Tick),
    {
        match self {
            LoopState::WaitingFirstTick => (LoopState::Idle, LoopAction::Wait),
            LoopState::Idle => (LoopState::Exporting, LoopAction::Export),
            LoopState::Exporting => (LoopState::Exporting, LoopAction::Wait),
        }
    }

    /// Takes the end of an export attempt.
    pub fn on_finished(self, result: Result<(), DeliveryFailure>) -> (next: (LoopState, LoopAction))
        ensures
            result is Ok ==> next.0 == next_state(self, Signal::Delivered) && next.1@ == reaction(
                self,
                Signal::Delivered,
            ),
            result matches Err(e) ==> next.0 == next_state(self, Signal::Failed(e@)) && next.1@
                == reaction(self, Signal::Failed(e@)),
    {
        let state = match self {
            LoopState::Exporting => LoopState::Idle,
            other => other,
        };
        match result {
            Ok(()) => (state, LoopAction::Wait),
            Err(failure) => (state, LoopAction::Report(failure)),
        }
    }
}

/// One step of a loop that delivers over the network: what to do now that
/// `event` has happened in `state`, and the state from here on.
pub fn write_system_metric_by_network(state: LoopState, event: NetworkEvent) -> (next: (
    LoopState,
    LoopAction,
))
    ensures
        next.0 == next_state(state, network_signal(event)),
        next.1@ == reaction(state, network_signal(event)),
{
    match event {
        NetworkEvent::Tick => state.on_tick(),
        NetworkEvent::Responded(status) => state.on_finished(response_result(status)),
        NetworkEvent::Failed(failure) => state.on_finished(Err(failure)),
    }
}

/// One step of a loop that delivers to the in-process handler: what to do now
/// that `event` has happened in `state`, and the state from here on.
pub fn write_system_metric_by_handler(state: LoopState, event: HandlerEvent) -> (next: (
    LoopState,
    LoopAction,
))
    ensures
        next.0 == next_state(state, handler_signal(event)),
        next.1@ == reaction(state, handler_signal(event)),
{
    match event {
        HandlerEvent::Tick => state.on_tick(),
        HandlerEvent::Written => state.on_finished(Ok(())),
        HandlerEvent::Rejected(error) => state.on_finished(Err(DeliveryFailure::Handler(error))),
    }
}

/// The state of a loop that has seen `signals` since `state`.
pub open spec fn state_after(state: LoopState, signals: Seq<Signal>) -> LoopState
    decreases signals.len(),
{
    if signals.len() == 0 {
        state
    } else {
        next_state(state_after(state, signals.drop_last()), signals.last())
    }
}

/// What a loop started with no signal seen does on signal number `i` of
/// `signals`.
pub open spec fn reaction_at(signals: Seq<Signal>, i: int) -> Reaction
    recommends
        0 <= i < signals.len(),
{
    reaction(state_after(LoopState::WaitingFirstTick, signals.take(i)), signals[i])
}

/// The number of exports that a loop started with no signal seen begins on
/// `signals`.
pub open spec fn exports(signals: Seq<Signal>) -> nat
    decreases signals.len(),
{
    if signals.len() == 0 {
        0
    } else {
        let before = exports(signals.drop_last());
        if reaction_at(signals, signals.len() - 1) is Export {
            before + 1
        } else {
            before
        }
    }
}

/// The number of ticks among `signals`.
pub open spec fn ticks(signals: Seq<Signal>) -> nat
    decreases signals.len(),
{
    if signals.len() == 0 {
        0
    } else {
        let before = ticks(signals.drop_last());
        if signals.last() is Tick {
            before + 1
        } else {
            before
        }
    }
}

/// Signals as the hosting process produces them: the first is a tick, and
/// after it ticks and ends of exports take turns, a tick first.
pub open spec fn orderly(signals: Seq<Signal>) -> bool {
    forall|i: int|
        0 <= i < signals.len() ==> ((#[trigger] signals[i]) is Tick <==> (i == 0 || i % 2 == 1))
}

/// The first tick after the start begins no export: it only ends the initial
/// wait.
pub proof fn law_first_tick_exports_nothing()
    ensures
        reaction(LoopState::WaitingFirstTick, Signal::Tick) == Reaction::Wait,
        next_state(LoopState::WaitingFirstTick, Signal::Tick) == LoopState::Idle,
{
}

/// Whatever arrives, an export begins only on a tick, and never on the first:
/// a loop has begun fewer exports than it has seen ticks.
pub proof fn law_exports_lag_ticks(signals: Seq<Signal>)
    ensures
        exports(signals) <= ticks(signals),
        ticks(signals) > 0 ==> exports(signals) < ticks(signals),
        ticks(signals) == 0 ==> state_after(LoopState::WaitingFirstTick, signals)
            == LoopState::WaitingFirstTick,
    decreases signals.len(),
{
    if signals.len() > 0 {
        let front = signals.drop_last();
        law_exports_lag_ticks(front);
        assert(signals.take(signals.len() - 1) =~= front);
    }
}

/// An export begins no earlier than one interval after the start. `times`
/// gives the moment of each signal, counted from the start, and the timer is
/// one whose tick number `k`, counted from zero, comes no earlier than `k`
/// intervals after the start.
pub proof fn law_first_export_waits_one_interval(
    signals: Seq<Signal>,
    times: Seq<nat>,
    interval: nat,
    i: int,
)
    requires
        times.len() == signals.len(),
        forall|j: int|
            0 <= j < signals.len() && (#[trigger] signals[j]) is Tick ==> times[j] >= ticks(
                signals.take(j),
            ) * interval,
        0 <= i < signals.len(),
        reaction_at(signals, i) is Export,
    ensures
        times[i] >= interval,
{
    law_exports_lag_ticks(signals.take(i));
    let earlier = ticks(signals.take(i));
    assert(signals[i] is Tick);
    assert(earlier >= 1);
    assert(earlier * interval >= interval) by (nonlinear_arith)
        requires
            earlier >= 1,
    ;
}

/// The end of an export leaves the loop idle whether the export was delivered
/// or failed; a failure is reported and not tried again; and the next tick
/// begins the next export.
pub proof fn law_failure_leaves_loop_unaffected(fault: DeliveryFault)
    ensures
        next_state(LoopState::Exporting, Signal::Failed(fault)) == next_state(
            LoopState::Exporting,
            Signal::Delivered,
        ),
        next_state(LoopState::Exporting, Signal::Failed(fault)) == LoopState::Idle,
        reaction(LoopState::Exporting, Signal::Failed(fault)) == Reaction::Report(fault),
        reaction(LoopState::Idle, Signal::Tick) == Reaction::Export,
{
}

/// At most one export is under way: an export begins only in an idle loop,
/// and none begins until the one under way has ended.
pub proof fn law_one_export_at_a_time(state: LoopState, signal: Signal)
    ensures
        reaction(state, signal) is Export ==> state == LoopState::Idle && next_state(state, signal)
            == LoopState::Exporting,
        state == LoopState::Exporting ==> !(reaction(state, signal) is Export),
        state == LoopState::Exporting && signal is Tick ==> next_state(state, signal)
            == LoopState::Exporting,
{
}

/// The state of a loop in its orderly course depends on the position alone,
/// not on how the exports ended.
pub proof fn lemma_orderly_state(signals: Seq<Signal>)
    requires
        orderly(signals),
    ensures
        state_after(LoopState::WaitingFirstTick, signals) == if signals.len() == 0 {
            LoopState::WaitingFirstTick
        } else if signals.len() % 2 == 1 {
            LoopState::Idle
        } else {
            LoopState::Exporting
        },
    decreases signals.len(),
{
    if signals.len() > 0 {
        let front = signals.drop_last();
        assert forall|i: int| 0 <= i < front.len() implies ((#[trigger] front[i]) is Tick <==> (i
            == 0 || i % 2 == 1)) by {
            assert(front[i] == signals[i]);
        }
        lemma_orderly_state(front);
        assert(signals.last() == signals[signals.len() - 1]);
    }
}

/// In the orderly course of a loop every tick but the first begins an export,
/// whatever became of the exports before it, and the end of an export begins
/// none.
pub proof fn law_every_later_tick_exports(signals: Seq<Signal>, i: int)
    requires
        orderly(signals),
        0 <= i < signals.len(),
    ensures
        reaction_at(signals, i) is Export <==> (signals[i] is Tick && i > 0),
{
    let seen = signals.take(i);
    assert forall|j: int| 0 <= j < seen.len() implies ((#[trigger] seen[j]) is Tick <==> (j == 0
        || j % 2 == 1)) by {
        assert(seen[j] == signals[j]);
    }
    lemma_orderly_state(seen);
}

} // verus!
