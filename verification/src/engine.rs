//! Engine vocabulary: the events an engine consumes, the commands it emits,
//! and the sink and engine interfaces.
//!
//! An engine is a pure state machine: one call consumes exactly one event and
//! appends zero or more commands to the sink, in emission order. Each engine
//! describes itself to the verifier through two spec functions, `next_state`
//! and `emitted`, and every implementation is proved against them.

use vstd::prelude::*;

use crate::quic::{QuicCommand, QuicCommandModel, QuicEvent, QuicEventModel};

verus! {

/// Stable id for a protocol timer.
#[derive(Clone, Copy, Debug, PartialEq, Eq, Hash, Structural)]
pub struct TimerId(pub u32);

/// Events the engine consumes: the only way time passes for it.
#[derive(Clone, Debug, PartialEq, Eq)]
pub enum EngineEvent {
    Boot,
    Quic(QuicEvent),
    TimerFired(TimerId),
    Shutdown,
}

/// Spec-level model of an `EngineEvent`.
pub enum EngineEventModel {
    Boot,
    Quic(QuicEventModel),
    TimerFired(TimerId),
    Shutdown,
}

impl View for EngineEvent {
    type V = EngineEventModel;

    open spec fn view(&self) -> EngineEventModel {
        match self {
            EngineEvent::Boot => EngineEventModel::Boot,
            EngineEvent::Quic(ev) => EngineEventModel::Quic(ev@),
            EngineEvent::TimerFired(id) => EngineEventModel::TimerFired(*id),
            EngineEvent::Shutdown => EngineEventModel::Shutdown,
        }
    }
}

/// Commands the engine emits: its only observable output.
#[derive(Clone, Debug, PartialEq, Eq)]
pub enum EngineCommand {
    Quic(QuicCommand),
    ArmTimer { id: TimerId, deadline_ms_from_now: u64 },
    CancelTimer { id: TimerId },
}

/// Spec-level model of an `EngineCommand`.
pub enum EngineCommandModel {
    Quic(QuicCommandModel),
    ArmTimer { id: TimerId, deadline_ms_from_now: u64 },
    CancelTimer { id: TimerId },
}

impl View for EngineCommand {
    type V = EngineCommandModel;

    open spec fn view(&self) -> EngineCommandModel {
        match self {
            EngineCommand::Quic(cmd) => EngineCommandModel::Quic(cmd@),
            EngineCommand::ArmTimer { id, deadline_ms_from_now } => EngineCommandModel::ArmTimer {
                id: *id,
                deadline_ms_from_now: *deadline_ms_from_now,
            },
            EngineCommand::CancelTimer { id } => EngineCommandModel::CancelTimer { id: *id },
        }
    }
}

/// An append-only, ordered command channel. The order of pushes is the order
/// the host must apply the commands in.
pub trait CommandSink {
    /// The commands pushed so far, oldest first.
    spec fn commands(&self) -> Seq<EngineCommandModel>;

    fn push(&mut self, cmd: EngineCommand)
        ensures
            final(self).commands() == old(self).commands().push(cmd@),
    ;
}

/// A pure engine step: consumes exactly one event and appends zero or more
/// commands to the sink. `next_state` and `emitted` are the engine's own
/// description of that step; the implementation is verified against them.
pub trait Engine: Sized {
    /// The engine state after consuming one event.
    spec fn next_state(pre: Self, ev: EngineEventModel) -> Self;

    /// The commands one event makes the engine emit, in emission order.
    spec fn emitted(pre: Self, ev: EngineEventModel) -> Seq<EngineCommandModel>;

    fn on_event<S: CommandSink>(&mut self, ev: EngineEvent, out: &mut S)
        ensures
            *final(self) == Self::next_state(*old(self), ev@),
            final(out).commands() == old(out).commands() + Self::emitted(*old(self), ev@),
    ;
}

} // verus!
