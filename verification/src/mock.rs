//! Scripted test harness for engines.
//!
//! A script interleaves inputs delivered to the engine with expectations
//! about the commands it emitted. Each input step runs one engine event and
//! appends the resulting commands, in order, to a pending queue; each
//! expectation step consumes the front of that queue. Running a script
//! reports whether every expectation matched, every emitted command was of a
//! kind the harness supports, and no command was left unconsumed at the end.

use vstd::prelude::*;

use crate::engine::{CommandSink, Engine, EngineCommand, EngineCommandModel, EngineEvent,
    EngineEventModel, TimerId};
use crate::quic::{QuicCommand, QuicCommandModel, QuicEvent, QuicEventModel, StreamId, StreamKind};

verus! {

/// One step of a script: an input delivered to the engine, or an expectation
/// about the next pending command.
#[derive(Clone, Debug)]
pub enum ScriptStep {
    InBoot,
    InQuicOpen { id: StreamId, kind: StreamKind },
    InQuicData { id: StreamId, data: Vec<u8>, fin: bool },
    InTimer(TimerId),
    InShutdown,
    /// The next pending command must match this expectation.
    Expect(ExpectCommand),
    /// No commands may be pending.
    ExpectNone,
}

/// What a script expects of one command.
#[derive(Clone, Debug, PartialEq, Eq)]
pub enum ExpectCommand {
    QuicOpenUni,
    QuicStreamWrite {
        id: StreamId,
        /// Expected prefix of the written bytes.
        data_prefix: Vec<u8>,
        fin: bool,
    },
    QuicCloseConnection { app_error: u64 },
    ArmTimer { id: TimerId },
    CancelTimer { id: TimerId },
}

/// The owned form in which the harness stores a command it received.
#[derive(Clone, Debug, PartialEq, Eq)]
pub enum EngineCommandOwned {
    QuicOpenUni,
    QuicStreamWrite { id: StreamId, data: Vec<u8>, fin: bool },
    QuicCloseConnection { app_error: u64 },
    ArmTimer { id: TimerId, deadline_ms_from_now: u64 },
    CancelTimer { id: TimerId },
}

impl View for EngineCommandOwned {
    type V = EngineCommandModel;

    open spec fn view(&self) -> EngineCommandModel {
        match self {
            EngineCommandOwned::QuicOpenUni => EngineCommandModel::Quic(
                QuicCommandModel::OpenUni { id_hint: None },
            ),
            EngineCommandOwned::QuicStreamWrite { id, data, fin } => EngineCommandModel::Quic(
                QuicCommandModel::StreamWrite { id: *id, data: data@, fin: *fin },
            ),
            EngineCommandOwned::QuicCloseConnection { app_error } => EngineCommandModel::Quic(
                QuicCommandModel::CloseConnection { app_error: *app_error },
            ),
            EngineCommandOwned::ArmTimer { id, deadline_ms_from_now } => {
                EngineCommandModel::ArmTimer {
                    id: *id,
                    deadline_ms_from_now: *deadline_ms_from_now,
                }
            },
            EngineCommandOwned::CancelTimer { id } => EngineCommandModel::CancelTimer { id: *id },
        }
    }
}

/// The owned form a command takes in the pending queue, or `None` for the
/// command kinds the harness does not support. The open-uni hint is dropped:
/// expectations never look at it.
pub open spec fn spec_to_owned(c: EngineCommandModel) -> Option<EngineCommandModel> {
    match c {
        EngineCommandModel::Quic(q) => match q {
            QuicCommandModel::OpenUni { id_hint } => Some(
                EngineCommandModel::Quic(QuicCommandModel::OpenUni { id_hint: None }),
            ),
            QuicCommandModel::StreamWrite { id, data, fin } => Some(c),
            QuicCommandModel::CloseConnection { app_error } => Some(c),
            QuicCommandModel::ResetStream { id, app_error } => None,
            QuicCommandModel::StopSending { id, app_error } => None,
        },
        EngineCommandModel::ArmTimer { id, deadline_ms_from_now } => Some(c),
        EngineCommandModel::CancelTimer { id } => Some(c),
    }
}

/// Converts a command to the form the pending queue stores, or `None` for
/// the command kinds the harness does not support.
pub fn to_owned(cmd: EngineCommand) -> (r: Option<EngineCommandOwned>)
    ensures
        r matches Some(o) ==> spec_to_owned(cmd@) == Some(o@),
        r is None <==> spec_to_owned(cmd@) is None,
{
    match cmd {
        EngineCommand::Quic(q) => match q {
            QuicCommand::OpenUni { id_hint: _ } => Some(EngineCommandOwned::QuicOpenUni),
            QuicCommand::StreamWrite { id, data, fin } => Some(
                EngineCommandOwned::QuicStreamWrite { id, data, fin },
            ),
            QuicCommand::CloseConnection { app_error } => Some(
                EngineCommandOwned::QuicCloseConnection { app_error },
            ),
            QuicCommand::ResetStream { id: _, app_error: _ } => None,
            QuicCommand::StopSending { id: _, app_error: _ } => None,
        },
        EngineCommand::ArmTimer { id, deadline_ms_from_now } => Some(
            EngineCommandOwned::ArmTimer { id, deadline_ms_from_now },
        ),
        EngineCommand::CancelTimer { id } => Some(EngineCommandOwned::CancelTimer { id }),
    }
}

/// The pending-queue form of a whole command sequence, element by element.
/// Meaningful only when every element is of a supported kind.
pub open spec fn spec_converted(cmds: Seq<EngineCommandModel>) -> Seq<EngineCommandModel> {
    cmds.map_values(|c: EngineCommandModel| spec_to_owned(c).unwrap())
}

/// Whether an expectation accepts a pending command.
pub open spec fn spec_expect_matches(exp: ExpectCommand, got: EngineCommandModel) -> bool {
    match exp {
        ExpectCommand::QuicOpenUni => got matches EngineCommandModel::Quic(
            QuicCommandModel::OpenUni { id_hint },
        ),
        ExpectCommand::QuicStreamWrite { id, data_prefix, fin } => got matches
            EngineCommandModel::Quic(QuicCommandModel::StreamWrite {
                id: gid, data, fin: gfin }) && gid == id && gfin == fin
            && data_prefix@.is_prefix_of(data),
        ExpectCommand::QuicCloseConnection { app_error } => got matches EngineCommandModel::Quic(
            QuicCommandModel::CloseConnection { app_error: a },
        ) && a == app_error,
        ExpectCommand::ArmTimer { id } => got matches EngineCommandModel::ArmTimer {
            id: gid,
            deadline_ms_from_now,
        } && gid == id,
        ExpectCommand::CancelTimer { id } => got matches EngineCommandModel::CancelTimer {
            id: gid,
        } && gid == id,
    }
}

/// The engine event an input step delivers, in model form. Expectation steps
/// deliver no event; for them this is a don't-care.
pub open spec fn spec_step_event(step: ScriptStep) -> EngineEventModel {
    match step {
        ScriptStep::InBoot => EngineEventModel::Boot,
        ScriptStep::InQuicOpen { id, kind } => EngineEventModel::Quic(
            QuicEventModel::StreamOpened { id, kind },
        ),
        ScriptStep::InQuicData { id, data, fin } => EngineEventModel::Quic(
            QuicEventModel::StreamReadable { id, data: data@, fin },
        ),
        ScriptStep::InTimer(id) => EngineEventModel::TimerFired(id),
        ScriptStep::InShutdown => EngineEventModel::Shutdown,
        ScriptStep::Expect(exp) => EngineEventModel::Shutdown,
        ScriptStep::ExpectNone => EngineEventModel::Shutdown,
    }
}

/// One script step applied to the harness model: the engine state, the
/// pending commands in owned form, and whether the script is still on track.
/// A failure is permanent: once `ok` is false it stays false.
pub open spec fn spec_apply_step<E: Engine>(
    e: E,
    pending: Seq<EngineCommandModel>,
    ok: bool,
    step: ScriptStep,
) -> (E, Seq<EngineCommandModel>, bool) {
    match step {
        ScriptStep::Expect(exp) => {
            if pending.len() > 0 {
                (e, pending.skip(1), ok && spec_expect_matches(exp, pending[0]))
            } else {
                (e, pending, false)
            }
        },
        ScriptStep::ExpectNone => (e, pending, ok && pending.len() == 0),
        _ => {
            let ev = spec_step_event(step);
            let e2 = E::next_state(e, ev);
            let cmds = E::emitted(e, ev);
            if forall|j: int| 0 <= j < cmds.len() ==> spec_to_owned(#[trigger] cmds[j]) is Some {
                (e2, pending + spec_converted(cmds), ok)
            } else {
                (e2, pending, false)
            }
        },
    }
}

/// The harness model after the first `n` steps of `script`.
pub open spec fn spec_run<E: Engine>(
    e: E,
    pending: Seq<EngineCommandModel>,
    script: Seq<ScriptStep>,
    n: int,
) -> (E, Seq<EngineCommandModel>, bool)
    recommends
        0 <= n <= script.len(),
    decreases n,
{
    if n <= 0 {
        (e, pending, true)
    } else {
        let prev = spec_run(e, pending, script, n - 1);
        spec_apply_step(prev.0, prev.1, prev.2, script[n - 1])
    }
}

/// A script failure is permanent: every later prefix also reports failure.
proof fn lemma_run_failure_sticky<E: Engine>(
    e: E,
    pending: Seq<EngineCommandModel>,
    script: Seq<ScriptStep>,
    i: int,
    n: int,
)
    requires
        0 <= i <= n <= script.len(),
        !spec_run(e, pending, script, i).2,
    ensures
        !spec_run(e, pending, script, n).2,
    decreases n - i,
{
    if n > i {
        lemma_run_failure_sticky(e, pending, script, i, n - 1);
    }
}

/// Sink that collects commands in a vector, oldest first.
pub struct VecSink {
    pub out: Vec<EngineCommand>,
}

impl VecSink {
    /// An empty sink.
    pub fn new() -> (r: Self)
        ensures
            r.commands() == Seq::<EngineCommandModel>::empty(),
            r.out@.len() == 0,
    {
        let r = VecSink { out: Vec::new() };
        assert(r.commands() =~= Seq::<EngineCommandModel>::empty());
        r
    }
}

impl CommandSink for VecSink {
    open spec fn commands(&self) -> Seq<EngineCommandModel> {
        self.out@.map_values(|c: EngineCommand| c@)
    }

    fn push(&mut self, cmd: EngineCommand) {
        self.out.push(cmd);
        assert(self.commands() =~= old(self).commands().push(cmd@));
    }
}

/// Drives an engine through a script and checks its commands against the
/// script's expectations.
pub struct MockHarness<E: Engine> {
    pub engine: E,
    pub pending: Vec<EngineCommandOwned>,
}

/// The pending queue in model form.
pub open spec fn spec_pending_model(pending: Seq<EngineCommandOwned>) -> Seq<EngineCommandModel> {
    pending.map_values(|c: EngineCommandOwned| c@)
}

/// Copies a byte vector.
fn clone_bytes(src: &Vec<u8>) -> (r: Vec<u8>)
    ensures
        r@ == src@,
{
    let mut r: Vec<u8> = Vec::new();
    let mut i: usize = 0;
    while i < src.len()
        invariant
            i <= src@.len(),
            r@ == src@.take(i as int),
        decreases src@.len() - i,
    {
        r.push(src[i]);
        assert(r@ =~= src@.take(i + 1 as int));
        i = i + 1;
    }
    assert(r@ =~= src@);
    r
}

/// Whether `prefix` is a prefix of `data`.
fn is_prefix(prefix: &Vec<u8>, data: &Vec<u8>) -> (r: bool)
    ensures
        r == prefix@.is_prefix_of(data@),
{
    if prefix.len() > data.len() {
        return false;
    }
    let mut i: usize = 0;
    while i < prefix.len()
        invariant
            i <= prefix@.len(),
            prefix@.len() <= data@.len(),
            forall|j: int| 0 <= j < i ==> prefix@[j] == data@[j],
        decreases prefix@.len() - i,
    {
        if prefix[i] != data[i] {
            assert(!prefix@.is_prefix_of(data@));
            return false;
        }
        i = i + 1;
    }
    assert(prefix@ =~= data@.subrange(0, prefix@.len() as int));
    true
}

/// Whether an expectation accepts a stored command.
fn cmd_matches(exp: &ExpectCommand, got: &EngineCommandOwned) -> (r: bool)
    ensures
        r == spec_expect_matches(*exp, got@),
{
    match (exp, got) {
        (ExpectCommand::QuicOpenUni, EngineCommandOwned::QuicOpenUni) => true,
        (
            ExpectCommand::QuicCloseConnection { app_error },
            EngineCommandOwned::QuicCloseConnection { app_error: a },
        ) => *app_error == *a,
        (ExpectCommand::ArmTimer { id }, EngineCommandOwned::ArmTimer { id: got_id, .. }) => *id
            == *got_id,
        (ExpectCommand::CancelTimer { id }, EngineCommandOwned::CancelTimer { id: got_id }) => *id
            == *got_id,
        (
            ExpectCommand::QuicStreamWrite { id, data_prefix, fin },
            EngineCommandOwned::QuicStreamWrite { id: got_id, data, fin: got_fin },
        ) => *id == *got_id && *fin == *got_fin && is_prefix(data_prefix, data),
        _ => false,
    }
}

impl<E: Engine> MockHarness<E> {
    /// A harness around a fresh engine, with nothing pending.
    pub fn new(engine: E) -> (r: Self)
        ensures
            r.engine == engine,
            r.pending@.len() == 0,
    {
        MockHarness { engine, pending: Vec::new() }
    }

    /// Delivers one event to the engine and stores the emitted commands in
    /// the pending queue, in order; reports false when the engine emitted a
    /// command of a kind the harness does not support.
    fn step(&mut self, ev: EngineEvent) -> (r: bool)
        ensures
            final(self).engine == E::next_state(old(self).engine, ev@),
            r <==> (forall|j: int|
                0 <= j < E::emitted(old(self).engine, ev@).len() ==> spec_to_owned(
                    #[trigger] E::emitted(old(self).engine, ev@)[j],
                ) is Some),
            r ==> spec_pending_model(final(self).pending@) == spec_pending_model(
                old(self).pending@,
            ) + spec_converted(E::emitted(old(self).engine, ev@)),
    {
        let ghost e0 = self.engine;
        let ghost p0 = self.pending@;
        let ghost cmds = E::emitted(self.engine, ev@);
        let mut sink = VecSink::new();
        self.engine.on_event(ev, &mut sink);
        assert forall|k: int| 0 <= k < sink.out@.len() implies (#[trigger] sink.out@[k])@
            == cmds[k] by {
            assert(sink.commands()[k] == cmds[k]);
        }
        assert(sink.out@.len() == cmds.len());

        let ghost total = cmds.len() as int;
        while sink.out.len() > 0
            invariant
                e0 == old(self).engine,
                p0 == old(self).pending@,
                cmds == E::emitted(old(self).engine, ev@),
                self.engine == E::next_state(old(self).engine, ev@),
                sink.out@.len() <= total,
                total == cmds.len(),
                forall|k: int|
                    0 <= k < sink.out@.len() ==> (#[trigger] sink.out@[k])@ == cmds[total
                        - sink.out@.len() + k],
                forall|j: int|
                    0 <= j < total - sink.out@.len() ==> spec_to_owned(#[trigger] cmds[j]) is Some,
                self.pending@.len() == p0.len() + total - sink.out@.len(),
                forall|k: int| 0 <= k < p0.len() ==> #[trigger] self.pending@[k] == p0[k],
                forall|j: int|
                    0 <= j < total - sink.out@.len() ==> (#[trigger] self.pending@[p0.len() + j])@
                        == spec_to_owned(cmds[j]).unwrap(),
            decreases sink.out@.len(),
        {
            let ghost done = total - sink.out@.len();
            let cmd = sink.out.remove(0);
            assert(cmd@ == cmds[done]);
            match to_owned(cmd) {
                Some(o) => {
                    self.pending.push(o);
                },
                None => {
                    proof {
                        assert(0 <= done < cmds.len());
                        assert(spec_to_owned(cmds[done]) is None);
                    }
                    return false;
                },
            }
        }
        assert forall|i: int|
            0 <= i < p0.len() + cmds.len() implies spec_pending_model(self.pending@)[i] == (
        spec_pending_model(p0) + spec_converted(cmds))[i] by {
            assert(spec_pending_model(self.pending@)[i] == self.pending@[i]@);
            if i < p0.len() {
                assert(self.pending@[i] == p0[i]);
                assert(spec_pending_model(p0)[i] == p0[i]@);
                assert((spec_pending_model(p0) + spec_converted(cmds))[i] == spec_pending_model(
                    p0,
                )[i]);
            } else {
                let j = i - p0.len();
                assert(self.pending@[p0.len() + j]@ == spec_to_owned(cmds[j]).unwrap());
                assert(spec_converted(cmds)[j] == spec_to_owned(cmds[j]).unwrap());
                assert((spec_pending_model(p0) + spec_converted(cmds))[i] == spec_converted(
                    cmds,
                )[j]);
            }
        }
        assert(spec_pending_model(self.pending@) =~= spec_pending_model(p0) + spec_converted(
            cmds,
        ));
        true
    }

    /// Consumes the front pending command and checks it against the
    /// expectation; false when nothing is pending or the command mismatches.
    fn expect_one(&mut self, exp: &ExpectCommand) -> (r: bool)
        ensures
            final(self).engine == old(self).engine,
            old(self).pending@.len() == 0 ==> r == false && final(self).pending@ == old(
                self,
            ).pending@,
            old(self).pending@.len() > 0 ==> r == spec_expect_matches(
                *exp,
                old(self).pending@[0]@,
            ) && final(self).pending@ == old(self).pending@.skip(1),
    {
        if self.pending.len() == 0 {
            return false;
        }
        let got = self.pending.remove(0);
        assert(self.pending@ =~= old(self).pending@.skip(1));
        cmd_matches(exp, &got)
    }

    /// True when no commands are pending.
    fn expect_none(&mut self) -> (r: bool)
        ensures
            *final(self) == *old(self),
            r == (old(self).pending@.len() == 0),
    {
        self.pending.len() == 0
    }

    /// Runs a whole script. True when every expectation matched the commands
    /// the inputs produced, the engine emitted only supported command kinds,
    /// and no command was left pending when the script ended.
    pub fn run_script(&mut self, script: &[ScriptStep]) -> (r: bool)
        ensures
            r == ({
                let end = spec_run(
                    old(self).engine,
                    spec_pending_model(old(self).pending@),
                    script@,
                    script@.len() as int,
                );
                end.2 && end.1.len() == 0
            }),
            r ==> final(self).engine == spec_run(
                old(self).engine,
                spec_pending_model(old(self).pending@),
                script@,
                script@.len() as int,
            ).0 && final(self).pending@.len() == 0,
    {
        let ghost e0 = self.engine;
        let ghost p0 = spec_pending_model(self.pending@);
        let ghost s = script@;
        let mut ok = true;
        let mut i: usize = 0;
        while i < script.len() && ok
            invariant
                i <= s.len(),
                s == script@,
                e0 == old(self).engine,
                p0 == spec_pending_model(old(self).pending@),
                ok ==> self.engine == spec_run(e0, p0, s, i as int).0 && spec_pending_model(
                    self.pending@,
                ) == spec_run(e0, p0, s, i as int).1 && spec_run(e0, p0, s, i as int).2,
                !ok ==> !spec_run(e0, p0, s, s.len() as int).2,
            decreases s.len() - i,
        {
            let ghost pre_run = spec_run(e0, p0, s, i as int);
            let step = &script[i];
            let step_ok: bool;
            match step {
                ScriptStep::InBoot => {
                    step_ok = self.step(EngineEvent::Boot);
                },
                ScriptStep::InQuicOpen { id, kind } => {
                    step_ok = self.step(
                        EngineEvent::Quic(QuicEvent::StreamOpened { id: *id, kind: *kind }),
                    );
                },
                ScriptStep::InQuicData { id, data, fin } => {
                    step_ok = self.step(
                        EngineEvent::Quic(
                            QuicEvent::StreamReadable {
                                id: *id,
                                data: clone_bytes(data),
                                fin: *fin,
                            },
                        ),
                    );
                },
                ScriptStep::InTimer(id) => {
                    step_ok = self.step(EngineEvent::TimerFired(*id));
                },
                ScriptStep::InShutdown => {
                    step_ok = self.step(EngineEvent::Shutdown);
                },
                ScriptStep::Expect(exp) => {
                    step_ok = self.expect_one(exp);
                },
                ScriptStep::ExpectNone => {
                    step_ok = self.expect_none();
                },
            }
            proof {
                assert(spec_run(e0, p0, s, i + 1) == spec_apply_step(
                    pre_run.0,
                    pre_run.1,
                    pre_run.2,
                    s[i as int],
                ));
                if !step_ok {
                    lemma_run_failure_sticky(e0, p0, s, i + 1, s.len() as int);
                }
            }
            ok = step_ok;
            i = i + 1;
        }
        proof {
            if ok {
                assert(i == s.len());
            }
        }
        let no_leftover = self.pending.len() == 0;
        ok && no_leftover
    }
}

} // verus!
