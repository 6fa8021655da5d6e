use istok::engine::{EngineCommand, TimerId};
use istok::h3_engine::H3Engine;
use istok::mock::{to_owned, ExpectCommand, MockHarness, ScriptStep};
use istok::quic::{QuicCommand, StreamId};

#[test]
fn boot_opens_control_and_sends_settings() {
    let engine = H3Engine::new();
    let mut h = MockHarness::new(engine);

    let control_id = StreamId(2);

    let passed = h.run_script(&[
        ScriptStep::InBoot,
        ScriptStep::Expect(ExpectCommand::QuicOpenUni),
        ScriptStep::Expect(ExpectCommand::QuicStreamWrite {
            id: control_id,
            data_prefix: vec![0x00, 0x04, 0x00],
            fin: false,
        }),
        ScriptStep::ExpectNone,
    ]);
    assert!(passed);
}

#[test]
fn quiescent_before_boot() {
    let mut h = MockHarness::new(H3Engine::new());
    let passed = h.run_script(&[
        ScriptStep::InShutdown,
        ScriptStep::ExpectNone,
        ScriptStep::InTimer(TimerId(7)),
        ScriptStep::ExpectNone,
    ]);
    assert!(passed);
}

#[test]
fn mismatched_expectation_fails_script() {
    let mut h = MockHarness::new(H3Engine::new());
    let passed = h.run_script(&[
        ScriptStep::InBoot,
        ScriptStep::Expect(ExpectCommand::QuicCloseConnection { app_error: 0x0106 }),
    ]);
    assert!(!passed);
}

#[test]
fn unconsumed_commands_fail_script() {
    let mut h = MockHarness::new(H3Engine::new());
    let passed = h.run_script(&[
        ScriptStep::InBoot,
        ScriptStep::Expect(ExpectCommand::QuicOpenUni),
    ]);
    assert!(!passed);
}

#[test]
fn boot_write_prefix_must_match() {
    let mut h = MockHarness::new(H3Engine::new());
    let passed = h.run_script(&[
        ScriptStep::InBoot,
        ScriptStep::Expect(ExpectCommand::QuicOpenUni),
        ScriptStep::Expect(ExpectCommand::QuicStreamWrite {
            id: StreamId(2),
            data_prefix: vec![0x00, 0x05],
            fin: false,
        }),
    ]);
    assert!(!passed);
}

#[test]
fn to_owned_rejects_unsupported_commands() {
    let reset = EngineCommand::Quic(QuicCommand::ResetStream {
        id: StreamId(3),
        app_error: 0x0101,
    });
    assert!(to_owned(reset).is_none());

    let stop = EngineCommand::Quic(QuicCommand::StopSending {
        id: StreamId(3),
        app_error: 0x0101,
    });
    assert!(to_owned(stop).is_none());

    let arm = EngineCommand::ArmTimer {
        id: TimerId(1),
        deadline_ms_from_now: 250,
    };
    assert!(to_owned(arm).is_some());
}

#[test]
fn fresh_engine_has_no_control_stream() {
    let e = H3Engine::new();
    assert!(e.control_stream.is_none());
}
