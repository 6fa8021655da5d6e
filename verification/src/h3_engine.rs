//! The HTTP/3 protocol engine.
//!
//! One transition is defined today. `Boot` selects the control stream,
//! emits `OpenUni` for it, then emits a single `StreamWrite` carrying the
//! control-stream-type varint, a SETTINGS frame header and the (empty)
//! SETTINGS payload. Every other event is an explicit no-op placeholder, not
//! an omission: future frame handling must be added as new behavior.
//!
//! The engine never panics: every fallible encode step during boot ends in
//! either the successful write or one `CloseConnection` command, after which
//! no further commands are emitted for that event.

use vstd::prelude::*;

use crate::consts;
use crate::engine::{CommandSink, Engine, EngineCommand, EngineCommandModel, EngineEvent,
    EngineEventModel};
use crate::h3_frame;
use crate::h3_frame::FrameHeader;
use crate::quic::{QuicCommand, QuicCommandModel, StreamId};
use crate::settings::Settings;
use crate::varint;

verus! {

/// The control stream id the engine selects at boot. A fixed id is a
/// provisional placeholder until the transport hands ids back.
pub const BOOT_CONTROL_STREAM_ID: u64 = 2;

/// Minimal HTTP/3 engine: remembers only the control stream, once assigned.
pub struct H3Engine {
    pub control_stream: Option<StreamId>,
}

/// The bytes the engine writes on the control stream at boot: the
/// control-stream-type varint, then a SETTINGS frame header whose length is
/// the payload's, then the (empty) SETTINGS payload itself.
pub open spec fn spec_boot_bytes() -> Seq<u8> {
    varint::spec_encode(consts::STREAM_TYPE_CONTROL) + h3_frame::spec_header_bytes(
        FrameHeader {
            ty: consts::FRAME_TYPE_SETTINGS,
            len: (Settings {  }).spec_payload().len() as u64,
        },
    ) + (Settings {  }).spec_payload()
}

/// Law: with the current empty SETTINGS, the boot write is exactly the
/// control-stream-type byte, the SETTINGS frame-type byte and a zero length.
pub proof fn lemma_boot_bytes()
    ensures
        spec_boot_bytes() == seq![0x00u8, 0x04u8, 0x00u8],
{
    assert(spec_boot_bytes() =~= seq![0x00u8, 0x04u8, 0x00u8]);
}

impl H3Engine {
    /// A fresh engine: no control stream assigned yet.
    pub fn new() -> (r: Self)
        ensures
            r.control_stream is None,
    {
        H3Engine { control_stream: None }
    }
}

impl core::default::Default for H3Engine {
    /// Same as `H3Engine::new`.
    fn default() -> (r: Self)
        ensures
            r.control_stream is None,
    {
        H3Engine::new()
    }
}

/// Appends the first `n` bytes of `src` to `dst`.
fn append_prefix(dst: &mut Vec<u8>, src: &Vec<u8>, n: usize)
    requires
        n <= src@.len(),
    ensures
        final(dst)@ == old(dst)@ + src@.subrange(0, n as int),
{
    assert(dst@ =~= dst@ + src@.subrange(0, 0));
    let mut i: usize = 0;
    while i < n
        invariant
            i <= n,
            n <= src@.len(),
            dst@ == old(dst)@ + src@.subrange(0, i as int),
        decreases n - i,
    {
        let b = src[i];
        dst.push(b);
        assert(dst@ =~= old(dst)@ + src@.subrange(0, i + 1 as int));
        i = i + 1;
    }
}

impl Engine for H3Engine {
    /// `Boot` assigns the control stream; every other event leaves the state
    /// unchanged.
    open spec fn next_state(pre: Self, ev: EngineEventModel) -> Self {
        match ev {
            EngineEventModel::Boot => H3Engine {
                control_stream: Some(StreamId(BOOT_CONTROL_STREAM_ID)),
            },
            _ => pre,
        }
    }

    /// `Boot` emits `OpenUni` for the control stream and then the single
    /// settings write; every other event emits nothing.
    open spec fn emitted(pre: Self, ev: EngineEventModel) -> Seq<EngineCommandModel> {
        match ev {
            EngineEventModel::Boot => seq![
                EngineCommandModel::Quic(
                    QuicCommandModel::OpenUni {
                        id_hint: Some(StreamId(BOOT_CONTROL_STREAM_ID)),
                    },
                ),
                EngineCommandModel::Quic(
                    QuicCommandModel::StreamWrite {
                        id: StreamId(BOOT_CONTROL_STREAM_ID),
                        data: spec_boot_bytes(),
                        fin: false,
                    },
                ),
            ],
            _ => Seq::empty(),
        }
    }

    fn on_event<S: CommandSink>(&mut self, ev: EngineEvent, out: &mut S) {
        match ev {
            EngineEvent::Boot => {
                let id = StreamId(BOOT_CONTROL_STREAM_ID);
                self.control_stream = Some(id);

                out.push(EngineCommand::Quic(QuicCommand::OpenUni { id_hint: Some(id) }));

                let settings = Settings::new();
                let mut payload_buf: Vec<u8> = Vec::new();
                let payload_len = match settings.encode_payload(&mut payload_buf) {
                    Ok(len) => len,
                    Err(_) => {
                        out.push(
                            EngineCommand::Quic(
                                QuicCommand::CloseConnection { app_error: consts::H3_FRAME_ERROR },
                            ),
                        );
                        return;
                    },
                };

                let mut type_buf: Vec<u8> = vec![0u8; 8];
                let stream_type_len = match varint::encode(
                    consts::STREAM_TYPE_CONTROL,
                    &mut type_buf,
                ) {
                    Ok(len) => len,
                    Err(_) => {
                        out.push(
                            EngineCommand::Quic(
                                QuicCommand::CloseConnection { app_error: consts::H3_FRAME_ERROR },
                            ),
                        );
                        return;
                    },
                };

                let header = FrameHeader {
                    ty: consts::FRAME_TYPE_SETTINGS,
                    len: payload_len as u64,
                };
                let mut header_buf: Vec<u8> = vec![0u8; 16];
                let header_len = match h3_frame::encode_frame_header(header, &mut header_buf) {
                    Ok(len) => len,
                    Err(_) => {
                        out.push(
                            EngineCommand::Quic(
                                QuicCommand::CloseConnection { app_error: consts::H3_FRAME_ERROR },
                            ),
                        );
                        return;
                    },
                };

                let mut data: Vec<u8> = Vec::new();
                append_prefix(&mut data, &type_buf, stream_type_len);
                append_prefix(&mut data, &header_buf, header_len);
                append_prefix(&mut data, &payload_buf, payload_len);
                assert(data@ =~= spec_boot_bytes());

                out.push(
                    EngineCommand::Quic(QuicCommand::StreamWrite { id, data, fin: false }),
                );

                assert(out.commands() =~= old(out).commands() + Self::emitted(*old(self), ev@));
            },
            _ => {
                assert(out.commands() =~= old(out).commands() + Self::emitted(*old(self), ev@));
            },
        }
    }
}

/// Law: every event other than `Boot` — `Shutdown`, `TimerFired` and every
/// QUIC event — emits no commands and leaves the engine state unchanged,
/// whatever state the engine is in; in particular, a freshly constructed,
/// never-booted engine stays silent.
pub proof fn lemma_quiescent(e: H3Engine, ev: EngineEventModel)
    requires
        !(ev is Boot),
    ensures
        H3Engine::emitted(e, ev) == Seq::<EngineCommandModel>::empty(),
        H3Engine::next_state(e, ev) == e,
{
}

/// Law: `Boot` emits exactly two commands, in order: `OpenUni` hinting the
/// control stream id, then a single non-final `StreamWrite` on that stream
/// carrying the control-stream type, the SETTINGS frame type and the zero
/// payload length — and the engine records the control stream.
pub proof fn lemma_boot(e: H3Engine)
    ensures
        H3Engine::emitted(e, EngineEventModel::Boot) == seq![
            EngineCommandModel::Quic(
                QuicCommandModel::OpenUni { id_hint: Some(StreamId(BOOT_CONTROL_STREAM_ID)) },
            ),
            EngineCommandModel::Quic(
                QuicCommandModel::StreamWrite {
                    id: StreamId(BOOT_CONTROL_STREAM_ID),
                    data: seq![0x00u8, 0x04u8, 0x00u8],
                    fin: false,
                },
            ),
        ],
        H3Engine::next_state(e, EngineEventModel::Boot).control_stream == Some(
            StreamId(BOOT_CONTROL_STREAM_ID),
        ),
{
    lemma_boot_bytes();
    assert(H3Engine::emitted(e, EngineEventModel::Boot) =~= seq![
        EngineCommandModel::Quic(
            QuicCommandModel::OpenUni { id_hint: Some(StreamId(BOOT_CONTROL_STREAM_ID)) },
        ),
        EngineCommandModel::Quic(
            QuicCommandModel::StreamWrite {
                id: StreamId(BOOT_CONTROL_STREAM_ID),
                data: seq![0x00u8, 0x04u8, 0x00u8],
                fin: false,
            },
        ),
    ]);
}

} // verus!
