//! QUIC-facing vocabulary: stream identifiers, events the transport delivers
//! to the protocol layer, and commands the protocol layer issues back.
//!
//! Byte payloads inside events and commands are owned copies, so a command
//! may outlive the event that produced it. Each event and command type has a
//! spec-level model in which the bytes appear as a `Seq<u8>`.

use vstd::prelude::*;

verus! {

/// A QUIC stream id: a QUIC varint on the wire, kept as a plain `u64`.
#[derive(Clone, Copy, Debug, PartialEq, Eq, PartialOrd, Ord, Hash, Structural)]
pub struct StreamId(pub u64);

/// Stream direction.
#[derive(Clone, Copy, Debug, PartialEq, Eq, Structural)]
pub enum StreamKind {
    Uni,
    Bidi,
}

/// Why a stream was reset or closed.
#[derive(Clone, Copy, Debug, PartialEq, Eq, Structural)]
pub enum StreamError {
    Reset(u64),
    StopSending(u64),
}

/// Events emitted by the QUIC layer toward upper protocols.
#[derive(Clone, Debug, PartialEq, Eq)]
pub enum QuicEvent {
    /// A new peer-initiated stream exists.
    StreamOpened { id: StreamId, kind: StreamKind },
    /// Bytes received on a stream (ordered, reliable).
    StreamReadable { id: StreamId, data: Vec<u8>, fin: bool },
    /// The peer reset the stream or asked us to stop sending.
    StreamError { id: StreamId, err: StreamError },
    /// Connection-level close.
    ConnectionClosed { app_error: Option<u64> },
}

/// Spec-level model of a `QuicEvent`: the same shape with the byte payload
/// as a sequence.
pub enum QuicEventModel {
    StreamOpened { id: StreamId, kind: StreamKind },
    StreamReadable { id: StreamId, data: Seq<u8>, fin: bool },
    StreamError { id: StreamId, err: StreamError },
    ConnectionClosed { app_error: Option<u64> },
}

impl View for QuicEvent {
    type V = QuicEventModel;

    open spec fn view(&self) -> QuicEventModel {
        match self {
            QuicEvent::StreamOpened { id, kind } => QuicEventModel::StreamOpened {
                id: *id,
                kind: *kind,
            },
            QuicEvent::StreamReadable { id, data, fin } => QuicEventModel::StreamReadable {
                id: *id,
                data: data@,
                fin: *fin,
            },
            QuicEvent::StreamError { id, err } => QuicEventModel::StreamError {
                id: *id,
                err: *err,
            },
            QuicEvent::ConnectionClosed { app_error } => QuicEventModel::ConnectionClosed {
                app_error: *app_error,
            },
        }
    }
}

/// Commands issued by an upper protocol toward QUIC.
#[derive(Clone, Debug, PartialEq, Eq)]
pub enum QuicCommand {
    /// Open a unidirectional stream initiated by us.
    OpenUni { id_hint: Option<StreamId> },
    /// Write bytes to a stream.
    StreamWrite { id: StreamId, data: Vec<u8>, fin: bool },
    /// Reset a stream from the sender side.
    ResetStream { id: StreamId, app_error: u64 },
    /// Ask the peer to stop sending on a stream.
    StopSending { id: StreamId, app_error: u64 },
    /// Close the connection with an application error code.
    CloseConnection { app_error: u64 },
}

/// Spec-level model of a `QuicCommand`: the same shape with the byte payload
/// as a sequence.
pub enum QuicCommandModel {
    OpenUni { id_hint: Option<StreamId> },
    StreamWrite { id: StreamId, data: Seq<u8>, fin: bool },
    ResetStream { id: StreamId, app_error: u64 },
    StopSending { id: StreamId, app_error: u64 },
    CloseConnection { app_error: u64 },
}

impl View for QuicCommand {
    type V = QuicCommandModel;

    open spec fn view(&self) -> QuicCommandModel {
        match self {
            QuicCommand::OpenUni { id_hint } => QuicCommandModel::OpenUni { id_hint: *id_hint },
            QuicCommand::StreamWrite { id, data, fin } => QuicCommandModel::StreamWrite {
                id: *id,
                data: data@,
                fin: *fin,
            },
            QuicCommand::ResetStream { id, app_error } => QuicCommandModel::ResetStream {
                id: *id,
                app_error: *app_error,
            },
            QuicCommand::StopSending { id, app_error } => QuicCommandModel::StopSending {
                id: *id,
                app_error: *app_error,
            },
            QuicCommand::CloseConnection { app_error } => QuicCommandModel::CloseConnection {
                app_error: *app_error,
            },
        }
    }
}

} // verus!
