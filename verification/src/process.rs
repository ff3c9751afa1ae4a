//! The process abstraction: a uniform handle over an OS child, a
//! synthetic built-in task, or a precomputed trivial result. A process
//! owns an input stream, an output stream, an error stream and a child
//! handle; each stream has exactly one owner, and piping transfers stream
//! ownership rather than duplicating it.
//!
//! Streams hold plain table indices; the surrounding binary owns the OS
//! pipe ends and channels those indices name and drives them with the
//! decision functions here.

use vstd::prelude::*;
use crate::child::VashChild;
use crate::status::BuiltinExitStatus;

verus! {

// ---------------------------------------------------------------------------
// Read streams
// ---------------------------------------------------------------------------

/// What the owning task reports on a supervised read stream.
#[derive(Debug, PartialEq)]
pub enum ReadMessage {
    /// A chunk of bytes read from the stream.
    Read(Vec<u8>),
    /// The stream closed.
    Closed,
}

/// What polling a supervised read channel found, once the channel has
/// been asked: a message, nothing yet, or a gone peer.
#[derive(Debug, PartialEq)]
pub enum ChannelRecv {
    Msg(ReadMessage),
    Empty,
    Disconnected,
}

/// What one read poll yields.
#[derive(Debug, PartialEq)]
pub enum ReadPoll {
    /// Bytes are ready; an empty chunk is end of stream.
    Ready(Vec<u8>),
    /// Nothing to read yet.
    Pending,
}

/// A read stream that is always at end of stream.
#[derive(Debug, Clone, Copy, PartialEq, Eq, Structural)]
pub struct ReadSink;

impl ReadSink {
    /// Reading the sink yields end of stream at once.
    pub fn poll(&self) -> (r: ReadPoll)
        ensures
            r matches ReadPoll::Ready(v) && v@ == Seq::<u8>::empty(),
    {
        ReadPoll::Ready(Vec::new())
    }
}

/// A read stream fed by the channel with the given table index.
#[derive(Debug, Clone, Copy, PartialEq, Eq, Structural)]
pub struct ReadDelegate {
    pub receiver: usize,
}

/// How a supervised read stream answers one poll, given what its channel
/// held: a chunk passes through unchanged, a closed stream or a gone peer
/// is end of stream, an empty channel leaves the poll pending.
pub fn delegate_read_poll(found: ChannelRecv) -> (r: ReadPoll)
    ensures
        match found {
            ChannelRecv::Msg(ReadMessage::Read(data)) => r == ReadPoll::Ready(data),
            ChannelRecv::Msg(ReadMessage::Closed) => r matches ReadPoll::Ready(v) && v@
                == Seq::<u8>::empty(),
            ChannelRecv::Empty => r == ReadPoll::Pending,
            ChannelRecv::Disconnected => r matches ReadPoll::Ready(v) && v@
                == Seq::<u8>::empty(),
        },
{
    match found {
        ChannelRecv::Msg(ReadMessage::Read(data)) => ReadPoll::Ready(data),
        ChannelRecv::Msg(ReadMessage::Closed) => ReadPoll::Ready(Vec::new()),
        ChannelRecv::Empty => ReadPoll::Pending,
        ChannelRecv::Disconnected => ReadPoll::Ready(Vec::new()),
    }
}

/// The output or error stream of a process.
#[derive(Debug, Clone, PartialEq)]
pub enum VashRead {
    /// The standard output of the OS child with the given table index.
    Stdout(usize),
    /// The standard error of the OS child with the given table index.
    Stderr(usize),
    /// A stream supervised by a background task over a channel.
    Delegate(ReadDelegate),
    /// Always at end of stream.
    Sink(ReadSink),
    /// A fixed buffer handed out on the first read.
    Canned(Vec<u8>),
}

// ---------------------------------------------------------------------------
// Write streams
// ---------------------------------------------------------------------------

/// A command to the task owning a supervised write stream.
#[derive(Debug, PartialEq)]
pub enum WriteMessage {
    /// Write these bytes.
    Write(Vec<u8>),
    /// Flush what was written.
    Flush,
    /// Close the stream.
    Close,
}

/// A write stream reached over the channel with the given table index.
#[derive(Debug, Clone, Copy, PartialEq, Eq, Structural)]
pub struct WriteDelegate {
    pub sender: usize,
}

/// What one write poll yields.
#[derive(Debug, PartialEq)]
pub enum WritePoll {
    /// This many bytes were accepted.
    Accepted(usize),
    /// The receiving side is gone: a broken pipe.
    BrokenPipe,
}

/// The message a supervised write stream enqueues for one poll: the
/// whole buffer, as one chunk, unchanged.
pub fn write_chunk_message(buf: &Vec<u8>) -> (m: WriteMessage)
    ensures
        m matches WriteMessage::Write(data) && data@ == buf@,
{
    let data = vstd::slice::slice_to_vec(buf.as_slice());
    WriteMessage::Write(data)
}

/// How a supervised write stream answers one poll once the chunk was
/// enqueued: the whole buffer counts as accepted while the channel still
/// has its receiver, and a gone receiver is a broken pipe.
pub fn write_poll_outcome(len: usize, send_ok: bool) -> (r: WritePoll)
    ensures
        send_ok ==> r == WritePoll::Accepted(len),
        !send_ok ==> r == WritePoll::BrokenPipe,
{
    if send_ok {
        WritePoll::Accepted(len)
    } else {
        WritePoll::BrokenPipe
    }
}

/// The input stream of a process.
#[derive(Debug, Clone, Copy, PartialEq, Eq, Structural)]
pub enum VashWrite {
    /// The standard input of the OS child with the given table index.
    Stdin(usize),
    /// A stream supervised by a background task over a channel.
    Delegate(WriteDelegate),
    /// Discards everything written.
    Sink,
    /// The parent end of an in-memory duplex pipe, by table index.
    Duplex(usize),
}

// ---------------------------------------------------------------------------
// The process
// ---------------------------------------------------------------------------

/// The result of executing one plan node: three streams and a child
/// handle, whatever the process's origin.
#[derive(Debug, Clone, PartialEq)]
pub struct VashProcess {
    pub stdin: VashWrite,
    pub stdout: VashRead,
    pub stderr: VashRead,
    pub child: VashChild,
}

impl VashProcess {
    /// An immediate, always-successful, empty-output process. It never
    /// touches the OS process table.
    pub fn sink() -> (p: VashProcess)
        ensures
            p.stdin == VashWrite::Sink,
            p.stdout == VashRead::Sink(ReadSink),
            p.stderr == VashRead::Sink(ReadSink),
            p.child matches VashChild::PreExecuted(s) && s.spec_code() == Some(0i32),
    {
        VashProcess {
            stdin: VashWrite::Sink,
            stdout: VashRead::Sink(ReadSink),
            stderr: VashRead::Sink(ReadSink),
            child: VashChild::PreExecuted(BuiltinExitStatus::new_success()),
        }
    }

    /// An immediate, already-failed, empty-output process. It never
    /// touches the OS process table.
    pub fn sink_failure() -> (p: VashProcess)
        ensures
            p.stdin == VashWrite::Sink,
            p.stdout == VashRead::Sink(ReadSink),
            p.stderr == VashRead::Sink(ReadSink),
            p.child matches VashChild::PreExecuted(s) && s.spec_code() == Some(1i32),
    {
        VashProcess {
            stdin: VashWrite::Sink,
            stdout: VashRead::Sink(ReadSink),
            stderr: VashRead::Sink(ReadSink),
            child: VashChild::PreExecuted(BuiltinExitStatus::new_failure()),
        }
    }

    /// Connects a pipeline: the composed process exposes the left stage's
    /// input, the right stage's output and error streams, and the right
    /// stage's child handle — so the pipeline's observable identity, its
    /// terminal status above all, is its last stage.
    pub fn compose_pipe(left: VashProcess, right: VashProcess) -> (p: VashProcess)
        ensures
            p.stdin == left.stdin,
            p.stdout == right.stdout,
            p.stderr == right.stderr,
            p.child == right.child,
    {
        VashProcess {
            stdin: left.stdin,
            stdout: right.stdout,
            stderr: right.stderr,
            child: right.child,
        }
    }
}

} // verus!
