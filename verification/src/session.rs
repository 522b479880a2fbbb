//! The serial session: at most one open port handle, with connect, disconnect,
//! send and receive.
//!
//! The session is modelled by the path of the currently connected port
//! (`connected_to`) and by the log of fully transmitted buffers (`sent_log`).
//! All device I/O goes through the trusted wrappers around the `serialport`
//! crate below; everything around them is verified.

use vstd::prelude::*;
use vstd::string::StringExecFns;
use crate::errors::{ConnectError, ReceiveError, SendError};
use std::io::Read;
use std::io::Write;

verus! {

/// Baud rate every connection is opened at.
pub const BAUD_RATE: u32 = 115200;

/// Per-operation I/O timeout for open, read and write, in milliseconds.
pub const IO_TIMEOUT_MS: u64 = 1000;

/// Size of the buffer a single receive reads into, in bytes.
pub const READ_BUFFER_SIZE: usize = 1024;

/// An open serial device at a fixed baud rate and I/O timeout.
///
/// Relies on serialport's `SerialPort` trait object: the handle is an opaque
/// capability, held only so that verified code can route it through the
/// trusted wrappers below. Dropping it closes the device.
#[verifier::external_body]
struct PortHandle {
    inner: Box<dyn serialport::SerialPort + Send>,
}

/// Relies on `serialport::new(path, baud).timeout(..).open()`: opens the
/// device at the given baud rate with the given I/O timeout. Whether the open
/// succeeds depends on the host's device state, so nothing is promised of the
/// outcome; on failure the error's message is returned.
#[verifier::external_body]
fn open_port(path: &str, baud_rate: u32, timeout_ms: u64) -> Result<PortHandle, String> {
    let builder = serialport::new(path, baud_rate)
        .timeout(std::time::Duration::from_millis(timeout_ms));
    match builder.open() {
        Ok(inner) => Ok(PortHandle { inner }),
        Err(e) => Err(e.to_string()),
    }
}

/// Relies on `std::io::Write::write_all` through serialport's `SerialPort`:
/// on `Ok` the entire buffer was handed to the port, on `Err` an I/O error
/// occurred and how much was written is unknown. The outcome depends on the
/// device, so nothing is promised of it.
#[verifier::external_body]
fn port_write_all(port: &mut PortHandle, data: &[u8]) -> Result<(), String> {
    match port.inner.write_all(data) {
        Ok(()) => Ok(()),
        Err(e) => Err(e.to_string()),
    }
}

/// Relies on `std::io::Write::flush` through serialport's `SerialPort`: on
/// `Ok` the buffered output was handed to the OS transmit path. The outcome
/// depends on the device, so nothing is promised of it.
#[verifier::external_body]
fn port_flush(port: &mut PortHandle) -> Result<(), String> {
    match port.inner.flush() {
        Ok(()) => Ok(()),
        Err(e) => Err(e.to_string()),
    }
}

/// What one bounded read against the open port came back with.
#[derive(Debug, PartialEq, Eq)]
pub enum ReadOutcome {
    /// The bytes actually read, possibly none.
    Data(Vec<u8>),
    /// No bytes arrived within the port's configured timeout.
    TimedOut,
    /// The read failed for another reason; the cause's message.
    Failed(String),
}

/// Relies on `std::io::Read::read` through serialport's `SerialPort`: reads
/// at most `cap` bytes, waiting no longer than the port's configured timeout,
/// and returns exactly the bytes read. A timeout is told apart from other I/O
/// errors by `std::io::ErrorKind::TimedOut`. Which outcome comes back depends
/// on the device, so only the length bound is promised.
#[verifier::external_body]
fn port_read_chunk(port: &mut PortHandle, cap: usize) -> (r: ReadOutcome)
    ensures
        r matches ReadOutcome::Data(v) ==> v@.len() <= cap,
{
    let mut buffer = vec![0u8; cap];
    match port.inner.read(&mut buffer) {
        Ok(n) => {
            buffer.truncate(n);
            ReadOutcome::Data(buffer)
        }
        Err(e) if e.kind() == std::io::ErrorKind::TimedOut => ReadOutcome::TimedOut,
        Err(e) => ReadOutcome::Failed(e.to_string()),
    }
}

/// An open handle together with the path it was opened on.
struct OpenPort {
    handle: PortHandle,
    path: Ghost<Seq<char>>,
}

/// The single piece of mutable state: zero or one open port.
///
/// Created once at process start and mutated only through the operations
/// below; the host serializes all access to it behind one lock.
pub struct Session {
    port: Option<OpenPort>,
    sent: Ghost<Seq<u8>>,
}

/// The session state a connect call leaves behind: the new path if the open
/// succeeded, and no handle at all if it failed — never the old handle.
pub open spec fn connect_step(pre: Option<Seq<char>>, path: Seq<char>, opened: bool) -> Option<
    Seq<char>,
> {
    if opened {
        Some(path)
    } else {
        None
    }
}

/// The session state a disconnect call leaves behind: no handle, whatever
/// was there before.
pub open spec fn disconnect_step(pre: Option<Seq<char>>) -> Option<Seq<char>> {
    None
}

/// The confirmation message a successful connect returns.
pub open spec fn connect_confirmation(path: Seq<char>) -> Seq<char> {
    "Connected to "@ + path
}

impl Session {
    /// The path of the currently connected port, if a handle is open.
    pub closed spec fn connected_to(self) -> Option<Seq<char>> {
        match self.port {
            Some(p) => Some(p.path@),
            None => None,
        }
    }

    /// Whether a handle is open.
    pub open spec fn connected(self) -> bool {
        self.connected_to() is Some
    }

    /// Every byte of every fully transmitted buffer, in order: a successful
    /// send appends its whole buffer here, and nothing else changes it.
    pub closed spec fn sent_log(self) -> Seq<u8> {
        self.sent@
    }

    /// A fresh session with no open handle.
    pub fn new() -> (s: Session)
        ensures
            !s.connected(),
            s.sent_log() == Seq::<u8>::empty(),
    {
        Session { port: None, sent: Ghost(Seq::empty()) }
    }

    /// Opens `path` at the fixed baud rate and timeout, first dropping any
    /// handle already open. On success the session holds exactly the new
    /// handle and the confirmation names the path; on failure the session
    /// holds no handle at all.
    pub fn connect(&mut self, path: &str) -> (r: Result<String, ConnectError>)
        ensures
            final(self).connected_to() == connect_step(
                old(self).connected_to(),
                path@,
                r is Ok,
            ),
            final(self).sent_log() == old(self).sent_log(),
            r matches Ok(m) ==> m@ == connect_confirmation(path@),
            r matches Err(e) ==> e.wraps_cause(),
    {
        // Drop the old handle before trying to open the new one: connect
        // replaces, never adds.
        self.port = None;
        match open_port(path, BAUD_RATE, IO_TIMEOUT_MS) {
            Ok(handle) => {
                self.port = Some(OpenPort { handle, path: Ghost(path@) });
                let mut message = String::from_str("Connected to ");
                message.append(path);
                Ok(message)
            },
            Err(cause) => Err(ConnectError::from_cause(cause)),
        }
    }

    /// Drops any open handle. Always succeeds; on an already-closed session
    /// it is a no-op that still returns the confirmation.
    pub fn disconnect(&mut self) -> (r: String)
        ensures
            final(self).connected_to() == disconnect_step(old(self).connected_to()),
            final(self).sent_log() == old(self).sent_log(),
            r@ == "Disconnected"@,
    {
        self.port = None;
        String::from_str("Disconnected")
    }

    /// Writes the whole buffer and flushes it to the OS transmit path. Fails
    /// with `NotConnected` exactly when no handle is open; on success the
    /// whole buffer, and on failure nothing, is appended to the sent log.
    pub fn send(&mut self, data: &Vec<u8>) -> (r: Result<(), SendError>)
        ensures
            final(self).connected_to() == old(self).connected_to(),
            (r matches Err(e) && e is NotConnected) <==> !old(self).connected(),
            r is Ok ==> final(self).sent_log() == old(self).sent_log() + data@,
            r is Err ==> final(self).sent_log() == old(self).sent_log(),
            r matches Err(e) ==> e is NotConnected || e.wraps_io_cause(),
    {
        match &mut self.port {
            Some(open) => {
                match port_write_all(&mut open.handle, data.as_slice()) {
                    Ok(()) => {},
                    Err(cause) => {
                        return Err(SendError::write_failure(cause));
                    },
                }
                match port_flush(&mut open.handle) {
                    Ok(()) => {},
                    Err(cause) => {
                        return Err(SendError::flush_failure(cause));
                    },
                }
                self.sent = Ghost(self.sent@ + data@);
                Ok(())
            },
            None => Err(SendError::NotConnected),
        }
    }

    /// One bounded poll for inbound bytes. Fails with `NotConnected` exactly
    /// when no handle is open; otherwise reads once into a fixed-size buffer
    /// and classifies the outcome as `classify_read` states — in particular a
    /// device timeout is an empty success, not an error.
    pub fn receive(&mut self) -> (r: Result<Vec<u8>, ReceiveError>)
        ensures
            final(self).connected_to() == old(self).connected_to(),
            final(self).sent_log() == old(self).sent_log(),
            (r matches Err(e) && e is NotConnected) <==> !old(self).connected(),
            r matches Ok(v) ==> v@.len() <= READ_BUFFER_SIZE,
            r matches Err(e) ==> e is NotConnected || e.wraps_io_cause(),
    {
        match &mut self.port {
            Some(open) => {
                let outcome = port_read_chunk(&mut open.handle, READ_BUFFER_SIZE);
                classify_read(outcome)
            },
            None => Err(ReceiveError::NotConnected),
        }
    }
}

/// How one read outcome is reported to the caller: the bytes read are handed
/// back as they are, a device timeout is an empty success, and any other
/// failure is a receive error naming the cause.
pub fn classify_read(outcome: ReadOutcome) -> (r: Result<Vec<u8>, ReceiveError>)
    ensures
        outcome matches ReadOutcome::Data(v) ==> (r matches Ok(w) && w@ == v@),
        outcome is TimedOut ==> (r matches Ok(w) && w@ == Seq::<u8>::empty()),
        outcome matches ReadOutcome::Failed(cause) ==> (r matches Err(e) && e matches
            ReceiveError::Io { message } && message@ == "Failed to read data: "@ + cause@),
{
    match outcome {
        ReadOutcome::Data(bytes) => Ok(bytes),
        ReadOutcome::TimedOut => {
            let empty: Vec<u8> = Vec::new();
            Ok(empty)
        },
        ReadOutcome::Failed(cause) => Err(ReceiveError::read_failure(cause)),
    }
}

/// What a poll hands back when the session lock could not be acquired within
/// its bound: an empty success, so the caller's loop keeps its liveness, not
/// an error and not a wait.
pub fn receive_when_busy() -> (r: Result<Vec<u8>, ReceiveError>)
    ensures
        r matches Ok(v) && v@ == Seq::<u8>::empty(),
{
    let empty: Vec<u8> = Vec::new();
    Ok(empty)
}

} // verus!
