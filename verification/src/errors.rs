//! Error values of the serial session manager.
//!
//! Every failure carries a human-readable message naming the underlying
//! cause; none is fatal, and the session stays usable after any of them.

use vstd::prelude::*;
use vstd::string::StringExecFns;

verus! {

/// The host's device query failed during enumeration.
#[derive(Debug, PartialEq, Eq)]
pub struct EnumerationError {
    pub message: String,
}

/// A device could not be opened during connect.
#[derive(Debug, PartialEq, Eq)]
pub struct ConnectError {
    pub message: String,
}

/// A write or flush against the open port failed, or no port was open.
#[derive(Debug, PartialEq, Eq)]
pub enum SendError {
    /// No handle is open; nothing was written.
    NotConnected,
    /// The write or flush failed; the device state is unknown to the caller.
    Io { message: String },
}

/// A read against the open port failed, or no port was open.
///
/// A read that merely timed out with no bytes is not an error and never
/// produces this type.
#[derive(Debug, PartialEq, Eq)]
pub enum ReceiveError {
    /// No handle is open; nothing was read.
    NotConnected,
    /// The read failed for a reason other than a timeout.
    Io { message: String },
}

impl EnumerationError {
    /// Wraps the cause reported by the host's device query.
    pub fn from_cause(cause: String) -> (r: EnumerationError)
        ensures
            r.message@ == "Failed to list serial ports: "@ + cause@,
    {
        let mut message = String::from_str("Failed to list serial ports: ");
        message.append(cause.as_str());
        EnumerationError { message }
    }

    pub fn message(&self) -> (r: &str)
        ensures
            r@ == self.message@,
    {
        self.message.as_str()
    }
}

impl ConnectError {
    /// Whether the message wraps some underlying cause behind the fixed
    /// connect-failure prefix.
    pub open spec fn wraps_cause(self) -> bool {
        exists|cause: Seq<char>| self.message@ == "Failed to connect: "@ + cause
    }

    /// Wraps the cause reported when opening the device failed.
    pub fn from_cause(cause: String) -> (r: ConnectError)
        ensures
            r.message@ == "Failed to connect: "@ + cause@,
    {
        let mut message = String::from_str("Failed to connect: ");
        message.append(cause.as_str());
        ConnectError { message }
    }

    pub fn message(&self) -> (r: &str)
        ensures
            r@ == self.message@,
    {
        self.message.as_str()
    }
}

impl SendError {
    /// The message shown for each failure to send.
    pub open spec fn message_spec(self) -> Seq<char> {
        match self {
            SendError::NotConnected => "Not connected to any serial port"@,
            SendError::Io { message } => message@,
        }
    }

    /// Whether an I/O failure's message wraps some underlying cause behind
    /// the fixed write- or flush-failure prefix.
    pub open spec fn wraps_io_cause(self) -> bool {
        match self {
            SendError::NotConnected => false,
            SendError::Io { message } => exists|cause: Seq<char>|
                message@ == "Failed to send data: "@ + cause || message@
                    == "Failed to flush data: "@ + cause,
        }
    }

    /// Wraps the cause of a failed write.
    pub fn write_failure(cause: String) -> (r: SendError)
        ensures
            r matches SendError::Io { message } && message@ == "Failed to send data: "@ + cause@,
    {
        let mut message = String::from_str("Failed to send data: ");
        message.append(cause.as_str());
        SendError::Io { message }
    }

    /// Wraps the cause of a failed flush.
    pub fn flush_failure(cause: String) -> (r: SendError)
        ensures
            r matches SendError::Io { message } && message@ == "Failed to flush data: "@ + cause@,
    {
        let mut message = String::from_str("Failed to flush data: ");
        message.append(cause.as_str());
        SendError::Io { message }
    }

    pub fn message(&self) -> (r: String)
        ensures
            r@ == self.message_spec(),
    {
        match self {
            SendError::NotConnected => String::from_str("Not connected to any serial port"),
            SendError::Io { message } => message.clone(),
        }
    }
}

impl ReceiveError {
    /// The message shown for each failure to receive.
    pub open spec fn message_spec(self) -> Seq<char> {
        match self {
            ReceiveError::NotConnected => "Not connected to any serial port"@,
            ReceiveError::Io { message } => message@,
        }
    }

    /// Whether an I/O failure's message wraps some underlying cause behind
    /// the fixed read-failure prefix.
    pub open spec fn wraps_io_cause(self) -> bool {
        match self {
            ReceiveError::NotConnected => false,
            ReceiveError::Io { message } => exists|cause: Seq<char>|
                message@ == "Failed to read data: "@ + cause,
        }
    }

    /// Wraps the cause of a failed read.
    pub fn read_failure(cause: String) -> (r: ReceiveError)
        ensures
            r matches ReceiveError::Io { message } && message@ == "Failed to read data: "@ + cause@,
    {
        let mut message = String::from_str("Failed to read data: ");
        message.append(cause.as_str());
        ReceiveError::Io { message }
    }

    pub fn message(&self) -> (r: String)
        ensures
            r@ == self.message_spec(),
    {
        match self {
            ReceiveError::NotConnected => String::from_str("Not connected to any serial port"),
            ReceiveError::Io { message } => message.clone(),
        }
    }
}

} // verus!
