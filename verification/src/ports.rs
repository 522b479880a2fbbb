//! Enumeration of the host's serial ports and their display names.
//!
//! The device query is the host's I/O edge: the host reads its device tree
//! and hands in, as plain values, each port's system path and — for USB
//! adapters — the product string of its descriptor, or the query failure's
//! message. Everything from there on is verified with an exact contract:
//! how each port is described, and how a failed query is reported.

use vstd::prelude::*;
use vstd::string::StringExecFns;
use crate::errors::EnumerationError;

verus! {

/// What the logic reads of a device's transport: whether it is a USB serial
/// adapter and, if so, the product string of its descriptor, when present.
#[derive(Debug, PartialEq, Eq)]
pub enum PortKind {
    Usb { product: Option<String> },
    Other,
}

/// One attached device as the host reports it: its system name (the path
/// used to open it) and its transport kind.
#[derive(Debug, PartialEq, Eq)]
pub struct RawPort {
    pub name: String,
    pub kind: PortKind,
}

/// One enumeration result: a human-readable display name and the system
/// path used to open the port. Produced fresh on every enumeration call.
#[derive(Debug, PartialEq, Eq)]
pub struct SerialPortInfo {
    pub name: String,
    pub path: String,
}

/// The display name of a port: vendor/product-qualified for USB adapters,
/// with a fixed placeholder when the product string is absent, and the bare
/// system name for every other transport.
pub open spec fn display_name_of(name: Seq<char>, kind: PortKind) -> Seq<char> {
    match kind {
        PortKind::Usb { product: Some(p) } => name + " ("@ + p@ + ")"@,
        PortKind::Usb { product: None } => name + " (Unknown Device)"@,
        PortKind::Other => name,
    }
}

/// Describes one reported device: the path is the system name as it came,
/// the display name is exactly `display_name_of`.
pub fn describe_port(port: &RawPort) -> (r: SerialPortInfo)
    ensures
        r.path@ == port.name@,
        r.name@ == display_name_of(port.name@, port.kind),
{
    let name = match &port.kind {
        PortKind::Usb { product } => {
            let mut display = String::from_str(port.name.as_str());
            match product {
                Some(p) => {
                    display.append(" (");
                    display.append(p.as_str());
                    display.append(")");
                },
                None => display.append(" (Unknown Device)"),
            }
            display
        },
        PortKind::Other => String::from_str(port.name.as_str()),
    };
    SerialPortInfo { name, path: String::from_str(port.name.as_str()) }
}

/// Describes every reported device, in the order the host reported them.
pub fn describe_ports(ports: &Vec<RawPort>) -> (r: Vec<SerialPortInfo>)
    ensures
        r@.len() == ports@.len(),
        forall|i: int|
            0 <= i < ports@.len() ==> (#[trigger] r@[i]).path@ == ports@[i].name@ && r@[i].name@
                == display_name_of(ports@[i].name@, ports@[i].kind),
{
    let mut described: Vec<SerialPortInfo> = Vec::new();
    let mut i: usize = 0;
    while i < ports.len()
        invariant
            i <= ports@.len(),
            described@.len() == i,
            forall|j: int|
                0 <= j < i ==> (#[trigger] described@[j]).path@ == ports@[j].name@
                    && described@[j].name@ == display_name_of(ports@[j].name@, ports@[j].kind),
        decreases ports@.len() - i,
    {
        let info = describe_port(&ports[i]);
        described.push(info);
        i = i + 1;
    }
    described
}

/// The enumeration result for a given outcome of the host's device query:
/// whatever list the host reported is described port by port, in order, and
/// a failed query becomes an enumeration error wrapping its cause.
///
/// The query itself — the host reading its device tree — is the host's I/O
/// edge: it hands in a list of raw ports, or the failure's message.
pub fn enumerate_from(query: Result<Vec<RawPort>, String>) -> (r: Result<
    Vec<SerialPortInfo>,
    EnumerationError,
>)
    ensures
        r is Ok <==> query is Ok,
        query matches Ok(raw) ==> (r matches Ok(described) && described@.len() == raw@.len()
            && forall|i: int|
            0 <= i < raw@.len() ==> (#[trigger] described@[i]).path@ == raw@[i].name@
                && described@[i].name@ == display_name_of(raw@[i].name@, raw@[i].kind)),
        query matches Err(cause) ==> (r matches Err(e) && e.message@
            == "Failed to list serial ports: "@ + cause@),
{
    match query {
        Ok(raw) => Ok(describe_ports(&raw)),
        Err(cause) => Err(EnumerationError::from_cause(cause)),
    }
}

} // verus!
