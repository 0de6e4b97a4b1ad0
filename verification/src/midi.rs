//! MIDI port bookkeeping: the port and message values, the labelling
//! of enumerated ports, and the index checks and messages of the
//! connect operations. Port enumeration and connection themselves are
//! the device library's work and live with the caller.

use vstd::prelude::*;

use crate::text::{opt_text_view, spec_decimal, u64_to_string};

verus! {

/// One enumerated MIDI port: its position in the enumeration and its
/// reported name.
#[derive(Debug, Clone)]
pub struct MidiPort {
    pub index: usize,
    pub name: String,
}

/// One incoming MIDI message: the device timestamp and the raw bytes.
#[derive(Debug, Clone)]
pub struct MidiMessage {
    pub timestamp: u64,
    pub data: Vec<u8>,
}

/// Label the enumerated ports: each keeps its position, and one whose
/// name the device library could not report is labelled
/// "Unknown Port" with its position.
pub fn label_ports(names: &Vec<Option<String>>) -> (r: Vec<MidiPort>)
    ensures
        r@.len() == names@.len(),
        forall|i: int|
            0 <= i < names@.len() ==> (#[trigger] r@[i]).index == i && r@[i].name@ == (
            match names@[i] {
                Some(n) => n@,
                None => "Unknown Port "@ + spec_decimal(i),
            }),
{
    let mut r: Vec<MidiPort> = Vec::new();
    let mut i: usize = 0;
    while i < names.len()
        invariant
            i <= names@.len(),
            r@.len() == i,
            forall|k: int|
                0 <= k < i ==> (#[trigger] r@[k]).index == k && r@[k].name@ == (
                match names@[k] {
                    Some(n) => n@,
                    None => "Unknown Port "@ + spec_decimal(k),
                }),
        decreases names@.len() - i,
    {
        let name = match &names[i] {
            Some(n) => n.clone(),
            None => {
                let mut u = "Unknown Port ".to_owned();
                let d = u64_to_string(i as u64);
                u.append(d.as_str());
                u
            },
        };
        r.push(MidiPort { index: i, name });
        i = i + 1;
    }
    r
}

/// The client name a connection registers under: the application
/// name qualified with the port's.
pub fn connection_name(port_name: &str) -> (r: String)
    ensures
        r@ == "OpenMusic-"@ + port_name@,
{
    let mut r = "OpenMusic-".to_owned();
    r.append(port_name);
    r
}

/// The error text for a connect call aimed past the enumeration.
fn invalid_index_message(port_index: usize) -> (r: String)
    ensures
        r@ == "Invalid port index: "@ + spec_decimal(port_index as int),
{
    let mut r = "Invalid port index: ".to_owned();
    let d = u64_to_string(port_index as u64);
    r.append(d.as_str());
    r
}

/// The connect decision for an input port: the confirmation naming
/// the port when the index is in range, the index error otherwise.
pub fn connect_input_message(port_index: usize, ports: &Vec<MidiPort>) -> (r: Result<
    String,
    String,
>)
    ensures
        port_index < ports@.len() ==> (r matches Ok(m) && m@ == "Connected to MIDI input port: "@
            + ports@[port_index as int].name@),
        port_index >= ports@.len() ==> (r matches Err(e) && e@ == "Invalid port index: "@
            + spec_decimal(port_index as int)),
{
    if port_index < ports.len() {
        let mut m = "Connected to MIDI input port: ".to_owned();
        m.append(ports[port_index].name.as_str());
        Ok(m)
    } else {
        Err(invalid_index_message(port_index))
    }
}

/// The connect decision for an output port, as for input ports.
pub fn connect_output_message(port_index: usize, ports: &Vec<MidiPort>) -> (r: Result<
    String,
    String,
>)
    ensures
        port_index < ports@.len() ==> (r matches Ok(m) && m@ == "Connected to MIDI output port: "@
            + ports@[port_index as int].name@),
        port_index >= ports@.len() ==> (r matches Err(e) && e@ == "Invalid port index: "@
            + spec_decimal(port_index as int)),
{
    if port_index < ports.len() {
        let mut m = "Connected to MIDI output port: ".to_owned();
        m.append(ports[port_index].name.as_str());
        Ok(m)
    } else {
        Err(invalid_index_message(port_index))
    }
}

} // verus!
