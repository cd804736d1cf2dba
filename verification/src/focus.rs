use vstd::prelude::*;

verus! {

/// Focus event in the editor-facing shape.
#[derive(Debug, Clone, Copy, PartialEq, Eq, Structural)]
pub enum FocusEvent {
    /// Focus gained.
    Gained,
    /// Focus lost.
    Lost,
}

/// The bytes a terminal expects for a focus report (DEC mode 1004):
/// `ESC [ I` when focus is gained and `ESC [ O` when it is lost.
pub open spec fn focus_report(event: FocusEvent) -> Seq<u8> {
    match event {
        FocusEvent::Gained => seq![0x1bu8, 0x5bu8, 0x49u8],
        FocusEvent::Lost => seq![0x1bu8, 0x5bu8, 0x4fu8],
    }
}

/// Encode a focus event into terminal bytes.
pub fn encode_focus(event: FocusEvent) -> (encoded: Vec<u8>)
    ensures
        encoded@ == focus_report(event),
        encoded@.len() == 3,
        encoded@[0] == 0x1b && encoded@[1] == 0x5b,
        event == FocusEvent::Gained ==> encoded@[2] == 0x49,
        event == FocusEvent::Lost ==> encoded@[2] == 0x4f,
{
    let last: u8 = match event {
        FocusEvent::Gained => 0x49,
        FocusEvent::Lost => 0x4f,
    };
    let mut encoded: Vec<u8> = Vec::with_capacity(3);
    encoded.push(0x1b);
    encoded.push(0x5b);
    encoded.push(last);
    encoded
}

} // verus!
