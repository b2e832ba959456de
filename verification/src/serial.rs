//! The serial port: a data byte, a control byte, and the byte last sent.

use vstd::prelude::*;

verus! {

/// The serial transfer registers. A transfer on the internal clock completes at once.
#[derive(Clone, Copy, Debug)]
pub struct SerialTransfer {
    pub data: u8,
    pub control: u8,
    pub byte: Option<u8>,
}

impl SerialTransfer {
    /// The port after one update: a requested transfer on the internal clock (control 0x81)
    /// completes, leaving control at 0x01 and the data byte ready to be taken.
    pub open spec fn spec_update(self) -> SerialTransfer {
        if self.control == 0x81 {
            SerialTransfer { control: 0x01, byte: Some(self.data), ..self }
        } else {
            self
        }
    }

    pub fn new() -> (r: SerialTransfer)
        ensures
            r == (SerialTransfer { data: 0, control: 0x7E, byte: None }),
    {
        SerialTransfer { data: 0, control: 0x7E, byte: None }
    }

    pub fn update(&mut self)
        ensures
            *final(self) == old(self).spec_update(),
    {
        if self.control == 0x81 {
            self.control = 0x01;
            self.byte = Some(self.data);
        }
    }

    /// Hands out the byte last sent, if one is waiting, and forgets it.
    pub fn take_byte(&mut self) -> (r: Option<u8>)
        ensures
            r == old(self).byte,
            *final(self) == (SerialTransfer { byte: None, ..*old(self) }),
    {
        let taken = self.byte;
        self.byte = None;
        taken
    }
}

} // verus!
