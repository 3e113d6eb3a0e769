use vstd::prelude::*;
use crate::node::{DeviceNode, IoctlError};

verus! {

/// The highest pin index of the board.
pub const MAX_PIN: u8 = 53;

/// What a write to the pin device leaves for the caller to do.
#[derive(Clone, Copy, Debug, PartialEq, Eq, Structural)]
pub struct PinWrite {
    /// The pin to configure as an output and drive high.
    pub pin: u8,
    /// The byte count that the write reports.
    pub written: usize,
}

/// Output pin device: holds the index of the pin that writes drive.
pub struct GPIOOutput {
    pin: u8,
}

impl View for GPIOOutput {
    type V = u8;

    closed spec fn view(&self) -> u8 {
        self.pin
    }
}

impl Default for GPIOOutput {
    fn default() -> (r: Self)
        ensures
            r@ == 0,
    {
        GPIOOutput::new(0)
    }
}

impl GPIOOutput {
    /// A device that selects `init_pin`.
    pub fn new(init_pin: u8) -> (r: Self)
        requires
            init_pin <= MAX_PIN,
        ensures
            r@ == init_pin,
    {
        GPIOOutput { pin: init_pin }
    }

    /// The selected pin.
    pub fn pin(&self) -> (r: u8)
        ensures
            r == self@,
    {
        self.pin
    }

    /// Selects pin `request`. A request above `MAX_PIN` fails with
    /// `NotValidParam` and keeps the pin selected before.
    pub fn ioctl(&mut self, request: u32) -> (r: Result<(), IoctlError>)
        ensures
            request > MAX_PIN ==> r == Err::<(), IoctlError>(IoctlError::NotValidParam)
                && final(self)@ == old(self)@,
            request <= MAX_PIN ==> r == Ok::<(), IoctlError>(()) && final(self)@ == request as u8,
    {
        if request > MAX_PIN as u32 {
            return Err(IoctlError::NotValidParam);
        }
        self.pin = request as u8;
        Ok(())
    }

    /// A write ignores its offset and bytes: it drives the selected pin high
    /// and reports no bytes written.
    pub fn write_at(&self, _offset: usize, _buf: &[u8]) -> (r: PinWrite)
        ensures
            r == (PinWrite { pin: self@, written: 0 }),
    {
        PinWrite { pin: self.pin, written: 0 }
    }
}

impl DeviceNode for GPIOOutput {}

} // verus!
