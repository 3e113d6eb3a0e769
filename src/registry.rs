use vstd::prelude::*;
use crate::dsp::Dsp;
use crate::gpio::GPIOOutput;
use crate::node::DeviceNode;
use crate::stdin::Stdin;

verus! {

/// Identifier of the console input device.
pub const STDIN_ID: usize = 0;
/// Identifier of the console output device.
pub const STDOUT_ID: usize = 1;
/// Identifier of the console error device, which is the console output.
pub const STDERR_ID: usize = 2;
/// Identifier of the output pin device.
pub const GPIO_ID: usize = 3;
/// Identifier of the audio sink.
pub const DSP_ID: usize = 4;

/// Console output: forwards written bytes to the text sink unchanged.
#[derive(Clone, Copy, Debug, PartialEq, Eq, Structural)]
pub struct Stdout;

impl Default for Stdout {
    fn default() -> (r: Self)
        ensures
            r == Stdout,
    {
        Stdout
    }
}

impl DeviceNode for Stdout {}

/// The device that an identifier names.
#[derive(Clone, Copy, Debug, PartialEq, Eq, Structural)]
pub enum DeviceKind {
    ConsoleInput,
    ConsoleOutput,
    Gpio,
    AudioSink,
}

/// The device named by `id`, if any.
pub open spec fn kind_of(id: usize) -> Option<DeviceKind> {
    if id == STDIN_ID {
        Some(DeviceKind::ConsoleInput)
    } else if id == STDOUT_ID || id == STDERR_ID {
        Some(DeviceKind::ConsoleOutput)
    } else if id == GPIO_ID {
        Some(DeviceKind::Gpio)
    } else if id == DSP_ID {
        Some(DeviceKind::AudioSink)
    } else {
        None
    }
}

/// Looks up the device that `id` names; console error shares the console
/// output device.
pub fn device_kind(id: usize) -> (r: Option<DeviceKind>)
    ensures
        r == kind_of(id),
{
    if id == STDIN_ID {
        Some(DeviceKind::ConsoleInput)
    } else if id == STDOUT_ID || id == STDERR_ID {
        Some(DeviceKind::ConsoleOutput)
    } else if id == GPIO_ID {
        Some(DeviceKind::Gpio)
    } else if id == DSP_ID {
        Some(DeviceKind::AudioSink)
    } else {
        None
    }
}

/// The one instance of each device, created together at start-up.
pub struct Devices {
    pub stdin: Stdin,
    pub stdout: Stdout,
    pub gpio: GPIOOutput,
    pub dsp: Dsp,
}

impl Devices {
    /// Every device in its initial state: no input queued, pin 0 selected,
    /// no audio buffered.
    pub fn new() -> (r: Self)
        ensures
            r.stdin@ == Seq::<char>::empty(),
            r.gpio@ == 0,
            r.dsp@ == Seq::<u8>::empty(),
    {
        Devices { stdin: Stdin::new(), stdout: Stdout, gpio: GPIOOutput::new(0), dsp: Dsp::new() }
    }
}

} // verus!
