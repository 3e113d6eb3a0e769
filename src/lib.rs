//! Character devices exposed as filesystem nodes: console input and output,
//! an accumulating audio sink and a selectable output pin.
//!
//! Each device holds only its own state here; callers that share a device
//! between execution contexts wrap it in a lock of their choosing.
mod dsp;
mod gpio;
mod node;
mod registry;
mod stdin;

pub use dsp::{
    Dsp, DspAction, DSP_RESET, DSP_PLAY, SAMPLE_RATE, BUFFER_FRAMES, CHANNELS, BIT_DEPTH,
    written_all, total_len, lemma_writes_accumulate,
};
pub use gpio::{GPIOOutput, PinWrite, MAX_PIN};
pub use node::{DeviceNode, FsError, IoctlError};
pub use registry::{
    Devices, DeviceKind, Stdout, device_kind, kind_of, STDIN_ID, STDOUT_ID, STDERR_ID, GPIO_ID,
    DSP_ID,
};
pub use stdin::{
    Stdin, front, rest, pushed_all, pops_of, byte_of, lemma_fifo_order, lemma_push_wakes_reader,
};
