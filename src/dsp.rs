use vstd::prelude::*;
use crate::node::DeviceNode;

verus! {

/// Control request that empties the audio buffer.
pub const DSP_RESET: u32 = 0;
/// Control request that plays the audio buffer.
pub const DSP_PLAY: u32 = 1;

/// Sample rate the playback backend is set up with.
pub const SAMPLE_RATE: u32 = 44100;
/// Frames per hardware buffer the playback backend is set up with.
pub const BUFFER_FRAMES: u32 = 2048;
/// Channels of the buffered audio.
pub const CHANNELS: u32 = 1;
/// Bits per sample of the buffered audio.
pub const BIT_DEPTH: u32 = 8;

/// What a control request leaves for the caller to do.
#[derive(Clone, Copy, Debug, PartialEq, Eq, Structural)]
pub enum DspAction {
    /// Nothing: the request was a reset, already done, or unknown.
    Done,
    /// Hand the first `len` bytes of the buffer to the playback backend and
    /// return only once the backend reports that playback has finished.
    Play { len: usize },
}

/// The buffer after each write of `ws` in turn was appended to `b`.
pub open spec fn written_all(b: Seq<u8>, ws: Seq<Seq<u8>>) -> Seq<u8>
    decreases ws.len(),
{
    if ws.len() == 0 {
        b
    } else {
        written_all(b, ws.drop_last()) + ws.last()
    }
}

/// The number of bytes in all the writes of `ws` together.
pub open spec fn total_len(ws: Seq<Seq<u8>>) -> nat
    decreases ws.len(),
{
    if ws.len() == 0 {
        0
    } else {
        total_len(ws.drop_last()) + ws.last().len()
    }
}

/// Writes accumulate: after a reset, a series of writes leaves in the buffer
/// exactly their bytes one after the other, so its length is the sum of
/// their lengths; on a buffer that already held `b`, the same bytes follow `b`.
pub proof fn lemma_writes_accumulate(b: Seq<u8>, ws: Seq<Seq<u8>>)
    ensures
        written_all(b, ws) == b + written_all(Seq::empty(), ws),
        written_all(Seq::empty(), ws).len() == total_len(ws),
    decreases ws.len(),
{
    if ws.len() > 0 {
        lemma_writes_accumulate(b, ws.drop_last());
        assert(b + written_all(Seq::empty(), ws.drop_last()) + ws.last()
            =~= b + (written_all(Seq::empty(), ws.drop_last()) + ws.last()));
    } else {
        assert(b + Seq::<u8>::empty() =~= b);
    }
}

/// Audio sink: an append-only byte buffer, played on request.
pub struct Dsp {
    buf: Vec<u8>,
}

impl View for Dsp {
    type V = Seq<u8>;

    closed spec fn view(&self) -> Seq<u8> {
        self.buf@
    }
}

impl Default for Dsp {
    fn default() -> (r: Self)
        ensures
            r@ == Seq::<u8>::empty(),
    {
        Dsp::new()
    }
}

impl Dsp {
    /// A sink with an empty buffer.
    pub fn new() -> (r: Self)
        ensures
            r@ == Seq::<u8>::empty(),
    {
        Dsp { buf: Vec::new() }
    }

    /// The bytes buffered so far.
    pub fn samples(&self) -> (r: &[u8])
        ensures
            r@ == self@,
    {
        self.buf.as_slice()
    }

    /// The number of bytes buffered so far.
    pub fn len(&self) -> (r: usize)
        ensures
            r == self@.len(),
    {
        self.buf.len()
    }

    /// Appends all of `buf` to the buffer, whatever the offset, and
    /// reports every byte written.
    pub fn write_at(&mut self, _offset: usize, buf: &[u8]) -> (r: usize)
        requires
            old(self)@.len() + buf@.len() <= usize::MAX,
        ensures
            final(self)@ == old(self)@ + buf@,
            r == buf@.len(),
    {
        let mut i: usize = 0;
        while i < buf.len()
            invariant
                i <= buf@.len(),
                self@ == old(self)@ + buf@.subrange(0, i as int),
            decreases buf@.len() - i,
        {
            self.buf.push(buf[i]);
            assert(buf@.subrange(0, i as int).push(buf@[i as int]) =~= buf@.subrange(0, i + 1));
            i = i + 1;
        }
        assert(buf@.subrange(0, buf@.len() as int) =~= buf@);
        buf.len()
    }

    /// Carries out a control request: `DSP_RESET` empties the buffer,
    /// `DSP_PLAY` asks the caller to play the whole buffer, which it keeps,
    /// and any other request succeeds with no effect.
    pub fn ioctl(&mut self, request: u32) -> (r: DspAction)
        ensures
            request == DSP_RESET ==> final(self)@ == Seq::<u8>::empty() && r == DspAction::Done,
            request == DSP_PLAY ==> final(self)@ == old(self)@
                && r == (DspAction::Play { len: old(self)@.len() as usize }),
            request != DSP_RESET && request != DSP_PLAY ==> final(self)@ == old(self)@
                && r == DspAction::Done,
    {
        if request == DSP_RESET {
            self.buf.clear();
            DspAction::Done
        } else if request == DSP_PLAY {
            DspAction::Play { len: self.buf.len() }
        } else {
            DspAction::Done
        }
    }
}

impl DeviceNode for Dsp {}

} // verus!
