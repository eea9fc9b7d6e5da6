//! The decisions of video playback: how the decoder loop proceeds, how decoded
//! rows are packed into an RGBA frame, how interleaved stereo samples are
//! paired, which channel layout a stream without one gets, and the bounded
//! sample queue between the decoder and the audio callback.
//!
//! Audio leaves the decoder as stereo at 48 kHz.

use vstd::prelude::*;
use std::collections::VecDeque;

verus! {

pub const AUDIO_SR: u32 = 48_000;
pub const AUDIO_CH: u32 = 2;

/// Samples the queue holds: half a second.
pub const AUDIO_RING_CAPACITY: usize = 24_000;

/// The decoder pauses reading while the queue holds more than this many
/// samples (0.3 s).
pub const AUDIO_BACKLOG_LIMIT: usize = 14_400;

/// A first-in first-out queue of samples that holds at most `capacity` of them;
/// samples pushed beyond that are dropped.
pub struct AudioRing<T> {
    buf: VecDeque<T>,
    capacity: usize,
}

impl<T> View for AudioRing<T> {
    type V = Seq<T>;

    closed spec fn view(&self) -> Seq<T> {
        self.buf@
    }
}

/// How many of `n` pushed samples fit in a queue of `len` with room for `cap`.
pub open spec fn accepted(len: int, cap: int, n: int) -> int {
    if len >= cap {
        0
    } else if cap - len < n {
        cap - len
    } else {
        n
    }
}

impl<T: Copy> AudioRing<T> {
    pub closed spec fn capacity(&self) -> nat {
        self.capacity as nat
    }

    pub fn new(capacity_samples: usize) -> (r: Self)
        ensures
            r@ == Seq::<T>::empty(),
            r.capacity() == capacity_samples,
    {
        AudioRing { buf: VecDeque::with_capacity(capacity_samples), capacity: capacity_samples }
    }

    /// Appends the samples in order while there is room; the rest are dropped.
    pub fn push(&mut self, samples: &[T])
        ensures
            final(self).capacity() == old(self).capacity(),
            final(self)@ == old(self)@ + samples@.take(
                accepted(old(self)@.len() as int, old(self).capacity() as int, samples@.len() as int),
            ),
            old(self)@.len() <= old(self).capacity() ==> final(self)@.len() <= final(self).capacity(),
    {
        let n = samples.len();
        let mut i: usize = 0;
        while i < n
            invariant
                n == samples@.len(),
                i <= n,
                self.capacity == old(self).capacity,
                self.buf@ == old(self)@ + samples@.take(
                    accepted(old(self)@.len() as int, self.capacity as int, i as int),
                ),
            decreases n - i,
        {
            if self.buf.len() < self.capacity {
                self.buf.push_back(samples[i]);
            }
            assert(samples@.take(accepted(old(self)@.len() as int, self.capacity as int, i + 1))
                =~= if accepted(old(self)@.len() as int, self.capacity as int, i + 1) > accepted(
                old(self)@.len() as int,
                self.capacity as int,
                i as int,
            ) {
                samples@.take(accepted(old(self)@.len() as int, self.capacity as int, i as int)).push(
                    samples@[i as int],
                )
            } else {
                samples@.take(accepted(old(self)@.len() as int, self.capacity as int, i as int))
            });
            i = i + 1;
        }
    }

    pub fn len(&self) -> (r: usize)
        ensures
            r == self@.len(),
    {
        self.buf.len()
    }

    /// Takes the oldest sample, if any.
    pub fn pop_front(&mut self) -> (r: Option<T>)
        ensures
            final(self).capacity() == old(self).capacity(),
            old(self)@.len() == 0 ==> r is None && final(self)@ == old(self)@,
            old(self)@.len() > 0 ==> r == Some(old(self)@[0]) && final(self)@ == old(self)@.drop_first(),
    {
        self.buf.pop_front()
    }
}


/// The channel layout given to decoded audio that carries none (as .mov
/// linear PCM can): mono for one channel, stereo for two, the default layout
/// of `n` channels for more, stereo when the count is 0.
#[derive(Debug, Clone, Copy, PartialEq, Eq, Structural)]
pub enum ChannelLayoutChoice {
    Mono,
    Stereo,
    DefaultFor(u32),
}

pub fn infer_channel_layout(channels: u32) -> (r: ChannelLayoutChoice)
    ensures
        r == if channels == 1 {
            ChannelLayoutChoice::Mono
        } else if channels == 2 || channels == 0 {
            ChannelLayoutChoice::Stereo
        } else {
            ChannelLayoutChoice::DefaultFor(channels)
        },
{
    match channels {
        1 => ChannelLayoutChoice::Mono,
        2 => ChannelLayoutChoice::Stereo,
        n if n > 2 => ChannelLayoutChoice::DefaultFor(n),
        _ => ChannelLayoutChoice::Stereo,
    }
}

/// What the decoder loop does before it reads the next packet.
#[derive(Debug, Clone, Copy, PartialEq, Eq, Structural)]
pub enum DecodeGate {
    /// Playback was stopped: leave the loop.
    Stop,
    /// Playback is paused: wait until it resumes, then look again.
    WaitWhilePaused,
    /// The audio queue is full enough: sleep briefly, then look again.
    Throttle,
    /// Read the next packet.
    ReadPacket,
}

/// Stop wins over pause, pause over a full audio queue.
pub fn decode_gate(stopped: bool, paused: bool, audio_queued: usize) -> (r: DecodeGate)
    ensures
        r == if stopped {
            DecodeGate::Stop
        } else if paused {
            DecodeGate::WaitWhilePaused
        } else if audio_queued > AUDIO_BACKLOG_LIMIT {
            DecodeGate::Throttle
        } else {
            DecodeGate::ReadPacket
        },
{
    if stopped {
        DecodeGate::Stop
    } else if paused {
        DecodeGate::WaitWhilePaused
    } else if audio_queued > AUDIO_BACKLOG_LIMIT {
        DecodeGate::Throttle
    } else {
        DecodeGate::ReadPacket
    }
}

/// Where a packet read from the file goes.
#[derive(Debug, Clone, Copy, PartialEq, Eq, Structural)]
pub enum PacketRoute {
    /// No packet is left: flush both decoders, mark the end, leave the loop.
    EndOfFile,
    /// The packet belongs to the video stream.
    Video,
    /// The packet belongs to the audio stream.
    Audio,
    /// The packet belongs to another stream and is skipped.
    Skip,
}

/// Routes the packet of stream `stream` (`None`: the file is exhausted).
pub fn route_packet(stream: Option<usize>, video_idx: usize, audio_idx: Option<usize>) -> (r:
    PacketRoute)
    ensures
        r == match stream {
            None => PacketRoute::EndOfFile,
            Some(i) => if i == video_idx {
                PacketRoute::Video
            } else if audio_idx == Some(i) {
                PacketRoute::Audio
            } else {
                PacketRoute::Skip
            },
        },
{
    match stream {
        None => PacketRoute::EndOfFile,
        Some(i) => {
            if i == video_idx {
                PacketRoute::Video
            } else {
                match audio_idx {
                    Some(a) if a == i => PacketRoute::Audio,
                    _ => PacketRoute::Skip,
                }
            }
        },
    }
}

/// The first `h` rows of `row` bytes each, taken `stride` bytes apart.
pub open spec fn packed_rows(data: Seq<u8>, stride: int, row: int, h: nat) -> Seq<u8>
    decreases h,
{
    if h == 0 {
        Seq::empty()
    } else {
        packed_rows(data, stride, row, (h - 1) as nat) + data.subrange(
            (h - 1) * stride,
            (h - 1) * stride + row,
        )
    }
}

/// Whether `h` rows of `row` bytes, `stride` apart, lie inside `len` bytes.
pub open spec fn rows_fit(len: int, stride: int, row: int, h: int) -> bool {
    h == 0 || (h - 1) * stride + row <= len
}

proof fn lemma_rows_fit_less(len: int, stride: int, row: int, h: int, y: int)
    requires
        rows_fit(len, stride, row, h),
        0 <= y < h,
        stride >= 0,
        row >= 0,
    ensures
        y * stride + row <= len,
{
    assert(y * stride <= (h - 1) * stride) by (nonlinear_arith)
        requires
            0 <= y <= h - 1,
            stride >= 0,
    ;
}

/// Packs a decoded frame whose rows lie `stride` bytes apart into tightly
/// packed RGBA rows of `width * 4` bytes; when the stride already equals the
/// row size, the bytes are copied in one piece.
pub fn pack_rgba_rows(data: &[u8], stride: usize, width: u32, height: u32) -> (r: Vec<u8>)
    requires
        width * 4 <= u32::MAX,
        rows_fit(data@.len() as int, stride as int, width * 4, height as int),
    ensures
        r@ == packed_rows(data@, stride as int, width * 4, height as nat),
{
    let row_bytes = (width * 4) as usize;
    let h = height as usize;
    let len = data.len();
    if stride == row_bytes {
        let total = if h == 0 {
            0
        } else {
            proof {
                lemma_rows_fit_less(len as int, stride as int, row_bytes as int, h as int, h - 1);
                assert((h - 1) * row_bytes + row_bytes == row_bytes * h) by (nonlinear_arith)
                    requires
                        h >= 1,
                ;
            }
            row_bytes * h
        };
        let out = vstd::slice::slice_to_vec(vstd::slice::slice_subrange(data, 0, total));
        proof {
            lemma_packed_contiguous(data@, row_bytes as int, h as nat);
        }
        return out;
    }
    let mut packed: Vec<u8> = Vec::new();
    let mut y: usize = 0;
    while y < h
        invariant
            h == height,
            row_bytes == width * 4,
            len == data@.len(),
            y <= h,
            rows_fit(len as int, stride as int, row_bytes as int, h as int),
            packed@ == packed_rows(data@, stride as int, row_bytes as int, y as nat),
        decreases h - y,
    {
        proof {
            lemma_rows_fit_less(len as int, stride as int, row_bytes as int, h as int, y as int);
        }
        let s = y * stride;
        let row = vstd::slice::slice_subrange(data, s, s + row_bytes);
        let mut x: usize = 0;
        let ghost before = packed@;
        while x < row_bytes
            invariant
                row@ == data@.subrange(s as int, s + row_bytes),
                row_bytes == row@.len(),
                x <= row_bytes,
                packed@ == before + row@.take(x as int),
            decreases row_bytes - x,
        {
            packed.push(row[x]);
            assert(row@.take(x + 1) =~= row@.take(x as int).push(row@[x as int]));
            x = x + 1;
        }
        assert(row@.take(row_bytes as int) =~= row@);
        y = y + 1;
    }
    packed
}

/// With the stride equal to the row size, the packed rows are the first
/// `h * row` bytes as they stand.
pub proof fn lemma_packed_contiguous(data: Seq<u8>, row: int, h: nat)
    requires
        row >= 0,
        h * row <= data.len(),
    ensures
        packed_rows(data, row, row, h) == data.subrange(0, h * row),
    decreases h,
{
    if h > 0 {
        assert((h - 1) * row + row == h * row) by (nonlinear_arith)
            requires
                h >= 1,
        ;
        assert((h - 1) * row <= h * row) by (nonlinear_arith)
            requires
                h >= 1,
                row >= 0,
        ;
        lemma_packed_contiguous(data, row, (h - 1) as nat);
        assert(packed_rows(data, row, row, h) == packed_rows(data, row, row, (h - 1) as nat)
            + data.subrange((h - 1) * row, (h - 1) * row + row));
        assert(data.subrange(0, h * row) =~= data.subrange(0, (h - 1) * row) + data.subrange(
            (h - 1) * row,
            (h - 1) * row + row,
        ));
        assert(packed_rows(data, row, row, h) == data.subrange(0, h * row));
    } else {
        assert(h * row == 0) by (nonlinear_arith)
            requires
                h == 0,
        ;
        assert(data.subrange(0, 0) =~= Seq::<u8>::empty());
    }
}

/// Byte `x` of packed row `y` is byte `x` of source row `y`, which starts
/// `y * stride` bytes into the decoded data; the packed frame holds `h` rows
/// of `row` bytes.
pub proof fn lemma_packed_rows_index(data: Seq<u8>, stride: int, row: int, h: nat)
    requires
        stride >= 0,
        row >= 0,
        rows_fit(data.len() as int, stride, row, h as int),
    ensures
        packed_rows(data, stride, row, h).len() == h * row,
        forall|y: int, x: int|
            0 <= y < h && 0 <= x < row ==> #[trigger] packed_rows(data, stride, row, h)[y * row + x]
                == data[y * stride + x],
    decreases h,
{
    if h > 0 {
        let prev = packed_rows(data, stride, row, (h - 1) as nat);
        if h > 1 {
            assert((h - 2) * stride + row <= (h - 1) * stride + row) by (nonlinear_arith)
                requires
                    h >= 2,
                    stride >= 0,
            ;
        }
        lemma_packed_rows_index(data, stride, row, (h - 1) as nat);
        assert(0 <= (h - 1) * stride) by (nonlinear_arith)
            requires
                h >= 1,
                stride >= 0,
        ;
        assert((h - 1) * row + row == h * row) by (nonlinear_arith)
            requires
                h >= 1,
        ;
        assert forall|y: int, x: int| 0 <= y < h && 0 <= x < row implies #[trigger] packed_rows(
            data,
            stride,
            row,
            h,
        )[y * row + x] == data[y * stride + x] by {
            if y < h - 1 {
                assert(y * row + x < (h - 1) * row) by (nonlinear_arith)
                    requires
                        0 <= y < h - 1,
                        0 <= x < row,
                ;
                assert(0 <= y * row + x) by (nonlinear_arith)
                    requires
                        0 <= y,
                        0 <= x,
                        row >= 0,
                ;
            } else {
                assert(y * row + x - (h - 1) * row == x) by (nonlinear_arith)
                    requires
                        y == h - 1,
                ;
                assert(y * stride == (h - 1) * stride);
            }
        }
    } else {
        assert(h * row == 0) by (nonlinear_arith)
            requires
                h == 0,
        ;
    }
}

/// Pairs the first `n` frames of interleaved stereo samples (L R L R ...).
pub fn pair_interleaved<T: Copy>(samples: &[T], n: usize) -> (r: Vec<(T, T)>)
    requires
        2 * n <= samples@.len(),
    ensures
        r@.len() == n,
        forall|i: int| 0 <= i < n ==> #[trigger] r@[i] == (samples@[2 * i], samples@[2 * i + 1]),
{
    let len = samples.len();
    let mut pairs: Vec<(T, T)> = Vec::new();
    let mut i: usize = 0;
    while i < n
        invariant
            len == samples@.len(),
            2 * n <= samples@.len(),
            i <= n,
            pairs@.len() == i,
            forall|k: int| 0 <= k < i ==> #[trigger] pairs@[k] == (samples@[2 * k], samples@[2 * k + 1]),
        decreases n - i,
    {
        pairs.push((samples[i * 2], samples[i * 2 + 1]));
        i = i + 1;
    }
    pairs
}

} // verus!
