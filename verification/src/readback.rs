//! Pipelined readback of rendered frames.
//!
//! A frame is rendered to an offscreen texture and copied into a buffer; its pixels are collected
//! later, while the next frame is being rendered. Buffers are known here by number, and are used
//! again once their frame has been delivered.
use vstd::prelude::*;
use crate::encode::ffmpeg_cli::frame_len;
use crate::error::RenderError;
use std::collections::VecDeque;

verus! {

/// `wgpu::COPY_BYTES_PER_ROW_ALIGNMENT`: in a copy from a texture to a buffer, the distance from
/// one row to the next is a multiple of 256 bytes.
#[verifier::external_body]
fn copy_alignment() -> (alignment: u32)
    ensures
        alignment == 256,
{
    wgpu::COPY_BYTES_PER_ROW_ALIGNMENT
}

/// The smallest multiple of 256 bytes that holds a row of RGBA pixels.
pub open spec fn padded_row(width: u32) -> int {
    (width * 4 + 255) / 256 * 256
}

/// The distance from one row of a frame to the next in a readback buffer.
pub fn padded_bytes_per_row(width: u32) -> (bytes: u32)
    requires
        padded_row(width) <= u32::MAX,
    ensures
        bytes == padded_row(width),
        bytes % 256 == 0,
        width * 4 <= bytes < width * 4 + 256,
{
    let alignment = copy_alignment();
    let row: u32 = width * 4;
    let rows: u32 = row / alignment + (if row % alignment == 0 {
        0u32
    } else {
        1u32
    });
    rows * alignment
}

/// The first `row_len` bytes of every whole stretch of `stride` bytes.
pub open spec fn unpadded(data: Seq<u8>, row_len: nat, stride: nat) -> Seq<u8>
    decreases data.len(),
{
    if stride == 0 || data.len() < stride {
        Seq::empty()
    } else {
        data.take(row_len as int) + unpadded(data.skip(stride as int), row_len, stride)
    }
}

/// Strips the padding of the rows of a readback buffer into a tightly packed frame. Bytes at the
/// end that do not make up a whole row are ignored.
pub fn strip_row_padding(data: &[u8], width: u32, padded_bytes_per_row: u32) -> (pixels: Vec<u8>)
    requires
        0 < padded_bytes_per_row,
        width * 4 <= padded_bytes_per_row,
    ensures
        pixels@ == unpadded(data@, (width * 4) as nat, padded_bytes_per_row as nat),
{
    let stride: usize = padded_bytes_per_row as usize;
    let row_len: usize = width as usize * 4;
    let mut pixels: Vec<u8> = Vec::new();
    let mut at: usize = 0;
    let ghost whole = unpadded(data@, row_len as nat, stride as nat);
    assert(data@.skip(0) == data@);
    while data.len() - at >= stride
        invariant
            at <= data.len(),
            0 < stride,
            row_len <= stride,
            whole == unpadded(data@, row_len as nat, stride as nat),
            pixels@ + unpadded(data@.skip(at as int), row_len as nat, stride as nat) == whole,
        decreases data.len() - at,
    {
        let ghost rest = data@.skip(at as int);
        let mut column: usize = 0;
        let ghost before = pixels@;
        while column < row_len
            invariant
                column <= row_len <= stride,
                at + stride <= data.len(),
                rest == data@.skip(at as int),
                pixels@ == before + rest.take(column as int),
            decreases row_len - column,
        {
            let byte: u8 = data[at + column];
            assert(rest.take(column + 1) == rest.take(column as int).push(byte));
            pixels.push(byte);
            column = column + 1;
        }
        assert(rest.skip(stride as int) == data@.skip(at + stride));
        at = at + stride;
    }
    assert(pixels@ == whole);
    pixels
}

/// A buffer with one padded row for each row of the frame gives a frame of exactly the length that
/// the encoder expects.
pub proof fn stripped_frame_has_frame_length(data: Seq<u8>, width: u32, height: u32)
    requires
        data.len() == padded_row(width) * height,
        width > 0,
    ensures
        unpadded(data, (width * 4) as nat, padded_row(width) as nat).len() == frame_len(
            width,
            height,
        ),
{
    let stride = padded_row(width) as nat;
    lemma_unpadded_len(data, (width * 4) as nat, stride, height as nat);
    assert(height * (width * 4) == width * height * 4) by (nonlinear_arith);
}

proof fn lemma_unpadded_len(data: Seq<u8>, row_len: nat, stride: nat, rows: nat)
    requires
        0 < stride,
        row_len <= stride,
        data.len() == stride * rows,
    ensures
        unpadded(data, row_len, stride).len() == rows * row_len,
    decreases rows,
{
    if rows > 0 {
        assert(stride * rows == stride * (rows - 1) + stride) by (nonlinear_arith)
            requires
                rows > 0,
        ;
        assert(stride * (rows - 1) >= 0) by (nonlinear_arith)
            requires
                rows > 0,
        ;
        assert(rows * row_len == (rows - 1) * row_len + row_len) by (nonlinear_arith)
            requires
                rows > 0,
        ;
        lemma_unpadded_len(data.skip(stride as int), row_len, stride, (rows - 1) as nat);
    } else {
        assert(stride * rows == 0) by (nonlinear_arith)
            requires
                rows == 0,
        ;
        assert(rows * row_len == 0) by (nonlinear_arith)
            requires
                rows == 0,
        ;
    }
}

/// Every byte of a frame comes from its place in the buffer: column `c` of row `r` of the pixels is
/// column `c` of the `r`-th padded row.
pub proof fn stripping_keeps_every_pixel(
    data: Seq<u8>,
    row_len: nat,
    stride: nat,
    rows: nat,
    r: int,
    c: int,
)
    requires
        0 < row_len <= stride,
        data.len() == stride * rows,
        0 <= r < rows,
        0 <= c < row_len,
    ensures
        0 <= r * row_len + c < unpadded(data, row_len, stride).len(),
        unpadded(data, row_len, stride)[r * row_len + c] == data[r * stride + c],
    decreases rows,
{
    lemma_unpadded_len(data, row_len, stride, rows);
    assert(stride * rows == stride * (rows - 1) + stride) by (nonlinear_arith)
        requires
            rows > 0,
    ;
    assert(stride * (rows - 1) >= 0) by (nonlinear_arith)
        requires
            rows > 0,
    ;
    assert(r * row_len + c < rows * row_len) by (nonlinear_arith)
        requires
            0 <= r < rows,
            0 <= c < row_len,
    ;
    assert(r * row_len >= 0) by (nonlinear_arith)
        requires
            0 <= r,
            0 <= row_len,
    ;
    if r == 0 {
        assert(r * row_len == 0 && r * stride == 0);
    } else {
        let rest = data.skip(stride as int);
        stripping_keeps_every_pixel(rest, row_len, stride, (rows - 1) as nat, r - 1, c);
        assert(r * row_len == (r - 1) * row_len + row_len) by (nonlinear_arith);
        assert(r * stride == (r - 1) * stride + stride) by (nonlinear_arith);
        assert((r - 1) * stride >= 0) by (nonlinear_arith)
            requires
                0 < r,
        ;
        assert((r - 1) * stride + c < data.len() - stride) by (nonlinear_arith)
            requires
                0 < r < rows,
                0 <= c < stride,
                data.len() == stride * rows,
        ;
        assert((r - 1) * row_len >= 0) by (nonlinear_arith)
            requires
                0 < r,
                0 <= row_len,
        ;
        assert(rest[(r - 1) * stride + c] == data[r * stride + c]);
    }
}

/// One copy of a rendered frame that is on its way from the texture to a buffer.
#[derive(Debug, Clone, Copy, PartialEq, Eq, Structural)]
pub struct PendingFrame {
    /// The number of the buffer.
    pub buffer: u64,
    pub width: u32,
    pub height: u32,
    pub padded_bytes_per_row: u32,
}

/// How to capture a frame.
#[derive(Debug, Clone, Copy, PartialEq, Eq, Structural)]
pub struct CapturePlan {
    /// Does a texture of the frame's size have to be created first? The spare buffers are then of
    /// no use any more.
    pub new_texture: bool,
    /// Does the buffer have to be created first?
    pub new_buffer: bool,
    /// How many bytes the buffer has.
    pub buffer_size: u64,
    /// Which buffer the frame is copied to, and how.
    pub frame: PendingFrame,
}

/// Those of the first frames that were handed on, in order, given for each whether it was.
pub open spec fn kept_frames(frames: Seq<PendingFrame>, outcomes: Seq<bool>) -> Seq<PendingFrame>
    decreases outcomes.len(),
{
    if outcomes.len() == 0 {
        Seq::empty()
    } else {
        let before = kept_frames(frames, outcomes.drop_last());
        if outcomes.last() {
            before.push(frames[outcomes.len() - 1])
        } else {
            before
        }
    }
}

/// Were all of them handed on?
pub open spec fn none_discarded(outcomes: Seq<bool>) -> bool {
    forall|i: int| 0 <= i < outcomes.len() ==> #[trigger] outcomes[i]
}

/// The bookkeeping of a capture pipeline.
pub struct FrameCapture {
    /// Size of the offscreen texture, which is created again when the surface size changes.
    texture: Option<(u32, u32)>,
    /// Buffers not currently in use, all sized for the texture.
    spare_buffers: Vec<u64>,
    /// Copies on their way, oldest first.
    pending: VecDeque<PendingFrame>,
    /// The frame whose pixels are being collected.
    collecting: Option<PendingFrame>,
    /// Dimensions of the frame delivered last.
    last_dims: (u32, u32),
    /// The number of the next buffer to be created.
    next_buffer: u64,
    captured: Ghost<Seq<PendingFrame>>,
    outcomes: Ghost<Seq<bool>>,
    sizes: Ghost<Map<u64, (u32, u32)>>,
}

/// Was the capture of a frame of the given size planned, and nothing else done?
pub open spec fn capture_begun(
    before: &FrameCapture,
    after: &FrameCapture,
    width: u32,
    height: u32,
    res: Result<CapturePlan, RenderError>,
) -> bool {
    &&& after.taken() == before.taken()
    &&& after.outcomes() == before.outcomes()
    &&& after.handed_on() == before.handed_on()
    &&& after.spec_last_dims() == before.spec_last_dims()
    &&& after.spec_collecting() == before.spec_collecting()
    &&& width == 0 || height == 0 ==> {
        &&& res matches Err(RenderError::EmptySurface)
        &&& *after == *before
    }
    &&& width > 0 && height > 0 ==> {
        &&& res matches Ok(plan)
        &&& plan.frame.width == width
        &&& plan.frame.height == height
        &&& plan.frame.padded_bytes_per_row == padded_row(width)
        &&& plan.buffer_size == padded_row(width) * height
        &&& plan.new_texture <==> before.spec_texture() != Some((width, height))
        &&& after.spec_texture() == Some((width, height))
        &&& after.captured() == before.captured().push(plan.frame)
        &&& !before.in_use(plan.frame.buffer)
        &&& plan.new_buffer <==> plan.new_texture || before.spare().len() == 0
        &&& if plan.new_buffer {
            &&& !before.sizes().dom().contains(plan.frame.buffer)
            &&& after.sizes() == before.sizes().insert(
                plan.frame.buffer,
                (width, height),
            )
            &&& after.spare() == Seq::<u64>::empty()
            &&& after.buffers_created() == before.buffers_created() + 1
        } else {
            &&& plan.frame.buffer == before.spare().last()
            &&& before.sizes()[plan.frame.buffer] == (width, height)
            &&& after.sizes() == before.sizes()
            &&& after.spare() == before.spare().drop_last()
            &&& after.buffers_created() == before.buffers_created()
        }
    }
}

/// Was the oldest frame on its way taken out, if there were too many, and nothing else done?
pub open spec fn frame_taken(
    before: &FrameCapture,
    after: &FrameCapture,
    max_in_flight: usize,
    frame: Option<PendingFrame>,
) -> bool {
    &&& after.captured() == before.captured()
    &&& after.outcomes() == before.outcomes()
    &&& after.handed_on() == before.handed_on()
    &&& after.sizes() == before.sizes()
    &&& after.spare() == before.spare()
    &&& after.spec_texture() == before.spec_texture()
    &&& after.spec_last_dims() == before.spec_last_dims()
    &&& after.buffers_created() == before.buffers_created()
    &&& after.spec_collecting() == frame
    &&& match frame {
        None => {
            &&& before.captured().len() - before.taken() <= max_in_flight
            &&& after.taken() == before.taken()
        },
        Some(frame) => {
            &&& before.captured().len() - before.taken() > max_in_flight
            &&& frame == before.captured()[before.taken()]
            &&& after.taken() == before.taken() + 1
            &&& frame.width > 0
            &&& frame.height > 0
            &&& frame.padded_bytes_per_row == padded_row(frame.width)
            &&& before.sizes()[frame.buffer] == (frame.width, frame.height)
        },
    }
}

/// Was the frame being collected handed on, and nothing else done?
pub open spec fn frame_delivered(
    before: &FrameCapture,
    after: &FrameCapture,
    kept: bool,
) -> bool {
    &&& after.captured() == before.captured()
    &&& after.taken() == before.taken()
    &&& after.sizes() == before.sizes()
    &&& after.spec_texture() == before.spec_texture()
    &&& after.buffers_created() == before.buffers_created()
    &&& after.spec_collecting() is None
    &&& before.spec_collecting() matches Some(frame) ==> {
        &&& after.outcomes() == before.outcomes().push(true)
        &&& after.handed_on() == before.handed_on().push(frame)
        &&& after.spec_last_dims() == (frame.width, frame.height)
        &&& kept == (before.spec_texture() == Some((frame.width, frame.height)))
        &&& after.spare() == if kept {
            before.spare().push(frame.buffer)
        } else {
            before.spare()
        }
    }
}

/// Was the frame being collected given up, and nothing else done?
pub open spec fn frame_discarded(before: &FrameCapture, after: &FrameCapture) -> bool {
    &&& after.captured() == before.captured()
    &&& after.taken() == before.taken()
    &&& after.outcomes() == before.outcomes().push(false)
    &&& after.handed_on() == before.handed_on()
    &&& after.sizes() == before.sizes()
    &&& after.spare() == before.spare()
    &&& after.spec_texture() == before.spec_texture()
    &&& after.spec_last_dims() == before.spec_last_dims()
    &&& after.buffers_created() == before.buffers_created()
    &&& after.spec_collecting() is None
}

impl FrameCapture {
    /// Every frame captured so far, in order.
    pub closed spec fn captured(&self) -> Seq<PendingFrame> {
        self.captured@
    }

    /// How many of the captured frames have been taken out for collection.
    pub closed spec fn taken(&self) -> int {
        self.captured@.len() - self.pending@.len()
    }

    /// For each of the first captured frames, whether it was handed on or discarded.
    pub closed spec fn outcomes(&self) -> Seq<bool> {
        self.outcomes@
    }

    /// The frames that have been handed on, in order.
    pub open spec fn handed_on(&self) -> Seq<PendingFrame> {
        kept_frames(self.captured(), self.outcomes())
    }

    /// For each buffer that was ever created, the frame size it was created for.
    pub closed spec fn sizes(&self) -> Map<u64, (u32, u32)> {
        self.sizes@
    }

    /// The buffers that are free to be used again.
    pub closed spec fn spare(&self) -> Seq<u64> {
        self.spare_buffers@
    }

    /// Size of the texture.
    pub closed spec fn spec_texture(&self) -> Option<(u32, u32)> {
        self.texture
    }

    /// The frame whose pixels are being collected.
    pub closed spec fn spec_collecting(&self) -> Option<PendingFrame> {
        self.collecting
    }

    pub closed spec fn spec_last_dims(&self) -> (u32, u32) {
        self.last_dims
    }

    /// How many buffers have been created.
    pub closed spec fn buffers_created(&self) -> u64 {
        self.next_buffer
    }

    /// Is the buffer free, or in use for a frame?
    spec fn known(&self, buffer: u64) -> bool {
        buffer < self.next_buffer && self.sizes@.dom().contains(buffer)
    }

    /// Is this a frame that was captured as planned, to a buffer made for its size?
    spec fn sound(&self, frame: PendingFrame) -> bool {
        &&& frame.width > 0
        &&& frame.height > 0
        &&& frame.padded_bytes_per_row == padded_row(frame.width)
        &&& self.known(frame.buffer)
        &&& self.sizes@[frame.buffer] == (frame.width, frame.height)
    }

    /// What is pending are the frames captured last, and it is known what became of those before them,
    /// but for the one that is being collected. No buffer is in use twice, and a buffer holds frames of
    /// the size that it was made for; the spare ones were made for the texture's size.
    pub closed spec fn well_formed(&self) -> bool {
        &&& match self.collecting {
            None => self.outcomes@.len() == self.taken(),
            Some(frame) => {
                &&& self.taken() > 0
                &&& self.outcomes@.len() == self.taken() - 1
                &&& frame == self.captured@[self.taken() - 1]
            },
        }
        &&& self.pending@.len() <= self.captured@.len()
        &&& self.pending@ == self.captured@.skip(self.captured@.len() - self.pending@.len())
        &&& forall|b: u64| self.sizes@.dom().contains(b) <==> b < self.next_buffer
        &&& forall|i: int|
            0 <= i < self.spare_buffers@.len() ==> self.known(#[trigger] self.spare_buffers@[i])
                && self.texture == Some(self.sizes@[self.spare_buffers@[i]])
        &&& forall|i: int| 0 <= i < self.pending@.len() ==> self.sound(#[trigger] self.pending@[i])
        &&& self.collecting matches Some(frame) ==> self.sound(frame)
        &&& forall|i: int, j: int|
            0 <= i < j < self.spare_buffers@.len() ==> #[trigger] self.spare_buffers@[i]
                != #[trigger] self.spare_buffers@[j]
        &&& forall|i: int, j: int|
            0 <= i < j < self.pending@.len() ==> (#[trigger] self.pending@[i]).buffer != (
            #[trigger] self.pending@[j]).buffer
        &&& forall|i: int, j: int|
            0 <= i < self.spare_buffers@.len() && 0 <= j < self.pending@.len()
                ==> #[trigger] self.spare_buffers@[i] != (#[trigger] self.pending@[j]).buffer
        &&& self.collecting matches Some(frame) ==> {
            &&& forall|i: int|
                0 <= i < self.spare_buffers@.len() ==> #[trigger] self.spare_buffers@[i]
                    != frame.buffer
            &&& forall|i: int|
                0 <= i < self.pending@.len() ==> (#[trigger] self.pending@[i]).buffer
                    != frame.buffer
        }
    }

    /// Is the buffer in use for a frame that has not been delivered yet?
    pub open spec fn in_use(&self, buffer: u64) -> bool {
        ||| exists|i: int|
            self.taken() <= i < self.captured().len() && (#[trigger] self.captured()[i]).buffer
                == buffer
        ||| self.spec_collecting() matches Some(frame) && frame.buffer == buffer
    }

    /// The spare buffers were all made for the size of the texture, and none of them is in use.
    pub proof fn spare_buffers_fit_the_texture(&self, i: int)
        requires
            self.well_formed(),
            0 <= i < self.spare().len(),
        ensures
            self.spec_texture() == Some(self.sizes()[self.spare()[i]]),
            !self.in_use(self.spare()[i]),
    {
        let buffer = self.spare()[i];
        if exists|k: int|
            self.taken() <= k < self.captured().len() && (#[trigger] self.captured()[k]).buffer
                == buffer {
            let k = choose|k: int|
                self.taken() <= k < self.captured().len() && (#[trigger] self.captured()[k]).buffer
                    == buffer;
            assert(self.pending@[k - self.taken()] == self.captured@[k]);
        }
    }

    /// Every frame on its way is copied to a buffer made for its size, and no two of them share one.
    pub proof fn frames_in_flight_have_their_own_buffers(&self, i: int, j: int)
        requires
            self.well_formed(),
            self.taken() <= i < j < self.captured().len(),
        ensures
            self.captured()[i].buffer != self.captured()[j].buffer,
            self.sizes()[self.captured()[i].buffer] == (
                self.captured()[i].width,
                self.captured()[i].height,
            ),
    {
        assert(self.pending@[i - self.taken()] == self.captured@[i]);
        assert(self.pending@[j - self.taken()] == self.captured@[j]);
        assert(self.sound(self.pending@[i - self.taken()]));
    }

    /// Frames are handed on in the order in which they were captured, and none twice: the frames
    /// handed on are those of the first captured ones that were not discarded. As long as none is
    /// discarded they are all of them, and once no frame is on its way or being collected, every
    /// captured one has been handed on.
    pub proof fn frames_are_handed_on_in_order(&self)
        requires
            self.well_formed(),
        ensures
            0 <= self.taken() <= self.captured().len(),
            self.outcomes().len() == self.taken() - (if self.spec_collecting() is Some {
                1int
            } else {
                0int
            }),
            none_discarded(self.outcomes()) ==> self.handed_on() == self.captured().take(
                self.outcomes().len() as int,
            ),
            none_discarded(self.outcomes()) && self.taken() == self.captured().len()
                && self.spec_collecting() is None ==> self.handed_on() == self.captured(),
    {
        if none_discarded(self.outcomes()) {
            lemma_all_kept(self.captured(), self.outcomes());
            assert(self.captured().take(self.captured().len() as int) == self.captured());
        }
    }

    /// Nothing captured yet.
    pub fn new() -> (capture: Self)
        ensures
            capture.well_formed(),
            capture.captured() == Seq::<PendingFrame>::empty(),
            capture.taken() == 0,
            capture.outcomes() == Seq::<bool>::empty(),
            capture.sizes() == Map::<u64, (u32, u32)>::empty(),
            capture.spare() == Seq::<u64>::empty(),
            capture.spec_texture() is None,
            capture.spec_collecting() is None,
            capture.spec_last_dims() == (0u32, 0u32),
            capture.buffers_created() == 0,
    {
        let capture = FrameCapture {
            texture: None,
            spare_buffers: Vec::new(),
            pending: VecDeque::new(),
            collecting: None,
            last_dims: (0, 0),
            next_buffer: 0,
            captured: Ghost(Seq::empty()),
            outcomes: Ghost(Seq::empty()),
            sizes: Ghost(Map::empty()),
        };
        assert(capture.pending@ == capture.captured@.skip(0));
        capture
    }

    /// Plans the capture of a frame of the given size, and counts the frame as on its way.
    pub fn begin_capture(&mut self, width: u32, height: u32) -> (res: Result<
        CapturePlan,
        RenderError,
    >)
        requires
            old(self).well_formed(),
            width > 0 && height > 0 ==> padded_row(width) <= u32::MAX,
            old(self).buffers_created() < u64::MAX,
        ensures
            final(self).well_formed(),
            capture_begun(old(self), final(self), width, height, res),
    {
        if width == 0 || height == 0 {
            return Err(RenderError::EmptySurface);
        }
        let ghost start = *self;
        let new_texture = match self.texture {
            None => true,
            Some((w, h)) => w != width || h != height,
        };
        if new_texture {
            self.texture = Some((width, height));
            self.spare_buffers.clear();
        }
        let padded_bytes_per_row = padded_bytes_per_row(width);
        let buffer_size: u64 = buffer_bytes(padded_bytes_per_row, height);
        let (buffer, new_buffer): (u64, bool) = match self.spare_buffers.pop() {
            Some(buffer) => (buffer, false),
            None => {
                let buffer: u64 = self.next_buffer;
                self.next_buffer = self.next_buffer + 1;
                proof {
                    self.sizes@ = self.sizes@.insert(buffer, (width, height));
                }
                (buffer, true)
            },
        };
        let frame = PendingFrame { buffer, width, height, padded_bytes_per_row };
        self.pending.push_back(frame);
        proof {
            self.captured@ = self.captured@.push(frame);
            lemma_kept_frames_prefix(start.captured@, frame, self.outcomes@);
            if new_buffer {
                assert(self.spare_buffers@ == Seq::<u64>::empty());
            } else {
                assert(self.spare_buffers@ == start.spare_buffers@.drop_last());
            }
            assert(self.pending@ == start.pending@.push(frame));
            assert(self.pending@ == self.captured@.skip(
                self.captured@.len() - self.pending@.len(),
            ));
            if start.in_use(buffer) {
                if exists|i: int|
                    start.taken() <= i < start.captured().len() && (
                    #[trigger] start.captured()[i]).buffer == buffer {
                    let i = choose|i: int|
                        start.taken() <= i < start.captured().len() && (
                        #[trigger] start.captured()[i]).buffer == buffer;
                    assert(start.pending@[i - start.taken()] == start.captured@[i]);
                }
            }
        }
        Ok(CapturePlan { new_texture, new_buffer, buffer_size, frame })
    }

    /// Takes out the oldest frame on its way, if there are more than `max_in_flight` of them. Its
    /// pixels are then collected, and [`Self::delivered`] is told.
    pub fn take_ready(&mut self, max_in_flight: usize) -> (frame: Option<PendingFrame>)
        requires
            old(self).well_formed(),
            old(self).spec_collecting() is None,
        ensures
            final(self).well_formed(),
            frame_taken(old(self), final(self), max_in_flight, frame),
    {
        if self.pending.len() > max_in_flight {
            let ghost start = *self;
            let frame = self.pending.pop_front();
            self.collecting = frame;
            proof {
                assert(start.sound(start.pending@[0]));
                assert forall|i: int| 0 <= i < self.pending@.len() implies self.pending@[i]
                    == start.pending@[i + 1] by {}
                assert(self.pending@ == self.captured@.skip(
                    self.captured@.len() - self.pending@.len(),
                ));
            }
            frame
        } else {
            None
        }
    }

    /// Counts the frame being collected as handed on. Tells whether its buffer is kept for later
    /// frames; one that was made for another size is not.
    pub fn delivered(&mut self) -> (kept: bool)
        requires
            old(self).well_formed(),
            old(self).spec_collecting() is Some,
        ensures
            final(self).well_formed(),
            frame_delivered(old(self), final(self), kept),
    {
        let mut kept = false;
        if let Some(frame) = self.collecting {
            self.collecting = None;
            self.last_dims = (frame.width, frame.height);
            kept = match self.texture {
                None => false,
                Some((w, h)) => w == frame.width && h == frame.height,
            };
            if kept {
                self.spare_buffers.push(frame.buffer);
            }
            proof {
                let before = self.outcomes@;
                assert(before.push(true).drop_last() == before);
                self.outcomes@ = before.push(true);
            }
        }
        kept
    }

    /// Gives up the frame being collected: its pixels could not be had, or nobody took them. It is not
    /// handed on, and its buffer is not used again.
    pub fn discard(&mut self)
        requires
            old(self).well_formed(),
            old(self).spec_collecting() is Some,
        ensures
            final(self).well_formed(),
            frame_discarded(old(self), final(self)),
    {
        self.collecting = None;
        proof {
            let before = self.outcomes@;
            assert(before.push(false).drop_last() == before);
            self.outcomes@ = before.push(false);
        }
    }

    /// Dimensions of the frame delivered last.
    pub fn last_dims(&self) -> (dims: (u32, u32))
        ensures
            dims == self.spec_last_dims(),
    {
        self.last_dims
    }
}

/// If none is discarded, all are handed on.
proof fn lemma_all_kept(frames: Seq<PendingFrame>, outcomes: Seq<bool>)
    requires
        outcomes.len() <= frames.len(),
        none_discarded(outcomes),
    ensures
        kept_frames(frames, outcomes) == frames.take(outcomes.len() as int),
    decreases outcomes.len(),
{
    let n = outcomes.len();
    if n > 0 {
        assert(outcomes[n - 1]);
        let before = outcomes.drop_last();
        assert forall|i: int| 0 <= i < before.len() implies #[trigger] before[i] by {
            assert(outcomes[i]);
        }
        lemma_all_kept(frames, before);
        assert(frames.take(n as int) == frames.take(n - 1).push(frames[n - 1]));
    }
}

/// One more captured frame does not change what was handed on before.
proof fn lemma_kept_frames_prefix(
    frames: Seq<PendingFrame>,
    frame: PendingFrame,
    outcomes: Seq<bool>,
)
    requires
        outcomes.len() <= frames.len(),
    ensures
        kept_frames(frames.push(frame), outcomes) == kept_frames(frames, outcomes),
    decreases outcomes.len(),
{
    if outcomes.len() > 0 {
        lemma_kept_frames_prefix(frames, frame, outcomes.drop_last());
    }
}

fn buffer_bytes(padded_bytes_per_row: u32, height: u32) -> (bytes: u64)
    ensures
        bytes == padded_bytes_per_row * height,
{
    assert(0 <= padded_bytes_per_row * height <= 0xffff_ffff * 0xffff_ffff) by (nonlinear_arith)
        requires
            0 <= padded_bytes_per_row <= 0xffff_ffff,
            0 <= height <= 0xffff_ffff,
    ;
    padded_bytes_per_row as u64 * height as u64
}

/// Rows lie a multiple of 256 bytes apart: the smallest one that has room for four bytes for each pixel.
pub proof fn rows_are_padded_as_little_as_possible(width: u32, bytes: u32, multiple: int)
    requires
        padded_row(width) <= u32::MAX,
        call_ensures(padded_bytes_per_row, (width,), bytes),
    ensures
        bytes % 256 == 0,
        bytes >= width * 4,
        multiple * 256 >= width * 4 ==> multiple * 256 >= bytes,
        padded_row(width) == bytes,
{
}

/// A frame without its padding holds the pixels of each row, row by row, and nothing else: column `c` of
/// row `r` comes from column `c` of the `r`-th padded row, whatever the padding holds.
pub proof fn stripping_keeps_exactly_the_pixels(
    data: &[u8],
    width: u32,
    padded_bytes_per_row: u32,
    pixels: Vec<u8>,
    rows: nat,
    r: int,
    c: int,
)
    requires
        0 < width,
        width * 4 <= padded_bytes_per_row,
        data@.len() == padded_bytes_per_row as nat * rows,
        0 <= r < rows,
        0 <= c < width * 4,
        call_ensures(strip_row_padding, (data, width, padded_bytes_per_row), pixels),
    ensures
        pixels@.len() == rows * (width * 4),
        0 <= r * (width * 4) + c < pixels@.len(),
        pixels@[r * (width * 4) + c] == data@[r * padded_bytes_per_row + c],
{
    stripping_keeps_every_pixel(
        data@,
        (width * 4) as nat,
        padded_bytes_per_row as nat,
        rows,
        r,
        c,
    );
    lemma_unpadded_len(data@, (width * 4) as nat, padded_bytes_per_row as nat, rows);
}

/// Bytes at the end that do not make up a whole row change nothing.
pub proof fn incomplete_rows_are_ignored(data: Seq<u8>, rest: Seq<u8>, row_len: nat, stride: nat, rows: nat)
    requires
        0 < stride,
        row_len <= stride,
        data.len() == stride * rows,
        rest.len() < stride,
    ensures
        unpadded(data + rest, row_len, stride) == unpadded(data, row_len, stride),
    decreases rows,
{
    if rows > 0 {
        assert(stride * rows == stride * (rows - 1) + stride) by (nonlinear_arith)
            requires
                rows > 0,
        ;
        assert(stride * (rows - 1) >= 0) by (nonlinear_arith)
            requires
                rows > 0,
        ;
        assert((data + rest).skip(stride as int) == data.skip(stride as int) + rest);
        assert((data + rest).take(row_len as int) == data.take(row_len as int));
        incomplete_rows_are_ignored(
            data.skip(stride as int),
            rest,
            row_len,
            stride,
            (rows - 1) as nat,
        );
    } else {
        assert(stride * rows == 0) by (nonlinear_arith)
            requires
                rows == 0,
        ;
        assert(data + rest == rest);
    }
}

/// A frame is captured exactly if it has pixels: at its own size, with rows as far apart as its width
/// calls for, to a buffer that has room for all of them, was made for that size, and is not in use. The
/// texture is made anew exactly if it is not of that size, and a buffer exactly if none of that size is
/// free.
pub proof fn frames_are_captured_at_their_own_size(
    capture: &mut FrameCapture,
    width: u32,
    height: u32,
    res: Result<CapturePlan, RenderError>,
)
    requires
        old(capture).well_formed(),
        width > 0 && height > 0 ==> padded_row(width) <= u32::MAX,
        old(capture).buffers_created() < u64::MAX,
        call_ensures(FrameCapture::begin_capture, (capture, width, height), res),
    ensures
        final(capture).well_formed(),
        res is Ok <==> width > 0 && height > 0,
        res is Err ==> (res matches Err(RenderError::EmptySurface)) && *final(capture) == *old(
            capture,
        ),
        res matches Ok(plan) ==> {
            &&& plan.frame.width == width && plan.frame.height == height
            &&& plan.frame.padded_bytes_per_row == padded_row(width)
            &&& plan.buffer_size == padded_row(width) * height
            &&& final(capture).captured() == old(capture).captured().push(plan.frame)
            &&& final(capture).taken() == old(capture).taken()
            &&& final(capture).outcomes() == old(capture).outcomes()
            &&& final(capture).spec_last_dims() == old(capture).spec_last_dims()
            &&& final(capture).spec_texture() == Some((width, height))
            &&& plan.new_texture <==> old(capture).spec_texture() != Some((width, height))
            &&& plan.new_buffer <==> old(capture).spec_texture() != Some((width, height)) || old(
                capture,
            ).spare().len() == 0
            &&& final(capture).sizes()[plan.frame.buffer] == (width, height)
            &&& !plan.new_buffer ==> old(capture).spare().contains(plan.frame.buffer)
            &&& plan.new_buffer ==> !old(capture).sizes().dom().contains(plan.frame.buffer)
            &&& !old(capture).in_use(plan.frame.buffer)
            &&& final(capture).buffers_created() == old(capture).buffers_created() + (
            if plan.new_buffer {
                1int
            } else {
                0int
            })
        },
{
}

/// The frame that is collected is the oldest one on its way, and there is one exactly if more are on
/// their way than may stay.
pub proof fn the_oldest_frame_is_collected_first(
    capture: &mut FrameCapture,
    max_in_flight: usize,
    frame: Option<PendingFrame>,
)
    requires
        old(capture).well_formed(),
        old(capture).spec_collecting() is None,
        call_ensures(FrameCapture::take_ready, (capture, max_in_flight), frame),
    ensures
        final(capture).well_formed(),
        ({
            let taken = old(capture).taken();
            &&& frame is Some <==> old(capture).captured().len() - taken > max_in_flight
            &&& frame is Some ==> frame == Some(old(capture).captured()[taken])
            &&& final(capture).taken() == taken + (if frame is Some {
                1int
            } else {
                0int
            })
        }),
        final(capture).spec_collecting() == frame,
        final(capture).captured() == old(capture).captured(),
        final(capture).outcomes() == old(capture).outcomes(),
        final(capture).spare() == old(capture).spare(),
        final(capture).spec_last_dims() == old(capture).spec_last_dims(),
        final(capture).spec_texture() == old(capture).spec_texture(),
{
}

/// A frame that is delivered is handed on after those before it, and its size is the last one. Its
/// buffer is free again exactly if it still has the size of the texture.
pub proof fn delivered_frames_free_their_buffers(
    capture: &mut FrameCapture,
    kept: bool,
    dims: (u32, u32),
)
    requires
        old(capture).well_formed(),
        old(capture).spec_collecting() is Some,
        call_ensures(FrameCapture::delivered, (capture,), kept),
        call_ensures(FrameCapture::last_dims, (final(capture),), dims),
    ensures
        final(capture).well_formed(),
        ({
            let frame = old(capture).spec_collecting()->0;
            &&& final(capture).handed_on() == old(capture).handed_on().push(frame)
            &&& final(capture).outcomes() == old(capture).outcomes().push(true)
            &&& dims == (frame.width, frame.height)
            &&& kept <==> old(capture).spec_texture() == Some((frame.width, frame.height))
            &&& final(capture).spare().contains(frame.buffer) <==> kept
            &&& forall|buffer: u64|
                buffer != frame.buffer ==> (#[trigger] final(capture).spare().contains(buffer)
                    <==> old(capture).spare().contains(buffer))
        }),
        final(capture).spec_collecting() is None,
        final(capture).captured() == old(capture).captured(),
        final(capture).taken() == old(capture).taken(),
        final(capture).spec_texture() == old(capture).spec_texture(),
{
    let frame = old(capture).spec_collecting()->0;
    let before = old(capture).spare();
    let after = final(capture).spare();
    if kept {
        assert(after[before.len() as int] == frame.buffer);
        assert forall|buffer: u64| buffer != frame.buffer implies (#[trigger] after.contains(buffer)
            <==> before.contains(buffer)) by {
            if before.contains(buffer) {
                let i = choose|i: int| 0 <= i < before.len() && before[i] == buffer;
                assert(after[i] == buffer);
            }
        }
    }
}

/// A frame that is given up is not handed on, and its buffer is not free again.
pub proof fn discarded_frames_are_not_handed_on(capture: &mut FrameCapture)
    requires
        old(capture).well_formed(),
        old(capture).spec_collecting() is Some,
        call_ensures(FrameCapture::discard, (capture,), ()),
    ensures
        final(capture).well_formed(),
        final(capture).handed_on() == old(capture).handed_on(),
        final(capture).outcomes() == old(capture).outcomes().push(false),
        final(capture).spare() == old(capture).spare(),
        final(capture).spec_collecting() is None,
        final(capture).captured() == old(capture).captured(),
        final(capture).taken() == old(capture).taken(),
        final(capture).spec_last_dims() == old(capture).spec_last_dims(),
{
}

/// Of the first frames, those are handed on whose outcome says so, in order.
pub proof fn outcomes_tell_what_was_handed_on(frames: Seq<PendingFrame>, outcomes: Seq<bool>, outcome: bool)
    requires
        outcomes.len() < frames.len(),
    ensures
        kept_frames(frames, Seq::<bool>::empty()).len() == 0,
        kept_frames(frames, outcomes.push(outcome)) == if outcome {
            kept_frames(frames, outcomes).push(frames[outcomes.len() as int])
        } else {
            kept_frames(frames, outcomes)
        },
{
    assert(outcomes.push(outcome).drop_last() == outcomes);
}

/// A pipeline begins without frames, buffers, or a texture.
pub proof fn pipelines_begin_empty(capture: FrameCapture)
    requires
        call_ensures(FrameCapture::new, (), capture),
    ensures
        capture.well_formed(),
        capture.captured().len() == 0,
        capture.outcomes().len() == 0,
        capture.spare().len() == 0,
        capture.buffers_created() == 0,
        capture.spec_texture() is None,
        capture.spec_collecting() is None,
        capture.spec_last_dims() == (0u32, 0u32),
{
}

} // verus!
