use vstd::prelude::*;
use std::collections::VecDeque;
use crate::frame::FRAME_BYTES;

verus! {

/// Pixels of the screen: 160 by 144.
pub const SCREEN_PIXELS: usize = 23040;

/// The largest scale factor of a window: the largest with which the number
/// of pixels of the enlarged picture fits in 32 bits.
pub const MAX_SCALE: u32 = 431;

/// The pixel `0xAARRGGBB` with full alpha for the colour `(r, g, b)`.
pub open spec fn argb(r: u8, g: u8, b: u8) -> u32 {
    (0xff00_0000 + r * 0x1_0000 + g * 0x100 + b) as u32
}

/// The framebuffer as packed pixels, row by row.
pub open spec fn packed(data: Seq<u8>) -> Seq<u32> {
    Seq::new(SCREEN_PIXELS as nat, |i: int| argb(data[3 * i], data[3 * i + 1], data[3 * i + 2]))
}

/// Packs the framebuffer into pixels `0xAARRGGBB`, row by row.
pub fn pack_frame(data: &[u8; FRAME_BYTES]) -> (out: Vec<u32>)
    ensures
        out@ == packed(data@),
{
    let mut out: Vec<u32> = Vec::with_capacity(SCREEN_PIXELS);
    let mut i: usize = 0;
    while i < SCREEN_PIXELS
        invariant
            i <= SCREEN_PIXELS,
            out@.len() == i,
            forall|k: int| 0 <= k < i ==> out@[k] == packed(data@)[k],
        decreases SCREEN_PIXELS - i,
    {
        let r = data[3 * i] as u32;
        let g = data[3 * i + 1] as u32;
        let b = data[3 * i + 2] as u32;
        out.push(0xff00_0000 + r * 0x1_0000 + g * 0x100 + b);
        i = i + 1;
    }
    assert(out@ =~= packed(data@));
    out
}

/// A picture of 160 by 144 pixels enlarged by the whole factor `scale`:
/// the output pixel at column `x` and row `y` is the input pixel at column
/// `x / scale` and row `y / scale`.
pub open spec fn scaled(o: Seq<u32>, scale: int) -> Seq<u32> {
    Seq::new(
        (SCREEN_PIXELS * scale * scale) as nat,
        |k: int| o[(k / (160 * scale) / scale) * 160 + (k % (160 * scale)) / scale],
    )
}

/// The frames on their way to the host: those ready to be shown, oldest
/// first, and the spare buffers.
pub struct WindowBuffer {
    /// The frames ready to be shown; the first is the one on show.
    pub buffers: VecDeque<Vec<u32>>,
    /// Buffers that can be written again.
    pub caches: VecDeque<Vec<u32>>,
    /// The size of a frame in pixels.
    pub buf_size: usize,
}

impl WindowBuffer {
    /// Whether `after` is what queueing a frame of the pixels `frame`,
    /// written to a free buffer, makes of these buffers. The free buffer
    /// is the oldest spare one, where there is one. At most two frames are
    /// kept: the one on show, and the newest; a frame that was waiting is
    /// dropped and its buffer becomes spare.
    pub open spec fn queued(self, after: WindowBuffer, frame: Seq<u32>) -> bool {
        let spare = if self.caches@.len() > 0 {
            self.caches@.skip(1)
        } else {
            self.caches@
        };
        &&& after.buf_size == self.buf_size
        &&& after.buffers@.len() > 0
        &&& after.buffers@.last()@ == frame
        &&& self.buffers@.len() <= 1 ==> after.buffers@.drop_last() == self.buffers@
            && after.caches@ == spare
        &&& self.buffers@.len() > 1 ==> after.buffers@.drop_last() == self.buffers@.drop_last()
            && after.caches@ == spare.push(self.buffers@.last())
    }

    /// Whether `after` is what moving on to the newest frame makes of
    /// these buffers. Where a frame is waiting, the one on show leaves the
    /// queue and its buffer becomes spare. Where no frame has arrived yet,
    /// a black one of `buf_size` pixels is queued. Else nothing changes.
    pub open spec fn moved_on(self, after: WindowBuffer) -> bool {
        &&& after.buf_size == self.buf_size
        &&& after.buffers@.len() > 0
        &&& self.buffers@.len() > 1 ==> after.buffers@ == self.buffers@.skip(1) && after.caches@
            == self.caches@.push(self.buffers@[0])
        &&& self.buffers@.len() == 1 ==> after.buffers@ == self.buffers@ && after.caches@
            == self.caches@
        &&& self.buffers@.len() == 0 ==> after.buffers@.len() == 1 && after.buffers@[0]@
            == Seq::new(self.buf_size as nat, |i: int| 0u32) && after.caches@ == self.caches@
    }

    pub fn new(size: usize) -> (r: Self)
        ensures
            r.buffers@.len() == 0,
            r.caches@.len() == 0,
            r.buf_size == size,
    {
        WindowBuffer {
            buffers: VecDeque::with_capacity(2),
            caches: VecDeque::with_capacity(2),
            buf_size: size,
        }
    }

    /// Hands out a buffer to write the next frame to: the oldest spare
    /// one, or a new empty one where there is none.
    pub fn get_free_buffer(&mut self) -> (buffer: Vec<u32>)
        ensures
            final(self).buffers@ == old(self).buffers@,
            final(self).buf_size == old(self).buf_size,
            old(self).caches@.len() == 0 ==> buffer@.len() == 0 && final(self).caches@.len() == 0,
            old(self).caches@.len() > 0 ==> buffer == old(self).caches@[0] && final(self).caches@
                == old(self).caches@.skip(1),
    {
        let buffer = match self.caches.pop_front() {
            None => Vec::with_capacity(self.buf_size),
            Some(buf) => buf,
        };
        assert(old(self).caches@.len() > 0 ==> self.caches@ =~= old(self).caches@.skip(1));
        buffer
    }

    /// Queues a finished frame. At most two frames are kept: the one on
    /// show, and the newest; a frame that was waiting is dropped and its
    /// buffer becomes spare.
    pub fn add_render_buffer(&mut self, buffer: Vec<u32>)
        ensures
            final(self).buf_size == old(self).buf_size,
            final(self).buffers@.len() > 0,
            final(self).buffers@.last() == buffer,
            old(self).buffers@.len() <= 1 ==> final(self).buffers@ == old(self).buffers@.push(
                buffer,
            ) && final(self).caches@ == old(self).caches@,
            old(self).buffers@.len() > 1 ==> final(self).buffers@ == old(self).buffers@.drop_last().push(buffer) && final(self).caches@ == old(self).caches@.push(
                old(self).buffers@.last(),
            ),
    {
        if self.buffers.len() > 1 {
            match self.buffers.pop_back() {
                Some(old_buffer) => {
                    self.caches.push_back(old_buffer);
                },
                None => {},
            }
        }
        self.buffers.push_back(buffer);
    }

    /// Moves on to the newest frame, if one is waiting, and makes sure
    /// there is a frame to show: a black one where none has arrived yet.
    pub fn advance(&mut self)
        ensures
            old(self).moved_on(*final(self)),
    {
        if self.buffers.len() > 1 {
            match self.buffers.pop_front() {
                Some(old_buf) => {
                    self.caches.push_back(old_buf);
                },
                None => {},
            }
            assert(self.buffers@ =~= old(self).buffers@.skip(1));
        }
        if self.buffers.len() == 0 {
            let mut blank: Vec<u32> = Vec::new();
            let mut i: usize = 0;
            while i < self.buf_size
                invariant
                    i <= self.buf_size,
                    blank@ == Seq::new(i as nat, |k: int| 0u32),
                    self.buf_size == old(self).buf_size,
                    self.buffers@.len() == 0,
                    self.caches@ == old(self).caches@,
                    old(self).buffers@.len() == 0,
                decreases self.buf_size - i,
            {
                blank.push(0);
                assert(blank@ =~= Seq::new((i + 1) as nat, |k: int| 0u32));
                i = i + 1;
            }
            self.buffers.push_back(blank);
        }
    }

    /// The frame to show: the newest that has arrived, or a black one
    /// where none has. The buffers move on to it.
    pub fn get_render_buffer(&mut self) -> (buffer: &Vec<u32>)
        ensures
            old(self).moved_on(*final(self)),
            *buffer == final(self).buffers@[0],
    {
        self.advance();
        &self.buffers[0]
    }
}

/// The host's window: the picture enlarged by a whole factor.
pub struct Window {
    /// Width in pixels: 160 times the scale.
    pub width: u32,
    /// Height in pixels: 144 times the scale.
    pub height: u32,
    /// How many times the picture is enlarged.
    pub scale: u32,
    pub win_buffer: WindowBuffer,
}

impl Window {
    pub open spec fn wf(self) -> bool {
        &&& self.scale <= MAX_SCALE
        &&& self.width == 160 * self.scale
        &&& self.height == 144 * self.scale
    }

    /// A window that shows the picture `scale` times enlarged, with no
    /// frame yet and no spare buffer.
    pub fn create(scale: u32) -> (r: Self)
        requires
            scale <= MAX_SCALE,
        ensures
            r.wf(),
            r.scale == scale,
            r.win_buffer.buffers@.len() == 0,
            r.win_buffer.caches@.len() == 0,
            r.win_buffer.buf_size == SCREEN_PIXELS * scale * scale,
    {
        let width = 160 * scale;
        let height = 144 * scale;
        assert(width * height <= 68960 * 62064 && width * height == SCREEN_PIXELS * scale * scale)
            by (nonlinear_arith)
            requires
                width == 160 * scale,
                height == 144 * scale,
                scale <= 431,
        ;
        let buf_size = (width * height) as usize;
        Window { width, height, scale, win_buffer: WindowBuffer::new(buf_size) }
    }

    /// Enlarges the picture `o_buffer` into a free buffer and queues it as
    /// the newest frame.
    pub fn update_buffer(&mut self, o_buffer: &Vec<u32>)
        requires
            old(self).wf(),
            o_buffer@.len() == SCREEN_PIXELS,
        ensures
            final(self).wf(),
            final(self).scale == old(self).scale,
            old(self).win_buffer.queued(
                final(self).win_buffer,
                scaled(o_buffer@, old(self).scale as int),
            ),
    {
        let scale = self.scale as usize;
        let width = self.width as usize;
        let mut buffer = self.win_buffer.get_free_buffer();
        buffer.clear();
        let ghost want = scaled(o_buffer@, scale as int);
        assert(160 * scale * 144 * scale == SCREEN_PIXELS * scale * scale) by (nonlinear_arith);
        let mut y: usize = 0;
        while y < 144
            invariant
                y <= 144,
                scale <= 431,
                width == 160 * scale,
                o_buffer@.len() == SCREEN_PIXELS,
                want == scaled(o_buffer@, scale as int),
                buffer@.len() == y * scale * width,
                forall|k: int| 0 <= k < buffer@.len() ==> buffer@[k] == want[k],
            decreases 144 - y,
        {
            let mut r: usize = 0;
            while r < scale
                invariant
                    y < 144,
                    r <= scale,
                    scale <= 431,
                    width == 160 * scale,
                    o_buffer@.len() == SCREEN_PIXELS,
                    want == scaled(o_buffer@, scale as int),
                    buffer@.len() == (y * scale + r) * width,
                    forall|k: int| 0 <= k < buffer@.len() ==> buffer@[k] == want[k],
                decreases scale - r,
            {
                let mut x: usize = 0;
                while x < width
                    invariant
                        y < 144,
                        r < scale,
                        x <= width,
                        scale <= 431,
                        width == 160 * scale,
                        o_buffer@.len() == SCREEN_PIXELS,
                        want == scaled(o_buffer@, scale as int),
                        buffer@.len() == (y * scale + r) * width + x,
                        forall|k: int| 0 <= k < buffer@.len() ==> buffer@[k] == want[k],
                    decreases width - x,
                {
                    proof {
                        let k = (y * scale + r) * width + x;
                        vstd::arithmetic::div_mod::lemma_fundamental_div_mod_converse(
                            k as int,
                            width as int,
                            (y * scale + r) as int,
                            x as int,
                        );
                        vstd::arithmetic::div_mod::lemma_fundamental_div_mod_converse(
                            (y * scale + r) as int,
                            scale as int,
                            y as int,
                            r as int,
                        );
                        assert((y * scale + r) * width + x < 144 * scale * width) by (nonlinear_arith)
                            requires
                                y < 144,
                                r < scale,
                                x < width,
                                scale >= 1,
                        ;
                        assert(144 * scale * width == SCREEN_PIXELS * scale * scale) by (nonlinear_arith)
                            requires
                                width == 160 * scale,
                        ;
                        assert(x / scale < 160) by (nonlinear_arith)
                            requires
                                x < 160 * scale,
                                scale >= 1,
                        ;
                    }
                    let v = o_buffer[y * 160 + x / scale];
                    buffer.push(v);
                    x = x + 1;
                }
                proof {
                    assert((y * scale + r) * width + width == (y * scale + r + 1) * width)
                        by (nonlinear_arith);
                }
                r = r + 1;
            }
            proof {
                assert((y * scale + scale) * width == (y + 1) * scale * width) by (nonlinear_arith);
            }
            y = y + 1;
        }
        assert(144 * scale * width == SCREEN_PIXELS * scale * scale) by (nonlinear_arith)
            requires
                width == 160 * scale,
        ;
        assert(buffer@ =~= want);
        let ghost mid = self.win_buffer;
        self.win_buffer.add_render_buffer(buffer);
        proof {
            if old(self).win_buffer.caches@.len() == 0 {
                assert(mid.caches@ =~= old(self).win_buffer.caches@);
            }
            if mid.buffers@.len() <= 1 {
                assert(self.win_buffer.buffers@.drop_last() =~= mid.buffers@);
            } else {
                assert(self.win_buffer.buffers@.drop_last() =~= mid.buffers@.drop_last());
            }
        }
    }

    /// The frame to show: the newest that has arrived, or a black one
    /// where none has. The buffers move on to it.
    pub fn get_buffer(&mut self) -> (buffer: &Vec<u32>)
        ensures
            final(self).scale == old(self).scale,
            final(self).width == old(self).width,
            final(self).height == old(self).height,
            old(self).win_buffer.moved_on(final(self).win_buffer),
            *buffer == final(self).win_buffer.buffers@[0],
    {
        self.win_buffer.get_render_buffer()
    }
}

} // verus!
