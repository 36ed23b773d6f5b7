use vstd::prelude::*;

verus! {

/// Bytes of the framebuffer: 160 by 144 pixels, three bytes (red, green,
/// blue) each, row by row.
pub const FRAME_BYTES: usize = 69120;

/// Bytes of one framebuffer row.
pub const ROW_BYTES: usize = 480;

/// A framebuffer of white pixels.
pub fn white_frame() -> (r: [u8; FRAME_BYTES])
    ensures
        r@ == Seq::new(FRAME_BYTES as nat, |i: int| 0xffu8),
{
    let mut r = [0u8;FRAME_BYTES];
    let mut k: usize = 0;
    while k < FRAME_BYTES
        invariant
            k <= FRAME_BYTES,
            forall|j: int| 0 <= j < k ==> r@[j] == 0xff,
        decreases FRAME_BYTES - k,
    {
        r[k] = 0xff;
        k = k + 1;
    }
    assert(r@ =~= Seq::new(FRAME_BYTES as nat, |i: int| 0xffu8));
    r
}

} // verus!
