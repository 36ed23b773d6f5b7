//! The band-limited sample buffer of the `blip_buf` crate, as this library
//! sees it.
//!
//! A buffer is used at the rate it is made with, `CLOCKS_PER_SAMPLE` clocks
//! to the output sample, so that clock times are whole numbers of 2^-20
//! samples. Everything below is said of a buffer that `blip_new` made and
//! that was never given another rate; this library makes no other.
//!
//! Five quantities say what the calls do. Three are what a caller sees:
//! the samples that are ready to be read, the number of samples the buffer
//! was made to hold, and the clocks of the last frame that did not fill a
//! whole sample. Two bound the buffer's own sums, which are kept in 32
//! bits: the size of the entry in each of its slots, and the size of the
//! running sum that a read carries from sample to sample.
use vstd::prelude::*;
use blip_buf::BlipBuf;

verus! {

#[verifier::external_type_specification]
#[verifier::external_body]
pub struct ExBlipBuf(BlipBuf);

/// The samples of the buffer that are ready to be read, oldest first: what
/// a read of all of them would hand out.
pub uninterp spec fn blip_samples(b: BlipBuf) -> Seq<i16>;

/// The number of samples the buffer was made to hold: the number of its
/// slots less `SPARE_SLOTS`.
pub uninterp spec fn blip_size(b: BlipBuf) -> nat;

/// The clocks carried over from the frames that have ended: what they left
/// over after whole samples were made of them. At the rate a buffer is
/// made with, this is the whole clocks of the time offset that it keeps.
pub uninterp spec fn blip_phase(b: BlipBuf) -> nat;

/// The size (absolute value) of the entry in each slot of the buffer, the
/// slot of the oldest ready sample first. There are `SPARE_SLOTS` slots
/// more than the buffer was made to hold samples.
pub uninterp spec fn blip_mass(b: BlipBuf) -> Seq<nat>;

/// The size (absolute value) of the running sum that a read starts from
/// and leaves behind.
pub uninterp spec fn blip_hold(b: BlipBuf) -> nat;

/// Clocks per output sample of a buffer as it is made.
pub const CLOCKS_PER_SAMPLE: u32 = 0x10_0000;

/// The largest buffer this library makes, in samples.
pub const MAX_SAMPLES: u32 = 0x10_0000;

/// The longest read in one call, in samples.
pub const CHUNK: usize = 2048;

/// The slots a buffer has beyond the samples it was made to hold.
pub const SPARE_SLOTS: u32 = 18;

/// The slots that one amplitude step is spread over.
pub const STEP_WIDTH: u32 = 16;

/// The largest entry of a slot with which a read keeps its running sum
/// within `HOLD_LIMIT`.
pub const SLOT_LIMIT: u32 = 0x1f_ffc0;

/// The bound that a read keeps on its running sum: `512 * (SLOT_LIMIT +
/// 63)`, which is below 2^30.
pub const HOLD_LIMIT: u32 = 0x3fff_fe00;

/// The largest weight, in size, with which a step of one unit enters the
/// `k`-th of its sixteen slots: the largest entry, in size, of the
/// matching column of the crate's table of step kernels (the columns 0 to
/// 7 for the first eight slots, then 7 down to 0). No weight elsewhere.
pub open spec fn tap(k: int) -> nat {
    if k < 0 || k >= 16 {
        0
    } else if k == 0 || k == 15 {
        47
    } else if k == 1 || k == 14 {
        123
    } else if k == 2 || k == 13 {
        350
    } else if k == 3 || k == 12 {
        488
    } else if k == 4 || k == 11 {
        1136
    } else if k == 5 || k == 10 {
        1362
    } else if k == 6 || k == 9 {
        5861
    } else {
        21022
    }
}

/// The size of a step.
pub open spec fn size_of(delta: i32) -> nat {
    if delta < 0 {
        (-delta) as nat
    } else {
        delta as nat
    }
}

/// The slot, counted from the oldest ready sample, in which a step at
/// clock `time` of the present frame begins.
pub open spec fn blip_slot(b: BlipBuf, time: u32) -> int {
    blip_samples(b).len() + (time + blip_phase(b)) / (CLOCKS_PER_SAMPLE as int)
}

/// `BlipBuf::new`: a buffer for `sample_count` samples. It starts empty, at
/// the default rate of 2^20 clocks per sample, with nothing carried, and
/// with zero in every slot and in the running sum.
#[verifier::external_body]
pub(crate) fn blip_new(sample_count: u32) -> (b: BlipBuf)
    requires
        sample_count <= MAX_SAMPLES,
    ensures
        blip_samples(b).len() == 0,
        blip_size(b) == sample_count,
        blip_phase(b) == 0,
        blip_hold(b) == 0,
        blip_mass(b).len() == sample_count + SPARE_SLOTS,
        forall|i: int| 0 <= i < blip_mass(b).len() ==> blip_mass(b)[i] == 0,
{
    BlipBuf::new(sample_count)
}

/// `BlipBuf::add_delta`: adds an amplitude step at clock `time` of the
/// present frame. The clock and what is carried must fit in 32 bits
/// together. The step begins `(time + carried) / 2^20` slots behind the
/// ready samples, which must be within two slots past the buffer's size,
/// and is spread over sixteen slots from there: the entry of the `k`-th
/// grows in size by `tap(k)` times the size of the step at most, and that
/// must fit in 32 bits for each. No other slot changes, nor anything that
/// is ready, the size, what is carried or the running sum.
#[verifier::external_body]
pub(crate) fn blip_add_delta(b: &mut BlipBuf, time: u32, delta: i32)
    requires
        time + blip_phase(*old(b)) <= u32::MAX,
        blip_slot(*old(b), time) <= blip_size(*old(b)) + 2,
        blip_mass(*old(b)).len() == blip_size(*old(b)) + SPARE_SLOTS,
        -0x8000 <= delta <= 0x8000,
        forall|k: int|
            0 <= k < STEP_WIDTH ==> blip_mass(*old(b))[blip_slot(*old(b), time) + k] + tap(k)
                * size_of(delta) <= i32::MAX,
    ensures
        blip_samples(*final(b)) == blip_samples(*old(b)),
        blip_size(*final(b)) == blip_size(*old(b)),
        blip_phase(*final(b)) == blip_phase(*old(b)),
        blip_hold(*final(b)) == blip_hold(*old(b)),
        blip_mass(*final(b)).len() == blip_mass(*old(b)).len(),
        forall|i: int|
            0 <= i < blip_mass(*old(b)).len() ==> blip_mass(*final(b))[i] <= blip_mass(*old(b))[i]
                + tap(i - blip_slot(*old(b), time)) * size_of(delta),
    no_unwind
{
    b.add_delta(time, delta)
}

/// `BlipBuf::end_frame`: ends the present frame after `duration` clocks.
/// The clocks and what is carried must fit in 32 bits together. They make
/// `(duration + carried) / 2^20` new samples ready behind the ones that
/// were, and the rest is carried. The ready samples must stay within the
/// buffer's size. No slot changes, nor the running sum.
#[verifier::external_body]
pub(crate) fn blip_end_frame(b: &mut BlipBuf, duration: u32)
    requires
        duration + blip_phase(*old(b)) <= u32::MAX,
        blip_slot(*old(b), duration) <= blip_size(*old(b)),
    ensures
        blip_samples(*old(b)).is_prefix_of(blip_samples(*final(b))),
        blip_samples(*final(b)).len() == blip_slot(*old(b), duration),
        blip_phase(*final(b)) == (duration + blip_phase(*old(b))) % (CLOCKS_PER_SAMPLE as int),
        blip_size(*final(b)) == blip_size(*old(b)),
        blip_hold(*final(b)) == blip_hold(*old(b)),
        blip_mass(*final(b)) == blip_mass(*old(b)),
    no_unwind
{
    b.end_frame(duration)
}

/// `BlipBuf::samples_avail`: the number of samples ready to be read.
#[verifier::external_body]
pub(crate) fn blip_samples_avail(b: &BlipBuf) -> (n: u32)
    requires
        blip_samples(*b).len() <= u32::MAX,
    ensures
        n == blip_samples(*b).len(),
{
    b.samples_avail()
}

/// `BlipBuf::clocks_needed`: the clocks that a frame must last to make
/// `count` more samples ready: `2^20` for each, less what is carried.
/// `count` must be at least 1 and below 4096, as the crate multiplies it by
/// 2^52 in 64 bits, and with the ready samples it must be within the slots.
#[verifier::external_body]
pub(crate) fn blip_clocks_needed(b: &BlipBuf, count: u32) -> (clocks: u32)
    requires
        1 <= count < 4096,
        blip_samples(*b).len() + count <= blip_size(*b) + SPARE_SLOTS,
        blip_phase(*b) < CLOCKS_PER_SAMPLE,
    ensures
        clocks == count * CLOCKS_PER_SAMPLE - blip_phase(*b),
{
    b.clocks_needed(count)
}

/// `BlipBuf::read_samples` (mono): moves the oldest ready samples, `n` of
/// them at most, to the front of `buf`, and returns how many. The rest of
/// `buf` is left as it was. The ready samples must be within the buffer's
/// size, the running sum within `HOLD_LIMIT` and the entry of each slot
/// that is read within `SLOT_LIMIT`; the running sum is then within
/// `HOLD_LIMIT` afterwards: for each sample the crate adds the slot's entry
/// to the sum and takes 64 times the 32768th part of the sum from it,
/// which is its 512th part less 63 at most. The slots move up by the
/// number read: each holds what the slot that many places behind it held,
/// or zero.
#[verifier::external_body]
pub(crate) fn blip_read_samples(b: &mut BlipBuf, buf: &mut [i16; CHUNK], n: usize) -> (count: usize)
    requires
        n <= CHUNK,
        blip_samples(*old(b)).len() <= blip_size(*old(b)),
        blip_mass(*old(b)).len() == blip_size(*old(b)) + SPARE_SLOTS,
        blip_hold(*old(b)) <= HOLD_LIMIT,
        forall|i: int|
            0 <= i < n && i < blip_samples(*old(b)).len() ==> blip_mass(*old(b))[i] <= SLOT_LIMIT,
    ensures
        count == (if n <= blip_samples(*old(b)).len() {
            n as int
        } else {
            blip_samples(*old(b)).len() as int
        }),
        forall|i: int| 0 <= i < count ==> final(buf)@[i] == blip_samples(*old(b))[i],
        forall|i: int| count <= i < CHUNK ==> final(buf)@[i] == old(buf)@[i],
        blip_samples(*final(b)) == blip_samples(*old(b)).skip(count as int),
        blip_size(*final(b)) == blip_size(*old(b)),
        blip_phase(*final(b)) == blip_phase(*old(b)),
        blip_hold(*final(b)) <= HOLD_LIMIT,
        blip_mass(*final(b)).len() == blip_mass(*old(b)).len(),
        forall|i: int|
            0 <= i < blip_mass(*old(b)).len() ==> blip_mass(*final(b))[i] <= (if i + count
                < blip_mass(*old(b)).len() {
                blip_mass(*old(b))[i + count]
            } else {
                0
            }),
    no_unwind
{
    b.read_samples(&mut buf[..n], false)
}

} // verus!
