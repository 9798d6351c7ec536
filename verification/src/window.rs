//! Averaging window: a fixed-size buffer of optional sensor
//! measurements (signed tenths of a degree), one slot per tick.  The
//! cycle mean is computed over the present slots only, truncated toward
//! zero; an all-absent window yields no value, and the caller then skips
//! the display update.

use vstd::prelude::*;
use vstd::arithmetic::div_mod::{lemma_multiply_divide_le, lemma_div_is_ordered};
use crate::segments::tdiv;
use crate::format::{format_temperature, spec_format};

verus! {

/// Number of slots in the averaging window: one measurement per tick.
pub const WINDOW_SIZE: usize = 15;

/// Duration of one full sampling cycle, in milliseconds.
pub const CYCLE_MS: u16 = 20_000;

/// Additive correction, in tenths of a degree, applied to the cycle
/// mean before display.
pub const CALIBRATION_OFFSET: i16 = -5;

/// How many slots of `s` hold a measurement.
pub open spec fn count_present(s: Seq<Option<i16>>) -> int
    decreases s.len(),
{
    if s.len() == 0 {
        0
    } else {
        count_present(s.drop_last()) + if s.last() is Some {
            1int
        } else {
            0int
        }
    }
}

/// Sum of the measurements present in `s`.
pub open spec fn sum_present(s: Seq<Option<i16>>) -> int
    decreases s.len(),
{
    if s.len() == 0 {
        0
    } else {
        sum_present(s.drop_last()) + match s.last() {
            Some(t) => t as int,
            None => 0,
        }
    }
}

/// A fixed-size buffer of optional measurements.
pub struct Window {
    slots: Vec<Option<i16>>,
}

impl View for Window {
    type V = Seq<Option<i16>>;

    closed spec fn view(&self) -> Seq<Option<i16>> {
        self.slots@
    }
}

impl Window {
    /// A window of `size` slots, all absent.
    pub fn new(size: usize) -> (w: Window)
        ensures
            w@.len() == size,
            forall|j: int| 0 <= j < size ==> w@[j] is None,
    {
        Window { slots: vec![None; size] }
    }

    /// Number of slots.
    pub fn len(&self) -> (n: usize)
        ensures
            n == self@.len(),
    {
        self.slots.len()
    }

    /// Stores the outcome of one tick in slot `i`: the measurement on a
    /// successful read, or absent on a failed one.  The slot's previous
    /// content is discarded either way.
    pub fn record(&mut self, i: usize, m: Option<i16>)
        requires
            i < old(self)@.len(),
        ensures
            final(self)@ == old(self)@.update(i as int, m),
    {
        self.slots[i] = m;
    }

    /// Mean of the present measurements, truncated toward zero, with
    /// the count of present slots as the denominator.  Yields no value
    /// exactly when every slot is absent.
    pub fn average(&self) -> (r: Option<i16>)
        ensures
            r is None <==> count_present(self@) == 0,
            r matches Some(m) ==> m == tdiv(sum_present(self@), count_present(self@)),
    {
        let n = self.slots.len();
        let mut i: usize = 0;
        let mut count: usize = 0;
        let mut pos: u128 = 0;
        let mut neg: u128 = 0;
        while i < n
            invariant
                i <= n,
                n == self@.len(),
                count == count_present(self@.subrange(0, i as int)),
                count <= i,
                pos - neg == sum_present(self@.subrange(0, i as int)),
                pos <= 0x7fff * count,
                neg <= 0x8000 * count,
            decreases n - i,
        {
            match self.slots[i] {
                Some(t) => {
                    if t >= 0 {
                        pos = pos + t as u128;
                    } else {
                        neg = neg + (-(t as i32)) as u128;
                    }
                    count = count + 1;
                },
                None => {},
            }
            proof {
                assert(self@.subrange(0, i + 1).drop_last() =~= self@.subrange(0, i as int));
                assert(self@.subrange(0, i + 1).last() == self@[i as int]);
            }
            i = i + 1;
        }
        proof {
            assert(self@.subrange(0, n as int) =~= self@);
        }
        if count == 0 {
            None
        } else {
            let c = count as u128;
            if pos >= neg {
                let m = (pos - neg) / c;
                proof {
                    lemma_div_is_ordered((pos - neg) as int, pos as int, c as int);
                    lemma_multiply_divide_le(pos as int, c as int, 0x7fff);
                }
                Some(m as i16)
            } else {
                let m = (neg - pos) / c;
                proof {
                    lemma_div_is_ordered((neg - pos) as int, neg as int, c as int);
                    lemma_multiply_divide_le(neg as int, c as int, 0x8000);
                }
                let v = -(m as i32);
                Some(v as i16)
            }
        }
    }
}

/// The display frame owed at the end of a cycle: the calibrated mean
/// of the present measurements, formatted, or nothing when every slot
/// is absent (then no display update happens) or the calibrated mean
/// falls outside the displayable range.
pub fn cycle_frame(w: &Window) -> (r: Option<[u8; 8]>)
    ensures
        r is Some <==> count_present(w@) != 0 && i16::MIN <= tdiv(
            sum_present(w@),
            count_present(w@),
        ) + CALIBRATION_OFFSET <= i16::MAX,
        r matches Some(f) ==> f@ == spec_format(
            (tdiv(sum_present(w@), count_present(w@)) + CALIBRATION_OFFSET) as i16,
        ),
{
    let m: i16 = match w.average() {
        Some(m) => m,
        None => {
            return None;
        },
    };
    let s: i32 = m as i32 + CALIBRATION_OFFSET as i32;
    if s < -32768 || s > 32767 {
        return None;
    }
    Some(format_temperature(calibrate(m)))
}

/// Applies the calibration offset to a cycle mean.
pub fn calibrate(mean: i16) -> (r: i16)
    requires
        i16::MIN <= mean + CALIBRATION_OFFSET <= i16::MAX,
    ensures
        r == mean + CALIBRATION_OFFSET,
{
    mean + CALIBRATION_OFFSET
}

} // verus!
