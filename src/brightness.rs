//! Brightness: the ADC conversion frame, and a self-calibrating scale that
//! turns raw codes into a percentage of the range observed so far.

use vstd::prelude::*;

verus! {

/// Start bit of the conversion request.
pub const ADC_START: u8 = 0b0000_0100;

/// Single-ended (rather than differential) input.
pub const ADC_SINGLE_ENDED: u8 = 0b0000_0010;

/// Full scale of the percentage, in hundredths of a percent.
pub const FULL_SCALE: u16 = 10000;

/// The three bytes clocked out to request a single-ended conversion of
/// channel 0.
pub fn adc_request() -> (r: [u8; 3])
    ensures
        r@ == seq![(ADC_START + ADC_SINGLE_ENDED) as u8, 0u8, 0u8],
{
    [ADC_START + ADC_SINGLE_ENDED, 0, 0]
}

/// The 12-bit code of a conversion frame: the low four bits of the second
/// byte above the first byte.
pub open spec fn code_of(frame: Seq<u8>) -> int {
    (frame[1] % 16) * 256 + frame[0]
}

/// The raw code carried by the bytes clocked in during a conversion.
pub fn adc_code(frame: &[u8; 3]) -> (r: u16)
    ensures
        r == code_of(frame@),
        r < 4096,
{
    ((frame[1] % 16) as u16) * 256 + frame[0] as u16
}

/// Bounds after observing `code`: the first code opens them at itself, later
/// codes only widen them.
pub open spec fn widened(bounds: Option<(u16, u16)>, code: u16) -> (u16, u16) {
    match bounds {
        None => (code, code),
        Some((lo, hi)) => (
            if code < lo { code } else { lo },
            if code > hi { code } else { hi },
        ),
    }
}

/// Position of `code` between `lo` and `hi` in hundredths of a percent,
/// rounded down; 0 while the range is empty.
pub open spec fn scaled(lo: u16, hi: u16, code: u16) -> int {
    if hi == lo {
        0
    } else {
        (code - lo) * (FULL_SCALE as int) / ((hi - lo) as int)
    }
}

/// Running bounds of all raw codes observed.
pub struct Calibration {
    bounds: Option<(u16, u16)>,
}

impl Calibration {
    /// The least and greatest code observed, once there is one.
    pub closed spec fn bounds(&self) -> Option<(u16, u16)> {
        self.bounds
    }

    pub open spec fn wf(&self) -> bool {
        match self.bounds() {
            None => true,
            Some((lo, hi)) => lo <= hi,
        }
    }

    /// A scale that has observed nothing yet.
    pub fn new() -> (r: Calibration)
        ensures
            r.wf(),
            r.bounds() == None::<(u16, u16)>,
    {
        Calibration { bounds: None }
    }

    /// Observes `code` and returns its position in the widened bounds, in
    /// hundredths of a percent.
    pub fn observe(&mut self, code: u16) -> (percent: u16)
        requires
            old(self).wf(),
        ensures
            final(self).wf(),
            final(self).bounds() == Some(widened(old(self).bounds(), code)),
            percent == scaled(widened(old(self).bounds(), code).0, widened(old(self).bounds(), code).1, code),
            percent <= FULL_SCALE,
            match (old(self).bounds(), final(self).bounds()) {
                (Some((lo0, hi0)), Some((lo1, hi1))) => lo1 <= lo0 && hi0 <= hi1,
                _ => true,
            },
    {
        let (lo, hi) = match self.bounds {
            None => (code, code),
            Some((lo, hi)) => (
                if code < lo { code } else { lo },
                if code > hi { code } else { hi },
            ),
        };
        self.bounds = Some((lo, hi));
        if hi == lo {
            0
        } else {
            let num: u32 = (code - lo) as u32 * (FULL_SCALE as u32);
            let den: u32 = (hi - lo) as u32;
            proof {
                assert(num / den <= FULL_SCALE as u32) by (nonlinear_arith)
                    requires
                        num == (code - lo) * (FULL_SCALE as int),
                        den == hi - lo,
                        code <= hi,
                        den > 0,
                ;
            }
            (num / den) as u16
        }
    }
}

} // verus!
