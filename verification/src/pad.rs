//! Pleasure, arousal, and dominance state.
use crate::binary32::{MINUS_ONE_BITS, ONE_BITS};
use crate::values::{validated, PadValue, ValueError};
use vstd::prelude::*;

verus! {

/// Pleasure, arousal, and dominance state; each axis is a binary32 pattern.
#[derive(Clone, Copy, Debug, PartialEq, Eq, Structural)]
pub struct Pad {
    pub pleasure: u32,
    pub arousal: u32,
    pub dominance: u32,
}

/// What validating one axis yields.
pub open spec fn axis(value: u32) -> Result<u32, ValueError> {
    validated(value, MINUS_ONE_BITS, ONE_BITS)
}

/// What `Pad::new` returns: the first axis error in pleasure, arousal,
/// dominance order, else the three canonical axes.
pub open spec fn pad_new_result(pleasure: u32, arousal: u32, dominance: u32) -> Result<
    Pad,
    ValueError,
> {
    match axis(pleasure) {
        Err(e) => Err(e),
        Ok(p) => match axis(arousal) {
            Err(e) => Err(e),
            Ok(a) => match axis(dominance) {
                Err(e) => Err(e),
                Ok(d) => Ok(Pad { pleasure: p, arousal: a, dominance: d }),
            },
        },
    }
}

/// What `Pad::validate` returns: the first axis error, else success.
pub open spec fn pad_validation(pad: Pad) -> Result<(), ValueError> {
    match pad_new_result(pad.pleasure, pad.arousal, pad.dominance) {
        Err(e) => Err(e),
        Ok(_) => Ok(()),
    }
}

impl Default for Pad {
    /// The neutral state: every axis is `+0.0`.
    fn default() -> (r: Self)
        ensures
            r == (Pad { pleasure: 0, arousal: 0, dominance: 0 }),
    {
        Pad { pleasure: 0, arousal: 0, dominance: 0 }
    }
}

impl Pad {
    /// Constructs a PAD value after validating and normalizing all axes.
    pub fn new(pleasure: u32, arousal: u32, dominance: u32) -> (r: Result<Self, ValueError>)
        ensures
            r == pad_new_result(pleasure, arousal, dominance),
    {
        let p = PadValue::new(pleasure)?.value();
        let a = PadValue::new(arousal)?.value();
        let d = PadValue::new(dominance)?.value();
        Ok(Pad { pleasure: p, arousal: a, dominance: d })
    }

    /// Validates a PAD value, including values written through its public fields.
    pub fn validate(&self) -> (r: Result<(), ValueError>)
        ensures
            r == pad_validation(*self),
    {
        PadValue::new(self.pleasure)?;
        PadValue::new(self.arousal)?;
        PadValue::new(self.dominance)?;
        Ok(())
    }
}

} // verus!
