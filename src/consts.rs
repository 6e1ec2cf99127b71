//! The three constants that parameterise the generator.
use vstd::prelude::*;

verus! {

/// The constants of the generator: the lower bound below which a seeding
/// value is corrected (`mz`), the modulus of the arithmetic (`mbig`) and the
/// base subtracted from the seed (`mseed`).
///
/// They are accepted as given: unusual constants give another, still
/// deterministic, sequence.
#[derive(Clone, Copy, Debug, PartialEq, Eq, Hash)]
pub struct DotNet35Const {
    pub mz: i32,
    pub mbig: i32,
    pub mseed: i32,
}

impl DotNet35Const {
    /// The conventional seed base.
    pub const DEFAULT_MSEED: i32 = 161803398;

    /// Constants as given, without any validation.
    pub fn new(mz: i32, mbig: i32, mseed: i32) -> (r: Self)
        ensures
            r.mz == mz,
            r.mbig == mbig,
            r.mseed == mseed,
    {
        Self { mz, mbig, mseed }
    }

    /// The conventional constants `(0, i32::MAX, 161803398)`.
    pub fn new_default() -> (r: Self)
        ensures
            r.is_default(),
    {
        Self { mz: 0, mbig: i32::MAX, mseed: Self::DEFAULT_MSEED }
    }

    /// The conventional constants.
    pub open spec fn conventional() -> Self {
        DotNet35Const { mz: 0, mbig: i32::MAX, mseed: 161803398 }
    }

    /// Whether these are the conventional constants.
    pub open spec fn is_default(self) -> bool {
        self == Self::conventional()
    }
}

impl Default for DotNet35Const {
    /// The conventional constants, as [`DotNet35Const::new_default`].
    fn default() -> (r: Self)
        ensures
            r.is_default(),
    {
        Self::new_default()
    }
}

} // verus!
