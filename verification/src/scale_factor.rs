//! A ratio between two units of measurement.

use core::marker::PhantomData;
use vstd::prelude::*;

verus! {

/// The ratio by which a payload measured in `Src` is multiplied to give the same
/// measure in `Dst`.
///
/// Neither unit takes part in the representation: the only datum is the ratio, field `0`.
#[derive(Debug)]
pub struct ScaleFactor<Src, Dst, T>(pub T, pub PhantomData<(Src, Dst)>);

impl<Src, Dst, T> ScaleFactor<Src, Dst, T> {
    /// The scale factor whose ratio is `x`.
    pub open spec fn of(x: T) -> Self {
        ScaleFactor(x, PhantomData)
    }

    pub fn new(x: T) -> (r: ScaleFactor<Src, Dst, T>)
        ensures
            r == Self::of(x),
    {
        ScaleFactor(x, PhantomData)
    }
}

impl<Src, Dst, T: Clone> ScaleFactor<Src, Dst, T> {
    /// A copy of the ratio.
    pub fn get(&self) -> (r: T)
        ensures
            cloned::<T>(self.0, r),
    {
        self.0.clone()
    }
}

impl<Src, Dst, T: Clone> Clone for ScaleFactor<Src, Dst, T> {
    fn clone(&self) -> (r: ScaleFactor<Src, Dst, T>)
        ensures
            cloned::<T>(self.0, r.0),
    {
        ScaleFactor::new(self.get())
    }
}

impl<Src, Dst, T: Copy> Copy for ScaleFactor<Src, Dst, T> {
}

} // verus!
