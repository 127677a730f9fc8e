//! Secure-wipe capability, forwarded through the wrapper.

use vstd::prelude::*;

use crate::{Redacted, Redactor};

verus! {

/// A value that can erase its own sensitive content in place.
pub trait Zeroize {
    /// True when this value holds no sensitive content any more.
    spec fn spec_zeroed(&self) -> bool;

    /// Overwrite the sensitive content with its zero equivalent.
    fn zeroize(&mut self)
        ensures
            final(self).spec_zeroed(),
    ;
}

impl Zeroize for i32 {
    open spec fn spec_zeroed(&self) -> bool {
        *self == 0
    }

    fn zeroize(&mut self) {
        *self = 0;
    }
}

impl Zeroize for u8 {
    open spec fn spec_zeroed(&self) -> bool {
        *self == 0
    }

    fn zeroize(&mut self) {
        *self = 0;
    }
}

impl Zeroize for u64 {
    open spec fn spec_zeroed(&self) -> bool {
        *self == 0
    }

    fn zeroize(&mut self) {
        *self = 0;
    }
}

/// A vector is wiped element by element; its length is unchanged.
impl<Z: Zeroize> Zeroize for Vec<Z> {
    open spec fn spec_zeroed(&self) -> bool {
        forall|i: int| 0 <= i < self@.len() ==> (#[trigger] self@[i]).spec_zeroed()
    }

    fn zeroize(&mut self)
        ensures
            final(self)@.len() == old(self)@.len(),
    {
        let n = self.len();
        let mut i: usize = 0;
        while i < n
            invariant
                n == self@.len(),
                i <= n,
                forall|j: int| 0 <= j < i ==> (#[trigger] self@[j]).spec_zeroed(),
            decreases n - i,
        {
            self[i].zeroize();
            i = i + 1;
        }
    }
}

/// A wipe that can report failure: when `try_zeroize` answers `true`, the
/// value has been wiped as [`Zeroize::zeroize`] would have left it.
pub trait TryZeroize: Zeroize {
    /// Attempt the wipe, reporting whether it took effect.
    fn try_zeroize(&mut self) -> (r: bool)
        ensures
            r ==> final(self).spec_zeroed(),
    ;
}

impl TryZeroize for i32 {
    fn try_zeroize(&mut self) -> (r: bool)
        ensures
            r,
    {
        *self = 0;
        true
    }
}

/// Wiping a wrapper wipes exactly the wrapped value; the wrapper holds no
/// other sensitive state.
impl<T: Zeroize, R: Redactor<T>> Zeroize for Redacted<T, R> {
    open spec fn spec_zeroed(&self) -> bool {
        self.spec_inner().spec_zeroed()
    }

    fn zeroize(&mut self) {
        self.inner_mut().zeroize();
    }
}

/// The fallible wipe is forwarded in the same way; a reported success means
/// the wrapped value was wiped.
impl<T: TryZeroize, R: Redactor<T>> TryZeroize for Redacted<T, R> {
    fn try_zeroize(&mut self) -> (r: bool) {
        self.inner_mut().try_zeroize()
    }
}

} // verus!
