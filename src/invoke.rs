//! The continuation protocol that every builder is generic over.
use vstd::prelude::*;

verus! {

/// A one-shot receiver of a finished value of type `V`.
///
/// `invoke` consumes the receiver, so it runs at most once. It may be given
/// only a value that `accepts` admits; what it hands back is related to that
/// value by `delivers`.
pub trait Invoke<V>: Sized {
    type Result;

    /// Whether this receiver can absorb `value`; by default, any value.
    open spec fn accepts(&self, value: V) -> bool {
        true
    }

    /// `r` is what this receiver yields once it has absorbed `value`.
    /// By default nothing is known of `r`.
    open spec fn delivers(&self, value: V, r: Self::Result) -> bool {
        true
    }

    fn invoke(self, value: V) -> (r: Self::Result)
        requires
            self.accepts(value),
        ensures
            self.delivers(value, r),
    ;
}

/// The receiver of a builder used at the top level: it hands the value back.
#[derive(Clone, Copy, Debug, PartialEq, Eq)]
pub struct Identity;

impl<V> Invoke<V> for Identity {
    type Result = V;

    open spec fn accepts(&self, value: V) -> bool {
        true
    }

    open spec fn delivers(&self, value: V, r: V) -> bool {
        r == value
    }

    fn invoke(self, value: V) -> (r: V) {
        value
    }
}

} // verus!
