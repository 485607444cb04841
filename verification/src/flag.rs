//! The flag that ends the driving loop: set once, read many times.

use vstd::prelude::*;

use crate::msg::Readiness;

verus! {

/// A one-way flag. It starts unset, `quit` sets it, and nothing unsets it.
///
/// There is one flag per value and no way to copy it: whoever wants to set or
/// read it has to reach this value, so a set is seen by every reader.
#[derive(Debug)]
pub struct QuitFuture {
    quitted: bool,
}

impl QuitFuture {
    /// Whether the flag is set.
    pub closed spec fn quitted(&self) -> bool {
        self.quitted
    }

    /// What the flag reads after one more `quit`, whatever it read before.
    pub open spec fn set_once(quitted: bool) -> bool {
        true
    }

    /// What the flag reads after `n` calls of `quit`.
    pub open spec fn set_times(quitted: bool, n: nat) -> bool
        decreases n,
    {
        if n == 0 {
            quitted
        } else {
            Self::set_once(Self::set_times(quitted, (n - 1) as nat))
        }
    }

    /// An unset flag.
    pub fn new() -> (flag: Self)
        ensures
            !flag.quitted(),
    {
        QuitFuture { quitted: false }
    }

    /// Sets the flag. Setting a flag that is already set changes nothing.
    pub fn quit(&mut self)
        ensures
            final(self).quitted() == Self::set_once(old(self).quitted()),
            final(self).quitted(),
    {
        self.quitted = true;
    }

    /// Whether the flag is set.
    pub fn observe(&self) -> (set: bool)
        ensures
            set == self.quitted(),
    {
        self.quitted
    }

    /// The flag read as a poll: ready once it is set, not ready until then.
    pub fn poll(&self) -> (outcome: Readiness<()>)
        ensures
            outcome == (if self.quitted() {
                Readiness::Ready(())
            } else {
                Readiness::NotReady
            }),
    {
        if self.quitted {
            Readiness::Ready(())
        } else {
            Readiness::NotReady
        }
    }

    /// However often `quit` is called, after the first call the flag reads
    /// set.
    pub proof fn lemma_set_is_idempotent(quitted: bool, n: nat)
        requires
            n >= 1,
        ensures
            Self::set_times(quitted, n),
            Self::set_times(quitted, n) == Self::set_times(quitted, 1),
    {
        reveal_with_fuel(QuitFuture::set_times, 2);
    }
}

} // verus!
