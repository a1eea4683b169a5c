//! A switch that tells those who listen to it to shut down, made from the `tari_shutdown` crate.

use vstd::prelude::*;

verus! {

/// A `tari_shutdown::Shutdown` that nobody else holds. Clones of a `Shutdown` share their state, so
/// the one in here is never cloned nor handed out: what a switch is changes only through `&mut`.
#[verifier::external_body]
pub struct Switch {
    inner: tari_shutdown::Shutdown,
}

/// Whether a switch has been turned on.
pub uninterp spec fn is_on(switch: Switch) -> bool;

/// The channel through which a switch reaches those who listen to it. It is given to the switch when
/// it is made.
pub uninterp spec fn channel(switch: Switch) -> int;

impl Switch {
    /// `Shutdown::new` makes a switch that is off.
    #[verifier::external_body]
    pub(crate) fn new() -> (switch: Switch)
        ensures
            !is_on(switch),
    {
        Switch { inner: tari_shutdown::Shutdown::new() }
    }

    /// `Shutdown::trigger` turns the switch on, whether it was on before or not, and leaves it its
    /// channel. That those who listen to the channel are woken is not said here.
    #[verifier::external_body]
    pub(crate) fn trigger(&mut self)
        ensures
            is_on(*final(self)),
            channel(*final(self)) == channel(*old(self)),
    {
        self.inner.trigger();
    }

    /// `Shutdown::is_triggered` tells whether the switch is on.
    #[verifier::external_body]
    pub(crate) fn is_triggered(&self) -> (on: bool)
        ensures
            on == is_on(*self),
    {
        self.inner.is_triggered()
    }

    /// Turns the switch on, and puts a new one, which is off, in its place. The one that was turned
    /// on is handed back.
    pub(crate) fn raise_and_renew(&mut self) -> (raised: Switch)
        ensures
            is_on(raised),
            channel(raised) == channel(*old(self)),
            !is_on(*final(self)),
    {
        self.trigger();
        let mut raised = Switch::new();
        core::mem::swap(self, &mut raised);
        raised
    }
}

} // verus!
