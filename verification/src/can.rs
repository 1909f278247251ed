//! Kernel-side state of the CAN controller driver: the peripheral clock
//! gate and the controller's operating mode. The memory-mapped register
//! block, the clock tree and the interrupt plumbing are hardware owned by
//! the surrounding system; what the driver itself tracks and decides is
//! kept here as plain state.

use vstd::prelude::*;

verus! {

/// The controller's high-level mode. The driver starts in initialization
/// mode and leaves it only as part of the hardware bring-up sequence.
#[derive(Clone, Copy, PartialEq, Eq, Structural, Debug)]
pub enum CanOperatingMode {
    Initialization,
    Normal,
    Sleep,
}

/// Mathematical image of a [`Can`] controller's driver state.
#[verifier::ext_equal]
pub ghost struct CanV {
    pub clock_enabled: bool,
    pub operating_mode: CanOperatingMode,
}

/// The peripheral clock gate feeding the controller. Its view is simply
/// whether the clock currently reaches the peripheral.
struct CanClock {
    enabled: bool,
}

impl View for CanClock {
    type V = bool;

    closed spec fn view(&self) -> bool {
        self.enabled
    }
}

impl CanClock {
    fn new() -> (c: CanClock)
        ensures
            !c@,
    {
        CanClock { enabled: false }
    }

    fn is_enabled(&self) -> (r: bool)
        ensures
            r == self@,
    {
        self.enabled
    }

    fn enable(&mut self)
        ensures
            final(self)@,
    {
        self.enabled = true;
    }

    fn disable(&mut self)
        ensures
            !final(self)@,
    {
        self.enabled = false;
    }
}

/// The CAN controller driver's own state. A fresh controller sits in
/// initialization mode with its clock gated off.
pub struct Can {
    clock: CanClock,
    operating_mode: CanOperatingMode,
}

impl View for Can {
    type V = CanV;

    closed spec fn view(&self) -> CanV {
        CanV { clock_enabled: self.clock@, operating_mode: self.operating_mode }
    }
}

impl Can {
    /// A controller as reset leaves it: initialization mode, clock gated.
    pub fn new() -> (c: Can)
        ensures
            c@.operating_mode == CanOperatingMode::Initialization,
            !c@.clock_enabled,
    {
        Can { clock: CanClock::new(), operating_mode: CanOperatingMode::Initialization }
    }

    /// Bringing the controller out of initialization belongs to the
    /// hardware bring-up sequence that the register glue owns; the
    /// driver-side state machine has nothing to change here.
    pub fn enable(&self) {
    }

    /// Whether the peripheral clock currently feeds the controller.
    pub fn is_enabled_clock(&self) -> (r: bool)
        ensures
            r == self@.clock_enabled,
    {
        self.clock.is_enabled()
    }

    /// Opens the peripheral clock gate; the operating mode is untouched.
    pub fn enable_clock(&mut self)
        ensures
            final(self)@ == (CanV { clock_enabled: true, ..old(self)@ }),
    {
        self.clock.enable();
    }

    /// Closes the peripheral clock gate; the operating mode is untouched.
    pub fn disable_clock(&mut self)
        ensures
            final(self)@ == (CanV { clock_enabled: false, ..old(self)@ }),
    {
        self.clock.disable();
    }

    /// The mode the driver believes the controller is in.
    pub fn operating_mode(&self) -> (m: CanOperatingMode)
        ensures
            m == self@.operating_mode,
    {
        self.operating_mode
    }
}

} // verus!
