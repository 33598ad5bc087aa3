//! The set of dynamic state flags of an element.

use vstd::prelude::*;

verus! {

/// The mouse is down on the element.
pub const IN_ACTIVE_STATE: u16 = 0x01;

/// The element has focus.
pub const IN_FOCUS_STATE: u16 = 0x02;

/// The mouse is hovering over the element.
pub const IN_HOVER_STATE: u16 = 0x04;

/// The content is enabled, and can be disabled.
pub const IN_ENABLED_STATE: u16 = 0x08;

/// The content is disabled.
pub const IN_DISABLED_STATE: u16 = 0x10;

/// The content is checked.
pub const IN_CHECKED_STATE: u16 = 0x20;

/// The content is neither checked nor unchecked.
pub const IN_INDETERMINATE_STATE: u16 = 0x40;

/// The content can be edited by the user.
pub const IN_READ_WRITE_STATE: u16 = 0x80;

/// A set of element-state flags, one bit for each flag.
#[derive(Clone, Copy, Debug, PartialEq, Eq, Structural, Hash)]
pub struct ElementState {
    pub bits: u16,
}

impl ElementState {
    /// No flag is set.
    pub open spec fn spec_is_empty(&self) -> bool {
        self.bits == 0
    }

    /// Exactly one flag is set.
    pub open spec fn is_single_flag(&self) -> bool {
        self.bits != 0 && self.bits & ((self.bits - 1) as u16) == 0
    }

    /// The set without any flag.
    pub fn empty() -> (state: ElementState)
        ensures
            state.bits == 0,
    {
        ElementState { bits: 0 }
    }

    /// Whether no flag is set.
    #[verifier::when_used_as_spec(spec_is_empty)]
    pub fn is_empty(&self) -> (r: bool)
        ensures
            r == self.spec_is_empty(),
    {
        self.bits == 0
    }
}

} // verus!
