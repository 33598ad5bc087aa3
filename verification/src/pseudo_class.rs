//! The pseudo-classes, other than the tree-structural ones, that the engine
//! recognises.

use vstd::prelude::*;
use vstd::utf8::is_ascii_chars;
use crate::ascii_case::{eq_ignore_ascii_case, to_ascii_lowercase};
use crate::element_state::ElementState;
use crate::element_state::{
    IN_ACTIVE_STATE, IN_CHECKED_STATE, IN_DISABLED_STATE, IN_ENABLED_STATE, IN_FOCUS_STATE,
    IN_HOVER_STATE, IN_INDETERMINATE_STATE, IN_READ_WRITE_STATE,
};

verus! {

/// A pseudo-class that tests what an element is or the state it is in,
/// not its place in the tree.
#[derive(Clone, Copy, Debug, PartialEq, Eq, Structural, Hash)]
pub enum NonTSPseudoClass {
    AnyLink,
    Link,
    Visited,
    Active,
    Focus,
    Hover,
    Enabled,
    Disabled,
    Checked,
    Indeterminate,
    ServoNonZeroBorder,
    ReadWrite,
    ReadOnly,
}

impl NonTSPseudoClass {
    /// The name by which a selector refers to the pseudo-class, in lower
    /// case.
    pub open spec fn name(self) -> Seq<char> {
        match self {
            NonTSPseudoClass::AnyLink => "any-link"@,
            NonTSPseudoClass::Link => "link"@,
            NonTSPseudoClass::Visited => "visited"@,
            NonTSPseudoClass::Active => "active"@,
            NonTSPseudoClass::Focus => "focus"@,
            NonTSPseudoClass::Hover => "hover"@,
            NonTSPseudoClass::Enabled => "enabled"@,
            NonTSPseudoClass::Disabled => "disabled"@,
            NonTSPseudoClass::Checked => "checked"@,
            NonTSPseudoClass::Indeterminate => "indeterminate"@,
            NonTSPseudoClass::ServoNonZeroBorder => "-servo-nonzero-border"@,
            NonTSPseudoClass::ReadWrite => "read-write"@,
            NonTSPseudoClass::ReadOnly => "read-only"@,
        }
    }

    /// The name of the pseudo-class as it is written in a selector.
    pub fn as_str(&self) -> (text: &'static str)
        ensures
            text@ == self.name(),
    {
        match *self {
            NonTSPseudoClass::AnyLink => "any-link",
            NonTSPseudoClass::Link => "link",
            NonTSPseudoClass::Visited => "visited",
            NonTSPseudoClass::Active => "active",
            NonTSPseudoClass::Focus => "focus",
            NonTSPseudoClass::Hover => "hover",
            NonTSPseudoClass::Enabled => "enabled",
            NonTSPseudoClass::Disabled => "disabled",
            NonTSPseudoClass::Checked => "checked",
            NonTSPseudoClass::Indeterminate => "indeterminate",
            NonTSPseudoClass::ServoNonZeroBorder => "-servo-nonzero-border",
            NonTSPseudoClass::ReadWrite => "read-write",
            NonTSPseudoClass::ReadOnly => "read-only",
        }
    }

    /// The pseudo-class that `name` stands for, whatever the case of its
    /// ASCII letters.
    pub open spec fn named(name: Seq<char>) -> Option<NonTSPseudoClass> {
        if eq_ignore_ascii_case(name, NonTSPseudoClass::AnyLink.name()) {
            Some(NonTSPseudoClass::AnyLink)
        } else if eq_ignore_ascii_case(name, NonTSPseudoClass::Link.name()) {
            Some(NonTSPseudoClass::Link)
        } else if eq_ignore_ascii_case(name, NonTSPseudoClass::Visited.name()) {
            Some(NonTSPseudoClass::Visited)
        } else if eq_ignore_ascii_case(name, NonTSPseudoClass::Active.name()) {
            Some(NonTSPseudoClass::Active)
        } else if eq_ignore_ascii_case(name, NonTSPseudoClass::Focus.name()) {
            Some(NonTSPseudoClass::Focus)
        } else if eq_ignore_ascii_case(name, NonTSPseudoClass::Hover.name()) {
            Some(NonTSPseudoClass::Hover)
        } else if eq_ignore_ascii_case(name, NonTSPseudoClass::Enabled.name()) {
            Some(NonTSPseudoClass::Enabled)
        } else if eq_ignore_ascii_case(name, NonTSPseudoClass::Disabled.name()) {
            Some(NonTSPseudoClass::Disabled)
        } else if eq_ignore_ascii_case(name, NonTSPseudoClass::Checked.name()) {
            Some(NonTSPseudoClass::Checked)
        } else if eq_ignore_ascii_case(name, NonTSPseudoClass::Indeterminate.name()) {
            Some(NonTSPseudoClass::Indeterminate)
        } else if eq_ignore_ascii_case(name, NonTSPseudoClass::ReadWrite.name()) {
            Some(NonTSPseudoClass::ReadWrite)
        } else if eq_ignore_ascii_case(name, NonTSPseudoClass::ReadOnly.name()) {
            Some(NonTSPseudoClass::ReadOnly)
        } else if eq_ignore_ascii_case(name, NonTSPseudoClass::ServoNonZeroBorder.name()) {
            Some(NonTSPseudoClass::ServoNonZeroBorder)
        } else {
            None
        }
    }

    /// Whether only a user-agent stylesheet may name the pseudo-class.
    pub open spec fn is_restricted(self) -> bool {
        self is ServoNonZeroBorder
    }

    /// The bits of the state flag that the pseudo-class tests: zero for a
    /// pseudo-class that tests no dynamic state.
    pub open spec fn state_bits(self) -> u16 {
        match self {
            NonTSPseudoClass::Active => IN_ACTIVE_STATE,
            NonTSPseudoClass::Focus => IN_FOCUS_STATE,
            NonTSPseudoClass::Hover => IN_HOVER_STATE,
            NonTSPseudoClass::Enabled => IN_ENABLED_STATE,
            NonTSPseudoClass::Disabled => IN_DISABLED_STATE,
            NonTSPseudoClass::Checked => IN_CHECKED_STATE,
            NonTSPseudoClass::Indeterminate => IN_INDETERMINATE_STATE,
            NonTSPseudoClass::ReadOnly | NonTSPseudoClass::ReadWrite => IN_READ_WRITE_STATE,
            NonTSPseudoClass::AnyLink
            | NonTSPseudoClass::Link
            | NonTSPseudoClass::Visited
            | NonTSPseudoClass::ServoNonZeroBorder => 0,
        }
    }

    /// The state flag that the pseudo-class tests.
    pub open spec fn spec_state_flag(&self) -> ElementState {
        ElementState { bits: self.state_bits() }
    }

    /// The element-state flag whose change can alter whether the
    /// pseudo-class matches; the empty set where none can.
    #[verifier::when_used_as_spec(spec_state_flag)]
    pub fn state_flag(&self) -> (flag: ElementState)
        ensures
            flag == self.spec_state_flag(),
    {
        match *self {
            NonTSPseudoClass::Active => ElementState { bits: IN_ACTIVE_STATE },
            NonTSPseudoClass::Focus => ElementState { bits: IN_FOCUS_STATE },
            NonTSPseudoClass::Hover => ElementState { bits: IN_HOVER_STATE },
            NonTSPseudoClass::Enabled => ElementState { bits: IN_ENABLED_STATE },
            NonTSPseudoClass::Disabled => ElementState { bits: IN_DISABLED_STATE },
            NonTSPseudoClass::Checked => ElementState { bits: IN_CHECKED_STATE },
            NonTSPseudoClass::Indeterminate => ElementState { bits: IN_INDETERMINATE_STATE },
            NonTSPseudoClass::ReadOnly | NonTSPseudoClass::ReadWrite => ElementState {
                bits: IN_READ_WRITE_STATE,
            },
            NonTSPseudoClass::AnyLink
            | NonTSPseudoClass::Link
            | NonTSPseudoClass::Visited
            | NonTSPseudoClass::ServoNonZeroBorder => ElementState::empty(),
        }
    }
}

/// Each name is written in ASCII and holds no upper-case letter.
pub proof fn lemma_pseudo_class_name_is_lowercase_ascii(pc: NonTSPseudoClass)
    ensures
        is_ascii_chars(pc.name()),
        to_ascii_lowercase(pc.name()) == pc.name(),
{
    reveal_strlit("any-link");
    reveal_strlit("link");
    reveal_strlit("visited");
    reveal_strlit("active");
    reveal_strlit("focus");
    reveal_strlit("hover");
    reveal_strlit("enabled");
    reveal_strlit("disabled");
    reveal_strlit("checked");
    reveal_strlit("indeterminate");
    reveal_strlit("-servo-nonzero-border");
    reveal_strlit("read-write");
    reveal_strlit("read-only");
    assert(to_ascii_lowercase(pc.name()) =~= pc.name());
}

/// No two pseudo-classes share a name, even up to the case of the letters.
pub proof fn lemma_pseudo_class_names_differ(a: NonTSPseudoClass, b: NonTSPseudoClass)
    requires
        eq_ignore_ascii_case(a.name(), b.name()),
    ensures
        a == b,
{
    lemma_pseudo_class_name_is_lowercase_ascii(a);
    lemma_pseudo_class_name_is_lowercase_ascii(b);
    reveal_strlit("any-link");
    reveal_strlit("link");
    reveal_strlit("visited");
    reveal_strlit("active");
    reveal_strlit("focus");
    reveal_strlit("hover");
    reveal_strlit("enabled");
    reveal_strlit("disabled");
    reveal_strlit("checked");
    reveal_strlit("indeterminate");
    reveal_strlit("-servo-nonzero-border");
    reveal_strlit("read-write");
    reveal_strlit("read-only");
    assert(a.name().len() == b.name().len());
    assert(a.name()[0] == b.name()[0]);
}

/// A name stands for a pseudo-class exactly when it is that pseudo-class's
/// own name up to the case of the letters.
pub proof fn lemma_pseudo_class_named(name: Seq<char>, pc: NonTSPseudoClass)
    ensures
        NonTSPseudoClass::named(name) == Some(pc) <==> eq_ignore_ascii_case(name, pc.name()),
{
    if eq_ignore_ascii_case(name, pc.name()) {
        assert forall|other: NonTSPseudoClass|
            eq_ignore_ascii_case(name, other.name()) implies other == pc by {
            lemma_pseudo_class_names_differ(other, pc);
        }
    }
}

} // verus!
