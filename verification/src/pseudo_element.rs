//! The pseudo-elements that the engine recognises.

use vstd::prelude::*;
use vstd::utf8::is_ascii_chars;
use crate::ascii_case::{eq_ignore_ascii_case, to_ascii_lowercase};

verus! {

/// A part of an element that is no element of the tree itself, and that a
/// selector can address.
#[derive(Clone, Copy, Debug, PartialEq, Eq, Structural, Hash)]
pub enum PseudoElement {
    Before,
    After,
    Selection,
    DetailsSummary,
    DetailsContent,
}

impl PseudoElement {
    /// The name by which a selector refers to the pseudo-element, in lower
    /// case.
    pub open spec fn name(self) -> Seq<char> {
        match self {
            PseudoElement::Before => "before"@,
            PseudoElement::After => "after"@,
            PseudoElement::Selection => "selection"@,
            PseudoElement::DetailsSummary => "-servo-details-summary"@,
            PseudoElement::DetailsContent => "-servo-details-content"@,
        }
    }

    /// The name of the pseudo-element as it is written in a selector.
    pub fn as_str(&self) -> (text: &'static str)
        ensures
            text@ == self.name(),
    {
        match *self {
            PseudoElement::Before => "before",
            PseudoElement::After => "after",
            PseudoElement::Selection => "selection",
            PseudoElement::DetailsSummary => "-servo-details-summary",
            PseudoElement::DetailsContent => "-servo-details-content",
        }
    }

    /// The pseudo-element that `name` stands for, whatever the case of its
    /// ASCII letters.
    pub open spec fn named(name: Seq<char>) -> Option<PseudoElement> {
        if eq_ignore_ascii_case(name, PseudoElement::Before.name()) {
            Some(PseudoElement::Before)
        } else if eq_ignore_ascii_case(name, PseudoElement::After.name()) {
            Some(PseudoElement::After)
        } else if eq_ignore_ascii_case(name, PseudoElement::Selection.name()) {
            Some(PseudoElement::Selection)
        } else if eq_ignore_ascii_case(name, PseudoElement::DetailsSummary.name()) {
            Some(PseudoElement::DetailsSummary)
        } else if eq_ignore_ascii_case(name, PseudoElement::DetailsContent.name()) {
            Some(PseudoElement::DetailsContent)
        } else {
            None
        }
    }

    /// Whether only a user-agent stylesheet may name the pseudo-element.
    pub open spec fn is_restricted(self) -> bool {
        self is DetailsSummary || self is DetailsContent
    }

    /// Every pseudo-element but the content of a details element takes part
    /// in the cascade.
    pub open spec fn spec_is_eagerly_cascaded(&self) -> bool {
        !(*self is DetailsContent)
    }

    /// Whether the pseudo-element is cascaded like an ordinary element,
    /// rather than resolved from global rules on its parent's style.
    #[inline]
    #[verifier::when_used_as_spec(spec_is_eagerly_cascaded)]
    pub fn is_eagerly_cascaded(&self) -> (r: bool)
        ensures
            r == self.spec_is_eagerly_cascaded(),
    {
        match *self {
            PseudoElement::Before
            | PseudoElement::After
            | PseudoElement::Selection
            | PseudoElement::DetailsSummary => true,
            PseudoElement::DetailsContent => false,
        }
    }
}

/// Each name is written in ASCII and holds no upper-case letter.
pub proof fn lemma_pseudo_element_name_is_lowercase_ascii(pseudo: PseudoElement)
    ensures
        is_ascii_chars(pseudo.name()),
        to_ascii_lowercase(pseudo.name()) == pseudo.name(),
{
    reveal_strlit("before");
    reveal_strlit("after");
    reveal_strlit("selection");
    reveal_strlit("-servo-details-summary");
    reveal_strlit("-servo-details-content");
    assert(to_ascii_lowercase(pseudo.name()) =~= pseudo.name());
}

/// No two pseudo-elements share a name, even up to the case of the letters.
pub proof fn lemma_pseudo_element_names_differ(a: PseudoElement, b: PseudoElement)
    requires
        eq_ignore_ascii_case(a.name(), b.name()),
    ensures
        a == b,
{
    lemma_pseudo_element_name_is_lowercase_ascii(a);
    lemma_pseudo_element_name_is_lowercase_ascii(b);
    reveal_strlit("before");
    reveal_strlit("after");
    reveal_strlit("selection");
    reveal_strlit("-servo-details-summary");
    reveal_strlit("-servo-details-content");
    assert(a.name().len() == b.name().len());
    assert(a.name()[15] == b.name()[15]);
}

/// A name stands for a pseudo-element exactly when it is that
/// pseudo-element's own name up to the case of the letters.
pub proof fn lemma_pseudo_element_named(name: Seq<char>, pseudo: PseudoElement)
    ensures
        PseudoElement::named(name) == Some(pseudo) <==> eq_ignore_ascii_case(name, pseudo.name()),
{
    if eq_ignore_ascii_case(name, pseudo.name()) {
        assert forall|other: PseudoElement|
            eq_ignore_ascii_case(name, other.name()) implies other == pseudo by {
            lemma_pseudo_element_names_differ(other, pseudo);
        }
    }
}

} // verus!
