//! What is asked of an element, and what is derived from it.

use vstd::prelude::*;
use crate::pseudo_class::NonTSPseudoClass;

verus! {

/// An element as selector matching sees it.
pub trait Element {
    /// Whether the element matches a pseudo-class.
    fn match_non_ts_pseudo_class(&self, pc: NonTSPseudoClass) -> bool;
}

/// Queries that are answered by matching alone.
pub trait ElementExt: Element {
    /// Whether the element is a link: the answer is the one that matching
    /// the element against `AnyLink` gave.
    fn is_link(&self) -> (r: bool)
        ensures
            call_ensures(Self::match_non_ts_pseudo_class, (self, NonTSPseudoClass::AnyLink), r),
    ;
}

impl<E: Element> ElementExt for E {
    fn is_link(&self) -> (r: bool) {
        self.match_non_ts_pseudo_class(NonTSPseudoClass::AnyLink)
    }
}

} // verus!
