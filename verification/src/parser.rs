//! What a selector parser asks of a vocabulary of pseudo-selectors.

use vstd::prelude::*;

verus! {

/// Where the selector text that is being parsed comes from.
#[derive(Clone, Copy, Debug)]
pub struct ParserContext {
    /// The text belongs to a stylesheet of the user agent, which may use the
    /// names that are closed to authors.
    pub in_user_agent_stylesheet: bool,
}

/// A vocabulary of pseudo-elements and pseudo-classes, with the resolution
/// of their names.
///
/// What a name resolves to depends on the name and the context alone. A
/// name that is not resolved is rejected with one and the same error,
/// whether it is unknown or closed to the stylesheet at hand.
pub trait SelectorImpl {
    type PseudoElement;

    type NonTSPseudoClass;

    /// The pseudo-class that `name` resolves to in `context`.
    spec fn parsed_non_ts_pseudo_class(context: ParserContext, name: Seq<char>) -> Result<
        Self::NonTSPseudoClass,
        (),
    >;

    /// The pseudo-element that `name` resolves to in `context`.
    spec fn parsed_pseudo_element(context: ParserContext, name: Seq<char>) -> Result<
        Self::PseudoElement,
        (),
    >;

    /// Resolves the name of a pseudo-class.
    fn parse_non_ts_pseudo_class(context: &ParserContext, name: &str) -> (r: Result<
        Self::NonTSPseudoClass,
        (),
    >)
        ensures
            r == Self::parsed_non_ts_pseudo_class(*context, name@),
    ;

    /// Resolves the name of a pseudo-element.
    fn parse_pseudo_element(context: &ParserContext, name: &str) -> (r: Result<
        Self::PseudoElement,
        (),
    >)
        ensures
            r == Self::parsed_pseudo_element(*context, name@),
    ;
}

} // verus!
