//! The vocabulary of the Servo engine.

use vstd::prelude::*;
use crate::ascii_case::names_match;
use crate::element_state::ElementState;
use crate::integration::SelectorImplExt;
use crate::parser::{ParserContext, SelectorImpl};
use crate::pseudo_class::NonTSPseudoClass;
use crate::pseudo_element::PseudoElement;

verus! {

/// The pseudo-selectors of Servo.
#[derive(Clone, Copy, Debug, PartialEq)]
pub struct ServoSelectorImpl;

impl SelectorImpl for ServoSelectorImpl {
    type PseudoElement = PseudoElement;

    type NonTSPseudoClass = NonTSPseudoClass;

    open spec fn parsed_non_ts_pseudo_class(context: ParserContext, name: Seq<char>) -> Result<
        NonTSPseudoClass,
        (),
    > {
        match NonTSPseudoClass::named(name) {
            Some(pc) => if pc.is_restricted() && !context.in_user_agent_stylesheet {
                Err(())
            } else {
                Ok(pc)
            },
            None => Err(()),
        }
    }

    open spec fn parsed_pseudo_element(context: ParserContext, name: Seq<char>) -> Result<
        PseudoElement,
        (),
    > {
        match PseudoElement::named(name) {
            Some(pseudo) => if pseudo.is_restricted() && !context.in_user_agent_stylesheet {
                Err(())
            } else {
                Ok(pseudo)
            },
            None => Err(()),
        }
    }

    fn parse_non_ts_pseudo_class(context: &ParserContext, name: &str) -> (r: Result<
        NonTSPseudoClass,
        (),
    >) {
        let pseudo_class = if names_match(name, "any-link") {
            NonTSPseudoClass::AnyLink
        } else if names_match(name, "link") {
            NonTSPseudoClass::Link
        } else if names_match(name, "visited") {
            NonTSPseudoClass::Visited
        } else if names_match(name, "active") {
            NonTSPseudoClass::Active
        } else if names_match(name, "focus") {
            NonTSPseudoClass::Focus
        } else if names_match(name, "hover") {
            NonTSPseudoClass::Hover
        } else if names_match(name, "enabled") {
            NonTSPseudoClass::Enabled
        } else if names_match(name, "disabled") {
            NonTSPseudoClass::Disabled
        } else if names_match(name, "checked") {
            NonTSPseudoClass::Checked
        } else if names_match(name, "indeterminate") {
            NonTSPseudoClass::Indeterminate
        } else if names_match(name, "read-write") {
            NonTSPseudoClass::ReadWrite
        } else if names_match(name, "read-only") {
            NonTSPseudoClass::ReadOnly
        } else if names_match(name, "-servo-nonzero-border") {
            if !context.in_user_agent_stylesheet {
                return Err(());
            }
            NonTSPseudoClass::ServoNonZeroBorder
        } else {
            return Err(());
        };

        Ok(pseudo_class)
    }

    fn parse_pseudo_element(context: &ParserContext, name: &str) -> (r: Result<
        PseudoElement,
        (),
    >) {
        let pseudo_element = if names_match(name, "before") {
            PseudoElement::Before
        } else if names_match(name, "after") {
            PseudoElement::After
        } else if names_match(name, "selection") {
            PseudoElement::Selection
        } else if names_match(name, "-servo-details-summary") {
            if !context.in_user_agent_stylesheet {
                return Err(());
            }
            PseudoElement::DetailsSummary
        } else if names_match(name, "-servo-details-content") {
            if !context.in_user_agent_stylesheet {
                return Err(());
            }
            PseudoElement::DetailsContent
        } else {
            return Err(());
        };

        Ok(pseudo_element)
    }
}

impl SelectorImplExt for ServoSelectorImpl {
    open spec fn pseudo_elements() -> Seq<PseudoElement> {
        seq![
            PseudoElement::Before,
            PseudoElement::After,
            PseudoElement::DetailsContent,
            PseudoElement::DetailsSummary,
            PseudoElement::Selection,
        ]
    }

    open spec fn eagerly_cascaded() -> Set<PseudoElement> {
        Set::new(|pseudo: PseudoElement| pseudo.is_eagerly_cascaded())
    }

    open spec fn state_flag(pc: NonTSPseudoClass) -> ElementState {
        pc.state_flag()
    }

    #[inline]
    fn is_eagerly_cascaded_pseudo_element(pseudo: &PseudoElement) -> (r: bool) {
        pseudo.is_eagerly_cascaded()
    }

    #[inline]
    fn each_pseudo_element<R, F>(fun: F) -> (results: Vec<R>) where F: FnMut(PseudoElement) -> R {
        let mut fun = fun;
        let mut results: Vec<R> = Vec::new();
        results.push(fun(PseudoElement::Before));
        results.push(fun(PseudoElement::After));
        results.push(fun(PseudoElement::DetailsContent));
        results.push(fun(PseudoElement::DetailsSummary));
        results.push(fun(PseudoElement::Selection));
        results
    }

    #[inline]
    fn pseudo_class_state_flag(pc: &NonTSPseudoClass) -> (flag: ElementState) {
        pc.state_flag()
    }
}

} // verus!
