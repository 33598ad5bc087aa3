//! Pseudo-element and pseudo-class vocabulary of a browser engine, with the
//! rules that a generic selector-matching engine needs from it: name
//! resolution gated by stylesheet trust, the element-state flag of each
//! pseudo-class, and the split of pseudo-elements into eagerly and
//! non-eagerly cascaded ones.

pub mod ascii_case;
pub mod element;
pub mod element_state;
pub mod integration;
pub mod laws;
pub mod parser;
pub mod pseudo_class;
pub mod pseudo_element;
pub mod servo;

pub use crate::element::{Element, ElementExt};
pub use crate::element_state::ElementState;
pub use crate::integration::SelectorImplExt;
pub use crate::parser::{ParserContext, SelectorImpl};
pub use crate::pseudo_class::NonTSPseudoClass;
pub use crate::pseudo_element::PseudoElement;
pub use crate::servo::ServoSelectorImpl;
