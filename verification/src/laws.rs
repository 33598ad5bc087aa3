//! What holds of the vocabulary as a whole.

use vstd::prelude::*;
use vstd::seq_lib::{lemma_multiset_commutative, to_multiset_build};
use crate::ascii_case::eq_ignore_ascii_case;
use crate::integration::{cascaded_as, lemma_cascaded_as_empty, lemma_cascaded_as_push};
use crate::integration::SelectorImplExt;
use crate::parser::{ParserContext, SelectorImpl};
use crate::pseudo_class::{lemma_pseudo_class_named, NonTSPseudoClass};
use crate::pseudo_element::{lemma_pseudo_element_named, PseudoElement};
use crate::servo::ServoSelectorImpl;

verus! {

/// A name of a pseudo-element, in whatever case its letters are written,
/// resolves to that pseudo-element in a stylesheet of the user agent.
/// Elsewhere it resolves to it as well unless the pseudo-element is
/// restricted, and is rejected if it is.
pub proof fn law_pseudo_element_names_resolve(
    pseudo: PseudoElement,
    name: Seq<char>,
    context: ParserContext,
)
    requires
        eq_ignore_ascii_case(name, pseudo.name()),
    ensures
        context.in_user_agent_stylesheet || !pseudo.is_restricted()
            ==> ServoSelectorImpl::parsed_pseudo_element(context, name) == Ok::<_, ()>(pseudo),
        !context.in_user_agent_stylesheet && pseudo.is_restricted()
            ==> ServoSelectorImpl::parsed_pseudo_element(context, name) is Err,
        pseudo.is_restricted() <==> pseudo == PseudoElement::DetailsSummary || pseudo
            == PseudoElement::DetailsContent,
{
    lemma_pseudo_element_named(name, pseudo);
}

/// A name of a pseudo-class, in whatever case its letters are written,
/// resolves to that pseudo-class in a stylesheet of the user agent.
/// Elsewhere it resolves to it as well unless the pseudo-class is
/// restricted, and is rejected if it is.
pub proof fn law_pseudo_class_names_resolve(
    pc: NonTSPseudoClass,
    name: Seq<char>,
    context: ParserContext,
)
    requires
        eq_ignore_ascii_case(name, pc.name()),
    ensures
        context.in_user_agent_stylesheet || !pc.is_restricted()
            ==> ServoSelectorImpl::parsed_non_ts_pseudo_class(context, name) == Ok::<_, ()>(pc),
        !context.in_user_agent_stylesheet && pc.is_restricted()
            ==> ServoSelectorImpl::parsed_non_ts_pseudo_class(context, name) is Err,
        pc.is_restricted() <==> pc == NonTSPseudoClass::ServoNonZeroBorder,
{
    lemma_pseudo_class_named(name, pc);
}

/// Two names that differ only in the case of their ASCII letters resolve
/// alike, as pseudo-elements and as pseudo-classes.
pub proof fn law_resolution_ignores_ascii_case(
    context: ParserContext,
    name: Seq<char>,
    other: Seq<char>,
)
    requires
        eq_ignore_ascii_case(name, other),
    ensures
        ServoSelectorImpl::parsed_pseudo_element(context, name)
            == ServoSelectorImpl::parsed_pseudo_element(context, other),
        ServoSelectorImpl::parsed_non_ts_pseudo_class(context, name)
            == ServoSelectorImpl::parsed_non_ts_pseudo_class(context, other),
{
}

/// A name that is no pseudo-element's is rejected as a pseudo-element,
/// and one that is no pseudo-class's as a pseudo-class, whatever the
/// context.
pub proof fn law_unknown_names_are_rejected(context: ParserContext, name: Seq<char>)
    ensures
        (forall|pseudo: PseudoElement| !eq_ignore_ascii_case(name, #[trigger] pseudo.name()))
            ==> ServoSelectorImpl::parsed_pseudo_element(context, name) is Err,
        (forall|pc: NonTSPseudoClass| !eq_ignore_ascii_case(name, #[trigger] pc.name()))
            ==> ServoSelectorImpl::parsed_non_ts_pseudo_class(context, name) is Err,
{
}

/// A name is rejected only if it is no name of the vocabulary, or the name
/// of a restricted member met outside a stylesheet of the user agent.
pub proof fn law_rejection_has_one_of_two_causes(context: ParserContext, name: Seq<char>)
    ensures
        ServoSelectorImpl::parsed_pseudo_element(context, name) is Err <==> (forall|
            pseudo: PseudoElement,
        |
            eq_ignore_ascii_case(name, #[trigger] pseudo.name()) ==> pseudo.is_restricted()
                && !context.in_user_agent_stylesheet),
        ServoSelectorImpl::parsed_non_ts_pseudo_class(context, name) is Err <==> (forall|
            pc: NonTSPseudoClass,
        |
            eq_ignore_ascii_case(name, #[trigger] pc.name()) ==> pc.is_restricted()
                && !context.in_user_agent_stylesheet),
{
    assert forall|pseudo: PseudoElement|
        (PseudoElement::named(name) == Some(pseudo)) == eq_ignore_ascii_case(
            name,
            #[trigger] pseudo.name(),
        ) by {
        lemma_pseudo_element_named(name, pseudo);
    }
    assert forall|pc: NonTSPseudoClass|
        (NonTSPseudoClass::named(name) == Some(pc)) == eq_ignore_ascii_case(
            name,
            #[trigger] pc.name(),
        ) by {
        lemma_pseudo_class_named(name, pc);
    }
}

/// Splitting a walk by the way of cascading loses nothing and adds nothing:
/// the two parts together hold each item as often as the walk does. The
/// eager part holds eagerly cascaded items only, the other part none.
pub proof fn law_cascade_split_is_a_partition<P>(all: Seq<P>, eagerly: Set<P>)
    ensures
        (cascaded_as(all, eagerly, true) + cascaded_as(all, eagerly, false)).to_multiset()
            == all.to_multiset(),
        forall|i: int|
            0 <= i < cascaded_as(all, eagerly, true).len() ==> eagerly.contains(
                #[trigger] cascaded_as(all, eagerly, true)[i],
            ),
        forall|i: int|
            0 <= i < cascaded_as(all, eagerly, false).len() ==> !eagerly.contains(
                #[trigger] cascaded_as(all, eagerly, false)[i],
            ),
    decreases all.len(),
{
    if all.len() == 0 {
        assert(all =~= Seq::empty());
        lemma_cascaded_as_empty(eagerly, true);
        lemma_cascaded_as_empty(eagerly, false);
        assert(Seq::<P>::empty() + Seq::<P>::empty() =~= Seq::<P>::empty());
    } else {
        let rest = all.drop_last();
        let last = all.last();
        assert(all =~= rest.push(last));
        law_cascade_split_is_a_partition(rest, eagerly);
        lemma_cascaded_as_push(rest, last, eagerly, true);
        lemma_cascaded_as_push(rest, last, eagerly, false);
        let eager = cascaded_as(rest, eagerly, true);
        let lazy = cascaded_as(rest, eagerly, false);
        lemma_multiset_commutative(eager, lazy);
        to_multiset_build(rest, last);
        if eagerly.contains(last) {
            lemma_multiset_commutative(eager.push(last), lazy);
            to_multiset_build(eager, last);
            assert(eager.to_multiset().insert(last).add(lazy.to_multiset())
                =~= eager.to_multiset().add(lazy.to_multiset()).insert(last));
        } else {
            lemma_multiset_commutative(eager, lazy.push(last));
            to_multiset_build(lazy, last);
            assert(eager.to_multiset().add(lazy.to_multiset().insert(last))
                =~= eager.to_multiset().add(lazy.to_multiset()).insert(last));
        }
    }
}

/// Where a walk visits nothing twice, its two parts together visit nothing
/// twice either.
pub proof fn law_cascade_split_repeats_nothing<P>(all: Seq<P>, eagerly: Set<P>)
    requires
        all.no_duplicates(),
    ensures
        (cascaded_as(all, eagerly, true) + cascaded_as(all, eagerly, false)).no_duplicates(),
{
    law_cascade_split_is_a_partition(all, eagerly);
    all.lemma_multiset_has_no_duplicates();
    (cascaded_as(all, eagerly, true) + cascaded_as(
        all,
        eagerly,
        false,
    )).lemma_multiset_has_no_duplicates_conv();
}

/// The walk over the pseudo-elements of Servo visits every pseudo-element,
/// and none twice. All of them are cascaded eagerly but the content of a
/// details element, so the eager walk leaves out that one alone, and the
/// non-eager walk visits that one alone. The two walks together visit what
/// the whole walk visits, and nothing twice.
pub proof fn law_servo_cascade_split()
    ensures
        ServoSelectorImpl::pseudo_elements().no_duplicates(),
        forall|pseudo: PseudoElement| ServoSelectorImpl::pseudo_elements().contains(pseudo),
        (cascaded_as(
            ServoSelectorImpl::pseudo_elements(),
            ServoSelectorImpl::eagerly_cascaded(),
            true,
        ) + cascaded_as(
            ServoSelectorImpl::pseudo_elements(),
            ServoSelectorImpl::eagerly_cascaded(),
            false,
        )).to_multiset() == ServoSelectorImpl::pseudo_elements().to_multiset(),
        (cascaded_as(
            ServoSelectorImpl::pseudo_elements(),
            ServoSelectorImpl::eagerly_cascaded(),
            true,
        ) + cascaded_as(
            ServoSelectorImpl::pseudo_elements(),
            ServoSelectorImpl::eagerly_cascaded(),
            false,
        )).no_duplicates(),
        forall|pseudo: PseudoElement|
            ServoSelectorImpl::eagerly_cascaded().contains(pseudo) <==> pseudo
                != PseudoElement::DetailsContent,
        cascaded_as(
            ServoSelectorImpl::pseudo_elements(),
            ServoSelectorImpl::eagerly_cascaded(),
            true,
        ) == seq![
            PseudoElement::Before,
            PseudoElement::After,
            PseudoElement::DetailsSummary,
            PseudoElement::Selection,
        ],
        cascaded_as(
            ServoSelectorImpl::pseudo_elements(),
            ServoSelectorImpl::eagerly_cascaded(),
            false,
        ) == seq![PseudoElement::DetailsContent],
{
    let all = ServoSelectorImpl::pseudo_elements();
    let eagerly = ServoSelectorImpl::eagerly_cascaded();
    law_cascade_split_is_a_partition(all, eagerly);
    law_cascade_split_repeats_nothing(all, eagerly);
    assert forall|pseudo: PseudoElement| all.contains(pseudo) by {
        match pseudo {
            PseudoElement::Before => assert(all[0] == pseudo),
            PseudoElement::After => assert(all[1] == pseudo),
            PseudoElement::DetailsContent => assert(all[2] == pseudo),
            PseudoElement::DetailsSummary => assert(all[3] == pseudo),
            PseudoElement::Selection => assert(all[4] == pseudo),
        }
    }
    let s0 = Seq::<PseudoElement>::empty();
    let s1 = s0.push(PseudoElement::Before);
    let s2 = s1.push(PseudoElement::After);
    let s3 = s2.push(PseudoElement::DetailsContent);
    let s4 = s3.push(PseudoElement::DetailsSummary);
    let s5 = s4.push(PseudoElement::Selection);
    assert(s5 =~= all);
    lemma_cascaded_as_empty(eagerly, true);
    lemma_cascaded_as_empty(eagerly, false);
    lemma_cascaded_as_push(s0, PseudoElement::Before, eagerly, true);
    lemma_cascaded_as_push(s0, PseudoElement::Before, eagerly, false);
    lemma_cascaded_as_push(s1, PseudoElement::After, eagerly, true);
    lemma_cascaded_as_push(s1, PseudoElement::After, eagerly, false);
    lemma_cascaded_as_push(s2, PseudoElement::DetailsContent, eagerly, true);
    lemma_cascaded_as_push(s2, PseudoElement::DetailsContent, eagerly, false);
    lemma_cascaded_as_push(s3, PseudoElement::DetailsSummary, eagerly, true);
    lemma_cascaded_as_push(s3, PseudoElement::DetailsSummary, eagerly, false);
    lemma_cascaded_as_push(s4, PseudoElement::Selection, eagerly, true);
    lemma_cascaded_as_push(s4, PseudoElement::Selection, eagerly, false);
    assert(cascaded_as(all, eagerly, true) =~= seq![
        PseudoElement::Before,
        PseudoElement::After,
        PseudoElement::DetailsSummary,
        PseudoElement::Selection,
    ]);
    assert(cascaded_as(all, eagerly, false) =~= seq![PseudoElement::DetailsContent]);
}

/// A pseudo-class has no state flag exactly when it is one of the three
/// that tell links apart or the one that tests for a border. Any other
/// pseudo-class has a flag of one bit.
pub proof fn law_state_flag_is_empty_or_one_bit(pc: NonTSPseudoClass)
    ensures
        pc.state_flag().is_empty() <==> pc == NonTSPseudoClass::AnyLink || pc
            == NonTSPseudoClass::Link || pc == NonTSPseudoClass::Visited || pc
            == NonTSPseudoClass::ServoNonZeroBorder,
        !pc.state_flag().is_empty() ==> pc.state_flag().is_single_flag(),
        ServoSelectorImpl::state_flag(pc) == pc.state_flag(),
{
    assert(0x01u16 & ((0x01u16 - 1) as u16) == 0) by (bit_vector);
    assert(0x02u16 & ((0x02u16 - 1) as u16) == 0) by (bit_vector);
    assert(0x04u16 & ((0x04u16 - 1) as u16) == 0) by (bit_vector);
    assert(0x08u16 & ((0x08u16 - 1) as u16) == 0) by (bit_vector);
    assert(0x10u16 & ((0x10u16 - 1) as u16) == 0) by (bit_vector);
    assert(0x20u16 & ((0x20u16 - 1) as u16) == 0) by (bit_vector);
    assert(0x40u16 & ((0x40u16 - 1) as u16) == 0) by (bit_vector);
    assert(0x80u16 & ((0x80u16 - 1) as u16) == 0) by (bit_vector);
}

/// Two different pseudo-classes that have a state flag have different
/// flags, but for the two that test whether the content can be edited:
/// they share their flag.
pub proof fn law_state_flags_differ(a: NonTSPseudoClass, b: NonTSPseudoClass)
    requires
        a != b,
        !a.state_flag().is_empty(),
        !b.state_flag().is_empty(),
        !(a == NonTSPseudoClass::ReadWrite && b == NonTSPseudoClass::ReadOnly),
        !(a == NonTSPseudoClass::ReadOnly && b == NonTSPseudoClass::ReadWrite),
    ensures
        a.state_flag() != b.state_flag(),
{
}

} // verus!
