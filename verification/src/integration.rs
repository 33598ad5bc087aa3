//! What the style system asks of a vocabulary beyond the resolution of
//! names: the walk over its pseudo-elements, their split by the way they are
//! cascaded, and the state flag of each pseudo-class.

use vstd::prelude::*;
use crate::element_state::ElementState;
use crate::parser::SelectorImpl;

verus! {

/// `results` holds, position by position, what `fun` returned for the items
/// of `visited`.
pub open spec fn visits<T, R, F: FnMut(T) -> R>(fun: F, visited: Seq<T>, results: Seq<R>) -> bool {
    &&& results.len() == visited.len()
    &&& forall|i: int|
        0 <= i < visited.len() ==> call_ensures(fun, (visited[i],), #[trigger] results[i])
}

/// The items of `all` that are cascaded eagerly, or with `eager` false those
/// that are not, in the order in which `all` holds them.
pub open spec fn cascaded_as<P>(all: Seq<P>, eagerly: Set<P>, eager: bool) -> Seq<P> {
    all.filter(|pseudo: P| eagerly.contains(pseudo) == eager)
}

/// One more item goes to the part that it is cascaded with and to no other.
pub proof fn lemma_cascaded_as_push<P>(all: Seq<P>, pseudo: P, eagerly: Set<P>, eager: bool)
    ensures
        cascaded_as(all.push(pseudo), eagerly, eager) == if eagerly.contains(pseudo) == eager {
            cascaded_as(all, eagerly, eager).push(pseudo)
        } else {
            cascaded_as(all, eagerly, eager)
        },
{
    all.lemma_filter_push(pseudo, |pseudo: P| eagerly.contains(pseudo) == eager);
}

/// Before the first item no part holds anything.
pub proof fn lemma_cascaded_as_empty<P>(eagerly: Set<P>, eager: bool)
    ensures
        cascaded_as(Seq::<P>::empty(), eagerly, eager) == Seq::<P>::empty(),
{
    reveal(Seq::filter);
}

/// A vocabulary with what the style system needs to know of it.
///
/// A walk hands the pseudo-elements to a visitor one at a time and gives
/// back the visitor's results in the order of the visits: they are the only
/// trace that a call of the visitor leaves.
pub trait SelectorImplExt: SelectorImpl + Sized {
    /// The pseudo-elements of the vocabulary, in the order in which a walk
    /// visits them.
    spec fn pseudo_elements() -> Seq<Self::PseudoElement>;

    /// The pseudo-elements that are cascaded eagerly.
    spec fn eagerly_cascaded() -> Set<Self::PseudoElement>;

    /// The state flag that a pseudo-class depends on.
    spec fn state_flag(pc: Self::NonTSPseudoClass) -> ElementState;

    /// Calls `fun` once for each pseudo-element, in the order of
    /// `pseudo_elements`.
    fn each_pseudo_element<R, F>(fun: F) -> (results: Vec<R>) where F: FnMut(Self::PseudoElement) -> R
        requires
            forall|i: int|
                0 <= i < Self::pseudo_elements().len() ==> call_requires(
                    fun,
                    (#[trigger] Self::pseudo_elements()[i],),
                ),
        ensures
            visits(fun, Self::pseudo_elements(), results@),
    ;

    /// Whether a pseudo-element is cascaded eagerly.
    ///
    /// An eagerly cascaded pseudo-element, such as `::before`, goes through
    /// the cascade and inherits as an element does. One that is not skips
    /// the cascade: its style comes from the global rules, applied on top of
    /// its parent's style. That is cheaper, and fit only for a
    /// pseudo-element that authors cannot style, such as
    /// `::-servo-details-content`.
    fn is_eagerly_cascaded_pseudo_element(pseudo: &Self::PseudoElement) -> (r: bool)
        ensures
            r == Self::eagerly_cascaded().contains(*pseudo),
    ;

    /// Calls `fun` once for each eagerly cascaded pseudo-element, in the
    /// order of the walk.
    #[inline]
    fn each_eagerly_cascaded_pseudo_element<R, F>(fun: F) -> (results: Vec<R>) where
        F: FnMut(Self::PseudoElement) -> R,

        requires
            forall|i: int|
                0 <= i < Self::pseudo_elements().len() && Self::eagerly_cascaded().contains(
                    Self::pseudo_elements()[i],
                ) ==> call_requires(fun, (#[trigger] Self::pseudo_elements()[i],)),
        ensures
            visits(
                fun,
                cascaded_as(Self::pseudo_elements(), Self::eagerly_cascaded(), true),
                results@,
            ),
    {
        let ghost visitor = fun;
        let mut fun = fun;
        let identity = |pseudo: Self::PseudoElement| -> (same: Self::PseudoElement)
            ensures same == pseudo
        { pseudo };
        let all = Self::each_pseudo_element(identity);
        assert(all@ =~= Self::pseudo_elements());
        let mut results: Vec<R> = Vec::new();
        proof {
            assert(all@.take(0) =~= Seq::empty());
            lemma_cascaded_as_empty(Self::eagerly_cascaded(), true);
        }
        for pseudo in walk: all
            invariant
                walk.seq() == Self::pseudo_elements(),
                forall|i: int|
                    0 <= i < Self::pseudo_elements().len() && Self::eagerly_cascaded().contains(
                        Self::pseudo_elements()[i],
                    ) ==> call_requires(fun, (#[trigger] Self::pseudo_elements()[i],)),
                fun == visitor,
                visits(
                    fun,
                    cascaded_as(
                        walk.seq().take(walk.index() as int),
                        Self::eagerly_cascaded(),
                        true,
                    ),
                    results@,
                ),
        {
            proof {
                let seen = walk.seq().take(walk.index() as int);
                assert(walk.seq().take(walk.index() + 1) =~= seen.push(pseudo));
                lemma_cascaded_as_push(seen, pseudo, Self::eagerly_cascaded(), true);
            }
            if Self::is_eagerly_cascaded_pseudo_element(&pseudo) {
                let result = fun(pseudo);
                results.push(result);
            }
        }
        assert(Self::pseudo_elements().take(Self::pseudo_elements().len() as int)
            =~= Self::pseudo_elements());
        results
    }

    /// Calls `fun` once for each non-eagerly cascaded pseudo-element, in the
    /// order of the walk.
    #[inline]
    fn each_non_eagerly_cascaded_pseudo_element<R, F>(fun: F) -> (results: Vec<R>) where
        F: FnMut(Self::PseudoElement) -> R,

        requires
            forall|i: int|
                0 <= i < Self::pseudo_elements().len() && !Self::eagerly_cascaded().contains(
                    Self::pseudo_elements()[i],
                ) ==> call_requires(fun, (#[trigger] Self::pseudo_elements()[i],)),
        ensures
            visits(
                fun,
                cascaded_as(Self::pseudo_elements(), Self::eagerly_cascaded(), false),
                results@,
            ),
    {
        let ghost visitor = fun;
        let mut fun = fun;
        let identity = |pseudo: Self::PseudoElement| -> (same: Self::PseudoElement)
            ensures same == pseudo
        { pseudo };
        let all = Self::each_pseudo_element(identity);
        assert(all@ =~= Self::pseudo_elements());
        let mut results: Vec<R> = Vec::new();
        proof {
            assert(all@.take(0) =~= Seq::empty());
            lemma_cascaded_as_empty(Self::eagerly_cascaded(), false);
        }
        for pseudo in walk: all
            invariant
                walk.seq() == Self::pseudo_elements(),
                forall|i: int|
                    0 <= i < Self::pseudo_elements().len() && !Self::eagerly_cascaded().contains(
                        Self::pseudo_elements()[i],
                    ) ==> call_requires(fun, (#[trigger] Self::pseudo_elements()[i],)),
                fun == visitor,
                visits(
                    fun,
                    cascaded_as(
                        walk.seq().take(walk.index() as int),
                        Self::eagerly_cascaded(),
                        false,
                    ),
                    results@,
                ),
        {
            proof {
                let seen = walk.seq().take(walk.index() as int);
                assert(walk.seq().take(walk.index() + 1) =~= seen.push(pseudo));
                lemma_cascaded_as_push(seen, pseudo, Self::eagerly_cascaded(), false);
            }
            if !Self::is_eagerly_cascaded_pseudo_element(&pseudo) {
                let result = fun(pseudo);
                results.push(result);
            }
        }
        assert(Self::pseudo_elements().take(Self::pseudo_elements().len() as int)
            =~= Self::pseudo_elements());
        results
    }

    /// The state flag of a pseudo-class.
    fn pseudo_class_state_flag(pc: &Self::NonTSPseudoClass) -> (flag: ElementState)
        ensures
            flag == Self::state_flag(*pc),
    ;
}

} // verus!
