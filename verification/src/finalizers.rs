//! The finalizer by which the operator keeps an object from going before it let it go.

use crate::meta::{ObjectMeta, ObjectMetaView};
use crate::replaced_service::copy_texts;
use vstd::prelude::*;
use vstd::string::*;

verus! {

/// The finalizer of the operator.
pub open spec fn own_finalizer() -> Seq<char> {
    "tsproxy.digizuite.com/finalizer"@
}

/// The finalizer of the operator.
pub fn finalizer() -> (name: String)
    ensures
        name@ == own_finalizer(),
{
    "tsproxy.digizuite.com/finalizer".to_string()
}

impl ObjectMetaView {
    /// The finalizers, none where no list is set.
    pub open spec fn finalizer_list(self) -> Seq<Seq<char>> {
        match self.finalizers {
            Some(finalizers) => finalizers,
            None => Seq::empty(),
        }
    }
}

/// The finalizers that an object has once the operator keeps it.
pub open spec fn ensured_finalizers(finalizers: Seq<Seq<char>>) -> Seq<Seq<char>> {
    if finalizers.contains(own_finalizer()) {
        finalizers
    } else {
        finalizers.push(own_finalizer())
    }
}

/// The finalizers that an object has once the operator let it go.
pub open spec fn remaining_finalizers(finalizers: Seq<Seq<char>>) -> Seq<Seq<char>> {
    finalizers.filter(|name: Seq<char>| name != own_finalizer())
}

impl ObjectMeta {
    /// Whether the operator keeps this object.
    pub fn has_finalizer(&self) -> (kept: bool)
        ensures
            kept == self@.finalizer_list().contains(own_finalizer()),
    {
        let own = finalizer();
        match &self.finalizers {
            Some(finalizers) => {
                let len: usize = finalizers.len();
                for i in 0..len
                    invariant
                        len == finalizers.len(),
                        own@ == own_finalizer(),
                        self@.finalizer_list() == finalizers.deep_view(),
                        forall|j: int|
                            0 <= j < i ==> #[trigger] self@.finalizer_list()[j] != own_finalizer(),
                {
                    if finalizers[i] == own {
                        proof {
                            assert(self@.finalizer_list()[i as int] == own_finalizer());
                        }
                        return true;
                    }
                }
                false
            },
            None => false,
        }
    }

    /// The finalizers that keep this object, with the operator's own.
    pub fn ensure_finalizer(&self) -> (finalizers: Vec<String>)
        ensures
            finalizers.deep_view() == ensured_finalizers(self@.finalizer_list()),
    {
        let mut finalizers: Vec<String> = match &self.finalizers {
            Some(finalizers) => copy_texts(finalizers),
            None => Vec::new(),
        };
        proof {
            assert(finalizers.deep_view() =~= self@.finalizer_list());
        }
        if !self.has_finalizer() {
            finalizers.push(finalizer());
            proof {
                assert(finalizers.deep_view() =~= self@.finalizer_list().push(own_finalizer()));
            }
        }
        finalizers
    }

    /// The finalizers that keep this object, without the operator's own.
    pub fn remove_finalizer(&self) -> (finalizers: Vec<String>)
        ensures
            finalizers.deep_view() == remaining_finalizers(self@.finalizer_list()),
    {
        let own = finalizer();
        let mut kept: Vec<String> = Vec::new();
        proof {
            assert(self@.finalizer_list().take(0) =~= Seq::<Seq<char>>::empty());
            reveal(Seq::filter);
            assert(kept.deep_view() =~= remaining_finalizers(self@.finalizer_list().take(0)));
        }
        match &self.finalizers {
            Some(finalizers) => {
                let len: usize = finalizers.len();
                for i in 0..len
                    invariant
                        len == finalizers.len(),
                        own@ == own_finalizer(),
                        self@.finalizer_list() == finalizers.deep_view(),
                        kept.deep_view() == remaining_finalizers(
                            self@.finalizer_list().take(i as int),
                        ),
                {
                    let ghost before = kept.deep_view();
                    proof {
                        let list = self@.finalizer_list();
                        assert(list.take(i + 1).drop_last() =~= list.take(i as int));
                        assert(list.take(i + 1).last() == list[i as int]);
                        reveal(Seq::filter);
                    }
                    if !(finalizers[i] == own) {
                        kept.push(finalizers[i].clone());
                        proof {
                            assert(kept.deep_view() =~= before.push(finalizers[i as int]@));
                        }
                    }
                }
                proof {
                    assert(self@.finalizer_list().take(len as int) =~= self@.finalizer_list());
                }
            },
            None => {
                proof {
                    assert(self@.finalizer_list().take(0) =~= self@.finalizer_list());
                }
            },
        }
        kept
    }
}

/// The operator keeps an object once it saw to that, and no longer once it let it go.
pub proof fn finalizer_keeps_until_removed(finalizers: Seq<Seq<char>>)
    ensures
        ensured_finalizers(finalizers).contains(own_finalizer()),
        !remaining_finalizers(finalizers).contains(own_finalizer()),
        ensured_finalizers(ensured_finalizers(finalizers)) == ensured_finalizers(finalizers),
{
    if !finalizers.contains(own_finalizer()) {
        assert(finalizers.push(own_finalizer()).last() == own_finalizer());
    }
    if remaining_finalizers(finalizers).contains(own_finalizer()) {
        let i = choose|i: int|
            0 <= i < remaining_finalizers(finalizers).len() && remaining_finalizers(finalizers)[i]
                == own_finalizer();
        finalizers.lemma_filter_pred(|name: Seq<char>| name != own_finalizer(), i);
    }
}

/// Letting an object go leaves the finalizers of others as they were before the operator
/// added its own.
pub proof fn removing_undoes_ensuring(finalizers: Seq<Seq<char>>)
    ensures
        remaining_finalizers(ensured_finalizers(finalizers)) == remaining_finalizers(finalizers),
        !finalizers.contains(own_finalizer()) ==> remaining_finalizers(finalizers) == finalizers,
    decreases finalizers.len(),
{
    reveal(Seq::filter);
    if !finalizers.contains(own_finalizer()) {
        assert(finalizers.push(own_finalizer()).drop_last() =~= finalizers);
        if finalizers.len() > 0 {
            let rest = finalizers.drop_last();
            assert forall|name: Seq<char>| #[trigger] rest.contains(name) implies finalizers.contains(
                name,
            ) by {
                let i = choose|i: int| 0 <= i < rest.len() && rest[i] == name;
                assert(finalizers[i] == name);
            }
            assert(finalizers.last() != own_finalizer()) by {
                assert(finalizers[finalizers.len() - 1] == finalizers.last());
            }
            removing_undoes_ensuring(rest);
            assert(rest.push(finalizers.last()) =~= finalizers);
        }
    }
}

/// Seeing to the finalizer keeps all that were there, in their order.
pub proof fn ensuring_keeps_the_others(finalizers: Seq<Seq<char>>)
    ensures
        finalizers.is_prefix_of(ensured_finalizers(finalizers)),
        finalizers.contains(own_finalizer()) ==> ensured_finalizers(finalizers) == finalizers,
        !finalizers.contains(own_finalizer()) ==> ensured_finalizers(finalizers).len()
            == finalizers.len() + 1,
{
}

/// Letting an object go looks at each finalizer by itself: it drops the operator's own,
/// keeps any other, and keeps the order.
pub proof fn removing_takes_each_by_itself(
    front: Seq<Seq<char>>,
    back: Seq<Seq<char>>,
    name: Seq<char>,
)
    ensures
        remaining_finalizers(front + back) == remaining_finalizers(front)
            + remaining_finalizers(back),
        remaining_finalizers(seq![own_finalizer()]) == Seq::<Seq<char>>::empty(),
        name != own_finalizer() ==> remaining_finalizers(seq![name]) == seq![name],
        remaining_finalizers(Seq::empty()) == Seq::<Seq<char>>::empty(),
{
    let others = |name: Seq<char>| name != own_finalizer();
    Seq::filter_distributes_over_add(front, back, others);
    reveal(Seq::filter);
    assert(seq![own_finalizer()].drop_last() =~= Seq::<Seq<char>>::empty());
    assert(seq![name].drop_last() =~= Seq::<Seq<char>>::empty());
    assert(Seq::<Seq<char>>::empty().filter(others) =~= Seq::<Seq<char>>::empty());
    assert(Seq::<Seq<char>>::empty().push(name) =~= seq![name]);
}

/// The metadata's list of finalizers is the one that is set.
pub proof fn finalizers_are_those_listed(meta: ObjectMetaView)
    ensures
        meta.finalizers is Some ==> meta.finalizer_list() == meta.finalizers->0,
        meta.finalizers is None ==> meta.finalizer_list().len() == 0,
{
}

} // verus!
