//! The connection registry: the table of the sessions that are alive, by
//! their identifiers.

use crate::session::{Session, SessionView};
use std::collections::HashMap;
use vstd::std_specs::iter::IteratorSpec;
use vstd::prelude::*;

verus! {

broadcast use vstd::std_specs::hash::group_hash_axioms;

/// Why the registry refused.
#[derive(Clone, Copy, Debug, PartialEq, Eq, Structural)]
pub enum RegistryError {
    /// A session with that identifier is registered already.
    DuplicateId,
    /// No session with that identifier is registered.
    NotFound,
}

/// Every session is filed under its own identifier.
pub open spec fn filed_by_id<H>(sessions: Map<u128, SessionView<H>>) -> bool {
    forall|id: u128| #[trigger] sessions.contains_key(id) ==> sessions[id].id == id
}

/// The characters of each string in a list.
pub open spec fn names_view(names: Seq<String>) -> Seq<Seq<char>> {
    names.map_values(|s: String| s@)
}

/// `names` lists the names of the named sessions, one entry for each such
/// session and none besides: `ids` says which session each entry is of.
pub open spec fn lists_named<H>(
    sessions: Map<u128, SessionView<H>>,
    ids: Seq<u128>,
    names: Seq<Seq<char>>,
) -> bool {
    &&& ids.no_duplicates()
    &&& ids.len() == names.len()
    &&& forall|id: u128|
        #[trigger] ids.contains(id) <==> sessions.contains_key(id) && sessions[id].is_named()
    &&& forall|i: int| 0 <= i < ids.len() ==> (#[trigger] sessions[ids[i]]).name == Some(names[i])
}

/// The table of active sessions.
pub struct Registry<H> {
    sessions: HashMap<u128, Session<H>>,
}

impl<H> View for Registry<H> {
    type V = Map<u128, SessionView<H>>;

    closed spec fn view(&self) -> Map<u128, SessionView<H>> {
        Map::new(|id: u128| self.sessions@.contains_key(id), |id: u128| self.sessions@[id]@)
    }
}

impl<H> Registry<H> {
    /// Every session is filed under its own identifier.
    pub closed spec fn wf(&self) -> bool {
        filed_by_id(self@)
    }

    /// What well-formedness says of the registry's value.
    pub proof fn lemma_wf(&self)
        requires
            self.wf(),
        ensures
            filed_by_id(self@),
            self@.dom().finite(),
    {
        assert(self@.dom() =~= self.sessions@.dom());
    }

    /// An empty registry.
    pub fn new() -> (r: Self)
        ensures
            r.wf(),
            r@ == Map::<u128, SessionView<H>>::empty(),
    {
        let r = Registry { sessions: HashMap::new() };
        assert(r@ =~= Map::<u128, SessionView<H>>::empty());
        r
    }

    /// The number of registered sessions.
    pub fn len(&self) -> (r: usize)
        ensures
            r == self@.len(),
    {
        assert(self@.dom() =~= self.sessions@.dom());
        self.sessions.len()
    }

    /// Whether a session is registered under `id`.
    pub fn contains(&self, id: u128) -> (r: bool)
        ensures
            r == self@.contains_key(id),
    {
        self.sessions.contains_key(&id)
    }

    /// Registers `session` under its identifier. Fails with `DuplicateId`,
    /// and changes nothing, exactly when that identifier is taken.
    pub fn insert(&mut self, session: Session<H>) -> (r: Result<(), RegistryError>)
        requires
            old(self).wf(),
        ensures
            final(self).wf(),
            old(self)@.contains_key(session@.id) ==> r == Err::<(), RegistryError>(
                RegistryError::DuplicateId,
            ) && final(self)@ == old(self)@,
            !old(self)@.contains_key(session@.id) ==> r == Ok::<(), RegistryError>(())
                && final(self)@ == old(self)@.insert(session@.id, session@),
    {
        let id = session.id();
        if self.sessions.contains_key(&id) {
            Err(RegistryError::DuplicateId)
        } else {
            self.sessions.insert(id, session);
            assert(self@ =~= old(self)@.insert(id, session@));
            Ok(())
        }
    }

    /// Takes the session under `id` out of the registry and returns it; with
    /// no such session nothing changes.
    pub fn remove(&mut self, id: u128) -> (r: Option<Session<H>>)
        requires
            old(self).wf(),
        ensures
            final(self).wf(),
            final(self)@ == old(self)@.remove(id),
            match r {
                Some(s) => old(self)@.contains_key(id) && old(self)@[id] == s@ && s@.id == id,
                None => !old(self)@.contains_key(id),
            },
    {
        let r = self.sessions.remove(&id);
        assert(self@ =~= old(self)@.remove(id));
        r
    }

    /// The session under `id`, or `NotFound`.
    pub fn lookup(&self, id: u128) -> (r: Result<&Session<H>, RegistryError>)
        ensures
            match r {
                Ok(s) => self@.contains_key(id) && self@[id] == s@,
                Err(e) => e == RegistryError::NotFound && !self@.contains_key(id),
            },
    {
        match self.sessions.get(&id) {
            Some(s) => Ok(s),
            None => Err(RegistryError::NotFound),
        }
    }

    /// The names of the sessions that are named now: one entry for each
    /// named session, in no particular order.
    pub fn snapshot_named(&self) -> (r: Vec<String>)
        ensures
            exists|ids: Seq<u128>| #[trigger] lists_named(self@, ids, names_view(r@)),
    {
        let mut names: Vec<String> = Vec::new();
        let ghost mut ids: Seq<u128> = Seq::empty();
        let ghost all = self.sessions.iter().remaining();
        for pair in it: self.sessions.iter()
            invariant
                it.seq() == all,
                all == vstd::std_specs::hash::spec_hash_map_iter(&self.sessions).remaining(),
                all.no_duplicates(),
                ids.no_duplicates(),
                ids.len() == names@.len(),
                forall|id: u128| #[trigger]
                    ids.contains(id) <==> exists|j: int|
                        0 <= j < it.index() && *(#[trigger] all[j]).0 == id && all[j].1@.is_named(),
                forall|i: int|
                    0 <= i < ids.len() ==> self.sessions@.contains_key(#[trigger] ids[i])
                        && self.sessions@[ids[i]]@.name == Some(names@[i]@),
        {
            let (key, session) = pair;
            let ghost at = it.index();
            assert(all[at] == pair);
            assert(self.sessions@.contains_key(*all[at].0) && self.sessions@[*all[at].0]
                == *all[at].1);
            if let Some(name) = session.name() {
                proof {
                    if ids.contains(*key) {
                        let j = choose|j: int|
                            0 <= j < at && *(#[trigger] all[j]).0 == *key && all[j].1@.is_named();
                        assert(self.sessions@.contains_key(*all[j].0) && self.sessions@[*all[j].0]
                            == *all[j].1);
                        assert(all[j] == all[at]);
                    }
                    let grown = ids.push(*key);
                    assert forall|id: u128| #[trigger]
                        grown.contains(id) <==> exists|j: int|
                            0 <= j < at + 1 && *(#[trigger] all[j]).0 == id
                                && all[j].1@.is_named() by {
                        if grown.contains(id) {
                            let i = choose|i: int| 0 <= i < grown.len() && grown[i] == id;
                            if i < ids.len() {
                                assert(ids.contains(id));
                            } else {
                                assert(*all[at].0 == id);
                            }
                        }
                        if exists|j: int|
                            0 <= j < at + 1 && *(#[trigger] all[j]).0 == id
                                && all[j].1@.is_named() {
                            let j = choose|j: int|
                                0 <= j < at + 1 && *(#[trigger] all[j]).0 == id
                                    && all[j].1@.is_named();
                            if j < at {
                                assert(ids.contains(id));
                                let i = choose|i: int| 0 <= i < ids.len() && ids[i] == id;
                                assert(grown[i] == id);
                            } else {
                                assert(grown[ids.len() as int] == id);
                            }
                        }
                    }
                    ids = grown;
                }
                names.push(name);
            } else {
                proof {
                    assert forall|id: u128| #[trigger]
                        ids.contains(id) <==> exists|j: int|
                            0 <= j < at + 1 && *(#[trigger] all[j]).0 == id
                                && all[j].1@.is_named() by {
                        if exists|j: int|
                            0 <= j < at + 1 && *(#[trigger] all[j]).0 == id
                                && all[j].1@.is_named() {
                            let j = choose|j: int|
                                0 <= j < at + 1 && *(#[trigger] all[j]).0 == id
                                    && all[j].1@.is_named();
                            assert(j < at);
                        }
                    }
                }
            }
        }
        proof {
            let listed = names_view(names@);
            assert forall|id: u128| #[trigger]
                ids.contains(id) <==> self@.contains_key(id) && self@[id].is_named() by {
                if self@.contains_key(id) && self@[id].is_named() {
                    let entry = (&id, &self.sessions@[id]);
                    assert(all.contains(entry));
                    let j = choose|j: int| 0 <= j < all.len() && all[j] == entry;
                    assert(*all[j].0 == id && all[j].1@.is_named());
                }
                if ids.contains(id) {
                    let j = choose|j: int|
                        0 <= j < all.len() && *(#[trigger] all[j]).0 == id && all[j].1@.is_named();
                    assert(self.sessions@.contains_key(*all[j].0) && self.sessions@[*all[j].0]
                        == *all[j].1);
                }
            }
            assert forall|i: int| 0 <= i < ids.len() implies (#[trigger] self@[ids[i]]).name
                == Some(listed[i]) by {
                assert(self.sessions@.contains_key(ids[i]));
            }
            assert(lists_named(self@, ids, listed));
        }
        names
    }
}

} // verus!
