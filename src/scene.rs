use vstd::prelude::*;
use crate::geometry::{DrawKind, Object};
use crate::present::Extent;

verus! {

/// One draw call of a frame: the registry entry it draws, how, and the
/// viewport it is drawn into.
#[derive(Clone, Copy, Debug, PartialEq, Eq, Structural)]
pub struct DrawCall {
    pub slot: usize,
    pub kind: DrawKind,
    pub viewport: Extent,
}

/// The scene registry: drawable objects keyed by unique names.
pub struct Scene<B> {
    names: Vec<String>,
    objects: Vec<Object<B>>,
}

impl<B> Scene<B> {
    /// The entry names, in the registry's current order.
    pub closed spec fn name_seq(&self) -> Seq<Seq<char>> {
        self.names@.map_values(|s: String| s@)
    }

    /// The entry objects, in the same order as `name_seq`.
    pub closed spec fn object_seq(&self) -> Seq<Object<B>> {
        self.objects@
    }

    /// Names are unique and each has its object.
    pub open spec fn wf(&self) -> bool {
        &&& self.name_seq().len() == self.object_seq().len()
        &&& self.name_seq().no_duplicates()
    }

    /// The registry as a map from name to object.
    pub open spec fn view(&self) -> Map<Seq<char>, Object<B>> {
        Map::new(
            |k: Seq<char>| self.name_seq().contains(k),
            |k: Seq<char>| self.object_seq()[self.name_seq().index_of(k)],
        )
    }

    /// An empty registry.
    pub fn new() -> (r: Scene<B>)
        ensures
            r.wf(),
            r.name_seq().len() == 0,
            r.view() == Map::<Seq<char>, Object<B>>::empty(),
    {
        let r = Scene { names: Vec::new(), objects: Vec::new() };
        proof {
            assert(r.name_seq() =~= Seq::<Seq<char>>::empty());
            assert(r.view() =~= Map::<Seq<char>, Object<B>>::empty());
        }
        r
    }

    /// Number of entries.
    pub fn len(&self) -> (r: usize)
        requires
            self.wf(),
        ensures
            r == self.name_seq().len(),
            r == self.view().len(),
    {
        proof {
            self.lemma_view_len();
        }
        self.names.len()
    }

    proof fn lemma_view_len(&self)
        requires
            self.wf(),
        ensures
            self.view().dom() == self.name_seq().to_set(),
            self.view().len() == self.name_seq().len(),
    {
        assert(self.view().dom() =~= self.name_seq().to_set());
        self.name_seq().unique_seq_to_set();
    }

    /// Position of the entry named `name`, if there is one.
    fn position(&self, name: &String) -> (r: Option<usize>)
        ensures
            match r {
                Some(i) => i < self.name_seq().len() && self.name_seq()[i as int] == name@,
                None => !self.name_seq().contains(name@),
            },
    {
        let mut i: usize = 0;
        while i < self.names.len()
            invariant
                i <= self.names.len(),
                forall|j: int| 0 <= j < i ==> self.name_seq()[j] != name@,
            decreases self.names.len() - i,
        {
            if self.names[i] == *name {
                return Some(i);
            }
            i += 1;
        }
        None
    }

    /// Inserts `object` under `name`, replacing and returning the object that
    /// was there. Replacing keeps the number of entries.
    pub fn insert(&mut self, name: String, object: Object<B>) -> (r: Option<Object<B>>)
        requires
            old(self).wf(),
        ensures
            final(self).wf(),
            final(self).view() == old(self).view().insert(name@, object),
            match r {
                Some(prev) => {
                    &&& old(self).view().contains_key(name@)
                    &&& prev == old(self).view()[name@]
                    &&& final(self).name_seq().len() == old(self).name_seq().len()
                },
                None => {
                    &&& !old(self).view().contains_key(name@)
                    &&& final(self).name_seq().len() == old(self).name_seq().len() + 1
                },
            },
    {
        match self.position(&name) {
            Some(i) => {
                let mut slot = object;
                self.objects.set_and_swap(i, &mut slot);
                proof {
                    self.lemma_index_of(i as int);
                    assert(self.view() =~= old(self).view().insert(name@, object));
                }
                Some(slot)
            },
            None => {
                let ghost old_names = self.name_seq();
                self.names.push(name);
                self.objects.push(object);
                proof {
                    assert(self.name_seq() =~= old_names.push(name@));
                    assert(self.name_seq().no_duplicates()) by {
                        assert forall|a: int, b: int|
                            0 <= a < self.name_seq().len() && 0 <= b < self.name_seq().len() && a != b
                        implies self.name_seq()[a] != self.name_seq()[b] by {
                            if a == old_names.len() as int {
                                assert(self.name_seq()[b] == old_names[b]);
                                assert(old_names.contains(old_names[b]));
                            } else if b == old_names.len() as int {
                                assert(self.name_seq()[a] == old_names[a]);
                                assert(old_names.contains(old_names[a]));
                            } else {
                                assert(self.name_seq()[a] == old_names[a]);
                                assert(self.name_seq()[b] == old_names[b]);
                            }
                        }
                    }
                    assert forall|k: Seq<char>| #[trigger] old(self).view().contains_key(k) implies
                        self.view().contains_key(k) && self.view()[k] == old(self).view()[k] by {
                        let j = old_names.index_of(k);
                        assert(old_names.contains(k));
                        assert(old_names[j] == k);
                        assert(self.name_seq()[j] == k);
                        self.lemma_index_of(j);
                        assert(self.object_seq()[j] == old(self).object_seq()[j]);
                    }
                    assert forall|k: Seq<char>| #[trigger] self.view().contains_key(k) implies
                        k == name@ || old(self).view().contains_key(k) by {
                        let j = self.name_seq().index_of(k);
                        assert(self.name_seq().contains(k));
                        if j < old_names.len() {
                            assert(old_names[j] == k);
                        }
                    }
                    self.lemma_index_of(old_names.len() as int);
                    assert(self.view() =~= old(self).view().insert(name@, object));
                }
                None
            },
        }
    }

    /// Removes and returns the object named `name`, if there is one.
    pub fn remove(&mut self, name: &String) -> (r: Option<Object<B>>)
        requires
            old(self).wf(),
        ensures
            final(self).wf(),
            final(self).view() == old(self).view().remove(name@),
            match r {
                Some(prev) => old(self).view().contains_key(name@) && prev == old(self).view()[name@],
                None => !old(self).view().contains_key(name@),
            },
    {
        match self.position(name) {
            Some(i) => {
                let ghost old_names = self.name_seq();
                let ghost old_objects = self.object_seq();
                proof {
                    self.lemma_index_of(i as int);
                }
                self.names.remove(i);
                let prev = self.objects.remove(i);
                proof {
                    assert(self.name_seq() =~= old_names.remove(i as int));
                    assert(self.name_seq().no_duplicates()) by {
                        assert forall|a: int, b: int|
                            0 <= a < self.name_seq().len() && 0 <= b < self.name_seq().len() && a != b
                        implies self.name_seq()[a] != self.name_seq()[b] by {
                            let oa = if a < i { a } else { a + 1 };
                            let ob = if b < i { b } else { b + 1 };
                            assert(self.name_seq()[a] == old_names[oa]);
                            assert(self.name_seq()[b] == old_names[ob]);
                        }
                    }
                    assert forall|k: Seq<char>| #[trigger] self.view().contains_key(k) implies
                        k != name@ && old(self).view().contains_key(k) && self.view()[k] == old(self).view()[k] by {
                        let j = self.name_seq().index_of(k);
                        assert(self.name_seq().contains(k));
                        let oj = if j < i { j } else { j + 1 };
                        assert(old_names[oj] == k);
                        assert(old_names.contains(k));
                        old(self).lemma_index_of(oj);
                        assert(self.object_seq()[j] == old_objects[oj]);
                    }
                    assert forall|k: Seq<char>| #[trigger] old(self).view().contains_key(k) && k != name@ implies
                        self.view().contains_key(k) by {
                        let oj = old_names.index_of(k);
                        assert(old_names.contains(k));
                        assert(oj != i);
                        let j = if oj < i { oj } else { oj - 1 };
                        assert(self.name_seq()[j] == k);
                    }
                    assert(self.view() =~= old(self).view().remove(name@));
                }
                Some(prev)
            },
            None => {
                proof {
                    assert(self.view() =~= old(self).view().remove(name@));
                }
                None
            },
        }
    }

    /// The object named `name`, if there is one.
    pub fn get(&self, name: &String) -> (r: Option<&Object<B>>)
        requires
            self.wf(),
        ensures
            match r {
                Some(o) => self.view().contains_key(name@) && *o == self.view()[name@],
                None => !self.view().contains_key(name@),
            },
    {
        match self.position(name) {
            Some(i) => {
                proof {
                    self.lemma_index_of(i as int);
                }
                Some(&self.objects[i])
            },
            None => None,
        }
    }

    /// Whether an entry is named `name`.
    pub fn contains(&self, name: &String) -> (r: bool)
        requires
            self.wf(),
        ensures
            r == self.view().contains_key(name@),
    {
        self.position(name).is_some()
    }

    /// The entry at `slot` of the registry's current order.
    pub fn entry(&self, slot: usize) -> (r: (&String, &Object<B>))
        requires
            self.wf(),
            slot < self.name_seq().len(),
        ensures
            r.0@ == self.name_seq()[slot as int],
            *r.1 == self.object_seq()[slot as int],
            self.view().contains_key(r.0@),
            self.view()[r.0@] == *r.1,
    {
        proof {
            self.lemma_index_of(slot as int);
        }
        (&self.names[slot], &self.objects[slot])
    }

    /// The draw calls of one frame: one per entry, in registry order, each
    /// drawn as its mesh requires and into the whole `viewport`.
    pub fn draw_list(&self, viewport: Extent) -> (r: Vec<DrawCall>)
        requires
            self.wf(),
        ensures
            r@.len() == self.name_seq().len(),
            forall|i: int| 0 <= i < r@.len() ==> #[trigger] r@[i] == (DrawCall {
                slot: i as usize,
                kind: self.object_seq()[i].draw_spec(),
                viewport,
            }),
    {
        let mut calls: Vec<DrawCall> = Vec::new();
        let mut i: usize = 0;
        while i < self.objects.len()
            invariant
                i <= self.objects.len(),
                self.wf(),
                calls@.len() == i,
                forall|j: int| 0 <= j < i ==> #[trigger] calls@[j] == (DrawCall {
                    slot: j as usize,
                    kind: self.object_seq()[j].draw_spec(),
                    viewport,
                }),
            decreases self.objects.len() - i,
        {
            calls.push(DrawCall { slot: i, kind: self.objects[i].draw(), viewport });
            i += 1;
        }
        calls
    }

    proof fn lemma_index_of(&self, i: int)
        requires
            self.wf(),
            0 <= i < self.name_seq().len(),
        ensures
            self.name_seq().index_of(self.name_seq()[i]) == i,
    {
        let s = self.name_seq();
        assert(s.contains(s[i]));
    }
}

/// Every registry entry stands at exactly one slot of the registry order,
/// which holds its object; a draw list, one call per slot, so draws each
/// entry once.
pub proof fn lemma_entry_has_one_slot<B>(scene: &Scene<B>, name: Seq<char>)
    requires
        scene.wf(),
        scene.view().contains_key(name),
    ensures
        exists|i: int|
            0 <= i < scene.name_seq().len() && #[trigger] scene.name_seq()[i] == name
                && scene.object_seq()[i] == scene.view()[name],
        forall|i: int, j: int|
            0 <= i < scene.name_seq().len() && 0 <= j < scene.name_seq().len()
                && #[trigger] scene.name_seq()[i] == name && #[trigger] scene.name_seq()[j] == name ==> i == j,
{
    let i = scene.name_seq().index_of(name);
    assert(scene.name_seq()[i] == name);
}

} // verus!
