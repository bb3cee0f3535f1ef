//! The descriptor cache.
//!
//! Host type descriptors are resolved by fully qualified name once, at
//! bridge construction, and only read afterwards; a later lookup either
//! returns the pinned descriptor for exactly the requested name or fails
//! with a resolution error naming the missing type.

use jni::objects::GlobalRef;
use jni::JNIEnv;
use vstd::prelude::*;

use crate::error::BridgeError;
use crate::jvm::{class_of, clone_ref, find_class_ref};

verus! {

/// A mapping from fully qualified host type name to the pinned descriptor
/// that resolves it.
pub struct ClassCache {
    entries: Vec<(String, GlobalRef)>,
}

impl ClassCache {
    /// The cache's contents: pairs of type name and descriptor, in the
    /// order they were added.
    pub closed spec fn entries_model(self) -> Seq<(Seq<char>, GlobalRef)> {
        self.entries@.map_values(|e: (String, GlobalRef)| (e.0@, e.1))
    }

    /// Whether a descriptor for the given type name has been cached.
    pub open spec fn has_class(self, name: Seq<char>) -> bool {
        exists|i: int|
            0 <= i < self.entries_model().len() && (#[trigger] self.entries_model()[i]).0 == name
    }

    /// Every cached descriptor resolves exactly the name it is filed
    /// under, and no name is filed twice: the cache is a mapping.
    pub open spec fn wf(self) -> bool {
        &&& forall|i: int|
            0 <= i < self.entries_model().len() ==> class_of(
                (#[trigger] self.entries_model()[i]).1,
            ) == self.entries_model()[i].0
        &&& forall|i: int, j: int|
            0 <= i < j < self.entries_model().len() ==> (#[trigger] self.entries_model()[i]).0 != (
            #[trigger] self.entries_model()[j]).0
    }

    /// Whether a descriptor for the given type name is already cached.
    pub fn contains_class(&self, name: &String) -> (r: bool)
        ensures
            r == self.has_class(name@),
    {
        let n: usize = self.entries.len();
        let mut i: usize = 0;
        while i < n
            invariant
                i <= n,
                n == self.entries@.len(),
                forall|j: int| 0 <= j < i ==> (#[trigger] self.entries_model()[j]).0 != name@,
            decreases n - i,
        {
            let hit = self.entries[i].0 == *name;
            proof {
                let ghost k = i as int;
                assert(self.entries_model()[k] == (self.entries@[k].0@, self.entries@[k].1));
            }
            if hit {
                return true;
            }
            i += 1;
        }
        false
    }

    /// An empty cache, holding no descriptor yet.
    pub fn new() -> (r: ClassCache)
        ensures
            r.wf(),
            r.entries_model() == Seq::<(Seq<char>, GlobalRef)>::empty(),
    {
        ClassCache { entries: Vec::new() }
    }

    /// Resolve one host type by name and cache its descriptor; a name that
    /// is already cached is left as it is. Fails with the resolution error
    /// naming the type when the host cannot find it, leaving the cache as
    /// it was.
    pub fn add_class(&mut self, env: &JNIEnv, name: &String) -> (r: Result<(), BridgeError>)
        requires
            old(self).wf(),
        ensures
            final(self).wf(),
            r matches Ok(_) ==> final(self).has_class(name@),
            forall|n: Seq<char>| old(self).has_class(n) ==> final(self).has_class(n),
            (r matches Ok(_) && !old(self).has_class(name@)) ==> final(self).entries_model().len()
                == old(self).entries_model().len() + 1 && final(self).entries_model().subrange(
                0,
                old(self).entries_model().len() as int,
            ) == old(self).entries_model() && final(self).entries_model().last().0 == name@,
            (r matches Ok(_) && old(self).has_class(name@)) ==> *final(self) == *old(self),
            r matches Err(e) ==> e == BridgeError::ClassNotFound(*name) && *final(self) == *old(
                self,
            ),
    {
        if self.contains_class(name) {
            return Ok(());
        }
        match find_class_ref(env, name.as_str()) {
            Some(descriptor) => {
                let ghost old_model = self.entries_model();
                self.entries.push((name.clone(), descriptor));
                proof {
                    assert(self.entries_model() =~= old_model.push((name@, descriptor)));
                    assert((self.entries_model()[old_model.len() as int]).0 == name@);
                    assert forall|n: Seq<char>| old(self).has_class(n) implies self.has_class(
                        n,
                    ) by {
                        let i = choose|i: int|
                            0 <= i < old(self).entries_model().len() && (#[trigger] old(
                                self,
                            ).entries_model()[i]).0 == n;
                        assert(self.entries_model()[i] == old(self).entries_model()[i]);
                    }
                    assert forall|i: int| 0 <= i < self.entries_model().len() implies class_of(
                        (#[trigger] self.entries_model()[i]).1,
                    ) == self.entries_model()[i].0 by {
                        if i < old_model.len() {
                            assert(old(self).entries_model()[i] == self.entries_model()[i]);
                            assert(class_of(old(self).entries_model()[i].1) == old(
                                self,
                            ).entries_model()[i].0);
                        } else {
                            assert(self.entries_model()[i] == (name@, descriptor));
                        }
                    }
                    assert forall|i: int, j: int|
                        0 <= i < j < self.entries_model().len() implies (
                    #[trigger] self.entries_model()[i]).0 != (
                    #[trigger] self.entries_model()[j]).0 by {
                        assert(self.entries_model()[i] == old(self).entries_model()[i]);
                        if j < old_model.len() {
                            assert(self.entries_model()[j] == old(self).entries_model()[j]);
                        } else {
                            assert(self.entries_model()[j].0 == name@);
                            if old(self).entries_model()[i].0 == name@ {
                                assert(old(self).has_class(name@));
                                assert(false);
                            }
                        }
                    }
                    assert(self.entries_model().subrange(0, old_model.len() as int)
                        =~= old_model);
                }
                Ok(())
            },
            None => Err(BridgeError::ClassNotFound(name.clone())),
        }
    }

    /// Look a cached descriptor up by type name. Returns the descriptor
    /// resolving exactly that name, or the resolution error naming it when
    /// it was never cached.
    pub fn get_class(&self, name: &String) -> (r: Result<&GlobalRef, BridgeError>)
        requires
            self.wf(),
        ensures
            r matches Ok(g) ==> self.has_class(name@) && class_of(*g) == name@,
            r matches Err(e) ==> !self.has_class(name@) && e == BridgeError::ClassNotFound(*name),
    {
        let n: usize = self.entries.len();
        let mut i: usize = 0;
        while i < n
            invariant
                i <= n,
                n == self.entries@.len(),
                self.wf(),
                forall|j: int| 0 <= j < i ==> (#[trigger] self.entries_model()[j]).0 != name@,
            decreases n - i,
        {
            let hit = self.entries[i].0 == *name;
            proof {
                let ghost k = i as int;
                assert(self.entries_model()[k] == (self.entries@[k].0@, self.entries@[k].1));
            }
            if hit {
                return Ok(&self.entries[i].1);
            }
            i += 1;
        }
        Err(BridgeError::ClassNotFound(name.clone()))
    }

    /// A second cache with the same contents, each descriptor sharing the
    /// same pinned host reference.
    pub fn duplicate(&self) -> (r: ClassCache)
        ensures
            r.entries_model() == self.entries_model(),
    {
        let n: usize = self.entries.len();
        let mut entries: Vec<(String, GlobalRef)> = Vec::new();
        let mut i: usize = 0;
        while i < n
            invariant
                i <= n,
                n == self.entries@.len(),
                entries@.map_values(|e: (String, GlobalRef)| (e.0@, e.1)) =~= self.entries_model()
                    .subrange(0, i as int),
            decreases n - i,
        {
            let name = self.entries[i].0.clone();
            let descriptor = clone_ref(&self.entries[i].1);
            let ghost prev = entries@;
            let ghost pushed = (name, descriptor);
            entries.push((name, descriptor));
            proof {
                let ghost k = i as int;
                assert(self.entries_model()[k] == (self.entries@[k].0@, self.entries@[k].1));
                assert(prev.map_values(|e: (String, GlobalRef)| (e.0@, e.1)).len() == k);
                assert(prev.len() == k);
                assert(entries@ == prev.push(pushed));
                let ghost mapped = entries@.map_values(|e: (String, GlobalRef)| (e.0@, e.1));
                assert forall|j: int| 0 <= j < k + 1 implies #[trigger] mapped[j]
                    == self.entries_model().subrange(0, k + 1)[j] by {
                    assert(self.entries_model()[j] == (self.entries@[j].0@, self.entries@[j].1));
                    if j < k {
                        assert(entries@[j] == prev[j]);
                        assert(prev.map_values(|e: (String, GlobalRef)| (e.0@, e.1))[j]
                            == self.entries_model().subrange(0, k)[j]);
                    } else {
                        assert(entries@[j] == pushed);
                    }
                }
                assert(entries@.map_values(|e: (String, GlobalRef)| (e.0@, e.1))
                    =~= self.entries_model().subrange(0, k + 1));
            }
            i += 1;
        }
        let r = ClassCache { entries };
        proof {
            assert(r.entries_model() =~= self.entries_model());
        }
        r
    }
}

} // verus!
