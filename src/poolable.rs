use std::collections::HashMap;
use std::hash::{BuildHasher, Hash};
use vstd::prelude::*;

verus! {

/// What a container needs to be kept in a pool: its capacity, and a way to
/// make one for a requested size.
pub trait Poolable: Sized {
    /// How much the container can hold.
    fn capacity(&self) -> (r: usize);

    /// A new container made for a request of `size`.
    fn allocate(size: usize) -> (r: Self);
}

/// A container that can be resized in place.
pub trait Realloc: Sized {
    /// Whether `after` is what a resize of `before` to `new_size` may give.
    spec fn resized_from(after: Self, before: Self, new_size: nat) -> bool;

    /// Resizes the container for `new_size`.
    fn realloc(&mut self, new_size: usize)
        requires
            new_size > 0,
        ensures
            Self::resized_from(*final(self), *old(self), new_size as nat),
    ;
}

/// Relies on `Vec::shrink_to_fit`: it gives spare capacity back to the
/// allocator and leaves the elements as they are.
#[verifier::external_body]
pub(crate) fn release_spare<T>(v: &mut Vec<T>)
    ensures
        final(v)@ == old(v)@,
{
    v.shrink_to_fit()
}

/// Relies on `HashMap::with_capacity_and_hasher`: an empty map with room for
/// at least `size` entries, hashing with the hasher builder's default.
#[verifier::external_body]
fn map_with_room<K, V, S: BuildHasher + Default>(size: usize) -> (r: HashMap<K, V, S>)
    ensures
        r@.is_empty(),
{
    HashMap::with_capacity_and_hasher(size, S::default())
}

/// Relies on `HashMap::capacity`: how many entries the map can hold before it
/// has to allocate again, which is at least the number it holds. The
/// documentation gives it only as a lower bound.
#[verifier::external_body]
fn map_room<K, V, S>(m: &HashMap<K, V, S>) -> (r: usize)
    ensures
        r >= m.len(),
{
    m.capacity()
}

/// Relies on `HashMap::shrink_to_fit`: it gives spare room back to the
/// allocator and keeps every entry.
#[verifier::external_body]
fn map_release_spare<K: Eq + Hash, V, S: BuildHasher>(m: &mut HashMap<K, V, S>)
    ensures
        final(m)@ == old(m)@,
{
    m.shrink_to_fit()
}

/// A vector's capacity is its length; it is made filled with default values.
impl<T: Default + Clone> Poolable for Vec<T> {
    fn capacity(&self) -> (r: usize)
        ensures
            r == self@.len(),
    {
        self.len()
    }

    fn allocate(size: usize) -> (r: Vec<T>)
        ensures
            r@.len() == size,
            exists|d: T|
                call_ensures(T::default, (), d) && forall|i: int|
                    0 <= i < size ==> cloned::<T>(d, #[trigger] r@[i]),
    {
        vec![T::default(); size]
    }
}

/// A map's capacity is its room for entries; it is made empty with room for
/// the size asked for.
impl<K: Eq + Hash, V, S: BuildHasher + Default> Poolable for HashMap<K, V, S> {
    fn capacity(&self) -> (r: usize)
        ensures
            r >= self.len(),
    {
        map_room(self)
    }

    fn allocate(size: usize) -> (r: HashMap<K, V, S>)
        ensures
            r@.is_empty(),
    {
        map_with_room(size)
    }
}

/// A vector is resized to exactly `new_size` elements: the first ones stay,
/// growth appends default values, and shrinking frees the spare storage.
impl<T: Default + Clone> Realloc for Vec<T> {
    open spec fn resized_from(after: Vec<T>, before: Vec<T>, new_size: nat) -> bool {
        let kept = if new_size < before@.len() {
            new_size
        } else {
            before@.len()
        };
        &&& after@.len() == new_size
        &&& after@.subrange(0, kept as int) == before@.subrange(0, kept as int)
        &&& new_size > before@.len() ==> exists|d: T|
            call_ensures(T::default, (), d) && forall|i: int|
                before@.len() <= i < new_size ==> cloned::<T>(d, #[trigger] after@[i])
    }

    fn realloc(&mut self, new_size: usize) {
        let len = self.len();
        if new_size > len {
            let d = T::default();
            self.resize(new_size, d);
        } else if new_size < len {
            self.truncate(new_size);
            release_spare(self);
        }
        assert(self@.subrange(0, (if new_size < len { new_size } else { len }) as int)
            =~= old(self)@.subrange(0, (if new_size < len { new_size } else { len }) as int));
    }
}

/// A map keeps its entries; when `new_size` is above its current room it
/// reserves room for `new_size` entries in all, and when below it gives spare
/// room back.
impl<K: Eq + Hash, V, S: BuildHasher> Realloc for HashMap<K, V, S> {
    open spec fn resized_from(after: HashMap<K, V, S>, before: HashMap<K, V, S>, new_size: nat) -> bool {
        after@ == before@
    }

    fn realloc(&mut self, new_size: usize) {
        let current = map_room(self);
        if new_size > current {
            self.reserve(new_size - self.len());
        } else if new_size < current {
            map_release_spare(self);
        }
    }
}

} // verus!
