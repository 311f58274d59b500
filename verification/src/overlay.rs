//! The overlay column: a prototype/instance hybrid column.
//!
//! It holds the prototype template sequence (`dense_data`), a sparse mapping
//! from instance id to override value (`sparse_data`), a presence bitmap
//! marking which instances carry an override (`presence`), and the logical
//! number of instance slots (`instance_len`). An instance without an
//! override reads through to the template value of its prototype; the first
//! write materializes a per-instance copy (copy-on-write).

use vstd::prelude::*;
use std::collections::HashMap;
use crate::bits::lemma_andnot_clears_bit;
use crate::bits::lemma_andnot_preserves_other_bits;
use crate::bits::lemma_mask_test;
use crate::bits::lemma_or_preserves_other_bits;
use crate::bits::lemma_or_sets_bit;
use crate::bits::lemma_same_word_same_bit;
use crate::bits::lemma_zero_word_clear;
use crate::bits::presence_bit;

verus! {

broadcast use vstd::std_specs::hash::group_hash_axioms;

/// A bounds fault: an index was at or past the record count it addresses.
#[derive(Clone, Copy, Debug, PartialEq, Eq, Structural)]
pub struct IndexOutOfBounds;

/// Hybrid prototype/instance column. Can be used for sparse data, defaults,
/// and copy-on-write data.
#[derive(Clone)]
pub struct Overlay<T> {
    /// Prototype/template data (indexed by prototype id).
    pub dense_data: Vec<T>,
    /// Per-instance overrides (keyed by instance id).
    pub sparse_data: HashMap<usize, T>,
    /// Bitmap over instance ids: bit set means `sparse_data` holds an
    /// override for that instance, bit clear means the instance reads the
    /// prototype template.
    pub presence: Vec<u64>,
    /// Logical number of instances tracked by this overlay.
    pub instance_len: usize,
}

impl<T> Overlay<T> {
    /// The template sequence, one value per loaded prototype.
    pub open spec fn templates(&self) -> Seq<T> {
        self.dense_data@
    }

    /// The logical number of instance slots.
    pub open spec fn num_instances(&self) -> nat {
        self.instance_len as nat
    }

    /// Whether instance `i` carries its own override value.
    pub open spec fn overridden(&self, i: usize) -> bool {
        self.sparse_data@.contains_key(i)
    }

    /// The override value of instance `i`.
    pub open spec fn override_at(&self, i: usize) -> T {
        self.sparse_data@[i]
    }

    /// What a read of instance `i` with prototype id `p` returns: the
    /// override if one is present, else the template value at `p`.
    pub open spec fn read_spec(&self, i: usize, p: int) -> T {
        if self.overridden(i) {
            self.override_at(i)
        } else {
            self.templates()[p]
        }
    }

    /// The per-instance override state, one slot per instance id: `Some`
    /// with the override value, or `None` for prototype fallback.
    pub open spec fn override_state(&self) -> Seq<Option<T>> {
        Seq::new(
            self.instance_len as nat,
            |j: int|
                if self.sparse_data@.contains_key(j as usize) {
                    Some(self.sparse_data@[j as usize])
                } else {
                    None
                },
        )
    }

    /// Overlay consistency: a presence bit is set exactly when the override
    /// mapping holds a value for that instance id, and every override
    /// belongs to a live instance slot.
    pub open spec fn inv(&self) -> bool {
        &&& forall|i: usize| #[trigger]
            presence_bit(self.presence@, i) ==> self.sparse_data@.contains_key(i)
        &&& forall|i: usize| #[trigger]
            self.sparse_data@.contains_key(i) ==> presence_bit(self.presence@, i) && i
                < self.instance_len
    }
}

impl<T> Default for Overlay<T> {
    /// An empty overlay: no templates, no instances, no overrides.
    fn default() -> (r: Self)
        ensures
            r.templates() == Seq::<T>::empty(),
            r.sparse_data@ == Map::<usize, T>::empty(),
            r.presence@ == Seq::<u64>::empty(),
            r.num_instances() == 0,
            r.inv(),
    {
        let r = Overlay {
            dense_data: Vec::new(),
            sparse_data: HashMap::new(),
            presence: Vec::new(),
            instance_len: 0usize,
        };
        proof {
            assert(forall|i: usize| !presence_bit(r.presence@, i));
        }
        r
    }
}

/// Relies on std's `HashMap::get_mut`: returns a mutable handle to the value
/// stored for `k`; afterwards the map holds for `k` whatever the caller
/// leaves in that handle, and is otherwise unchanged.
#[verifier::external_body]
fn map_value_mut<T>(m: &mut HashMap<usize, T>, k: usize) -> (r: &mut T)
    requires
        old(m)@.contains_key(k),
    ensures
        *r == old(m)@[k],
        final(m)@ == old(m)@.insert(k, *final(r)),
{
    m.get_mut(&k).expect("presence bit set but override entry missing")
}

impl<T> Overlay<T> where T: Clone {
    /// The presence word and bit mask addressing `instance_id`.
    fn word_bit(instance_id: usize) -> (r: (usize, u64))
        ensures
            r.0 == instance_id as int / 64,
            r.1 == 1u64 << ((instance_id as int % 64) as u64),
    {
        let word = instance_id / 64;
        let bit: u64 = (instance_id % 64) as u64;
        (word, 1u64 << bit)
    }

    /// Grows the presence bitmap with zeroed words until it covers
    /// `instance_id`, preserving every already-stored bit.
    fn ensure_presence_capacity(&mut self, instance_id: usize)
        ensures
            final(self).dense_data == old(self).dense_data,
            final(self).sparse_data == old(self).sparse_data,
            final(self).instance_len == old(self).instance_len,
            instance_id as int / 64 < final(self).presence@.len(),
            forall|j: usize|
                #[trigger] presence_bit(final(self).presence@, j) == presence_bit(
                    old(self).presence@,
                    j,
                ),
    {
        let word = instance_id / 64;
        while self.presence.len() <= word
            invariant
                self.dense_data == old(self).dense_data,
                self.sparse_data == old(self).sparse_data,
                self.instance_len == old(self).instance_len,
                old(self).presence@.len() <= self.presence@.len(),
                forall|k: int|
                    0 <= k < self.presence@.len() ==> #[trigger] self.presence@[k] == (if k < old(
                        self,
                    ).presence@.len() {
                        old(self).presence@[k]
                    } else {
                        0u64
                    }),
            decreases word + 1 - self.presence@.len(),
        {
            self.presence.push(0u64);
        }
        proof {
            assert forall|j: usize|
                presence_bit(self.presence@, j) == presence_bit(old(self).presence@, j) by {
                let w = j as int / 64;
                let b = (j as int % 64) as u64;
                if w < old(self).presence@.len() {
                    assert(self.presence@[w] == old(self).presence@[w]);
                } else if w < self.presence@.len() {
                    assert(self.presence@[w] == 0u64);
                    lemma_zero_word_clear(b);
                }
            }
        }
    }


    /// Sets presence bit `instance_id`, leaving every other bit unchanged.
    fn set_bit(&mut self, instance_id: usize)
        ensures
            final(self).dense_data == old(self).dense_data,
            final(self).sparse_data == old(self).sparse_data,
            final(self).instance_len == old(self).instance_len,
            presence_bit(final(self).presence@, instance_id),
            forall|j: usize|
                j != instance_id ==> #[trigger] presence_bit(final(self).presence@, j)
                    == presence_bit(old(self).presence@, j),
    {
        self.ensure_presence_capacity(instance_id);
        let (word, mask) = Self::word_bit(instance_id);
        let ghost mid = self.presence@;
        let w = self.presence[word];
        self.presence[word] = w | mask;
        proof {
            let b = (instance_id as int % 64) as u64;
            lemma_or_sets_bit(w, b);
            assert forall|j: usize|
                j != instance_id implies presence_bit(self.presence@, j) == presence_bit(
                old(self).presence@,
                j,
            ) by {
                assert(presence_bit(mid, j) == presence_bit(old(self).presence@, j));
                let jb = (j as int % 64) as u64;
                if j as int / 64 == word as int {
                    if jb == b {
                        lemma_same_word_same_bit(instance_id, j);
                    } else {
                        lemma_or_preserves_other_bits(w, b, jb);
                    }
                }
            }
            assert(presence_bit(self.presence@, instance_id));
        }
    }

    /// Clears presence bit `instance_id`, leaving every other bit unchanged.
    fn clear_bit(&mut self, instance_id: usize)
        ensures
            final(self).dense_data == old(self).dense_data,
            final(self).sparse_data == old(self).sparse_data,
            final(self).instance_len == old(self).instance_len,
            !presence_bit(final(self).presence@, instance_id),
            forall|j: usize|
                j != instance_id ==> #[trigger] presence_bit(final(self).presence@, j)
                    == presence_bit(old(self).presence@, j),
    {
        let (word, mask) = Self::word_bit(instance_id);
        if word < self.presence.len() {
            let w = self.presence[word];
            self.presence[word] = w & !mask;
            proof {
                let b = (instance_id as int % 64) as u64;
                lemma_andnot_clears_bit(w, b);
                assert forall|j: usize|
                    j != instance_id implies presence_bit(self.presence@, j) == presence_bit(
                    old(self).presence@,
                    j,
                ) by {
                    let jb = (j as int % 64) as u64;
                    if j as int / 64 == word as int {
                        if jb == b {
                            lemma_same_word_same_bit(instance_id, j);
                        } else {
                            lemma_andnot_preserves_other_bits(w, b, jb);
                        }
                    }
                }
            }
        }
    }

    /// Number of spawned instances represented by this overlay.
    pub fn instances_len(&self) -> (r: usize)
        ensures
            r == self.num_instances(),
    {
        self.instance_len
    }

    /// Number of loaded prototypes/templates represented by this overlay.
    pub fn prototypes_len(&self) -> (r: usize)
        ensures
            r == self.templates().len(),
    {
        self.dense_data.len()
    }

    /// Adds a new instance slot with no override, so that the new instance
    /// reads through to its prototype's template value.
    pub fn push_instance(&mut self)
        requires
            old(self).inv(),
            old(self).instance_len < usize::MAX,
        ensures
            final(self).inv(),
            final(self).instance_len == old(self).instance_len + 1,
            final(self).dense_data == old(self).dense_data,
            final(self).sparse_data == old(self).sparse_data,
            final(self).override_state() == old(self).override_state().push(None::<T>),
    {
        let id = self.instance_len;
        self.instance_len = self.instance_len + 1;
        self.ensure_presence_capacity(id);
        proof {
            assert(self.override_state() =~= old(self).override_state().push(None::<T>));
        }
    }

    /// Returns true if this instance has an override.
    pub fn has_override(&self, instance_id: usize) -> (r: bool)
        requires
            self.inv(),
        ensures
            r == (instance_id < self.instance_len && self.overridden(instance_id)),
    {
        if instance_id >= self.instance_len {
            return false;
        }
        let (word, mask) = Self::word_bit(instance_id);
        let w: u64 = if word < self.presence.len() {
            self.presence[word]
        } else {
            0
        };
        let r = (w & mask) != 0;
        proof {
            let b = (instance_id as int % 64) as u64;
            lemma_mask_test(w, b);
            if word >= self.presence@.len() {
                lemma_zero_word_clear(b);
                assert(!presence_bit(self.presence@, instance_id));
            }
            assert(r == presence_bit(self.presence@, instance_id));
        }
        r
    }

    /// Clears an override for `instance_id`, if present, reverting the
    /// instance to prototype fallback. A no-op for an id with no live slot.
    pub fn clear_override(&mut self, instance_id: usize)
        requires
            old(self).inv(),
        ensures
            final(self).inv(),
            final(self).instance_len == old(self).instance_len,
            final(self).dense_data == old(self).dense_data,
            final(self).sparse_data@ == old(self).sparse_data@.remove(instance_id),
            !presence_bit(final(self).presence@, instance_id),
            forall|j: usize|
                j != instance_id ==> #[trigger] presence_bit(final(self).presence@, j)
                    == presence_bit(old(self).presence@, j),
            instance_id < old(self).instance_len ==> final(self).override_state() == old(
                self,
            ).override_state().update(instance_id as int, None::<T>),
            instance_id >= old(self).instance_len ==> final(self).override_state() == old(
                self,
            ).override_state(),
    {
        if instance_id >= self.instance_len {
            proof {
                assert(old(self).sparse_data@.remove(instance_id) =~= old(self).sparse_data@);
            }
            return;
        }
        self.clear_bit(instance_id);
        self.sparse_data.remove(&instance_id);
        proof {
            assert(self.override_state() =~= old(self).override_state().update(
                instance_id as int,
                None::<T>,
            ));
        }
    }

    /// Read with fallback to prototype/template data: the override value if
    /// one is present, else the template value at `prototype_id`.
    pub fn get(&self, instance_id: usize, prototype_id: usize) -> (r: &T)
        requires
            self.inv(),
            instance_id < self.num_instances(),
            prototype_id < self.templates().len(),
        ensures
            *r == self.read_spec(instance_id, prototype_id as int),
    {
        if self.has_override(instance_id) {
            let v = self.sparse_data.get(&instance_id);
            v.unwrap()
        } else {
            &self.dense_data[prototype_id]
        }
    }

    /// Write access with copy-on-write from the prototype/template: if
    /// `instance_id` has no override yet, the template value at
    /// `prototype_id` is first copied into the override mapping; either way
    /// the result is a mutable handle to this instance's override entry.
    pub fn get_mut(&mut self, instance_id: usize, prototype_id: usize) -> (r: &mut T)
        requires
            old(self).inv(),
            instance_id < old(self).num_instances(),
            old(self).overridden(instance_id) || prototype_id < old(self).templates().len(),
        ensures
            old(self).overridden(instance_id) ==> *r == old(self).override_at(instance_id),
            !old(self).overridden(instance_id) ==> cloned::<T>(
                old(self).templates()[prototype_id as int],
                *r,
            ),
            final(self).inv(),
            final(self).instance_len == old(self).instance_len,
            final(self).dense_data == old(self).dense_data,
            final(self).sparse_data@ == old(self).sparse_data@.insert(instance_id, *final(r)),
            forall|j: usize|
                j != instance_id ==> #[trigger] presence_bit(final(self).presence@, j)
                    == presence_bit(old(self).presence@, j),
    {
        if !self.has_override(instance_id) {
            let base = self.dense_data[prototype_id].clone();
            self.sparse_data.insert(instance_id, base);
            self.set_bit(instance_id);
            proof {
                assert(cloned::<T>(old(self).templates()[prototype_id as int], base));
            }
        }
        proof {
            assert(self.sparse_data@.contains_key(instance_id));
            assert forall|fr: T|
                #[trigger] self.sparse_data@.insert(instance_id, fr) == old(
                    self,
                ).sparse_data@.insert(instance_id, fr) by {
                assert(self.sparse_data@.insert(instance_id, fr) =~= old(
                    self,
                ).sparse_data@.insert(instance_id, fr));
            }
        }
        map_value_mut(&mut self.sparse_data, instance_id)
    }

    /// Sets an override value for `instance_id` unconditionally, marking its
    /// presence bit.
    pub fn set(&mut self, instance_id: usize, value: T)
        requires
            old(self).inv(),
            instance_id < old(self).num_instances(),
        ensures
            final(self).inv(),
            final(self).instance_len == old(self).instance_len,
            final(self).dense_data == old(self).dense_data,
            final(self).sparse_data@ == old(self).sparse_data@.insert(instance_id, value),
            forall|j: usize|
                j != instance_id ==> #[trigger] presence_bit(final(self).presence@, j)
                    == presence_bit(old(self).presence@, j),
            final(self).override_state() == old(self).override_state().update(
                instance_id as int,
                Some(value),
            ),
    {
        self.sparse_data.insert(instance_id, value);
        self.set_bit(instance_id);
        proof {
            assert(self.override_state() =~= old(self).override_state().update(
                instance_id as int,
                Some(value),
            ));
        }
    }

    /// Swap-remove an instance slot, keeping O(1) semantics consistent with
    /// `Vec::swap_remove`: the last slot's override state (if any) moves
    /// into `index`, and the instance count shrinks by one. The template
    /// sequence is untouched.
    pub fn swap_remove_instance(&mut self, index: usize)
        requires
            old(self).inv(),
            index < old(self).num_instances(),
        ensures
            final(self).inv(),
            final(self).instance_len == old(self).instance_len - 1,
            final(self).dense_data == old(self).dense_data,
            final(self).override_state() == old(self).override_state().update(
                index as int,
                old(self).override_state().last(),
            ).drop_last(),
    {
        let last = self.instance_len - 1;
        self.clear_override(index);
        if index != last {
            let last_has = self.has_override(last);
            if last_has {
                let v = self.sparse_data.remove(&last).unwrap();
                self.sparse_data.insert(index, v);
                self.set_bit(index);
            }
            self.clear_bit(last);
        }
        self.instance_len = self.instance_len - 1;
        proof {
            assert(self.override_state() =~= old(self).override_state().update(
                index as int,
                old(self).override_state().last(),
            ).drop_last());
        }
    }

    /// Bounds-checked read: `Ok` exactly when both indices are in range,
    /// `Err` otherwise; the column is never modified.
    pub fn try_get(&self, instance_id: usize, prototype_id: usize) -> (r: Result<
        &T,
        IndexOutOfBounds,
    >)
        requires
            self.inv(),
        ensures
            r is Ok <==> (instance_id < self.num_instances() && prototype_id
                < self.templates().len()),
            r matches Ok(v) ==> *v == self.read_spec(instance_id, prototype_id as int),
    {
        if instance_id < self.instance_len && prototype_id < self.dense_data.len() {
            Ok(self.get(instance_id, prototype_id))
        } else {
            Err(IndexOutOfBounds)
        }
    }

    /// Bounds-checked copy-on-write materialization: on `Ok` the instance
    /// afterwards carries its own override (copied from the template when it
    /// had none); on `Err` the column is left unmodified.
    pub fn try_write(&mut self, instance_id: usize, prototype_id: usize) -> (r: Result<
        (),
        IndexOutOfBounds,
    >)
        requires
            old(self).inv(),
        ensures
            final(self).inv(),
            r is Ok <==> (instance_id < old(self).num_instances() && (old(self).overridden(
                instance_id,
            ) || prototype_id < old(self).templates().len())),
            r is Err ==> *final(self) == *old(self),
            r is Ok ==> {
                &&& final(self).instance_len == old(self).instance_len
                &&& final(self).dense_data == old(self).dense_data
                &&& final(self).overridden(instance_id)
                &&& (old(self).overridden(instance_id) ==> final(self).sparse_data@ == old(
                    self,
                ).sparse_data@)
                &&& (!old(self).overridden(instance_id) ==> final(self).sparse_data@ == old(
                    self,
                ).sparse_data@.insert(instance_id, final(self).override_at(instance_id))
                    && cloned::<T>(
                    old(self).templates()[prototype_id as int],
                    final(self).override_at(instance_id),
                ))
            },
    {
        if instance_id < self.instance_len {
            let over = self.has_override(instance_id);
            if over || prototype_id < self.dense_data.len() {
                let _ = self.get_mut(instance_id, prototype_id);
                proof {
                    if old(self).overridden(instance_id) {
                        assert(self.sparse_data@ =~= old(self).sparse_data@);
                    }
                }
                return Ok(());
            }
        }
        Err(IndexOutOfBounds)
    }

    /// Bounds-checked unconditional override: `Ok` exactly when the instance
    /// id addresses a live slot; on `Err` the column is left unmodified.
    pub fn try_set(&mut self, instance_id: usize, value: T) -> (r: Result<(), IndexOutOfBounds>)
        requires
            old(self).inv(),
        ensures
            final(self).inv(),
            r is Ok <==> instance_id < old(self).num_instances(),
            r is Err ==> *final(self) == *old(self),
            r is Ok ==> {
                &&& final(self).instance_len == old(self).instance_len
                &&& final(self).dense_data == old(self).dense_data
                &&& final(self).sparse_data@ == old(self).sparse_data@.insert(instance_id, value)
                &&& final(self).override_state() == old(self).override_state().update(
                    instance_id as int,
                    Some(value),
                )
            },
    {
        if instance_id < self.instance_len {
            self.set(instance_id, value);
            Ok(())
        } else {
            Err(IndexOutOfBounds)
        }
    }

    /// Bounds-checked swap-removal: `Ok` exactly when the index addresses a
    /// live slot; on `Err` the column is left unmodified.
    pub fn try_swap_remove_instance(&mut self, index: usize) -> (r: Result<(), IndexOutOfBounds>)
        requires
            old(self).inv(),
        ensures
            final(self).inv(),
            r is Ok <==> index < old(self).num_instances(),
            r is Err ==> *final(self) == *old(self),
            r is Ok ==> {
                &&& final(self).instance_len == old(self).instance_len - 1
                &&& final(self).dense_data == old(self).dense_data
                &&& final(self).override_state() == old(self).override_state().update(
                    index as int,
                    old(self).override_state().last(),
                ).drop_last()
            },
    {
        if index < self.instance_len {
            self.swap_remove_instance(index);
            Ok(())
        } else {
            Err(IndexOutOfBounds)
        }
    }
}

/// Overlay read-through: an instance that carries no override reads exactly
/// the template value of its prototype.
pub proof fn lemma_read_through<T>(o: Overlay<T>, i: usize, p: int)
    requires
        !o.overridden(i),
        0 <= p < o.templates().len(),
    ensures
        o.read_spec(i, p) == o.templates()[p],
{
}

/// Copy-on-write isolation: writing one instance's override leaves the
/// template sequence and every other instance's read unchanged. The
/// prototype table itself is a separate value and is never touched by an
/// instance-side write.
pub proof fn lemma_cow_isolation<T>(pre: Overlay<T>, post: Overlay<T>, i: usize, j: usize, v: T, p: int)
    requires
        post.templates() == pre.templates(),
        post.sparse_data@ == pre.sparse_data@.insert(i, v),
        j != i,
    ensures
        post.read_spec(j, p) == pre.read_spec(j, p),
        post.overridden(j) == pre.overridden(j),
{
    assert(post.sparse_data@.contains_key(j) == pre.sparse_data@.contains_key(j));
}

} // verus!
