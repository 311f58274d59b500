//! The storage capability: a uniform contract that both column kinds
//! satisfy, letting a table drive every field through the same four
//! operations (seed from prototypes, ingest one decoded value, copy one
//! record from prototype to instance, swap-remove).

use vstd::prelude::*;
use crate::overlay::Overlay;

verus! {

/// The capability that masks the difference between a dense `Vec` column
/// and an `Overlay` column. Each impl gives a body to the `*_ens` spec
/// functions, so a caller that knows the concrete column type sees the
/// exact effect of every operation.
pub trait Storage<T>: Sized {
    /// The column's well-formedness.
    spec fn wf(&self) -> bool;

    /// Records held on the prototype side of the column.
    spec fn proto_count(&self) -> nat;

    /// Records held on the instance side of the column.
    spec fn inst_count(&self) -> nat;

    /// Effect of `init_from_prototypes`.
    spec fn seed_ens(pre: Self, prototypes: Self, post: Self) -> bool;

    /// Effect of `push_value`.
    spec fn ingest_ens(pre: Self, value: T, post: Self) -> bool;

    /// Effect of `push_from_prototype`.
    spec fn spawn_ens(pre: Self, source: Self, proto_idx: int, post: Self) -> bool;

    /// Effect of `swap_remove`.
    spec fn remove_ens(pre: Self, index: int, post: Self) -> bool;

    /// Initializes a runtime-table column from the prototype table's column.
    ///
    /// For a dense column this is a no-op (runtime instances start empty);
    /// for an overlay it copies the prototype templates so runtime lookups
    /// can fall back to them without per-instance data.
    fn init_from_prototypes(&mut self, prototypes: &Self)
        requires
            old(self).wf(),
            prototypes.wf(),
        ensures
            final(self).wf(),
            old(self).inst_count() == 0 ==> final(self).inst_count() == 0,
            Self::seed_ens(*old(self), *prototypes, *final(self)),
    ;

    /// Appends one decoded-or-defaulted value on the prototype side of the
    /// column. Used only while loading prototypes.
    fn push_value(&mut self, value: T)
        requires
            old(self).wf(),
            old(self).proto_count() < usize::MAX,
        ensures
            final(self).wf(),
            final(self).proto_count() == old(self).proto_count() + 1,
            Self::ingest_ens(*old(self), value, *final(self)),
    ;

    /// Appends one instance-side record spawned from prototype `proto_idx`
    /// of `source`. Used only on runtime tables; no decoding happens.
    fn push_from_prototype(&mut self, source: &Self, proto_idx: usize)
        requires
            old(self).wf(),
            source.wf(),
            proto_idx < source.proto_count(),
            old(self).inst_count() < usize::MAX,
        ensures
            final(self).wf(),
            final(self).inst_count() == old(self).inst_count() + 1,
            Self::spawn_ens(*old(self), *source, proto_idx as int, *final(self)),
    ;

    /// Swap-removes instance-side record `index`: the last record moves into
    /// its place and the column shrinks by one.
    fn swap_remove(&mut self, index: usize)
        requires
            old(self).wf(),
            index < old(self).inst_count(),
        ensures
            final(self).wf(),
            final(self).inst_count() == old(self).inst_count() - 1,
            Self::remove_ens(*old(self), index as int, *final(self)),
    ;
}

/// Dense storage: an ordered sequence with one slot per record.
impl<T: Clone> Storage<T> for Vec<T> {
    open spec fn wf(&self) -> bool {
        true
    }

    open spec fn proto_count(&self) -> nat {
        self@.len()
    }

    open spec fn inst_count(&self) -> nat {
        self@.len()
    }

    /// Seeding is a no-op: an instance-side dense column starts empty.
    open spec fn seed_ens(pre: Self, prototypes: Self, post: Self) -> bool {
        post == pre
    }

    open spec fn ingest_ens(pre: Self, value: T, post: Self) -> bool {
        post@ == pre@.push(value)
    }

    /// Spawning appends a clone of the chosen prototype's value.
    open spec fn spawn_ens(pre: Self, source: Self, proto_idx: int, post: Self) -> bool {
        &&& post@.len() == pre@.len() + 1
        &&& post@.drop_last() == pre@
        &&& cloned::<T>(source@[proto_idx], post@.last())
    }

    open spec fn remove_ens(pre: Self, index: int, post: Self) -> bool {
        post@ == pre@.update(index, pre@.last()).drop_last()
    }

    fn init_from_prototypes(&mut self, _prototypes: &Self) {
    }

    fn push_value(&mut self, value: T) {
        self.push(value);
    }

    fn push_from_prototype(&mut self, source: &Self, proto_idx: usize) {
        self.push(source[proto_idx].clone());
        proof {
            assert(self@.drop_last() =~= old(self)@);
        }
    }

    fn swap_remove(&mut self, index: usize) {
        self.swap_remove(index);
    }
}

/// Overlay storage: templates on the prototype side, copy-on-write
/// overrides on the instance side.
impl<T: Clone> Storage<T> for Overlay<T> {
    open spec fn wf(&self) -> bool {
        self.inv()
    }

    open spec fn proto_count(&self) -> nat {
        self.templates().len()
    }

    open spec fn inst_count(&self) -> nat {
        self.num_instances()
    }

    /// Seeding clears all per-instance state and copies the prototype
    /// templates, so later reads can fall back to prototype data.
    open spec fn seed_ens(pre: Self, prototypes: Self, post: Self) -> bool {
        &&& post.num_instances() == 0
        &&& post.sparse_data@ == Map::<usize, T>::empty()
        &&& post.templates().len() == prototypes.templates().len()
        &&& forall|i: int|
            0 <= i < prototypes.templates().len() ==> cloned::<T>(
                prototypes.templates()[i],
                #[trigger] post.templates()[i],
            )
    }

    /// Ingesting a prototype value appends to the template sequence.
    open spec fn ingest_ens(pre: Self, value: T, post: Self) -> bool {
        &&& post.templates() == pre.templates().push(value)
        &&& post.sparse_data@ == pre.sparse_data@
        &&& post.num_instances() == pre.num_instances()
    }

    /// Spawning copies no data: it only opens a new instance slot that
    /// reads through to the prototype until first written.
    open spec fn spawn_ens(pre: Self, source: Self, proto_idx: int, post: Self) -> bool {
        &&& post.templates() == pre.templates()
        &&& post.sparse_data@ == pre.sparse_data@
        &&& post.num_instances() == pre.num_instances() + 1
        &&& post.override_state() == pre.override_state().push(None::<T>)
    }

    /// Swap-removal acts on the instance space only; override state follows
    /// the moved record, and the templates stay untouched.
    open spec fn remove_ens(pre: Self, index: int, post: Self) -> bool {
        &&& post.templates() == pre.templates()
        &&& post.num_instances() == pre.num_instances() - 1
        &&& post.override_state() == pre.override_state().update(
            index,
            pre.override_state().last(),
        ).drop_last()
    }

    fn init_from_prototypes(&mut self, prototypes: &Self) {
        self.dense_data = prototypes.dense_data.clone();
        self.sparse_data.clear();
        self.presence.clear();
        self.instance_len = 0;
        proof {
            assert(forall|i: usize| !crate::bits::presence_bit(self.presence@, i));
        }
    }

    fn push_value(&mut self, value: T) {
        self.dense_data.push(value);
    }

    fn push_from_prototype(&mut self, _source: &Self, _proto_idx: usize) {
        self.push_instance();
    }

    fn swap_remove(&mut self, index: usize) {
        self.swap_remove_instance(index);
    }
}

} // verus!
