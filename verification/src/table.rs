//! The table coordinator: a per-entity-type container with one column per
//! registered field plus a `prototype_id` column.
//!
//! The registered fields are a fixed, ordered list known up front, so the
//! bulk operations (load a prototype, derive a runtime table, spawn an
//! instance, despawn by index) are written out once per field, all routed
//! through the storage capability. Decoding of structured input into typed
//! field values is the caller's business: a record arrives here already
//! decoded, with `None` for a field that was missing or malformed, and the
//! table substitutes that field's type default.

use vstd::prelude::*;
use crate::overlay::IndexOutOfBounds;
use crate::overlay::Overlay;
use crate::storage::Storage;

verus! {

/// Example component with a textual payload.
#[derive(Debug, PartialEq, Eq)]
pub struct Foo {
    pub foo_field: String,
}

/// Example component with a numeric payload and a non-trivial default.
#[derive(Debug, PartialEq, Eq)]
pub struct Bar {
    pub bar_field: i32,
}

impl Clone for Foo {
    /// Clones preserve the value.
    fn clone(&self) -> (r: Self)
        ensures
            r == *self,
    {
        Foo { foo_field: self.foo_field.clone() }
    }
}

impl Clone for Bar {
    /// Clones preserve the value.
    fn clone(&self) -> (r: Self)
        ensures
            r == *self,
    {
        Bar { bar_field: self.bar_field }
    }
}

/// `Foo`'s type default: an empty text.
pub open spec fn foo_default(f: Foo) -> bool {
    f.foo_field@ == Seq::<char>::empty()
}

/// `Bar`'s type default: the number 69.
pub open spec fn bar_default(b: Bar) -> bool {
    b.bar_field == 69
}

impl Default for Foo {
    fn default() -> (r: Self)
        ensures
            foo_default(r),
    {
        Foo { foo_field: String::new() }
    }
}

impl Default for Bar {
    fn default() -> (r: Self)
        ensures
            bar_default(r),
    {
        Bar { bar_field: 69 }
    }
}

/// A clone of a `String` is the same value.
pub proof fn lemma_cloned_string_eq(a: String, b: String)
    requires
        cloned::<String>(a, b),
    ensures
        a == b,
{
}

/// A clone of a `Foo` is the same value.
pub proof fn lemma_cloned_foo_eq(a: Foo, b: Foo)
    requires
        cloned::<Foo>(a, b),
    ensures
        a == b,
{
}

/// A clone of a `Bar` is the same value.
pub proof fn lemma_cloned_bar_eq(a: Bar, b: Bar)
    requires
        cloned::<Bar>(a, b),
    ensures
        a == b,
{
}

/// A record as it leaves the external decoder: one entry per registered
/// field, `None` where the field was missing from the input or its raw
/// value failed to decode. An id-like value in the input is carried here
/// only to be ignored: prototype ids are always auto-assigned in load
/// order.
pub struct DecodedRecord {
    pub prototype_id: Option<usize>,
    pub foo: Option<Foo>,
    pub bar: Option<Bar>,
    pub num: Option<i32>,
    pub name: Option<String>,
    pub really_long_string: Option<String>,
}

/// The decoded value, or the field's type default when it was absent.
pub open spec fn foo_or_default(o: Option<Foo>, v: Foo) -> bool {
    match o {
        Some(x) => v == x,
        None => foo_default(v),
    }
}

/// The decoded value, or the field's type default when it was absent.
pub open spec fn bar_or_default(o: Option<Bar>, v: Bar) -> bool {
    match o {
        Some(x) => v == x,
        None => bar_default(v),
    }
}

/// The decoded value, or the empty text when the field was absent.
pub open spec fn str_or_default(o: Option<String>, v: String) -> bool {
    match o {
        Some(x) => v == x,
        None => v@ == Seq::<char>::empty(),
    }
}

/// The decoded value, or zero when the field was absent.
pub open spec fn num_or_default(o: Option<i32>) -> i32 {
    match o {
        Some(x) => x,
        None => 0i32,
    }
}

/// A structure-of-arrays table: one column per registered field, plus the
/// `prototype_id` column. The same type serves as the prototype table
/// (grown by `load_prototype`) and as a runtime table (derived by
/// `new_from_prototypes`, grown by `spawn_entity`).
pub struct MySoA {
    pub prototype_id: Vec<usize>,
    pub foo: Vec<Foo>,
    pub bar: Vec<Bar>,
    pub num: Vec<i32>,
    pub name: Vec<String>,
    pub really_long_string: Overlay<String>,
}

impl MySoA {
    /// Records in the table when used as a prototype table.
    pub open spec fn proto_count(&self) -> nat {
        self.prototype_id@.len()
    }

    /// Records in the table when used as a runtime (instance) table.
    pub open spec fn inst_count(&self) -> nat {
        self.prototype_id@.len()
    }

    /// Prototype-table well-formedness: every column holds one entry per
    /// record, and prototype ids are exactly the load order `0, 1, 2, …`.
    pub open spec fn proto_wf(&self) -> bool {
        &&& self.foo@.len() == self.proto_count()
        &&& self.bar@.len() == self.proto_count()
        &&& self.num@.len() == self.proto_count()
        &&& self.name@.len() == self.proto_count()
        &&& self.really_long_string.templates().len() == self.proto_count()
        &&& self.really_long_string.inv()
        &&& forall|i: int| 0 <= i < self.proto_count() ==> #[trigger] self.prototype_id@[i] == i
    }

    /// Runtime-table well-formedness: every column (the overlay's instance
    /// side included) holds one entry per record, and every stored
    /// prototype id addresses a template.
    pub open spec fn inst_wf(&self) -> bool {
        &&& self.foo@.len() == self.inst_count()
        &&& self.bar@.len() == self.inst_count()
        &&& self.num@.len() == self.inst_count()
        &&& self.name@.len() == self.inst_count()
        &&& self.really_long_string.num_instances() == self.inst_count()
        &&& self.really_long_string.inv()
        &&& forall|i: int|
            0 <= i < self.inst_count() ==> (#[trigger] self.prototype_id@[i])
                < self.really_long_string.templates().len()
    }

    /// Effect of `load_prototype`: each registered column gains the decoded
    /// value or its type default, and the `prototype_id` column gains the
    /// next sequential id, whatever the input held.
    pub open spec fn load_post(pre: MySoA, rec: DecodedRecord, post: MySoA) -> bool {
        &&& post.prototype_id@ == pre.prototype_id@.push(pre.proto_count() as usize)
        &&& post.foo@.len() == pre.foo@.len() + 1
        &&& post.foo@.drop_last() == pre.foo@
        &&& foo_or_default(rec.foo, post.foo@.last())
        &&& post.bar@.len() == pre.bar@.len() + 1
        &&& post.bar@.drop_last() == pre.bar@
        &&& bar_or_default(rec.bar, post.bar@.last())
        &&& post.num@ == pre.num@.push(num_or_default(rec.num))
        &&& post.name@.len() == pre.name@.len() + 1
        &&& post.name@.drop_last() == pre.name@
        &&& str_or_default(rec.name, post.name@.last())
        &&& post.really_long_string.templates().len() == pre.really_long_string.templates().len()
            + 1
        &&& post.really_long_string.templates().drop_last() == pre.really_long_string.templates()
        &&& str_or_default(rec.really_long_string, post.really_long_string.templates().last())
        &&& post.really_long_string.sparse_data@ == pre.really_long_string.sparse_data@
        &&& post.really_long_string.num_instances() == pre.really_long_string.num_instances()
    }

    /// Effect of `spawn_entity` from prototype `idx`: every dense column
    /// gains a copy of that prototype's value, the overlay gains one
    /// not-yet-overridden instance slot, and `prototype_id` records `idx`.
    pub open spec fn spawn_post(pre: MySoA, proto: MySoA, idx: int, post: MySoA) -> bool {
        &&& post.prototype_id@ == pre.prototype_id@.push(proto.prototype_id@[idx])
        &&& post.foo@ == pre.foo@.push(proto.foo@[idx])
        &&& post.bar@ == pre.bar@.push(proto.bar@[idx])
        &&& post.num@ == pre.num@.push(proto.num@[idx])
        &&& post.name@ == pre.name@.push(proto.name@[idx])
        &&& post.really_long_string.templates() == pre.really_long_string.templates()
        &&& post.really_long_string.sparse_data@ == pre.really_long_string.sparse_data@
        &&& post.really_long_string.override_state() == pre.really_long_string.override_state().push(
            None::<String>,
        )
    }

    /// Effect of `swap_remove` at `index`: every column moves its last
    /// entry into `index` and shrinks by one, in lockstep; the overlay's
    /// override state follows the moved record, and templates stay put.
    pub open spec fn despawn_post(pre: MySoA, index: int, post: MySoA) -> bool {
        &&& post.prototype_id@ == pre.prototype_id@.update(
            index,
            pre.prototype_id@.last(),
        ).drop_last()
        &&& post.foo@ == pre.foo@.update(index, pre.foo@.last()).drop_last()
        &&& post.bar@ == pre.bar@.update(index, pre.bar@.last()).drop_last()
        &&& post.num@ == pre.num@.update(index, pre.num@.last()).drop_last()
        &&& post.name@ == pre.name@.update(index, pre.name@.last()).drop_last()
        &&& post.really_long_string.templates() == pre.really_long_string.templates()
        &&& post.really_long_string.override_state() == pre.really_long_string.override_state().update(
            index,
            pre.really_long_string.override_state().last(),
        ).drop_last()
    }
}

impl Default for MySoA {
    /// An empty table.
    fn default() -> (r: Self)
        ensures
            r.proto_count() == 0,
            r.inst_count() == 0,
            r.proto_wf(),
            r.inst_wf(),
            r.foo@ == Seq::<Foo>::empty(),
            r.bar@ == Seq::<Bar>::empty(),
            r.num@ == Seq::<i32>::empty(),
            r.name@ == Seq::<String>::empty(),
            r.prototype_id@ == Seq::<usize>::empty(),
            r.really_long_string.templates() == Seq::<String>::empty(),
            r.really_long_string.sparse_data@ == Map::<usize, String>::empty(),
            r.really_long_string.num_instances() == 0,
    {
        MySoA {
            prototype_id: Vec::new(),
            foo: Vec::new(),
            bar: Vec::new(),
            num: Vec::new(),
            name: Vec::new(),
            really_long_string: Overlay::default(),
        }
    }
}

impl MySoA {
    /// Loads one prototype from a decoded record: every registered field
    /// ingests its decoded value, falling back to the field's type default
    /// when the field was missing or failed to decode; then the next
    /// sequential prototype id is appended, ignoring any id in the input.
    pub fn load_prototype(&mut self, prototype: DecodedRecord)
        requires
            old(self).proto_wf(),
            old(self).proto_count() < usize::MAX,
        ensures
            final(self).proto_wf(),
            final(self).proto_count() == old(self).proto_count() + 1,
            MySoA::load_post(*old(self), prototype, *final(self)),
    {
        let DecodedRecord { prototype_id: _, foo, bar, num, name, really_long_string } = prototype;
        let foo_v = match foo {
            Some(v) => v,
            None => Foo::default(),
        };
        <Vec<Foo> as Storage<Foo>>::push_value(&mut self.foo, foo_v);
        let bar_v = match bar {
            Some(v) => v,
            None => Bar::default(),
        };
        <Vec<Bar> as Storage<Bar>>::push_value(&mut self.bar, bar_v);
        let num_v = match num {
            Some(v) => v,
            None => 0i32,
        };
        <Vec<i32> as Storage<i32>>::push_value(&mut self.num, num_v);
        let name_v = match name {
            Some(v) => v,
            None => String::new(),
        };
        <Vec<String> as Storage<String>>::push_value(&mut self.name, name_v);
        let rls_v = match really_long_string {
            Some(v) => v,
            None => String::new(),
        };
        <Overlay<String> as Storage<String>>::push_value(&mut self.really_long_string, rls_v);
        let next_id = self.prototype_id.len();
        self.prototype_id.push(next_id);
        proof {
            assert(self.foo@.drop_last() =~= old(self).foo@);
            assert(self.bar@.drop_last() =~= old(self).bar@);
            assert(self.name@.drop_last() =~= old(self).name@);
            assert(self.really_long_string.templates().drop_last() =~= old(
                self,
            ).really_long_string.templates());
        }
    }

    /// Constructs a runtime table from a prototype table.
    ///
    /// This seeds the overlay fields with the prototype templates, so
    /// runtime reads can fall back to prototypes without copying
    /// per-instance data up-front; dense fields start empty. The two tables
    /// share nothing afterwards: mutating one never affects the other.
    pub fn new_from_prototypes(prototypes: &MySoA) -> (r: MySoA)
        requires
            prototypes.proto_wf(),
        ensures
            r.inst_wf(),
            r.inst_count() == 0,
            r.prototype_id@ == Seq::<usize>::empty(),
            r.foo@ == Seq::<Foo>::empty(),
            r.bar@ == Seq::<Bar>::empty(),
            r.num@ == Seq::<i32>::empty(),
            r.name@ == Seq::<String>::empty(),
            r.really_long_string.templates() == prototypes.really_long_string.templates(),
            r.really_long_string.sparse_data@ == Map::<usize, String>::empty(),
            r.really_long_string.num_instances() == 0,
    {
        let mut out = MySoA::default();
        <Vec<Foo> as Storage<Foo>>::init_from_prototypes(&mut out.foo, &prototypes.foo);
        <Vec<Bar> as Storage<Bar>>::init_from_prototypes(&mut out.bar, &prototypes.bar);
        <Vec<i32> as Storage<i32>>::init_from_prototypes(&mut out.num, &prototypes.num);
        <Vec<String> as Storage<String>>::init_from_prototypes(&mut out.name, &prototypes.name);
        <Overlay<String> as Storage<String>>::init_from_prototypes(
            &mut out.really_long_string,
            &prototypes.really_long_string,
        );
        proof {
            assert forall|i: int|
                0 <= i < prototypes.really_long_string.templates().len() implies out
                .really_long_string.templates()[i] == prototypes.really_long_string.templates()[i] by {
                lemma_cloned_string_eq(
                    prototypes.really_long_string.templates()[i],
                    out.really_long_string.templates()[i],
                );
            }
            assert(out.really_long_string.templates() =~= prototypes.really_long_string.templates());
        }
        out
    }

    /// Copies one entity's worth of registered fields from `prototype` into
    /// this runtime table, chosen by `prototype_index`. No decoding
    /// happens; dense fields are cloned, the overlay only opens a slot.
    pub fn spawn_entity(&mut self, prototype: &MySoA, prototype_index: usize)
        requires
            old(self).inst_wf(),
            prototype.proto_wf(),
            prototype_index < prototype.proto_count(),
            old(self).inst_count() < usize::MAX,
            old(self).really_long_string.templates().len()
                == prototype.really_long_string.templates().len(),
        ensures
            final(self).inst_wf(),
            final(self).inst_count() == old(self).inst_count() + 1,
            MySoA::spawn_post(*old(self), *prototype, prototype_index as int, *final(self)),
            final(self).prototype_id@ == old(self).prototype_id@.push(prototype_index),
    {
        self.prototype_id.push(prototype.prototype_id[prototype_index]);
        <Vec<Foo> as Storage<Foo>>::push_from_prototype(
            &mut self.foo,
            &prototype.foo,
            prototype_index,
        );
        <Vec<Bar> as Storage<Bar>>::push_from_prototype(
            &mut self.bar,
            &prototype.bar,
            prototype_index,
        );
        <Vec<i32> as Storage<i32>>::push_from_prototype(
            &mut self.num,
            &prototype.num,
            prototype_index,
        );
        <Vec<String> as Storage<String>>::push_from_prototype(
            &mut self.name,
            &prototype.name,
            prototype_index,
        );
        <Overlay<String> as Storage<String>>::push_from_prototype(
            &mut self.really_long_string,
            &prototype.really_long_string,
            prototype_index,
        );
        proof {
            let idx = prototype_index as int;
            lemma_cloned_foo_eq(prototype.foo@[idx], self.foo@.last());
            lemma_cloned_bar_eq(prototype.bar@[idx], self.bar@.last());
            lemma_cloned_string_eq(prototype.name@[idx], self.name@.last());
            assert(self.foo@ =~= old(self).foo@.push(prototype.foo@[idx]));
            assert(self.bar@ =~= old(self).bar@.push(prototype.bar@[idx]));
            assert(self.num@ =~= old(self).num@.push(prototype.num@[idx]));
            assert(self.name@ =~= old(self).name@.push(prototype.name@[idx]));
        }
    }

    /// Removes an entity by index using swap-removal for every registered
    /// field, in the same order for every column, so all columns stay
    /// index-aligned. O(1), order-breaking: the last entity moves into
    /// `index`.
    pub fn swap_remove(&mut self, index: usize)
        requires
            old(self).inst_wf(),
            index < old(self).inst_count(),
        ensures
            final(self).inst_wf(),
            final(self).inst_count() == old(self).inst_count() - 1,
            MySoA::despawn_post(*old(self), index as int, *final(self)),
    {
        self.prototype_id.swap_remove(index);
        <Vec<Foo> as Storage<Foo>>::swap_remove(&mut self.foo, index);
        <Vec<Bar> as Storage<Bar>>::swap_remove(&mut self.bar, index);
        <Vec<i32> as Storage<i32>>::swap_remove(&mut self.num, index);
        <Vec<String> as Storage<String>>::swap_remove(&mut self.name, index);
        <Overlay<String> as Storage<String>>::swap_remove(&mut self.really_long_string, index);
    }

    /// Bounds-checked spawn: `Ok` exactly when `prototype_index` addresses
    /// a loaded prototype; on `Err` the table is left unmodified.
    pub fn try_spawn_entity(&mut self, prototype: &MySoA, prototype_index: usize) -> (r: Result<
        (),
        IndexOutOfBounds,
    >)
        requires
            old(self).inst_wf(),
            prototype.proto_wf(),
            old(self).inst_count() < usize::MAX,
            old(self).really_long_string.templates().len()
                == prototype.really_long_string.templates().len(),
        ensures
            final(self).inst_wf(),
            r is Ok <==> prototype_index < prototype.proto_count(),
            r is Err ==> *final(self) == *old(self),
            r is Ok ==> final(self).inst_count() == old(self).inst_count() + 1
                && MySoA::spawn_post(*old(self), *prototype, prototype_index as int, *final(self)),
    {
        if prototype_index < prototype.prototype_id.len() {
            self.spawn_entity(prototype, prototype_index);
            Ok(())
        } else {
            Err(IndexOutOfBounds)
        }
    }

    /// Bounds-checked despawn: `Ok` exactly when `index` addresses a live
    /// record; on `Err` the table is left unmodified.
    pub fn try_swap_remove(&mut self, index: usize) -> (r: Result<(), IndexOutOfBounds>)
        requires
            old(self).inst_wf(),
        ensures
            final(self).inst_wf(),
            r is Ok <==> index < old(self).inst_count(),
            r is Err ==> *final(self) == *old(self),
            r is Ok ==> final(self).inst_count() == old(self).inst_count() - 1
                && MySoA::despawn_post(*old(self), index as int, *final(self)),
    {
        if index < self.prototype_id.len() {
            self.swap_remove(index);
            Ok(())
        } else {
            Err(IndexOutOfBounds)
        }
    }
}

/// Overlay read-through at table level: in a runtime table whose overlay
/// holds the same templates as the prototype table it was derived from, an
/// instance that has not been individually written reads exactly the
/// prototype table's template value at its stored prototype id.
pub proof fn lemma_derived_read_through(protos: MySoA, t: MySoA, i: usize)
    requires
        t.inst_wf(),
        i < t.inst_count(),
        t.really_long_string.templates() == protos.really_long_string.templates(),
        !t.really_long_string.overridden(i),
    ensures
        t.really_long_string.read_spec(i, t.prototype_id@[i as int] as int)
            == protos.really_long_string.templates()[t.prototype_id@[i as int] as int],
{
}

/// Append-only prototype ids: in a well-formed prototype table the
/// `prototype_id` column is exactly `0, 1, …, N-1`, in load order.
pub proof fn lemma_prototype_ids_sequential(t: &MySoA)
    requires
        t.proto_wf(),
    ensures
        t.prototype_id@ == Seq::new(t.proto_count(), |i: int| i as usize),
{
    assert(t.prototype_id@ =~= Seq::new(t.proto_count(), |i: int| i as usize));
}

} // verus!

