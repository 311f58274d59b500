use grug_soa::Bar;
use grug_soa::DecodedRecord;
use grug_soa::Foo;
use grug_soa::MySoA;

fn empty_record() -> DecodedRecord {
    DecodedRecord {
        prototype_id: None,
        foo: None,
        bar: None,
        num: None,
        name: None,
        really_long_string: None,
    }
}

#[test]
fn default_fallback_for_every_field() {
    let mut soa = MySoA::default();
    soa.load_prototype(empty_record());
    assert_eq!(soa.prototype_id[0], 0);
    assert_eq!(soa.foo[0].foo_field, "");
    assert_eq!(soa.bar[0].bar_field, 69);
    assert_eq!(soa.num[0], 0);
    assert_eq!(soa.name[0], "");
    assert_eq!(soa.really_long_string.dense_data[0], "");
}

#[test]
fn default_fallback_per_missing_field() {
    let mut soa = MySoA::default();
    let mut rec = empty_record();
    rec.num = Some(7);
    rec.name = Some(String::from("named"));
    soa.load_prototype(rec);
    // present fields keep their decoded values
    assert_eq!(soa.num[0], 7);
    assert_eq!(soa.name[0], "named");
    // missing fields fall back to type defaults, for both storage kinds
    assert_eq!(soa.foo[0].foo_field, "");
    assert_eq!(soa.bar[0].bar_field, 69);
    assert_eq!(soa.really_long_string.dense_data[0], "");
}

#[test]
fn prototype_ids_are_append_only() {
    let mut soa = MySoA::default();
    let mut rec = empty_record();
    // an id-like value in the input is ignored
    rec.prototype_id = Some(99);
    soa.load_prototype(rec);
    soa.load_prototype(empty_record());
    let mut rec2 = empty_record();
    rec2.prototype_id = Some(0);
    soa.load_prototype(rec2);
    assert_eq!(soa.prototype_id, vec![0, 1, 2]);
}

#[test]
fn decoded_values_land_in_their_columns() {
    let mut soa = MySoA::default();
    let rec = DecodedRecord {
        prototype_id: None,
        foo: Some(Foo { foo_field: String::from("foofield value") }),
        bar: Some(Bar { bar_field: 420 }),
        num: Some(1337),
        name: Some(String::from("grugname1")),
        really_long_string: Some(String::from("shared text")),
    };
    soa.load_prototype(rec);
    assert_eq!(soa.foo[0].foo_field, "foofield value");
    assert_eq!(soa.bar[0].bar_field, 420);
    assert_eq!(soa.num[0], 1337);
    assert_eq!(soa.name[0], "grugname1");
    assert_eq!(soa.really_long_string.dense_data[0], "shared text");
}

#[test]
fn derived_table_starts_empty_with_templates() {
    let mut protos = MySoA::default();
    let mut rec = empty_record();
    rec.really_long_string = Some(String::from("template"));
    protos.load_prototype(rec);
    let runtime = MySoA::new_from_prototypes(&protos);
    assert_eq!(runtime.prototype_id.len(), 0);
    assert_eq!(runtime.foo.len(), 0);
    assert_eq!(runtime.really_long_string.instances_len(), 0);
    assert_eq!(runtime.really_long_string.prototypes_len(), 1);
    assert_eq!(runtime.really_long_string.dense_data[0], "template");
}

#[test]
fn read_through_on_fresh_instances() {
    let mut protos = MySoA::default();
    let mut rec = empty_record();
    rec.really_long_string = Some(String::from("inherited"));
    protos.load_prototype(rec);
    let mut runtime = MySoA::new_from_prototypes(&protos);
    runtime.spawn_entity(&protos, 0);
    runtime.spawn_entity(&protos, 0);
    let p0 = runtime.prototype_id[0];
    let p1 = runtime.prototype_id[1];
    assert_eq!(runtime.really_long_string.get(0, p0).as_str(), "inherited");
    assert_eq!(runtime.really_long_string.get(1, p1).as_str(), "inherited");
    assert!(!runtime.really_long_string.has_override(0));
    assert!(!runtime.really_long_string.has_override(1));
}

#[test]
fn copy_on_write_isolates_instances() {
    let mut protos = MySoA::default();
    let mut rec = empty_record();
    rec.really_long_string = Some(String::from("base"));
    protos.load_prototype(rec);
    let mut runtime = MySoA::new_from_prototypes(&protos);
    runtime.spawn_entity(&protos, 0);
    runtime.spawn_entity(&protos, 0);
    let p = runtime.prototype_id[0];
    *runtime.really_long_string.get_mut(0, p) = String::from("mutated");
    // the sibling instance with the same prototype id is unaffected
    assert_eq!(runtime.really_long_string.get(1, p).as_str(), "base");
    // the prototype table's own template value is unaffected
    assert_eq!(protos.really_long_string.dense_data[0], "base");
    assert_eq!(runtime.really_long_string.get(0, p).as_str(), "mutated");
}

#[test]
fn swap_remove_keeps_columns_aligned() {
    let mut protos = MySoA::default();
    for (n, s) in [(10, "a"), (20, "b"), (30, "c")] {
        let mut rec = empty_record();
        rec.num = Some(n);
        rec.name = Some(String::from(s));
        rec.really_long_string = Some(String::from(s));
        protos.load_prototype(rec);
    }
    let mut runtime = MySoA::new_from_prototypes(&protos);
    runtime.spawn_entity(&protos, 0);
    runtime.spawn_entity(&protos, 1);
    runtime.spawn_entity(&protos, 2);
    runtime.really_long_string.set(2, String::from("override-c"));
    runtime.swap_remove(0);
    // every column shrank by one
    assert_eq!(runtime.prototype_id.len(), 2);
    assert_eq!(runtime.foo.len(), 2);
    assert_eq!(runtime.bar.len(), 2);
    assert_eq!(runtime.num.len(), 2);
    assert_eq!(runtime.name.len(), 2);
    assert_eq!(runtime.really_long_string.instances_len(), 2);
    // the record previously last now sits at index 0 with its values intact
    assert_eq!(runtime.prototype_id[0], 2);
    assert_eq!(runtime.num[0], 30);
    assert_eq!(runtime.name[0], "c");
    // its override moved with it
    assert!(runtime.really_long_string.has_override(0));
    assert_eq!(
        runtime.really_long_string.get(0, runtime.prototype_id[0]).as_str(),
        "override-c"
    );
    // the untouched middle record is unchanged
    assert_eq!(runtime.prototype_id[1], 1);
    assert_eq!(runtime.num[1], 20);
    assert!(!runtime.really_long_string.has_override(1));
}

#[test]
fn round_trip_scenario() {
    let mut protos = MySoA::default();
    let mut p0 = empty_record();
    p0.num = Some(1337);
    p0.name = Some(String::from("a"));
    protos.load_prototype(p0);
    let mut p1 = empty_record();
    p1.num = Some(42);
    p1.name = Some(String::from("b"));
    p1.really_long_string = Some(String::from("x"));
    protos.load_prototype(p1);

    let mut runtime = MySoA::new_from_prototypes(&protos);
    runtime.spawn_entity(&protos, 1);
    runtime.spawn_entity(&protos, 1);
    runtime.spawn_entity(&protos, 0);
    assert_eq!(runtime.prototype_id, vec![1, 1, 0]);

    // shared template, not yet overridden
    assert_eq!(runtime.really_long_string.get(0, 1).as_str(), "x");
    assert_eq!(runtime.really_long_string.get(1, 1).as_str(), "x");

    // write-then-assign a new value on instance 0 only
    let _ = runtime.really_long_string.get_mut(0, 1);
    runtime.really_long_string.set(0, String::from("y"));
    assert_eq!(runtime.really_long_string.get(0, 1).as_str(), "y");
    assert_eq!(runtime.really_long_string.get(1, 1).as_str(), "x");

    // despawn instance 0: the last instance (prototype 0) moves into slot 0
    runtime.swap_remove(0);
    assert_eq!(runtime.prototype_id.len(), 2);
    assert_eq!(runtime.prototype_id[0], 0);
    assert_eq!(runtime.num[0], 1337);
    assert_eq!(runtime.name[0], "a");
    assert!(!runtime.really_long_string.has_override(0));
    assert_eq!(runtime.really_long_string.get(1, 1).as_str(), "x");
}
