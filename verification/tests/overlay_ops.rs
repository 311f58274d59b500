use grug_soa::Overlay;

fn overlay_with_templates(templates: &[&str]) -> Overlay<String> {
    let mut o: Overlay<String> = Overlay::default();
    for t in templates {
        o.dense_data.push(String::from(*t));
    }
    o
}

#[test]
fn fresh_overlay_is_empty() {
    let o: Overlay<String> = Overlay::default();
    assert_eq!(o.instances_len(), 0);
    assert_eq!(o.prototypes_len(), 0);
}

#[test]
fn push_instance_has_no_override() {
    let mut o = overlay_with_templates(&["a"]);
    o.push_instance();
    o.push_instance();
    assert_eq!(o.instances_len(), 2);
    assert!(!o.has_override(0));
    assert!(!o.has_override(1));
}

#[test]
fn has_override_false_beyond_instances() {
    let o = overlay_with_templates(&["a"]);
    assert!(!o.has_override(0));
    assert!(!o.has_override(1000));
}

#[test]
fn read_falls_back_to_template() {
    let mut o = overlay_with_templates(&["alpha", "beta"]);
    o.push_instance();
    assert_eq!(o.get(0, 0).as_str(), "alpha");
    assert_eq!(o.get(0, 1).as_str(), "beta");
}

#[test]
fn set_overrides_and_get_reads_it() {
    let mut o = overlay_with_templates(&["alpha"]);
    o.push_instance();
    o.set(0, String::from("mine"));
    assert!(o.has_override(0));
    assert_eq!(o.get(0, 0).as_str(), "mine");
}

#[test]
fn get_mut_materializes_template_copy() {
    let mut o = overlay_with_templates(&["alpha"]);
    o.push_instance();
    assert!(!o.has_override(0));
    {
        let v = o.get_mut(0, 0);
        assert_eq!(v.as_str(), "alpha");
    }
    assert!(o.has_override(0));
    assert_eq!(o.get(0, 0).as_str(), "alpha");
}

#[test]
fn get_mut_handle_writes_stick() {
    let mut o = overlay_with_templates(&["alpha"]);
    o.push_instance();
    *o.get_mut(0, 0) = String::from("changed");
    assert_eq!(o.get(0, 0).as_str(), "changed");
    // the template itself is untouched
    assert_eq!(o.dense_data[0].as_str(), "alpha");
}

#[test]
fn clear_override_reverts_to_template() {
    let mut o = overlay_with_templates(&["alpha"]);
    o.push_instance();
    o.set(0, String::from("mine"));
    o.clear_override(0);
    assert!(!o.has_override(0));
    assert_eq!(o.get(0, 0).as_str(), "alpha");
}

#[test]
fn clear_override_out_of_range_is_noop() {
    let mut o = overlay_with_templates(&["alpha"]);
    o.push_instance();
    o.set(0, String::from("mine"));
    o.clear_override(7);
    assert!(o.has_override(0));
    assert_eq!(o.instances_len(), 1);
}

#[test]
fn bitmap_spans_many_words() {
    let mut o = overlay_with_templates(&["t"]);
    for _ in 0..200 {
        o.push_instance();
    }
    o.set(0, String::from("w0"));
    o.set(63, String::from("w63"));
    o.set(64, String::from("w64"));
    o.set(199, String::from("w199"));
    assert!(o.has_override(0));
    assert!(o.has_override(63));
    assert!(o.has_override(64));
    assert!(o.has_override(199));
    assert!(!o.has_override(1));
    assert!(!o.has_override(65));
    assert!(!o.has_override(198));
    assert_eq!(o.get(63, 0).as_str(), "w63");
    assert_eq!(o.get(100, 0).as_str(), "t");
}

#[test]
fn swap_remove_moves_last_override() {
    let mut o = overlay_with_templates(&["t"]);
    o.push_instance();
    o.push_instance();
    o.push_instance();
    o.set(2, String::from("last"));
    o.swap_remove_instance(0);
    assert_eq!(o.instances_len(), 2);
    // instance 2's override followed the record into slot 0
    assert!(o.has_override(0));
    assert_eq!(o.get(0, 0).as_str(), "last");
    assert!(!o.has_override(1));
}

#[test]
fn swap_remove_clears_moved_slot_when_last_has_none() {
    let mut o = overlay_with_templates(&["t"]);
    o.push_instance();
    o.push_instance();
    o.set(0, String::from("gone"));
    o.swap_remove_instance(0);
    assert_eq!(o.instances_len(), 1);
    assert!(!o.has_override(0));
    assert_eq!(o.get(0, 0).as_str(), "t");
}

#[test]
fn swap_remove_of_last_slot() {
    let mut o = overlay_with_templates(&["t"]);
    o.push_instance();
    o.push_instance();
    o.set(1, String::from("tail"));
    o.swap_remove_instance(1);
    assert_eq!(o.instances_len(), 1);
    assert!(!o.has_override(0));
    // the freed id no longer reports an override
    assert!(!o.has_override(1));
}
