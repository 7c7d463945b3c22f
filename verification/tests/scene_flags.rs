use puzzle_core::scene_props::{inherited, merged, parse_props, SceneProps};

fn only_sensor() -> SceneProps {
    SceneProps { sensor: true, ..SceneProps::default() }
}

#[test]
fn property_blobs_parse_their_boolean_flags() {
    let props = parse_props(r#"{"sensor": true, "invisible": true, "color": [1.0, 0.5, 0.0]}"#);
    assert!(props.sensor && props.invisible);
    assert!(!props.ignore_physics && !props.complex_physics && !props.text);
    let all_unset = parse_props(r#"{}"#);
    assert_eq!(all_unset, SceneProps::default());
    // Text that is not JSON, and flags that are not booleans, carry nothing.
    assert_eq!(parse_props("not json"), SceneProps::default());
    assert_eq!(parse_props(r#"{"sensor": "yes"}"#), SceneProps::default());
    assert_eq!(parse_props(r#"[true]"#), SceneProps::default());
}

#[test]
fn flags_inherit_along_the_ancestor_chain() {
    let own = parse_props(r#"{"no_shadow": true}"#);
    let chain = vec![
        only_sensor(),
        SceneProps::default(),
        SceneProps { ignore_physics: true, ..SceneProps::default() },
    ];
    let effective = inherited(&own, &chain);
    assert!(effective.no_shadow && effective.sensor && effective.ignore_physics);
    assert!(!effective.invisible && !effective.text);
    // Merging is just a per-flag or.
    let m = merged(&only_sensor(), &own);
    assert!(m.sensor && m.no_shadow && !m.invisible);
    // An empty chain leaves the entity's own flags.
    assert_eq!(inherited(&own, &vec![]), own);
}
