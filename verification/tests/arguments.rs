use yaml_args::{load_documents, Argument, ArgumentParser, Node};

fn load_entry(yaml: &str) -> Node {
    let mut docs = load_documents(yaml).expect("well-formed YAML");
    docs.remove(0)
}

#[test]
fn arg_bare_name() {
    let doc = load_entry("SRC");
    let parg = Argument::new(doc);
    assert_eq!(Some("SRC"), parg.bare_name());
    assert_eq!("SRC", parg.name());
}

#[test]
fn arg_name() {
    let doc = load_entry(
        r#"
        name: DEST
        "#,
    );
    let parg = Argument::new(doc);
    assert!(parg.bare_name().is_none());
    assert_eq!("DEST", parg.name());
}

#[test]
fn an_entry_without_any_name_has_the_empty_name() {
    let parg = Argument::new(load_entry("short: x"));
    assert_eq!(None, parg.bare_name());
    assert_eq!("", parg.name());
    assert_eq!("", Argument::new(Node::Null).name());
}

#[test]
fn a_compact_bare_name_gives_both_flags() {
    let parg = Argument::new(Node::Text("-c/--count".to_string()));
    assert_eq!("-c/--count", parg.name());
    assert_eq!(Some('c'), parg.short());
    assert_eq!(Some("count".to_string()), parg.long());
}

#[test]
fn a_bare_name_off_the_convention_gives_no_flags() {
    for bare in ["-c/count", "-co/--count", "SRC", ""] {
        let parg = Argument::new(Node::Text(bare.to_string()));
        assert_eq!(None, parg.short());
        assert_eq!(None, parg.long());
    }
}

#[test]
fn structured_flags_come_from_their_fields() {
    let parg = Argument::new(load_entry("name: verbose\nshort: v\nlong: verbose\n"));
    assert_eq!(Some('v'), parg.short());
    assert_eq!(Some("verbose".to_string()), parg.long());
}

#[test]
fn a_long_short_field_is_cut_to_its_first_character() {
    let parg = Argument::new(load_entry("short: xyz"));
    assert_eq!(Some('x'), parg.short());
    let empty = Argument::new(load_entry("short: \"\""));
    assert_eq!(None, empty.short());
}

#[test]
fn a_structured_name_is_not_searched_for_flags() {
    let parg = Argument::new(load_entry("name: -c/--count"));
    assert_eq!("-c/--count", parg.name());
    assert_eq!(None, parg.short());
    assert_eq!(None, parg.long());
}

#[test]
fn missing_type_and_default_take_their_defaults() {
    for parg in [Argument::new(load_entry("name: x")), Argument::new(load_entry("SRC"))] {
        assert_eq!("string", parg.value_type());
        assert_eq!("", parg.default());
        assert_eq!(None, parg.select());
    }
}

#[test]
fn type_and_default_are_handed_on_as_written() {
    let parg = Argument::new(load_entry("name: n\ntype: number\ndefault: \"42\"\n"));
    assert_eq!("number", parg.value_type());
    assert_eq!("42", parg.default());
    let odd = Argument::new(load_entry("type: colour\ndefault: 42\n"));
    assert_eq!("colour", odd.value_type());
    assert_eq!("", odd.default());
    assert_eq!("string", Argument::new(load_entry("type: 5")).value_type());
}

#[test]
fn select_lists_the_allowed_values() {
    let parg = Argument::new(load_entry("name: mode\nselect:\n  - fast\n  - 1\n  - slow\n"));
    assert_eq!(Some(vec!["fast", "", "slow"]), parg.select());
    let empty = Argument::new(load_entry("select: []"));
    assert_eq!(Some(vec![]), empty.select());
    let scalar = Argument::new(load_entry("select: fast"));
    assert_eq!(None, scalar.select());
}

#[test]
fn reading_the_arguments_twice_gives_the_same_descriptors() {
    let parser = ArgumentParser::new(load_entry(
        "args:\n  - SRC\n  - -o/--output\n  - name: mode\n    short: m\n    long: mode\n    type: number\n    default: \"1\"\n    select: [\"1\", \"2\"]\n",
    ));
    let first = parser.args();
    let second = parser.args();
    assert_eq!(3, first.len());
    assert_eq!(first.len(), second.len());
    for (a, b) in first.iter().zip(second.iter()) {
        assert_eq!(a.bare_name(), b.bare_name());
        assert_eq!(a.name(), b.name());
        assert_eq!(a.short(), b.short());
        assert_eq!(a.long(), b.long());
        assert_eq!(a.value_type(), b.value_type());
        assert_eq!(a.default(), b.default());
        assert_eq!(a.select(), b.select());
    }
    assert_eq!(Some('m'), first[2].short());
    assert_eq!(Some(vec!["1", "2"]), first[2].select());
}
