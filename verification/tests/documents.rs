use yaml_args::{load_documents, ArgumentParser, Entry, Error, Node};

fn load_yaml(yaml: &str) -> Node {
    let mut docs = load_documents(yaml).expect("well-formed YAML");
    docs.remove(0)
}

fn text(s: &str) -> Node {
    Node::Text(s.to_string())
}

fn entry(key: Node, value: Node) -> Entry {
    Entry { key, value }
}

#[test]
fn get_program() {
    let parser = ArgumentParser::new(load_yaml("program: hello"));
    assert_eq!("hello", parser.program());
}

#[test]
fn program_alone_leaves_the_rest_empty() {
    let parser = ArgumentParser::new(load_yaml("program: hello"));
    assert_eq!("hello", parser.program());
    assert_eq!("", parser.about());
    assert_eq!("", parser.version());
    assert!(parser.args().is_empty());
}

#[test]
fn all_top_level_fields_are_read() {
    let parser = ArgumentParser::new(load_yaml(
        "version: \"1.2\"\nprogram: tool\nabout: does things\nargs:\n  - SRC\n  - name: DEST\n",
    ));
    assert_eq!("1.2", parser.version());
    assert_eq!("tool", parser.program());
    assert_eq!("does things", parser.about());
    let args = parser.args();
    assert_eq!(2, args.len());
    assert_eq!("SRC", args[0].name());
    assert_eq!("DEST", args[1].name());
}

#[test]
fn a_field_that_is_no_text_counts_as_missing() {
    let parser = ArgumentParser::new(load_yaml("version: 1.0\nprogram: 7\nabout: [a, b]\n"));
    assert_eq!("", parser.version());
    assert_eq!("", parser.program());
    assert_eq!("", parser.about());
}

#[test]
fn args_that_is_no_sequence_gives_no_arguments() {
    assert!(ArgumentParser::new(load_yaml("args: nothing")).args().is_empty());
    assert!(ArgumentParser::new(load_yaml("args:\n  key: value\n")).args().is_empty());
    assert!(ArgumentParser::new(load_yaml("just a scalar")).args().is_empty());
}

#[test]
fn loading_keeps_kinds_and_order() {
    let docs = load_documents("a: 1\nb: 2.5\nc: [x, true, ~]\nd: {k: v}\n").unwrap();
    let expected = Node::Mapping(vec![
        entry(text("a"), Node::Integer(1)),
        entry(text("b"), Node::Real("2.5".to_string())),
        entry(text("c"), Node::Sequence(vec![text("x"), Node::Boolean(true), Node::Null])),
        entry(text("d"), Node::Mapping(vec![entry(text("k"), text("v"))])),
    ]);
    assert_eq!(vec![expected], docs);
}

#[test]
fn loading_gives_each_document() {
    let docs = load_documents("first\n---\nsecond\n").unwrap();
    assert_eq!(vec![text("first"), text("second")], docs);
    assert!(load_documents("").unwrap().is_empty());
}

#[test]
fn malformed_text_is_a_parse_failure() {
    let bad = "\n# syntax error\nscalar\nkey: [1, 2]]\nkey1:a2\n";
    assert!(matches!(load_documents(bad), Err(Error::ParseYaml(_))));
}

#[test]
fn a_scan_error_converts_into_a_parse_failure() {
    let diagnostic = yaml_rust::YamlLoader::load_from_str("key: [1, 2]]").unwrap_err();
    let expected = diagnostic.clone();
    match Error::from(diagnostic) {
        Error::ParseYaml(inner) => assert_eq!(expected, inner),
        other => panic!("unexpected {:?}", other),
    }
}

#[test]
fn lookup_takes_the_first_entry_with_the_key() {
    let doc = Node::Mapping(vec![
        entry(Node::Integer(1), text("number")),
        entry(text("k"), text("first")),
        entry(text("k"), text("second")),
    ]);
    assert_eq!(Some(&text("first")), doc.get("k"));
    assert_eq!(Some("first"), doc.text_at("k"));
    assert_eq!(None, doc.get("1"));
    assert_eq!(None, doc.get("missing"));
    assert_eq!("fallback", doc.text_or("missing", "fallback"));
    assert_eq!("first", doc.text_or("k", "fallback"));
}

#[test]
fn lookup_on_a_node_that_is_no_mapping_finds_nothing() {
    assert_eq!(None, text("k").get("k"));
    assert_eq!(None, Node::Sequence(vec![text("k")]).get("k"));
    assert_eq!(None, Node::Null.text_at("k"));
    assert_eq!(None, Node::BadValue.items_at("k"));
}

#[test]
fn typed_readings_of_a_node() {
    assert_eq!(Some("abc"), text("abc").as_str());
    assert_eq!(None, Node::Real("1.5".to_string()).as_str());
    assert_eq!(None, Node::Integer(3).as_str());
    let items = vec![text("a"), Node::Null];
    assert_eq!(Some(&items), Node::Sequence(vec![text("a"), Node::Null]).as_vec());
    assert_eq!(None, text("abc").as_vec());
    let doc = Node::Mapping(vec![entry(text("list"), Node::Sequence(vec![text("a")]))]);
    assert_eq!(Some(&vec![text("a")]), doc.items_at("list"));
    assert_eq!(None, doc.text_at("list"));
}

#[test]
fn a_copy_of_a_node_is_equal_to_it() {
    let doc = load_yaml("a: [1, {b: c}, 2.5, false, ~]\nd: e\n");
    assert_eq!(doc, doc.clone());
    let item = entry(text("k"), Node::Alias(3));
    assert_eq!(item, item.clone());
}
