use regex::Regex;
use yaml_args::extract_short_long_name;

fn pair(short: &str, long: &str) -> Option<(String, String)> {
    Some((short.to_string(), long.to_string()))
}

#[test]
fn compact_names_are_split() {
    assert_eq!(pair("c", "count"), extract_short_long_name("-c/--count"));
    assert_eq!(pair("o", "output"), extract_short_long_name("-o/--output"));
    assert_eq!(pair("N", "Num-Threads2"), extract_short_long_name("-N/--Num-Threads2"));
    assert_eq!(pair("x", "y"), extract_short_long_name("-x/--y"));
    assert_eq!(pair("x", "y-"), extract_short_long_name("-x/--y-"));
}

#[test]
fn other_texts_are_not_split() {
    for text in [
        "",
        "SRC",
        "-c/count",
        "-co/--count",
        "-c/--",
        "-c/--1count",
        "-c/---count",
        "-1/--count",
        "c/--count",
        "--c/--count",
        "-c/--count ",
        " -c/--count",
        "-c/--count\n",
        "-c/--co_unt",
        "-c/--co unt",
        "-c--count",
    ] {
        assert_eq!(None, extract_short_long_name(text), "{:?}", text);
    }
}

#[test]
fn letters_outside_ascii_do_not_count() {
    assert_eq!(None, extract_short_long_name("-é/--count"));
    assert_eq!(None, extract_short_long_name("-c/--été"));
    assert_eq!(None, extract_short_long_name("-c/--cöunt"));
}

#[test]
fn splitting_agrees_with_the_pattern() {
    let pattern = Regex::new(r"^-(?P<short>[a-zA-Z])/--(?P<long>[a-zA-Z][a-zA-Z0-9-]*)$").unwrap();
    let pieces = ["", "-", "--", "/", "c", "Z", "9", "co", "-c/--", "count", "é", " ", "\n", "_", "a-b"];
    let mut texts: Vec<String> = Vec::new();
    for a in pieces {
        for b in pieces {
            for c in pieces {
                texts.push(format!("{}{}{}", a, b, c));
                texts.push(format!("-{}/--{}{}", a, b, c));
            }
        }
    }
    let mut matched = 0;
    for text in texts.iter() {
        let expected = pattern.captures(text).map(|found| {
            (found.name("short").unwrap().as_str().to_string(), found.name("long").unwrap().as_str().to_string())
        });
        if expected.is_some() {
            matched += 1;
        }
        assert_eq!(expected, extract_short_long_name(text), "{:?}", text);
    }
    assert!(matched > 0);
}
