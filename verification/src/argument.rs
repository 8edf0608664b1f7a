//! The descriptor of one argument: the normalised reading of one entry of
//! the `args` list, which is either a bare text or a mapping of fields.

use crate::inference::{extract_short_long_name, short_long_of};
use crate::node::{trees_of, Node, Tree};
use vstd::prelude::*;

verus! {

/// The first character of `text`, if it has one.
pub open spec fn first_char(text: Seq<char>) -> Option<char> {
    if text.len() > 0 {
        Some(text[0])
    } else {
        None
    }
}

/// The text of each item; an item that is no text scalar counts as empty.
pub open spec fn texts_of(items: Seq<Tree>) -> Seq<Seq<char>> {
    Seq::new(
        items.len(),
        |i: int|
            match items[i].text() {
                Some(s) => s,
                None => Seq::empty(),
            },
    )
}

/// The entry's own text, where it is written in bare form.
pub open spec fn bare_name_of(entry: Tree) -> Option<Seq<char>> {
    entry.text()
}

/// The name: the bare text, else the `name` field, else empty.
pub open spec fn name_of(entry: Tree) -> Seq<char> {
    match entry.text() {
        Some(bare) => bare,
        None => entry.text_or("name"@, Seq::empty()),
    }
}

/// The short flag: of a bare entry, the one that its compact name carries; of
/// any other entry, the first character of the `short` field.
pub open spec fn short_of(entry: Tree) -> Option<char> {
    match entry.text() {
        Some(bare) => match short_long_of(bare) {
            Some((short, _)) => first_char(short),
            None => None,
        },
        None => match entry.field("short"@).text() {
            Some(short) => first_char(short),
            None => None,
        },
    }
}

/// The long flag: of a bare entry, the one that its compact name carries; of
/// any other entry, the `long` field as written.
pub open spec fn long_of(entry: Tree) -> Option<Seq<char>> {
    match entry.text() {
        Some(bare) => match short_long_of(bare) {
            Some((_, long)) => Some(long),
            None => None,
        },
        None => entry.field("long"@).text(),
    }
}

/// The `type` field, `string` where it is missing.
pub open spec fn type_of(entry: Tree) -> Seq<char> {
    entry.text_or("type"@, "string"@)
}

/// The `default` field, empty where it is missing.
pub open spec fn default_of(entry: Tree) -> Seq<char> {
    entry.text_or("default"@, Seq::empty())
}

/// The allowed values: the texts of the `select` field's items.
pub open spec fn select_of(entry: Tree) -> Option<Seq<Seq<char>>> {
    match entry.field("select"@).items() {
        Some(items) => Some(texts_of(items)),
        None => None,
    }
}

/// The views of a sequence of texts.
pub open spec fn views_of(texts: Seq<&str>) -> Seq<Seq<char>> {
    Seq::new(texts.len(), |i: int| texts[i]@)
}

/// An entry without a `type` field has the type `string`, and one without a
/// `default` field has the empty default.
pub proof fn lemma_field_defaults(entry: Tree)
    ensures
        entry.find("type"@) is None ==> type_of(entry) == "string"@,
        entry.find("default"@) is None ==> default_of(entry) == Seq::<char>::empty(),
{
}

/// One argument of the described command line.
pub struct Argument {
    doc: Node,
}

impl View for Argument {
    type V = Tree;

    closed spec fn view(&self) -> Tree {
        self.doc@
    }
}

fn head(text: &str) -> (r: Option<char>)
    ensures
        r == first_char(text@),
{
    let mut chars = text.chars();
    chars.next()
}

impl Argument {
    /// The descriptor of the entry `doc`.
    pub fn new(doc: Node) -> (r: Self)
        ensures
            r@ == doc@,
    {
        Self { doc }
    }

    /// The entry's own text, where it is written in bare form.
    pub fn bare_name(&self) -> (r: Option<&str>)
        ensures
            match r {
                Some(s) => bare_name_of(self@) == Some(s@),
                None => bare_name_of(self@) is None,
            },
    {
        self.doc.as_str()
    }

    /// The name: the bare text, else the `name` field, else empty.
    pub fn name(&self) -> (r: &str)
        ensures
            r@ == name_of(self@),
    {
        proof {
            reveal_strlit("");
        }
        match self.bare_name() {
            Some(bare) => bare,
            None => self.doc.text_or("name", ""),
        }
    }

    /// The short flag, as [`short_of`] defines it.
    pub fn short(&self) -> (r: Option<char>)
        ensures
            r == short_of(self@),
    {
        match self.bare_name() {
            Some(bare) => match extract_short_long_name(bare) {
                Some((short, _)) => head(short.as_str()),
                None => None,
            },
            None => match self.doc.text_at("short") {
                Some(short) => head(short),
                None => None,
            },
        }
    }

    /// The long flag, as [`long_of`] defines it.
    pub fn long(&self) -> (r: Option<String>)
        ensures
            match r {
                Some(s) => long_of(self@) == Some(s@),
                None => long_of(self@) is None,
            },
    {
        match self.bare_name() {
            Some(bare) => match extract_short_long_name(bare) {
                Some((_, long)) => Some(long),
                None => None,
            },
            None => match self.doc.text_at("long") {
                Some(long) => Some(long.to_owned()),
                None => None,
            },
        }
    }

    /// The type of the argument's value, `string` where none is given. The
    /// text is handed on as written.
    pub fn value_type(&self) -> (r: &str)
        ensures
            r@ == type_of(self@),
    {
        self.doc.text_or("type", "string")
    }

    /// The value that the argument has when it is absent, empty where none
    /// is given.
    pub fn default(&self) -> (r: &str)
        ensures
            r@ == default_of(self@),
    {
        proof {
            reveal_strlit("");
        }
        self.doc.text_or("default", "")
    }

    /// The closed set of allowed values, where the entry has a `select`
    /// sequence; an item that is no text counts as empty.
    pub fn select(&self) -> (r: Option<Vec<&str>>)
        ensures
            match r {
                Some(values) => select_of(self@) == Some(views_of(values@)),
                None => select_of(self@) is None,
            },
    {
        match self.doc.items_at("select") {
            Some(items) => {
                let mut values: Vec<&str> = Vec::new();
                let mut i: usize = 0;
                while i < items.len()
                    invariant
                        i <= items.len(),
                        values.len() == i,
                        forall|j: int|
                            0 <= j < i ==> (#[trigger] values@[j])@ == texts_of(
                                trees_of(items@),
                            )[j],
                    decreases items.len() - i,
                {
                    proof {
                        reveal_strlit("");
                    }
                    let value = match items[i].as_str() {
                        Some(s) => s,
                        None => "",
                    };
                    values.push(value);
                    i = i + 1;
                }
                assert(views_of(values@) =~= texts_of(trees_of(items@)));
                Some(values)
            },
            None => None,
        }
    }
}

} // verus!
