//! From YAML text to the specification of a command line: load the
//! documents, insist on exactly one, and read the program's identity and its
//! flags out of it.

use crate::argument::{long_of, name_of, short_of, Argument};
use crate::error::Error;
use crate::loader::{load_from_str, yaml_documents};
use crate::node::{trees_of, Node, Tree};
use crate::parser::{described, entries_of, ArgumentParser};
use vstd::prelude::*;

verus! {

/// One flag of the command line.
#[derive(Debug, PartialEq, Eq)]
pub struct Flag {
    /// The name by which the flag is known.
    pub name: String,
    /// The one-letter form, without its hyphen.
    pub short: Option<char>,
    /// The long form, without its hyphens.
    pub long: Option<String>,
}

/// The complete description of a command line, ready to be handed to an
/// argument-parsing engine.
#[derive(Debug, PartialEq, Eq)]
pub struct Specification {
    /// The name of the program.
    pub program: String,
    /// What the program is about.
    pub about: String,
    /// The flags, in the order of the `args` list.
    pub flags: Vec<Flag>,
}

/// The mathematical value of a [`Flag`].
pub struct FlagView {
    pub name: Seq<char>,
    pub short: Option<char>,
    pub long: Option<Seq<char>>,
}

/// The mathematical value of a [`Specification`].
pub struct SpecificationView {
    pub program: Seq<char>,
    pub about: Seq<char>,
    pub flags: Seq<FlagView>,
}

impl View for Flag {
    type V = FlagView;

    open spec fn view(&self) -> FlagView {
        FlagView {
            name: self.name@,
            short: self.short,
            long: match self.long {
                Some(long) => Some(long@),
                None => None,
            },
        }
    }
}

impl View for Specification {
    type V = SpecificationView;

    open spec fn view(&self) -> SpecificationView {
        SpecificationView {
            program: self.program@,
            about: self.about@,
            flags: Seq::new(self.flags@.len(), |i: int| self.flags@[i]@),
        }
    }
}

/// The flag that one entry of the `args` list defines.
pub open spec fn flag_of(entry: Tree) -> FlagView {
    FlagView { name: name_of(entry), short: short_of(entry), long: long_of(entry) }
}

/// The flags that a sequence of entries defines, in order.
pub open spec fn flags_of(entries: Seq<Tree>) -> Seq<FlagView> {
    Seq::new(entries.len(), |i: int| flag_of(entries[i]))
}

/// The specification that one document describes.
pub open spec fn specification_of(doc: Tree) -> SpecificationView {
    SpecificationView {
        program: doc.text_or("program"@, Seq::empty()),
        about: doc.text_or("about"@, Seq::empty()),
        flags: flags_of(entries_of(doc)),
    }
}

/// Whether `r` is what a text with the documents `docs` must give: `NoDocs`
/// for none, `MultiDocs` for two or more, and for exactly one the
/// specification that it describes.
pub open spec fn is_outcome(docs: Seq<Tree>, r: Result<Specification, Error>) -> bool {
    if docs.len() == 0 {
        r matches Err(Error::NoDocs)
    } else if docs.len() > 1 {
        r matches Err(Error::MultiDocs)
    } else {
        r matches Ok(specification) && specification@ == specification_of(docs[0])
    }
}

/// A text without documents gives `NoDocs` and nothing else.
pub proof fn lemma_no_documents(docs: Seq<Tree>, r: Result<Specification, Error>)
    requires
        docs.len() == 0,
        is_outcome(docs, r),
    ensures
        r matches Err(Error::NoDocs),
{
}

/// A text with two documents or more gives `MultiDocs` and nothing else.
pub proof fn lemma_many_documents(docs: Seq<Tree>, r: Result<Specification, Error>)
    requires
        docs.len() >= 2,
        is_outcome(docs, r),
    ensures
        r matches Err(Error::MultiDocs),
{
}

/// Accepts exactly one document: `NoDocs` for none, `MultiDocs` for more.
pub fn validate_root_docs(docs: &Vec<Node>) -> (r: Result<(), Error>)
    ensures
        docs.len() == 0 ==> r matches Err(Error::NoDocs),
        docs.len() > 1 ==> r matches Err(Error::MultiDocs),
        docs.len() == 1 ==> r is Ok,
{
    if docs.len() == 0 {
        return Err(Error::NoDocs);
    }
    if docs.len() > 1 {
        return Err(Error::MultiDocs);
    }
    Ok(())
}

/// The specification that the reading `parser` of a document gives: its
/// program name and description, and one flag for each argument.
pub fn specification(parser: &ArgumentParser) -> (r: Specification)
    ensures
        r@ == specification_of(parser@),
{
    let args = parser.args();
    let mut flags: Vec<Flag> = Vec::new();
    let mut i: usize = 0;
    while i < args.len()
        invariant
            i <= args.len(),
            flags.len() == i,
            forall|j: int| 0 <= j < i ==> (#[trigger] flags@[j])@ == flag_of(args@[j]@),
        decreases args.len() - i,
    {
        let arg = &args[i];
        flags.push(Flag { name: arg.name().to_owned(), short: arg.short(), long: arg.long() });
        i = i + 1;
    }
    let r = Specification {
        program: parser.program().to_owned(),
        about: parser.about().to_owned(),
        flags,
    };
    assert(r@.flags =~= flags_of(entries_of(parser@))) by {
        assert(described(args@) == entries_of(parser@));
        assert forall|j: int| 0 <= j < args.len() implies args@[j]@ == entries_of(parser@)[j] by {
            assert(described(args@)[j] == args@[j]@);
        }
    }
    r
}

/// Reads the documents of a YAML text: the trees that the YAML parser finds
/// in it, or `ParseYaml` with its diagnostic where the text is malformed.
pub fn load_documents(text: &str) -> (r: Result<Vec<Node>, Error>)
    ensures
        match yaml_documents(text@) {
            Some(docs) => r matches Ok(nodes) && trees_of(nodes@) == docs,
            None => r matches Err(Error::ParseYaml(_)),
        },
{
    match load_from_str(text) {
        Ok(nodes) => Ok(nodes),
        Err(diagnostic) => Err(Error::from(diagnostic)),
    }
}

/// Builds the specification out of the documents of one text. It succeeds
/// exactly when there is one document, with the specification that this
/// document describes; none gives `NoDocs`, more than one `MultiDocs`.
pub fn build_from_documents(docs: Vec<Node>) -> (r: Result<Specification, Error>)
    ensures
        r is Ok <==> docs.len() == 1,
        is_outcome(trees_of(docs@), r),
{
    let mut docs = docs;
    match validate_root_docs(&docs) {
        Err(e) => Err(e),
        Ok(()) => {
            let ghost only = docs@[0]@;
            let parser = ArgumentParser::new(docs.remove(0));
            assert(parser@ == only);
            Ok(specification(&parser))
        },
    }
}

/// Builds the specification that a YAML text describes. Malformed YAML
/// gives `ParseYaml`; otherwise the outcome is that of
/// [`build_from_documents`] on the documents of the text, so it succeeds
/// exactly when the text holds one document.
pub fn build(text: &str) -> (r: Result<Specification, Error>)
    ensures
        r is Ok <==> (yaml_documents(text@) matches Some(docs) && docs.len() == 1),
        match yaml_documents(text@) {
            Some(docs) => is_outcome(docs, r),
            None => r matches Err(Error::ParseYaml(_)),
        },
{
    match load_documents(text) {
        Ok(docs) => build_from_documents(docs),
        Err(e) => Err(e),
    }
}

} // verus!
