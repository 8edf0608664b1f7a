//! The typed reading of a whole document: program name, description, version
//! and the list of argument descriptors.

use crate::argument::{
    default_of, long_of, name_of, select_of, short_of, type_of, Argument,
};
use crate::node::{trees_of, Node, Tree};
use vstd::prelude::*;

verus! {

/// The entries of the `args` list, none where the document has no such
/// sequence.
pub open spec fn entries_of(doc: Tree) -> Seq<Tree> {
    match doc.field("args"@).items() {
        Some(items) => items,
        None => Seq::empty(),
    }
}

/// The entries that a sequence of descriptors stands for.
pub open spec fn described(args: Seq<Argument>) -> Seq<Tree> {
    Seq::new(args.len(), |i: int| args[i]@)
}

/// Reading the arguments of one document twice gives descriptors that stand
/// for the same entries, position by position, and so agree in every field.
pub proof fn lemma_args_repeatable(doc: Tree, first: Seq<Argument>, second: Seq<Argument>)
    requires
        described(first) == entries_of(doc),
        described(second) == entries_of(doc),
    ensures
        first.len() == second.len(),
        forall|i: int|
            0 <= i < first.len() ==> {
                &&& (#[trigger] first[i])@ == second[i]@
                &&& name_of(first[i]@) == name_of(second[i]@)
                &&& short_of(first[i]@) == short_of(second[i]@)
                &&& long_of(first[i]@) == long_of(second[i]@)
                &&& type_of(first[i]@) == type_of(second[i]@)
                &&& default_of(first[i]@) == default_of(second[i]@)
                &&& select_of(first[i]@) == select_of(second[i]@)
            },
{
    assert(described(first).len() == first.len());
    assert(described(second).len() == second.len());
    assert forall|i: int| 0 <= i < first.len() implies (#[trigger] first[i])@ == second[i]@ by {
        assert(described(first)[i] == first[i]@);
        assert(described(second)[i] == second[i]@);
    }
}

/// The reading of one document that describes a command line.
pub struct ArgumentParser {
    doc: Node,
}

impl View for ArgumentParser {
    type V = Tree;

    closed spec fn view(&self) -> Tree {
        self.doc@
    }
}

impl ArgumentParser {
    /// The reading of the document `doc`.
    pub fn new(doc: Node) -> (r: Self)
        ensures
            r@ == doc@,
    {
        Self { doc }
    }

    /// The version of the description, empty where none is given.
    pub fn version(&self) -> (r: &str)
        ensures
            r@ == self@.text_or("version"@, Seq::empty()),
    {
        proof {
            reveal_strlit("");
        }
        self.doc.text_or("version", "")
    }

    /// The name of the program, empty where none is given.
    pub fn program(&self) -> (r: &str)
        ensures
            r@ == self@.text_or("program"@, Seq::empty()),
    {
        proof {
            reveal_strlit("");
        }
        self.doc.text_or("program", "")
    }

    /// What the program is about, empty where nothing is given.
    pub fn about(&self) -> (r: &str)
        ensures
            r@ == self@.text_or("about"@, Seq::empty()),
    {
        proof {
            reveal_strlit("");
        }
        self.doc.text_or("about", "")
    }

    /// One descriptor for each entry of the `args` list, in its order, each
    /// over a copy of its entry; none where the document has no such sequence.
    pub fn args(&self) -> (r: Vec<Argument>)
        ensures
            described(r@) == entries_of(self@),
    {
        let mut args: Vec<Argument> = Vec::new();
        match self.doc.items_at("args") {
            Some(items) => {
                let mut i: usize = 0;
                while i < items.len()
                    invariant
                        i <= items.len(),
                        args.len() == i,
                        forall|j: int| 0 <= j < i ==> (#[trigger] args@[j])@ == items@[j]@,
                    decreases items.len() - i,
                {
                    args.push(Argument::new(items[i].clone()));
                    i = i + 1;
                }
                assert(described(args@) =~= trees_of(items@));
            },
            None => {
                assert(described(args@) =~= Seq::empty());
            },
        }
        args
    }
}

} // verus!
