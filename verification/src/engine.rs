//! Handing a specification to the argument-parsing engine: the `clap`
//! command that it describes.

use crate::builder::{Flag, FlagView, Specification, SpecificationView};
use clap::{Arg, Command};
use vstd::prelude::*;

verus! {

/// `clap::Command`, the engine's description of a command line. Nothing is
/// stated of its inside but through [`command_identity`] and
/// [`command_args`].
#[verifier::external_type_specification]
#[verifier::external_body]
pub struct ExCommand(clap::Command);

/// `clap::Arg`, the engine's description of one argument. Nothing is stated
/// of its inside but through [`arg_forms`].
#[verifier::external_type_specification]
#[verifier::external_body]
pub struct ExArg(clap::Arg);

/// What a `clap::Arg` holds of a flag: its identifier (`Arg::get_id`), its
/// short form (`Arg::get_short`) and its long form (`Arg::get_long`).
pub uninterp spec fn arg_forms(arg: Arg) -> FlagView;

/// The arguments that a `clap::Command` holds, each by its [`arg_forms`], in
/// the order in which they were added (`Command::get_arguments`).
pub uninterp spec fn command_args(command: Command) -> Seq<FlagView>;

/// The name of a `clap::Command` (`Command::get_name`) and the text of its
/// description (`Command::get_about`), if it has one.
pub uninterp spec fn command_identity(command: Command) -> (Seq<char>, Option<Seq<char>>);

/// Calls `clap::Command::new`: a command of the given name, which has no
/// description and no arguments yet.
#[verifier::external_body]
fn new_command(name: String) -> (r: Command)
    ensures
        command_identity(r) == (name@, None::<Seq<char>>),
        command_args(r) == Seq::<FlagView>::empty(),
{
    Command::new(name)
}

/// Calls `clap::Command::about`: sets the description and nothing else.
#[verifier::external_body]
fn with_about(command: Command, about: String) -> (r: Command)
    ensures
        command_identity(r) == (command_identity(command).0, Some(about@)),
        command_args(r) == command_args(command),
{
    command.about(about)
}

/// Calls `clap::Arg::new`: an argument with the given identifier and neither
/// a short nor a long form.
#[verifier::external_body]
fn new_arg(name: String) -> (r: Arg)
    ensures
        arg_forms(r) == (FlagView { name: name@, short: None, long: None }),
{
    Arg::new(name)
}

/// Calls `clap::Arg::short`: sets the short form, or clears it for `None`,
/// and nothing else. A hyphen is left out: `clap` asserts that the short form
/// is not a hyphen.
#[verifier::external_body]
fn with_short(arg: Arg, short: Option<char>) -> (r: Arg)
    requires
        short != Some('-'),
    ensures
        arg_forms(r) == (FlagView { short: short, ..arg_forms(arg) }),
{
    arg.short(short)
}

/// Calls `clap::Arg::long`: sets the long form and nothing else.
#[verifier::external_body]
fn with_long(arg: Arg, long: String) -> (r: Arg)
    ensures
        arg_forms(r) == (FlagView { long: Some(long@), ..arg_forms(arg) }),
{
    arg.long(long)
}

/// Calls `clap::Command::arg`: adds the argument after those that the
/// command has, and leaves name and description as they are.
#[verifier::external_body]
fn with_arg(command: Command, arg: Arg) -> (r: Command)
    ensures
        command_identity(r) == command_identity(command),
        command_args(r) == command_args(command).push(arg_forms(arg)),
{
    command.arg(arg)
}

/// Whether the engine takes every flag: none has a hyphen as its short form.
pub open spec fn presentable(specification: SpecificationView) -> bool {
    forall|i: int|
        0 <= i < specification.flags.len() ==> (#[trigger] specification.flags[i]).short != Some(
            '-',
        )
}

/// Whether the engine takes every flag of `specification`.
pub fn is_presentable(specification: &Specification) -> (r: bool)
    ensures
        r == presentable(specification@),
{
    let mut i: usize = 0;
    while i < specification.flags.len()
        invariant
            i <= specification.flags.len(),
            forall|j: int| 0 <= j < i ==> (#[trigger] specification@.flags[j]).short != Some('-'),
        decreases specification.flags.len() - i,
    {
        assert(specification@.flags[i as int] == specification.flags@[i as int]@);
        match specification.flags[i].short {
            Some(c) => {
                if c == '-' {
                    return false;
                }
            },
            None => {},
        }
        i = i + 1;
    }
    true
}

/// The engine's argument for one flag: its name, its short form, and its
/// long form where it has one.
pub fn argument(flag: &Flag) -> (r: Arg)
    requires
        flag.short != Some('-'),
    ensures
        arg_forms(r) == flag@,
{
    let arg = with_short(new_arg(flag.name.clone()), flag.short);
    match &flag.long {
        Some(long) => with_long(arg, long.clone()),
        None => arg,
    }
}

/// The engine's command for a specification: its name and description, and
/// one argument for each flag, in order.
pub fn command(specification: &Specification) -> (r: Command)
    requires
        presentable(specification@),
    ensures
        command_identity(r) == (specification@.program, Some(specification@.about)),
        command_args(r) == specification@.flags,
{
    let mut command = with_about(
        new_command(specification.program.clone()),
        specification.about.clone(),
    );
    let mut i: usize = 0;
    while i < specification.flags.len()
        invariant
            i <= specification.flags.len(),
            presentable(specification@),
            command_identity(command) == (specification@.program, Some(specification@.about)),
            command_args(command) == specification@.flags.take(i as int),
        decreases specification.flags.len() - i,
    {
        assert(specification@.flags[i as int] == specification.flags@[i as int]@);
        let arg = argument(&specification.flags[i]);
        command = with_arg(command, arg);
        assert(specification@.flags.take(i + 1) == specification@.flags.take(i as int).push(
            specification@.flags[i as int],
        ));
        i = i + 1;
    }
    assert(specification@.flags.take(i as int) == specification@.flags);
    command
}

} // verus!
