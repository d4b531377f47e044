//! The three commands of the tool and what each of them sets going.

use crate::config::Config;
use crate::paint::Labels;
use crate::runner::{argument_list, invoke, Action, ActionView, Mode, Phase, Runner, RunnerView};
use vstd::prelude::*;

verus! {

/// What the user asked for.
#[derive(Clone, Debug, PartialEq, Eq)]
pub enum Command {
    /// Create a new package at `path`.
    New { path: String },
    /// Build the current package, or `targets` where some are named.
    Build { targets: Vec<String> },
    /// Run the binary of the current package, or `targets` where some are
    /// named.
    Run { targets: Vec<String> },
}

/// What a command sets going.
#[derive(Clone, Debug, PartialEq, Eq)]
pub enum Dispatch {
    /// A package called `name` is to be scaffolded: the caller looks whether
    /// its destination exists and asks `new_package`.
    Scaffold { name: String },
    /// A call of the build tool has begun: the caller carries out `order`
    /// and goes on with `runner`.
    Invoke { runner: Runner, order: Action },
}

/// The mathematical value of a `Command`.
pub enum CommandView {
    New { path: Seq<char> },
    Build { targets: Seq<Seq<char>> },
    Run { targets: Seq<Seq<char>> },
}

/// The mathematical value of a `Dispatch`.
pub enum DispatchView {
    Scaffold { name: Seq<char> },
    Invoke { runner: RunnerView, order: ActionView },
}

impl View for Command {
    type V = CommandView;

    open spec fn view(&self) -> CommandView {
        match self {
            Command::New { path } => CommandView::New { path: path@ },
            Command::Build { targets } => CommandView::Build { targets: targets.deep_view() },
            Command::Run { targets } => CommandView::Run { targets: targets.deep_view() },
        }
    }
}

impl View for Dispatch {
    type V = DispatchView;

    open spec fn view(&self) -> DispatchView {
        match self {
            Dispatch::Scaffold { name } => DispatchView::Scaffold { name: name@ },
            Dispatch::Invoke { runner, order } => DispatchView::Invoke {
                runner: runner@,
                order: order@,
            },
        }
    }
}

/// A call of the build tool as it begins: reading the diagnostics, with the
/// order to start the tool in `mode` on `targets`.
pub open spec fn begun(
    mode: Mode,
    targets: Seq<Seq<char>>,
    package: Seq<char>,
    marker: Seq<char>,
) -> DispatchView {
    DispatchView::Invoke {
        runner: RunnerView { phase: Phase::Streaming, marker },
        order: ActionView::Spawn { args: argument_list(mode, targets, package) },
    }
}

/// What `command` sets going, for a package called `package`.
pub open spec fn dispatched(
    command: CommandView,
    package: Seq<char>,
    marker: Seq<char>,
) -> DispatchView {
    match command {
        CommandView::New { path } => DispatchView::Scaffold { name: path },
        CommandView::Build { targets } => begun(Mode::Build, targets, package, marker),
        CommandView::Run { targets } => begun(Mode::Run, targets, package, marker),
    }
}

/// Sets a command going.
///
/// `new` leads to the scaffolder with the path as the package's name. `build`
/// and `run` begin a call of the build tool in their mode with the targets
/// named, which may be none; the package's name is taken from `config`.
pub fn dispatch(command: &Command, config: &Config, labels: &Labels) -> (set_going: Dispatch)
    ensures
        set_going@ == dispatched(command@, config@.package.name, labels@.info),
{
    match command {
        Command::New { path } => Dispatch::Scaffold { name: path.clone() },
        Command::Build { targets } => {
            let (runner, order) = invoke(Mode::Build, targets, config, labels);
            Dispatch::Invoke { runner, order }
        },
        Command::Run { targets } => {
            let (runner, order) = invoke(Mode::Run, targets, config, labels);
            Dispatch::Invoke { runner, order }
        },
    }
}

} // verus!
