//! Handing a build or a run over to the external build tool: the arguments
//! it is called with, how each line of its diagnostics is shown, and what is
//! cleared away once it is done.
//!
//! The library spawns nothing and reads nothing. `invoke` answers with the
//! first thing to do; from then on the caller does what it is told and
//! reports what happened to `Runner::step`, which answers with the next.

use crate::config::Config;
use crate::paint::Labels;
use crate::text::{strip_prefix, triple};
use vstd::prelude::*;
use vstd::string::*;

verus! {

/// Points the build tool's output base into the target directory.
pub const OUTPUT_BASE_FLAG: &'static str = "--output_base=target/build";

/// Points the build tool's convenience links into the target directory.
pub const SYMLINK_PREFIX_FLAG: &'static str = "--symlink_prefix=target/";

/// The build tool's subcommand that builds.
pub const BUILD_TOKEN: &'static str = "build";

/// The build tool's subcommand that runs.
pub const RUN_TOKEN: &'static str = "run";

/// What is built where no target is named: everything below the sources.
pub const BUILD_TARGET: &'static str = "//src/...";

/// What is run where no target is named is the package's own binary; its
/// label begins so, and the package's name follows.
pub const RUN_TARGET_HEAD: &'static str = "//src:";

/// What an informational line of the diagnostics begins with.
pub const INFO_PREFIX: &'static str = "INFO: ";

/// What stands between the marker and the rest of an informational line.
pub const SEPARATOR: &'static str = " ";

/// The directory that the build tool leaves behind in the working directory.
pub const ARTIFACT_DIR: &'static str = "bazel-out";

/// What the build tool is asked to do.
#[derive(Clone, Copy, Debug, PartialEq, Eq, Structural)]
pub enum Mode {
    Build,
    Run,
}

impl Mode {
    /// The subcommand that asks for this.
    pub open spec fn token(self) -> Seq<char> {
        match self {
            Mode::Build => BUILD_TOKEN@,
            Mode::Run => RUN_TOKEN@,
        }
    }

    /// The subcommand that asks for this.
    pub fn subcommand(self) -> (token: &'static str)
        ensures
            token@ == self.token(),
    {
        match self {
            Mode::Build => BUILD_TOKEN,
            Mode::Run => RUN_TOKEN,
        }
    }
}

/// The target that is taken where none is named.
pub open spec fn default_target(mode: Mode, package: Seq<char>) -> Seq<char> {
    match mode {
        Mode::Build => BUILD_TARGET@,
        Mode::Run => RUN_TARGET_HEAD@ + package,
    }
}

/// The targets of a call: those named, or the default where none is named.
pub open spec fn targets(mode: Mode, extra: Seq<Seq<char>>, package: Seq<char>) -> Seq<Seq<char>> {
    if extra.len() > 0 {
        extra
    } else {
        seq![default_target(mode, package)]
    }
}

/// The arguments of a call of the build tool: the two flags, the
/// subcommand, then the targets.
pub open spec fn argument_list(mode: Mode, extra: Seq<Seq<char>>, package: Seq<char>) -> Seq<
    Seq<char>,
> {
    seq![OUTPUT_BASE_FLAG@, SYMLINK_PREFIX_FLAG@, mode.token()] + targets(mode, extra, package)
}

/// The arguments that the build tool is called with.
///
/// `extra_args` are handed on as they are. Where there are none, the default
/// target takes their place: everything below the sources for a build, the
/// binary called `package_name` for a run.
pub fn arguments(mode: Mode, extra_args: &Vec<String>, package_name: &str) -> (args: Vec<String>)
    ensures
        args.deep_view() == argument_list(mode, extra_args.deep_view(), package_name@),
{
    let mut args = triple(OUTPUT_BASE_FLAG, SYMLINK_PREFIX_FLAG, mode.subcommand());
    let ghost fixed = args.deep_view();
    if extra_args.len() == 0 {
        let target = match mode {
            Mode::Build => String::from_str(BUILD_TARGET),
            Mode::Run => String::from_str(RUN_TARGET_HEAD).concat(package_name),
        };
        args.push(target);
        assert(args.deep_view() =~= fixed + seq![default_target(mode, package_name@)]);
        return args;
    }
    let mut i: usize = 0;
    while i < extra_args.len()
        invariant
            i <= extra_args.len(),
            args.deep_view() =~= fixed + extra_args.deep_view().take(i as int),
        decreases extra_args.len() - i,
    {
        let ghost before = args.deep_view();
        args.push(extra_args[i].clone());
        assert(args.deep_view() =~= before.push(extra_args@[i as int]@));
        assert(extra_args.deep_view().take(i + 1) =~= extra_args.deep_view().take(i as int).push(
            extra_args@[i as int]@,
        ));
        i += 1;
    }
    assert(extra_args.deep_view().take(i as int) =~= extra_args.deep_view());
    args
}

/// How a line of the diagnostics is shown. An informational line loses its
/// prefix and gets `marker` and one separator in its place; any other line is
/// shown as it is.
pub open spec fn rendered(line: Seq<char>, marker: Seq<char>) -> Seq<char> {
    if INFO_PREFIX@.is_prefix_of(line) {
        marker + SEPARATOR@ + line.skip(INFO_PREFIX@.len() as int)
    } else {
        line
    }
}

/// Shows one line of the diagnostics, with `marker` for the severity of an
/// informational line.
pub fn render_line(line: &str, marker: &str) -> (shown: String)
    ensures
        shown@ == rendered(line@, marker@),
{
    match strip_prefix(line, INFO_PREFIX) {
        Some(rest) => String::from_str(marker).concat(SEPARATOR).concat(rest),
        None => String::from_str(line),
    }
}

/// How far a call of the build tool has come.
#[derive(Clone, Copy, Debug, PartialEq, Eq, Structural)]
pub enum Phase {
    /// The tool runs and its diagnostics are read line by line.
    Streaming,
    /// The diagnostics have ended; the working directory is looked at.
    Probing,
    /// The left-over directory is being removed.
    Removing,
    /// Nothing is left to do.
    Finished,
}

/// What the caller reports.
#[derive(Clone, Debug, PartialEq, Eq)]
pub enum Event {
    /// The tool wrote this line to its diagnostics.
    Line { text: String },
    /// The tool's diagnostics have ended.
    StreamClosed,
    /// The left-over directory is there.
    ArtifactFound,
    /// The left-over directory is not there.
    ArtifactAbsent,
    /// The left-over directory was removed.
    ArtifactRemoved,
}

/// What the caller is to do next.
#[derive(Clone, Debug, PartialEq, Eq)]
pub enum Action {
    /// Start the build tool with these arguments, its diagnostics captured
    /// and its output left alone; then read a line of the diagnostics.
    Spawn { args: Vec<String> },
    /// Print this line; then read the next line of the diagnostics.
    Print { text: String },
    /// Look whether the directory `path` exists.
    Probe { path: String },
    /// Remove the directory `path` with all that is in it.
    Remove { path: String },
    /// Return; the call has succeeded, however the tool itself ended.
    Finish,
}

/// A call of the build tool in progress.
#[derive(Clone, Debug, PartialEq, Eq)]
pub struct Runner {
    pub phase: Phase,
    /// Stands for the severity of an informational line.
    pub marker: String,
}

/// The mathematical value of an `Event`.
pub enum EventView {
    Line { text: Seq<char> },
    StreamClosed,
    ArtifactFound,
    ArtifactAbsent,
    ArtifactRemoved,
}

/// The mathematical value of an `Action`.
pub enum ActionView {
    Spawn { args: Seq<Seq<char>> },
    Print { text: Seq<char> },
    Probe { path: Seq<char> },
    Remove { path: Seq<char> },
    Finish,
}

/// The mathematical value of a `Runner`.
pub struct RunnerView {
    pub phase: Phase,
    pub marker: Seq<char>,
}

impl View for Event {
    type V = EventView;

    open spec fn view(&self) -> EventView {
        match self {
            Event::Line { text } => EventView::Line { text: text@ },
            Event::StreamClosed => EventView::StreamClosed,
            Event::ArtifactFound => EventView::ArtifactFound,
            Event::ArtifactAbsent => EventView::ArtifactAbsent,
            Event::ArtifactRemoved => EventView::ArtifactRemoved,
        }
    }
}

impl View for Action {
    type V = ActionView;

    open spec fn view(&self) -> ActionView {
        match self {
            Action::Spawn { args } => ActionView::Spawn { args: args.deep_view() },
            Action::Print { text } => ActionView::Print { text: text@ },
            Action::Probe { path } => ActionView::Probe { path: path@ },
            Action::Remove { path } => ActionView::Remove { path: path@ },
            Action::Finish => ActionView::Finish,
        }
    }
}

impl View for Runner {
    type V = RunnerView;

    open spec fn view(&self) -> RunnerView {
        RunnerView { phase: self.phase, marker: self.marker@ }
    }
}

impl RunnerView {
    /// The call in the phase `phase`.
    pub open spec fn at(self, phase: Phase) -> RunnerView {
        RunnerView { phase, marker: self.marker }
    }

    /// What follows `event`: the call as it then stands and what is to be
    /// done, or `None` for an event that cannot occur in this phase.
    pub open spec fn next(self, event: EventView) -> Option<(RunnerView, ActionView)> {
        match (self.phase, event) {
            (Phase::Streaming, EventView::Line { text }) => Some(
                (self, ActionView::Print { text: rendered(text, self.marker) }),
            ),
            (Phase::Streaming, EventView::StreamClosed) => Some(
                (self.at(Phase::Probing), ActionView::Probe { path: ARTIFACT_DIR@ }),
            ),
            (Phase::Probing, EventView::ArtifactFound) => Some(
                (self.at(Phase::Removing), ActionView::Remove { path: ARTIFACT_DIR@ }),
            ),
            (Phase::Probing, EventView::ArtifactAbsent) => Some(
                (self.at(Phase::Finished), ActionView::Finish),
            ),
            (Phase::Removing, EventView::ArtifactRemoved) => Some(
                (self.at(Phase::Finished), ActionView::Finish),
            ),
            _ => None,
        }
    }

    /// The call after `events`, each of which can occur in its turn, and what
    /// was to be done after each of them, in order. An event that cannot
    /// occur ends the sequence.
    pub open spec fn after(self, events: Seq<EventView>) -> (RunnerView, Seq<ActionView>)
        decreases events.len(),
    {
        if events.len() == 0 {
            (self, Seq::empty())
        } else {
            match self.next(events[0]) {
                None => (self, Seq::empty()),
                Some((state, action)) => {
                    let (last, actions) = state.after(events.drop_first());
                    (last, seq![action] + actions)
                },
            }
        }
    }
}

/// Begins a call of the build tool.
///
/// Answers with the call in its first phase and with the order to start the
/// tool. The arguments are the two flags, the subcommand of `mode`, and the
/// targets: `extra_args` as they are, or the default target where there are
/// none, which for a run names the package of `config`.
pub fn invoke(mode: Mode, extra_args: &Vec<String>, config: &Config, labels: &Labels) -> (begun: (
    Runner,
    Action,
))
    ensures
        begun.0@ == (RunnerView { phase: Phase::Streaming, marker: labels@.info }),
        begun.1@ == (ActionView::Spawn {
            args: argument_list(mode, extra_args.deep_view(), config@.package.name),
        }),
{
    let args = arguments(mode, extra_args, config.package.name.as_str());
    (Runner { phase: Phase::Streaming, marker: labels.info.clone() }, Action::Spawn { args })
}

impl Runner {
    /// Takes what the caller reports and answers with what to do next.
    ///
    /// While the diagnostics are read, each line is answered with the order
    /// to print it as `rendered` shows it, so the lines come out in the
    /// order in which they came in. Their end is answered with the order to
    /// look for the left-over directory, which is removed if it is there.
    /// Then the call is finished. An event that cannot occur in the present
    /// phase is answered with `None` and changes nothing.
    pub fn step(&mut self, event: &Event) -> (order: Option<Action>)
        ensures
            match old(self)@.next(event@) {
                Some((state, action)) => final(self)@ == state && (order matches Some(a) && a@
                    == action),
                None => final(self)@ == old(self)@ && order is None,
            },
    {
        match self.phase {
            Phase::Streaming => match event {
                Event::Line { text } => Some(
                    Action::Print { text: render_line(text.as_str(), self.marker.as_str()) },
                ),
                Event::StreamClosed => {
                    self.phase = Phase::Probing;
                    Some(Action::Probe { path: String::from_str(ARTIFACT_DIR) })
                },
                _ => None,
            },
            Phase::Probing => match event {
                Event::ArtifactFound => {
                    self.phase = Phase::Removing;
                    Some(Action::Remove { path: String::from_str(ARTIFACT_DIR) })
                },
                Event::ArtifactAbsent => {
                    self.phase = Phase::Finished;
                    Some(Action::Finish)
                },
                _ => None,
            },
            Phase::Removing => match event {
                Event::ArtifactRemoved => {
                    self.phase = Phase::Finished;
                    Some(Action::Finish)
                },
                _ => None,
            },
            Phase::Finished => None,
        }
    }

    /// The call has nothing left to do.
    pub fn is_finished(&self) -> (done: bool)
        ensures
            done == (self@.phase == Phase::Finished),
    {
        self.phase == Phase::Finished
    }
}

/// The events that report `lines`, one for each and in order.
pub open spec fn line_events(lines: Seq<Seq<char>>) -> Seq<EventView> {
    Seq::new(lines.len(), |i: int| EventView::Line { text: lines[i] })
}

/// The orders to print `lines` as `rendered` shows them with `marker`, one
/// for each and in order.
pub open spec fn print_orders(lines: Seq<Seq<char>>, marker: Seq<char>) -> Seq<ActionView> {
    Seq::new(lines.len(), |i: int| ActionView::Print { text: rendered(lines[i], marker) })
}

/// The lines of the diagnostics come out in the order in which they came in:
/// while the diagnostics are read, any lines whatever are answered with the
/// order to print each of them, in the same order, and the call goes on
/// reading.
pub proof fn lemma_lines_keep_their_order(runner: RunnerView, lines: Seq<Seq<char>>)
    requires
        runner.phase == Phase::Streaming,
    ensures
        runner.after(line_events(lines)) == (runner, print_orders(lines, runner.marker)),
    decreases lines.len(),
{
    let events = line_events(lines);
    if lines.len() == 0 {
        assert(print_orders(lines, runner.marker) =~= Seq::empty());
    } else {
        let rest = lines.drop_first();
        lemma_lines_keep_their_order(runner, rest);
        assert(events.drop_first() =~= line_events(rest));
        assert(print_orders(lines, runner.marker) =~= seq![
            ActionView::Print { text: rendered(lines[0], runner.marker) },
        ] + print_orders(rest, runner.marker));
    }
}

/// A line that does not begin with the prefix of an informational line is
/// shown unchanged, whatever it holds.
pub proof fn lemma_other_lines_unchanged(line: Seq<char>, marker: Seq<char>)
    requires
        !INFO_PREFIX@.is_prefix_of(line),
    ensures
        rendered(line, marker) == line,
{
}

/// An informational line is shown as the marker, one separator and what
/// followed the prefix: the prefix of six characters is gone, and the space
/// that ended it is not shown a second time.
pub proof fn lemma_informational_line(rest: Seq<char>, marker: Seq<char>)
    ensures
        rendered(INFO_PREFIX@ + rest, marker) == marker + SEPARATOR@ + rest,
        INFO_PREFIX@ == seq!['I', 'N', 'F', 'O', ':', ' '],
        SEPARATOR@ == seq![' '],
{
    reveal_strlit("INFO: ");
    reveal_strlit(" ");
    let whole = INFO_PREFIX@ + rest;
    assert(whole.subrange(0, INFO_PREFIX@.len() as int) =~= INFO_PREFIX@);
    assert(whole.skip(INFO_PREFIX@.len() as int) =~= rest);
    assert(INFO_PREFIX@ =~= seq!['I', 'N', 'F', 'O', ':', ' ']);
    assert(SEPARATOR@ =~= seq![' ']);
}

/// Once the diagnostics have ended the call finishes, whether the left-over
/// directory is there or not, and it is removed exactly when it is there.
pub proof fn lemma_call_finishes(runner: RunnerView)
    requires
        runner.phase == Phase::Streaming,
    ensures
        runner.after(seq![EventView::StreamClosed, EventView::ArtifactAbsent]) == (
            runner.at(Phase::Finished),
            seq![ActionView::Probe { path: ARTIFACT_DIR@ }, ActionView::Finish],
        ),
        runner.after(
            seq![EventView::StreamClosed, EventView::ArtifactFound, EventView::ArtifactRemoved],
        ) == (
            runner.at(Phase::Finished),
            seq![
                ActionView::Probe { path: ARTIFACT_DIR@ },
                ActionView::Remove { path: ARTIFACT_DIR@ },
                ActionView::Finish,
            ],
        ),
{
    let absent = seq![EventView::StreamClosed, EventView::ArtifactAbsent];
    let a1 = absent.drop_first();
    let a2 = a1.drop_first();
    assert(a2.len() == 0);
    let probing = runner.at(Phase::Probing);
    let finished = runner.at(Phase::Finished);
    assert(finished.after(a2) == (finished, Seq::<ActionView>::empty()));
    assert(probing.after(a1).1 =~= seq![ActionView::Finish]);
    assert(runner.after(absent).1 =~= seq![
        ActionView::Probe { path: ARTIFACT_DIR@ },
        ActionView::Finish,
    ]);

    let found = seq![
        EventView::StreamClosed,
        EventView::ArtifactFound,
        EventView::ArtifactRemoved,
    ];
    let f1 = found.drop_first();
    let f2 = f1.drop_first();
    let f3 = f2.drop_first();
    assert(f3.len() == 0);
    let removing = runner.at(Phase::Removing);
    assert(finished.after(f3) == (finished, Seq::<ActionView>::empty()));
    assert(removing.after(f2).1 =~= seq![ActionView::Finish]);
    assert(probing.after(f1).1 =~= seq![
        ActionView::Remove { path: ARTIFACT_DIR@ },
        ActionView::Finish,
    ]);
    assert(runner.after(found).1 =~= seq![
        ActionView::Probe { path: ARTIFACT_DIR@ },
        ActionView::Remove { path: ARTIFACT_DIR@ },
        ActionView::Finish,
    ]);
}

} // verus!
