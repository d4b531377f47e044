//! The skeleton of a new package: which directories and files it is made of,
//! what the files hold, and what the user is told.
//!
//! Nothing here touches the disk. `new_package` is told whether the
//! destination exists and answers with the steps to carry out, in order. The
//! `Tree` model at the end says what carrying them out does.

use crate::paint::{Labels, LabelsView};
use crate::text::{pair, single, triple};
use vstd::prelude::*;
use vstd::string::*;

verus! {

/// Name of the package descriptor.
pub const DESCRIPTOR_FILE: &'static str = "Buddy.toml";

/// Name of the empty file that marks the root of the workspace.
pub const WORKSPACE_FILE: &'static str = "WORKSPACE";

/// Name of the directory that holds the sources.
pub const SOURCE_DIR: &'static str = "src";

/// Name of the build descriptor inside the source directory.
pub const BUILD_FILE: &'static str = "BUILD";

/// Name of the one source file.
pub const MAIN_FILE: &'static str = "main.cc";

/// The descriptor up to the package name.
pub const DESCRIPTOR_HEAD: &'static str = "[package]\nname = \"";

/// The descriptor after the package name.
pub const DESCRIPTOR_TAIL: &'static str =
    "\"\nversion = \"0.1.0\"\nedition = \"2023\"\n\n[dependencies]";

/// The build descriptor up to the target name.
pub const BUILD_HEAD: &'static str =
    "load(\"@rules_cc//cc:defs.bzl\", \"cc_binary\")\n\ncc_binary(\n    name = \"";

/// The build descriptor after the target name.
pub const BUILD_TAIL: &'static str = "\",\n    srcs = [\"main.cc\"],\n)";

/// The source file: a greeting for the first argument, `world` without one,
/// and the local time.
pub const MAIN_SOURCE: &'static str = r#"#include <ctime>
#include <string>
#include <iostream>

std::string get_greet(const std::string& who) {
  return "Hello " + who;
}

void print_localtime() {
  std::time_t result = std::time(nullptr);
  std::cout << std::asctime(std::localtime(&result));
}

int main(int argc, char** argv) {
  std::string who = "world";
  if (argc > 1) {
    who = argv[1];
  }
  std::cout << get_greet(who) << std::endl;
  print_localtime();
  return 0;
}"#;

/// What the package descriptor of `name` holds.
pub open spec fn descriptor_text(name: Seq<char>) -> Seq<char> {
    DESCRIPTOR_HEAD@ + name + DESCRIPTOR_TAIL@
}

/// What the build descriptor of `name` holds.
pub open spec fn build_text(name: Seq<char>) -> Seq<char> {
    BUILD_HEAD@ + name + BUILD_TAIL@
}

/// The package descriptor of a package called `name`.
pub fn descriptor(name: &str) -> (content: String)
    ensures
        content@ == descriptor_text(name@),
{
    String::from_str(DESCRIPTOR_HEAD).concat(name).concat(DESCRIPTOR_TAIL)
}

/// The build descriptor of a package called `name`: one binary target of
/// that name, built from the one source file.
pub fn build_descriptor(name: &str) -> (content: String)
    ensures
        content@ == build_text(name@),
{
    String::from_str(BUILD_HEAD).concat(name).concat(BUILD_TAIL)
}

/// The one source file of a new package.
pub fn main_source() -> (content: String)
    ensures
        content@ == MAIN_SOURCE@,
{
    String::from_str(MAIN_SOURCE)
}

/// One change to the disk. A path is the list of its components, the
/// package's own directory first.
#[derive(Clone, Debug, PartialEq, Eq)]
pub enum Step {
    /// Create the directory at `path`.
    CreateDir { path: Vec<String> },
    /// Create the file at `path` and write `content` to it.
    WriteFile { path: Vec<String>, content: String },
}

/// The mathematical value of a `Step`.
pub enum StepView {
    CreateDir { path: Seq<Seq<char>> },
    WriteFile { path: Seq<Seq<char>>, content: Seq<char> },
}

impl View for Step {
    type V = StepView;

    open spec fn view(&self) -> StepView {
        match self {
            Step::CreateDir { path } => StepView::CreateDir { path: path.deep_view() },
            Step::WriteFile { path, content } => StepView::WriteFile {
                path: path.deep_view(),
                content: content@,
            },
        }
    }
}

/// What `new_package` answers.
#[derive(Clone, Debug, PartialEq, Eq)]
pub enum Outcome {
    /// The destination is free: carry out `steps` in order, then print
    /// `notice`.
    Created { steps: Vec<Step>, notice: String },
    /// The destination exists: print `notice` and change nothing.
    Refused { notice: String },
}

/// The mathematical value of an `Outcome`.
pub enum OutcomeView {
    Created { steps: Seq<StepView>, notice: Seq<char> },
    Refused { notice: Seq<char> },
}

/// The values of a list of steps, in the same order.
pub open spec fn step_views(steps: Seq<Step>) -> Seq<StepView> {
    Seq::new(steps.len(), |i: int| steps[i]@)
}

impl View for Outcome {
    type V = OutcomeView;

    open spec fn view(&self) -> OutcomeView {
        match self {
            Outcome::Created { steps, notice } => OutcomeView::Created {
                steps: step_views(steps@),
                notice: notice@,
            },
            Outcome::Refused { notice } => OutcomeView::Refused { notice: notice@ },
        }
    }
}

impl OutcomeView {
    /// The steps to carry out: none after a refusal.
    pub open spec fn steps(self) -> Seq<StepView> {
        match self {
            OutcomeView::Created { steps, .. } => steps,
            OutcomeView::Refused { .. } => Seq::empty(),
        }
    }
}

/// The path of the package directory itself.
pub open spec fn root_path(name: Seq<char>) -> Seq<Seq<char>> {
    seq![name]
}

/// The path of the source directory.
pub open spec fn source_path(name: Seq<char>) -> Seq<Seq<char>> {
    seq![name, SOURCE_DIR@]
}

/// The steps that make the skeleton of a package called `name`: the package
/// directory, the source directory in it, then the workspace marker, the
/// package descriptor, the build descriptor and the source file.
pub open spec fn skeleton(name: Seq<char>) -> Seq<StepView> {
    seq![
        StepView::CreateDir { path: root_path(name) },
        StepView::CreateDir { path: source_path(name) },
        StepView::WriteFile { path: seq![name, WORKSPACE_FILE@], content: Seq::empty() },
        StepView::WriteFile { path: seq![name, DESCRIPTOR_FILE@], content: descriptor_text(name) },
        StepView::WriteFile {
            path: seq![name, SOURCE_DIR@, BUILD_FILE@],
            content: build_text(name),
        },
        StepView::WriteFile { path: seq![name, SOURCE_DIR@, MAIN_FILE@], content: MAIN_SOURCE@ },
    ]
}

/// The line that reports a new package, opened by `label`.
pub open spec fn created_notice(name: Seq<char>, label: Seq<char>) -> Seq<char> {
    "    "@ + label + " binary (application) `"@ + name + "` package"@
}

/// The line that reports that the destination exists, opened by `label`.
pub open spec fn refused_notice(name: Seq<char>, label: Seq<char>) -> Seq<char> {
    label + ": destination \""@ + name + "\" already exists"@
}

/// What `new_package` answers for a package called `name`, given whether its
/// destination exists.
pub open spec fn outcome(name: Seq<char>, exists: bool, labels: LabelsView) -> OutcomeView {
    if exists {
        OutcomeView::Refused { notice: refused_notice(name, labels.error) }
    } else {
        OutcomeView::Created {
            steps: skeleton(name),
            notice: created_notice(name, labels.created),
        }
    }
}

/// Decides what creating the package `package_name` takes.
///
/// `exists` says whether anything stands at the destination already. If so
/// the answer is a refusal that changes nothing. If not, the answer lists the
/// two directories and four files of the skeleton, with the package's name in
/// the package descriptor and as the name of the build target.
pub fn new_package(package_name: &str, exists: bool, labels: &Labels) -> (answer: Outcome)
    ensures
        answer@ == outcome(package_name@, exists, labels@),
{
    if exists {
        let notice = labels.error.clone().concat(": destination \"").concat(package_name).concat(
            "\" already exists",
        );
        return Outcome::Refused { notice };
    }
    let mut steps: Vec<Step> = Vec::new();
    steps.push(Step::CreateDir { path: single(package_name) });
    steps.push(Step::CreateDir { path: pair(package_name, SOURCE_DIR) });
    steps.push(
        Step::WriteFile {
            path: pair(package_name, WORKSPACE_FILE),
            content: String::new(),
        },
    );
    steps.push(
        Step::WriteFile {
            path: pair(package_name, DESCRIPTOR_FILE),
            content: descriptor(package_name),
        },
    );
    steps.push(
        Step::WriteFile {
            path: triple(package_name, SOURCE_DIR, BUILD_FILE),
            content: build_descriptor(package_name),
        },
    );
    steps.push(
        Step::WriteFile {
            path: triple(package_name, SOURCE_DIR, MAIN_FILE),
            content: main_source(),
        },
    );
    let notice = String::from_str("    ").concat(labels.created.as_str()).concat(
        " binary (application) `",
    ).concat(package_name).concat("` package");
    assert(step_views(steps@) =~= skeleton(package_name@));
    Outcome::Created { steps, notice }
}

} // verus!
