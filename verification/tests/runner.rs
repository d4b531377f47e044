use buddy::config::Config;
use buddy::paint::Labels;
use buddy::runner::{arguments, invoke, render_line, Action, Event, Mode, Phase, Runner};
use buddy::text::strip_prefix;

fn names(parts: &[&str]) -> Vec<String> {
    parts.iter().map(|part| part.to_string()).collect()
}

fn streaming() -> Runner {
    Runner { phase: Phase::Streaming, marker: "INFO:".to_string() }
}

#[test]
fn informational_line_gets_the_marker() {
    assert_eq!(render_line("INFO: built target X", "<m>"), "<m> built target X");
    assert_eq!(render_line("INFO: built target X", "INFO:"), "INFO: built target X");
    assert_eq!(
        render_line("INFO: built target X", "\u{1b}[32mINFO:\u{1b}[0m"),
        "\u{1b}[32mINFO:\u{1b}[0m built target X"
    );
}

#[test]
fn other_lines_pass_through_unchanged() {
    for line in [
        "",
        "INFO:",
        "INFO:x",
        "INFO:built target X",
        "info: lower case",
        " INFO: indented",
        "WARNING: something",
        "ERROR: caf\u{e9} \u{1f980}",
        "INFO\u{a0}: no-break",
    ] {
        assert_eq!(render_line(line, "<m>"), line);
    }
}

#[test]
fn prefix_alone_leaves_an_empty_rest() {
    assert_eq!(render_line("INFO: ", "<m>"), "<m> ");
    assert_eq!(render_line("INFO:  two", "<m>"), "<m>  two");
    assert_eq!(render_line("INFO: \u{1f980} crab", "<m>"), "<m> \u{1f980} crab");
}

#[test]
fn strip_prefix_splits_at_characters() {
    assert_eq!(strip_prefix("abc", "ab"), Some("c"));
    assert_eq!(strip_prefix("abc", ""), Some("abc"));
    assert_eq!(strip_prefix("abc", "abc"), Some(""));
    assert_eq!(strip_prefix("abc", "abcd"), None);
    assert_eq!(strip_prefix("abc", "b"), None);
    assert_eq!(strip_prefix("\u{e9}t\u{e9}", "\u{e9}"), Some("t\u{e9}"));
    assert_eq!(strip_prefix("", "a"), None);
}

#[test]
fn build_without_targets_takes_everything_below_the_sources() {
    let config = Config::default();
    assert_eq!(config.package.name, "default");
    let (runner, order) = invoke(Mode::Build, &vec![], &config, &Labels::plain());
    assert_eq!(runner, streaming());
    assert_eq!(
        order,
        Action::Spawn {
            args: names(&[
                "--output_base=target/build",
                "--symlink_prefix=target/",
                "build",
                "//src/...",
            ]),
        }
    );
}

#[test]
fn run_without_targets_takes_the_package_binary() {
    let config = buddy::config::load(Some(buddy::scaffold::descriptor("demo").as_str())).unwrap();
    let (_, order) = invoke(Mode::Run, &vec![], &config, &Labels::plain());
    assert_eq!(
        order,
        Action::Spawn {
            args: names(&[
                "--output_base=target/build",
                "--symlink_prefix=target/",
                "run",
                "//src:demo",
            ]),
        }
    );
}

#[test]
fn named_targets_are_handed_on_as_they_are() {
    let extra = names(&["//src:a", "--", "-v", ""]);
    assert_eq!(
        arguments(Mode::Build, &extra, "demo"),
        names(&[
            "--output_base=target/build",
            "--symlink_prefix=target/",
            "build",
            "//src:a",
            "--",
            "-v",
            "",
        ])
    );
    assert_eq!(
        arguments(Mode::Run, &names(&["//other:bin"]), "demo"),
        names(&["--output_base=target/build", "--symlink_prefix=target/", "run", "//other:bin"])
    );
}

#[test]
fn default_targets_are_exact() {
    assert_eq!(arguments(Mode::Build, &vec![], "demo")[3], "//src/...");
    assert_eq!(arguments(Mode::Run, &vec![], "demo")[3], "//src:demo");
    assert_eq!(arguments(Mode::Run, &vec![], "")[3], "//src:");
    assert_eq!(Mode::Build.subcommand(), "build");
    assert_eq!(Mode::Run.subcommand(), "run");
}

#[test]
fn lines_come_out_in_their_order() {
    let mut runner = streaming();
    let lines = ["Loading:", "INFO: Analyzed target", "", "INFO: Build completed", "done"];
    let mut shown: Vec<String> = Vec::new();
    for line in lines {
        match runner.step(&Event::Line { text: line.to_string() }) {
            Some(Action::Print { text }) => shown.push(text),
            other => panic!("unexpected order {:?}", other),
        }
        assert_eq!(runner.phase, Phase::Streaming);
    }
    assert_eq!(
        shown,
        names(&["Loading:", "INFO: Analyzed target", "", "INFO: Build completed", "done"])
    );
}

#[test]
fn left_over_directory_is_removed_when_found() {
    let mut runner = streaming();
    assert_eq!(
        runner.step(&Event::StreamClosed),
        Some(Action::Probe { path: "bazel-out".to_string() })
    );
    assert_eq!(runner.phase, Phase::Probing);
    assert_eq!(
        runner.step(&Event::ArtifactFound),
        Some(Action::Remove { path: "bazel-out".to_string() })
    );
    assert_eq!(runner.phase, Phase::Removing);
    assert!(!runner.is_finished());
    assert_eq!(runner.step(&Event::ArtifactRemoved), Some(Action::Finish));
    assert!(runner.is_finished());
}

#[test]
fn call_finishes_at_once_without_left_over_directory() {
    let mut runner = streaming();
    runner.step(&Event::StreamClosed);
    assert_eq!(runner.step(&Event::ArtifactAbsent), Some(Action::Finish));
    assert!(runner.is_finished());
    assert_eq!(runner.marker, "INFO:");
}

#[test]
fn events_out_of_turn_change_nothing() {
    let mut runner = streaming();
    for event in [Event::ArtifactFound, Event::ArtifactAbsent, Event::ArtifactRemoved] {
        assert_eq!(runner.step(&event), None);
        assert_eq!(runner, streaming());
    }
    runner.step(&Event::StreamClosed);
    for event in
        [Event::Line { text: "late".to_string() }, Event::StreamClosed, Event::ArtifactRemoved]
    {
        assert_eq!(runner.step(&event), None);
        assert_eq!(runner.phase, Phase::Probing);
    }
    runner.step(&Event::ArtifactFound);
    for event in [Event::StreamClosed, Event::ArtifactFound, Event::ArtifactAbsent] {
        assert_eq!(runner.step(&event), None);
        assert_eq!(runner.phase, Phase::Removing);
    }
    runner.step(&Event::ArtifactRemoved);
    for event in [
        Event::Line { text: "late".to_string() },
        Event::StreamClosed,
        Event::ArtifactFound,
        Event::ArtifactAbsent,
        Event::ArtifactRemoved,
    ] {
        assert_eq!(runner.step(&event), None);
        assert!(runner.is_finished());
    }
}
