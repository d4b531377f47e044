use buddy::command::{dispatch, Command, Dispatch};
use buddy::config::Config;
use buddy::paint::Labels;
use buddy::runner::{Action, Phase, Runner};

fn names(parts: &[&str]) -> Vec<String> {
    parts.iter().map(|part| part.to_string()).collect()
}

fn begun(args: &[&str]) -> Dispatch {
    Dispatch::Invoke {
        runner: Runner { phase: Phase::Streaming, marker: "INFO:".to_string() },
        order: Action::Spawn { args: names(args) },
    }
}

#[test]
fn new_leads_to_the_scaffolder() {
    let command = Command::New { path: "demo".to_string() };
    assert_eq!(
        dispatch(&command, &Config::default(), &Labels::plain()),
        Dispatch::Scaffold { name: "demo".to_string() }
    );
}

#[test]
fn build_begins_a_call_in_build_mode() {
    let config = Config::default();
    assert_eq!(
        dispatch(&Command::Build { targets: vec![] }, &config, &Labels::plain()),
        begun(&["--output_base=target/build", "--symlink_prefix=target/", "build", "//src/..."])
    );
    assert_eq!(
        dispatch(&Command::Build { targets: names(&["//a", "//b"]) }, &config, &Labels::plain()),
        begun(&["--output_base=target/build", "--symlink_prefix=target/", "build", "//a", "//b"])
    );
}

#[test]
fn run_begins_a_call_in_run_mode() {
    let mut config = Config::default();
    config.package.name = "demo".to_string();
    assert_eq!(
        dispatch(&Command::Run { targets: vec![] }, &config, &Labels::plain()),
        begun(&["--output_base=target/build", "--symlink_prefix=target/", "run", "//src:demo"])
    );
    assert_eq!(
        dispatch(&Command::Run { targets: names(&["//x:y"]) }, &config, &Labels::plain()),
        begun(&["--output_base=target/build", "--symlink_prefix=target/", "run", "//x:y"])
    );
}
