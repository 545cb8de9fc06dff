//! Tests of the hand-expanded `Command` builder: the incremental
//! construction protocol the emitted descriptors prescribe.

use record_builder::command::{Command, CommandBuilder};

fn s(text: &str) -> String {
    text.to_owned()
}

#[test]
fn round_trip_mandatory_only() {
    let mut b = Command::builder();
    b.executable(s("cargo"));
    let command = b.build().expect("mandatory field set, build must succeed");
    assert_eq!(command.executable, s("cargo"));
    assert!(command.args.is_empty());
    assert!(command.env.is_empty());
    assert_eq!(command.current_dir, None);
}

#[test]
fn build_without_mandatory_field_fails_with_located_message() {
    let mut b = Command::builder();
    let err = b.build().expect_err("unset mandatory field must fail");
    assert_eq!(err, s("executable not set"));
}

#[test]
fn optional_field_never_blocks_build() {
    let mut b = Command::builder();
    b.executable(s("ls"));
    b.current_dir(s("/tmp"));
    let command = b.build().expect("must succeed with optional set");
    assert_eq!(command.current_dir, Some(s("/tmp")));

    let mut b2 = Command::builder();
    b2.executable(s("ls"));
    let command2 = b2.build().expect("must succeed with optional unset");
    assert_eq!(command2.current_dir, None);
}

#[test]
fn accumulator_called_k_times_yields_k_elements_in_order() {
    let mut b = Command::builder();
    b.executable(s("grep"));
    b.arg(s("-r"));
    b.arg(s("needle"));
    b.arg(s("."));
    let command = b.build().expect("must succeed");
    assert_eq!(command.args, vec![s("-r"), s("needle"), s(".")]);
    assert_eq!(command.args.len(), 3);
}

#[test]
fn env_accumulator_appends_in_order() {
    let mut b = Command::builder();
    b.executable(s("make"));
    b.env(s("CC=clang"));
    b.env(s("JOBS=4"));
    let command = b.build().expect("must succeed");
    assert_eq!(command.env, vec![s("CC=clang"), s("JOBS=4")]);
}

#[test]
fn bulk_setter_overwrites_whole_container() {
    let mut b = Command::builder();
    b.executable(s("echo"));
    b.arg(s("old"));
    b.args(vec![s("a"), s("b")]);
    let command = b.build().expect("must succeed");
    assert_eq!(command.args, vec![s("a"), s("b")]);
}

#[test]
fn single_value_setter_overwrites() {
    let mut b = Command::builder();
    b.executable(s("first"));
    b.executable(s("second"));
    let command = b.build().expect("must succeed");
    assert_eq!(command.executable, s("second"));
}

#[test]
fn build_resets_builder_for_reuse() {
    let mut b = Command::builder();
    b.executable(s("once"));
    b.arg(s("x"));
    b.build().expect("first build succeeds");
    let err = b.build().expect_err("builder was reset, mandatory slot absent");
    assert_eq!(err, s("executable not set"));

    b.executable(s("twice"));
    let command = b.build().expect("builder is reusable");
    assert_eq!(command.executable, s("twice"));
    assert!(command.args.is_empty());
}

#[test]
fn failed_build_keeps_other_slots() {
    let mut b = Command::builder();
    b.arg(s("kept"));
    b.build().expect_err("mandatory slot absent");
    b.executable(s("later"));
    let command = b.build().expect("must succeed after setting mandatory slot");
    assert_eq!(command.args, vec![s("kept")]);
}

#[test]
fn constructor_is_idempotent() {
    let b1: CommandBuilder = Command::builder();
    let b2: CommandBuilder = Command::builder();
    assert_eq!(b1, b2);
}
