use command_reader::error::ReaderError;
use command_reader::spawn::ShellInvocation;
use command_reader::teardown::{group_signal_target, strategy_for_platform, TeardownStrategy};

#[test]
fn shell_invocation_wraps_command() {
    let inv = ShellInvocation::new("printf 'a\nb\nc\n'".to_string());
    assert_eq!(inv.program, "sh");
    assert_eq!(inv.args.len(), 2);
    assert_eq!(inv.args[0], "-c");
    assert_eq!(inv.args[1], "printf 'a\nb\nc\n'");
}

#[test]
fn shell_invocation_passes_metacharacters_through() {
    let inv = ShellInvocation::new("sh -c 'sleep 5 & echo done'".to_string());
    assert_eq!(inv.args[1], "sh -c 'sleep 5 & echo done'");
}

#[test]
fn group_signal_target_is_negative_pid() {
    assert_eq!(group_signal_target(12345), b"-12345".to_vec());
    assert_eq!(group_signal_target(0), b"-0".to_vec());
    assert_eq!(group_signal_target(7), b"-7".to_vec());
    assert_eq!(group_signal_target(4294967295), b"-4294967295".to_vec());
}

#[test]
fn strategy_follows_platform_capability() {
    assert_eq!(strategy_for_platform(true), TeardownStrategy::GroupSignal);
    assert_eq!(strategy_for_platform(false), TeardownStrategy::ChildKillOnly);
}

#[test]
fn error_descriptions_name_the_failure() {
    assert_eq!(ReaderError::SpawnFailure.describe(), "could not spawn process");
    assert_eq!(
        ReaderError::StreamCaptureFailure.describe(),
        "could not capture stdout of spawned process"
    );
    assert_eq!(
        ReaderError::ReadFailure.describe(),
        "could not read from output stream"
    );
    assert_ne!(ReaderError::SpawnFailure, ReaderError::ReadFailure);
}
