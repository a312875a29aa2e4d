use mockcmd::mock;
use mockcmd::was_command_executed;
use mockcmd::CommandMockBuilder;
use mockcmd::Command;
use mockcmd::ExecutedCommand;
use mockcmd::MockDefinition;

fn strings(parts: &[&str]) -> Vec<String> {
    parts.iter().map(|p| p.to_string()).collect()
}

#[test]
fn fake_tests_using_test_code_unmocked() {
    let mocks: Vec<MockDefinition> = Vec::new();
    let mut log: Vec<ExecutedCommand> = Vec::new();

    let mut cmd = Command::new("echo");
    cmd.arg("hello");
    cmd.current_dir("$HOME");
    let output = cmd.output(&mocks, &mut log);

    assert!(output.status.success());
    assert!(output.stdout.is_empty());
    assert!(output.stderr.is_empty());

    assert!(was_command_executed(
        &log,
        &strings(&["echo", "hello"]),
        &Some("$HOME".to_string())
    ));
    assert!(!was_command_executed(
        &log,
        &strings(&["echo", "hello", "world"]),
        &None
    ));
}

#[test]
fn fake_tests_using_test_code_mocked() {
    let mut mocks: Vec<MockDefinition> = Vec::new();
    let mut log: Vec<ExecutedCommand> = Vec::new();

    mock("echo")
        .with_arg("world")
        .with_status(1)
        .with_stdout(b"WORLD")
        .with_stderr(b"failed")
        .register(&mut mocks);

    let mut cmd = Command::new("echo");
    cmd.arg("world");
    let output = cmd.output(&mocks, &mut log);
    assert!(!output.status.success());
    assert_eq!(output.stdout, b"WORLD");
    assert_eq!(output.stderr, b"failed");

    assert!(was_command_executed(&log, &strings(&["echo", "world"]), &None));
}

#[test]
fn git_mocks() {
    let mut mocks: Vec<MockDefinition> = Vec::new();
    let mut log: Vec<ExecutedCommand> = Vec::new();

    mock("git")
        .with_arg("push")
        .with_stdout(b"Everything up-to-date")
        .register(&mut mocks);

    mock("git")
        .with_arg("add")
        .with_arg(".")
        .with_stdout(b"nothing added to commit but untracked files present")
        .register(&mut mocks);

    let mut add = Command::new("git");
    add.arg("add");
    add.arg(".");
    let add_output = add.output(&mocks, &mut log);
    assert_eq!(
        add_output.stdout,
        b"nothing added to commit but untracked files present",
    );

    let mut push = Command::new("git");
    push.arg("push");
    let push_output = push.output(&mocks, &mut log);
    assert_eq!(push_output.stdout, b"Everything up-to-date");

    assert!(was_command_executed(&log, &strings(&["git", "add", "."]), &None));
    assert!(was_command_executed(&log, &strings(&["git", "push"]), &None));
    assert!(!was_command_executed(&log, &strings(&["git"]), &None));
    assert!(!was_command_executed(
        &log,
        &strings(&["git", "push", "--force"]),
        &None
    ));
}

#[test]
fn file_etc_mock() {
    let mut mocks: Vec<MockDefinition> = Vec::new();
    let mut log: Vec<ExecutedCommand> = Vec::new();

    mock("file")
        .current_dir("/")
        .with_arg("etc")
        .with_stdout(b"etc: directory")
        .register(&mut mocks);

    let mut cmd = Command::new("file");
    cmd.current_dir("/");
    cmd.arg("etc");
    let output = cmd.output(&mocks, &mut log);

    assert_eq!(output.stdout, b"etc: directory");

    assert!(was_command_executed(
        &log,
        &strings(&["file", "etc"]),
        &Some("/".to_string())
    ));
}

#[test]
fn test_using_test_code_unmocked() {
    let mocks: Vec<MockDefinition> = Vec::new();
    let mut log: Vec<ExecutedCommand> = Vec::new();

    let mut cmd = Command::new("echo");
    cmd.arg("hello");
    let output = cmd.output(&mocks, &mut log);
    assert_eq!(output.status.success(), true);
    assert!(output.stdout.is_empty());
    assert!(output.stderr.is_empty());

    assert!(was_command_executed(&log, &strings(&["echo", "hello"]), &None));
    assert_eq!(
        was_command_executed(&log, &strings(&["echo", "world"]), &None),
        false
    );
}

#[test]
fn test_using_test_code_mocked() {
    let mut mocks: Vec<MockDefinition> = Vec::new();
    let mut log: Vec<ExecutedCommand> = Vec::new();

    CommandMockBuilder::new("echo")
        .with_arg("world")
        .with_status(1)
        .with_stdout(b"WORLD")
        .with_stderr(b"failed")
        .register(&mut mocks);

    let mut cmd = Command::new("echo");
    cmd.arg("world");
    let output = cmd.output(&mocks, &mut log);
    assert_eq!(output.status.success(), false);
    assert_eq!(output.stdout, b"WORLD");
    assert_eq!(output.stderr, b"failed");

    assert!(was_command_executed(&log, &strings(&["echo", "world"]), &None));
}
