use sheepit::error::SheepError;
use sheepit::script::{ScriptCommand, ScriptRunner};
use sheepit::version::update::VersionUpdate;

#[test]
fn test_run_script() {
    let working_dir = String::from("/tmp");
    let version_update = VersionUpdate::new("1.0.0", "1.0.1");
    let script = Some("echo 'Hello, world!'".to_string());
    let script_name = "test_script";
    let runner = ScriptRunner::new(working_dir, version_update);
    let command = runner.command(script).expect("a script should give a command");
    let expected = ScriptCommand {
        program: String::from("sh"),
        arguments: vec![String::from("-c"), String::from("echo 'Hello, world!'")],
        working_dir: String::from("/tmp"),
        environment: vec![
            (String::from("SHEEPIT_CURRENT_VERSION"), String::from("1.0.0")),
            (String::from("SHEEPIT_NEXT_VERSION"), String::from("1.0.1")),
        ],
    };
    assert_eq!(expected, command);
    let result = ScriptRunner::outcome(script_name, true);
    assert!(result.is_ok());
}

#[test]
fn no_script_gives_no_command() {
    let runner = ScriptRunner::new(String::from("/tmp"), VersionUpdate::new("1.0.0", "1.0.1"));
    assert_eq!(None, runner.command(None));
}

#[test]
fn a_script_that_fails_fails_the_release() {
    assert_eq!(
        Err(SheepError::new("Failed to run script before_commit")),
        ScriptRunner::outcome("before_commit", false)
    );
    assert_eq!(Ok(()), ScriptRunner::outcome("before_commit", true));
}
