//! The shell command that runs before a commit, and what its end means.

use crate::error::{alarm, SheepError};
use crate::text::appended;
use crate::version::update::{VersionUpdate, VersionUpdateView};
use crate::version::version_text;
use vstd::prelude::*;
use vstd::string::*;

verus! {

/// A command to start, as views.
pub struct ScriptCommandView {
    pub program: Seq<char>,
    pub arguments: Seq<Seq<char>>,
    pub working_dir: Seq<char>,
    pub environment: Seq<(Seq<char>, Seq<char>)>,
}

/// A command to start: the program, its arguments, the directory in which
/// it runs, and the variables that are added to its environment.
#[derive(Debug, PartialEq)]
pub struct ScriptCommand {
    pub program: String,
    pub arguments: Vec<String>,
    pub working_dir: String,
    pub environment: Vec<(String, String)>,
}

impl View for ScriptCommand {
    type V = ScriptCommandView;

    open spec fn view(&self) -> ScriptCommandView {
        ScriptCommandView {
            program: self.program@,
            arguments: self.arguments@.map_values(|a: String| a@),
            working_dir: self.working_dir@,
            environment: self.environment@.map_values(|e: (String, String)| (e.0@, e.1@)),
        }
    }
}

/// How `script` is run for a version update: by `sh -c`, in `working_dir`,
/// with the current and the next version in its environment.
pub open spec fn script_command(
    script: Seq<char>,
    working_dir: Seq<char>,
    update: VersionUpdateView,
) -> ScriptCommandView {
    ScriptCommandView {
        program: "sh"@,
        arguments: seq!["-c"@, script],
        working_dir,
        environment: seq![
            ("SHEEPIT_CURRENT_VERSION"@, version_text(update.current)),
            ("SHEEPIT_NEXT_VERSION"@, version_text(update.next)),
        ],
    }
}

/// Runs a project's scripts: it says how each is to be started, and what
/// follows from the way it ended.
pub struct ScriptRunner {
    working_dir: String,
    version_update: VersionUpdate,
}

impl ScriptRunner {
    pub closed spec fn working_dir(&self) -> Seq<char> {
        self.working_dir@
    }

    pub closed spec fn version_update(&self) -> VersionUpdateView {
        self.version_update@
    }

    pub fn new(working_dir: String, version_update: VersionUpdate) -> (r: Self)
        ensures
            r.working_dir() == working_dir@,
            r.version_update() == version_update@,
    {
        Self { working_dir, version_update }
    }

    /// The command that runs `script`; none where there is no script.
    pub fn command(&self, script: Option<String>) -> (r: Option<ScriptCommand>)
        ensures
            match script {
                Some(text) => r is Some && r->0@ == script_command(
                    text@,
                    self.working_dir(),
                    self.version_update(),
                ),
                None => r is None,
            },
    {
        match script {
            None => None,
            Some(text) => {
                let mut arguments: Vec<String> = Vec::new();
                arguments.push(String::from_str("-c"));
                arguments.push(text);
                let mut environment: Vec<(String, String)> = Vec::new();
                environment.push(
                    (
                        String::from_str("SHEEPIT_CURRENT_VERSION"),
                        self.version_update.current_version.to_string(),
                    ),
                );
                environment.push(
                    (
                        String::from_str("SHEEPIT_NEXT_VERSION"),
                        self.version_update.next_version.to_string(),
                    ),
                );
                let command = ScriptCommand {
                    program: String::from_str("sh"),
                    arguments,
                    working_dir: self.working_dir.clone(),
                    environment,
                };
                proof {
                    let expected = script_command(
                        text@,
                        self.working_dir(),
                        self.version_update(),
                    );
                    assert(command@.arguments =~= expected.arguments);
                    assert(command@.environment =~= expected.environment);
                }
                Some(command)
            },
        }
    }

    /// What the end of the script `script_name` means for the release: it
    /// goes on where the script succeeded, and fails where it did not.
    pub fn outcome(script_name: &str, succeeded: bool) -> (r: Result<(), SheepError>)
        ensures
            r is Ok <==> succeeded,
            r is Err ==> r->Err_0@ == alarm() + "Failed to run script "@ + script_name@,
    {
        if succeeded {
            Ok(())
        } else {
            let message = appended("Failed to run script ", script_name);
            let e = SheepError::new(message.as_str());
            Err(e)
        }
    }
}

} // verus!
