//! The command interpreter: session state, builtin dispatch, the `cd`
//! state machine, and the classification of external-command outcomes.
//!
//! The interpreter decides; the enclosing program acts. `process_command`
//! turns one input line into a [`Step`] telling the caller what to do:
//! print a text, change the directory (after the caller has probed the
//! filesystem), launch an external command, stop, or nothing. The caller
//! then reports outside facts back through [`CliInterpreter::change_directory`]
//! and [`CliInterpreter::execute_external_command`].

use vstd::prelude::*;

use crate::errors::ErrorModel;
use crate::errors::ShellError;
use crate::tokens::join_spaced;
use crate::tokens::join_with_spaces;
use crate::tokens::str_equal;
use crate::tokens::token_views;
use crate::tokens::tokenize;
use crate::tokens::tokens_of;

verus! {

/// The interpreter's session state: the current working directory.
///
/// The directory is mutated only by a validated `cd`; every other command
/// leaves it untouched.
pub struct CliInterpreter {
    pub current_dir: String,
}

/// What one dispatched input line asks the enclosing program to do.
pub enum Step {
    /// The line was empty or whitespace-only: nothing was dispatched.
    Empty,
    /// The session is over.
    Terminate,
    /// Print this text on standard output.
    Output(String),
    /// A `cd` resolved to this target path: probe whether it is an existing
    /// directory, apply the OS working-directory change if so, and report
    /// both facts to [`CliInterpreter::change_directory`].
    ChangeDir(String),
    /// Launch this external command with these arguments in the current
    /// directory, wait for it, and hand the outcome to
    /// [`CliInterpreter::execute_external_command`].
    Launch(String, Vec<String>),
    /// The dispatch itself failed; report the error and continue.
    Failed(ShellError),
}

/// The mathematical model of a [`Step`], over character sequences.
pub enum StepModel {
    Empty,
    Terminate,
    Output(Seq<char>),
    ChangeDir(Seq<char>),
    Launch(Seq<char>, Seq<Seq<char>>),
    Failed(ErrorModel),
}

/// Whether a step is the given model.
pub open spec fn step_matches(s: &Step, m: StepModel) -> bool {
    match s {
        Step::Empty => m is Empty,
        Step::Terminate => m is Terminate,
        Step::Output(t) => m matches StepModel::Output(v) && t@ == v,
        Step::ChangeDir(t) => m matches StepModel::ChangeDir(v) && t@ == v,
        Step::Launch(n, a) => m matches StepModel::Launch(nn, aa) && n@ == nn && a.deep_view()
            == aa,
        Step::Failed(e) => m matches StepModel::Failed(em) && e.model() == em,
    }
}

/// The names the builtin dispatcher handles itself.
pub open spec fn is_builtin_name(t: Seq<char>) -> bool {
    t == "help"@ || t == "exit"@ || t == "cd"@ || t == "pwd"@ || t == "echo"@
}

/// The `cd` target for an argument: taken verbatim when it starts with the
/// path separator, otherwise the current directory, a separator and the
/// argument, concatenated with no normalization.
pub open spec fn resolved_target(cur: Seq<char>, path: Seq<char>) -> Seq<char> {
    if path.len() > 0 && path[0] == '/' {
        path
    } else {
        cur + "/"@ + path
    }
}

/// The fixed help text.
pub open spec fn help_message() -> Seq<char> {
    "builtin commands:\n  help    - show this help text\n  exit    - leave the interpreter\n  cd      - change the working directory\n  pwd     - print the working directory\n  echo    - print its arguments\n\nexternal commands:\n  any other name runs as a child process"@
}

/// The view of an optional string slice.
pub open spec fn home_view(h: Option<&str>) -> Option<Seq<char>> {
    match h {
        Some(s) => Some(s@),
        None => None,
    }
}

/// The dispatch model: what one input line, read in the given working
/// directory and with the given `HOME` value, asks for.
pub open spec fn step_model(cur: Seq<char>, input: Seq<char>, home: Option<Seq<char>>) -> StepModel {
    let ts = tokens_of(input);
    if ts.len() == 0 {
        StepModel::Empty
    } else if ts[0] == "exit"@ {
        StepModel::Terminate
    } else if ts[0] == "help"@ {
        StepModel::Output(help_message())
    } else if ts[0] == "cd"@ {
        if ts.len() >= 2 {
            StepModel::ChangeDir(resolved_target(cur, ts[1]))
        } else {
            match home {
                Some(h) => StepModel::ChangeDir(resolved_target(cur, h)),
                None => StepModel::Failed(ErrorModel::Environment),
            }
        }
    } else if ts[0] == "pwd"@ {
        StepModel::Output(cur)
    } else if ts[0] == "echo"@ {
        StepModel::Output(join_spaced(ts.drop_first()))
    } else {
        StepModel::Launch(ts[0], ts.drop_first())
    }
}

/// The outcome of one external-command attempt, as the enclosing program
/// observed it.
pub enum SpawnOutcome {
    /// The child could not be launched; carries the underlying cause.
    SpawnFailed(String),
    /// Waiting on the launched child failed; carries the underlying cause.
    WaitFailed(String),
    /// The child terminated; `success` is whether its status was a success,
    /// `code` its exit code, absent when it was ended by a signal.
    Exited { success: bool, code: Option<i32> },
}

impl CliInterpreter {
    /// A session in the platform root, the fallback when no working
    /// directory can be learned from the OS.
    pub fn new() -> (r: Self)
        ensures
            r.current_dir@ == "/"@,
    {
        CliInterpreter { current_dir: String::from_str("/") }
    }

    /// A session in the given working directory.
    pub fn with_current_dir(dir: String) -> (r: Self)
        ensures
            r.current_dir == dir,
    {
        CliInterpreter { current_dir: dir }
    }

    /// The prompt shown before each input line.
    pub fn prompt(&self) -> (r: String)
        ensures
            r@ == "rust-cli:"@ + self.current_dir@ + "$ "@,
    {
        let r = String::from_str("rust-cli:").concat(self.current_dir.as_str()).concat("$ ");
        proof {
            assert(r@ =~= "rust-cli:"@ + self.current_dir@ + "$ "@);
        }
        r
    }

    /// The fixed help text, printed by the `help` builtin.
    pub fn show_help(&self) -> (r: String)
        ensures
            r@ == help_message(),
    {
        String::from_str(
            "builtin commands:\n  help    - show this help text\n  exit    - leave the interpreter\n  cd      - change the working directory\n  pwd     - print the working directory\n  echo    - print its arguments\n\nexternal commands:\n  any other name runs as a child process",
        )
    }

    /// The `echo` builtin's output: the arguments joined by single spaces,
    /// the empty line when there are none.
    pub fn echo_command(&self, args: &[&str]) -> (r: String)
        ensures
            r@ == join_spaced(token_views(args@)),
    {
        join_with_spaces(args)
    }

    /// Resolves a `cd` argument against the current directory.
    pub fn resolve_target(&self, path: &str) -> (r: String)
        ensures
            r@ == resolved_target(self.current_dir@, path@),
    {
        if path.unicode_len() > 0 && path.get_char(0) == '/' {
            path.to_owned()
        } else {
            let r = self.current_dir.clone().concat("/").concat(path);
            proof {
                assert(r@ =~= resolved_target(self.current_dir@, path@));
            }
            r
        }
    }

    /// Dispatches one input line. Never touches the session state: a
    /// directory change happens only in [`CliInterpreter::change_directory`],
    /// after the caller has probed the resolved target.
    pub fn process_command(&self, input: &str, home: Option<&str>) -> (r: Step)
        ensures
            step_matches(&r, step_model(self.current_dir@, input@, home_view(home))),
    {
        let ts = tokenize(input);
        if ts.len() == 0 {
            return Step::Empty;
        }
        let name: &str = ts[0];
        if str_equal(name, "exit") {
            Step::Terminate
        } else if str_equal(name, "help") {
            Step::Output(self.show_help())
        } else if str_equal(name, "cd") {
            if ts.len() >= 2 {
                Step::ChangeDir(self.resolve_target(ts[1]))
            } else {
                match home {
                    Some(h) => Step::ChangeDir(self.resolve_target(h)),
                    None => Step::Failed(ShellError::Environment),
                }
            }
        } else if str_equal(name, "pwd") {
            Step::Output(self.current_dir.clone())
        } else if str_equal(name, "echo") {
            let rest = vstd::slice::slice_subrange(ts.as_slice(), 1, ts.len());
            let out = join_with_spaces(rest);
            proof {
                assert(token_views(rest@) =~= tokens_of(input@).drop_first());
            }
            Step::Output(out)
        } else {
            let mut args: Vec<String> = Vec::new();
            let mut i: usize = 1;
            while i < ts.len()
                invariant
                    1 <= i <= ts@.len(),
                    token_views(ts@) == tokens_of(input@),
                    args.deep_view() == tokens_of(input@).subrange(1, i as int),
                decreases ts@.len() - i,
            {
                let ghost before = args.deep_view();
                args.push(ts[i].to_owned());
                proof {
                    assert(args.deep_view() =~= before.push(ts@[i as int]@));
                    assert(before.push(ts@[i as int]@) =~= tokens_of(input@).subrange(
                        1,
                        i as int + 1,
                    ));
                }
                i += 1;
            }
            proof {
                assert(tokens_of(input@).subrange(1, ts@.len() as int) =~= tokens_of(
                    input@,
                ).drop_first());
            }
            Step::Launch(name.to_owned(), args)
        }
    }

    /// Applies the `cd` state machine once the caller has probed the
    /// resolved target: `is_existing_dir` is whether the target exists and
    /// is a directory; `chdir_failure` is the cause of a failed OS
    /// working-directory change, applied only after validation passed.
    ///
    /// A missing target leaves the session untouched. A validated target
    /// becomes the current directory even when the OS-level change then
    /// fails, which is surfaced as its own error.
    pub fn change_directory(&mut self, target: String, is_existing_dir: bool, chdir_failure: Option<
        String,
    >) -> (r: Result<(), ShellError>)
        ensures
            !is_existing_dir ==> {
                &&& *final(self) == *old(self)
                &&& (r matches Err(e) && e.model() == ErrorModel::DirectoryNotFound(target@))
            },
            is_existing_dir ==> {
                &&& final(self).current_dir == target
                &&& match chdir_failure {
                    None => r is Ok,
                    Some(c) => r matches Err(e) && e.model() == ErrorModel::DirectoryChange(c@),
                }
            },
    {
        if !is_existing_dir {
            return Err(ShellError::DirectoryNotFound(target));
        }
        self.current_dir = target;
        match chdir_failure {
            None => Ok(()),
            Some(c) => Err(ShellError::DirectoryChange(c)),
        }
    }

    /// Classifies the outcome of one external-command attempt: a launch
    /// failure, a wait failure, a failure status, or success. The session
    /// state plays no part and is never changed.
    pub fn execute_external_command(&self, command: &str, outcome: SpawnOutcome) -> (r: Result<
        (),
        ShellError,
    >)
        ensures
            match outcome {
                SpawnOutcome::SpawnFailed(c) => r matches Err(e) && e.model() == ErrorModel::Spawn(
                    command@,
                    c@,
                ),
                SpawnOutcome::WaitFailed(c) => r matches Err(e) && e.model() == ErrorModel::Wait(
                    c@,
                ),
                SpawnOutcome::Exited { success, code } => if success {
                    r is Ok
                } else {
                    r matches Err(e) && e.model() == ErrorModel::NonZeroExit(code)
                },
            },
    {
        match outcome {
            SpawnOutcome::SpawnFailed(c) => Err(ShellError::Spawn(command.to_owned(), c)),
            SpawnOutcome::WaitFailed(c) => Err(ShellError::Wait(c)),
            SpawnOutcome::Exited { success, code } => {
                if success {
                    Ok(())
                } else {
                    Err(ShellError::NonZeroExit(code))
                }
            },
        }
    }
}

} // verus!
