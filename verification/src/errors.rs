//! The interpreter's error taxonomy. Every error is non-fatal to a session:
//! the enclosing loop reports the message and continues.

use vstd::prelude::*;

verus! {

/// An error surfaced by one dispatch. Each variant carries what a
/// human-readable report needs.
#[derive(Debug)]
pub enum ShellError {
    /// A required environment value (`HOME`) is missing.
    Environment,
    /// A `cd` target does not exist or is not a directory; carries the
    /// resolved target path.
    DirectoryNotFound(String),
    /// The OS rejected a working-directory change after validation passed;
    /// carries the underlying cause.
    DirectoryChange(String),
    /// An external command could not be launched; carries the command name
    /// and the underlying cause.
    Spawn(String, String),
    /// An external command exited with a failure status; carries its exit
    /// code, absent when the process was ended by a signal.
    NonZeroExit(Option<i32>),
    /// Waiting on a spawned child failed; carries the underlying cause.
    Wait(String),
    /// Reading the next input line failed; carries the underlying cause.
    InputRead(String),
}

/// The mathematical model of a [`ShellError`]: the same variants over
/// character sequences.
pub enum ErrorModel {
    Environment,
    DirectoryNotFound(Seq<char>),
    DirectoryChange(Seq<char>),
    Spawn(Seq<char>, Seq<char>),
    NonZeroExit(Option<i32>),
    Wait(Seq<char>),
    InputRead(Seq<char>),
}

impl ShellError {
    /// The model of this error.
    pub open spec fn model(&self) -> ErrorModel {
        match self {
            ShellError::Environment => ErrorModel::Environment,
            ShellError::DirectoryNotFound(p) => ErrorModel::DirectoryNotFound(p@),
            ShellError::DirectoryChange(c) => ErrorModel::DirectoryChange(c@),
            ShellError::Spawn(n, c) => ErrorModel::Spawn(n@, c@),
            ShellError::NonZeroExit(code) => ErrorModel::NonZeroExit(*code),
            ShellError::Wait(c) => ErrorModel::Wait(c@),
            ShellError::InputRead(c) => ErrorModel::InputRead(c@),
        }
    }
}

/// The digit character for a value below ten.
pub open spec fn digit_char(d: nat) -> char {
    if d == 0 {
        '0'
    } else if d == 1 {
        '1'
    } else if d == 2 {
        '2'
    } else if d == 3 {
        '3'
    } else if d == 4 {
        '4'
    } else if d == 5 {
        '5'
    } else if d == 6 {
        '6'
    } else if d == 7 {
        '7'
    } else if d == 8 {
        '8'
    } else {
        '9'
    }
}

/// The decimal representation of a natural number, most significant digit
/// first, with no leading zero except on zero itself.
pub open spec fn dec_rep(n: nat) -> Seq<char>
    decreases n,
{
    if n < 10 {
        seq![digit_char(n)]
    } else {
        dec_rep(n / 10) + seq![digit_char(n % 10)]
    }
}

/// The decimal representation of an integer: a minus sign before the
/// magnitude when negative.
pub open spec fn int_rep(v: int) -> Seq<char> {
    if v >= 0 {
        dec_rep(v as nat)
    } else {
        seq!['-'] + dec_rep((-v) as nat)
    }
}

/// The digit string for a value below ten.
fn digit_str(d: u64) -> (r: &'static str)
    requires
        d < 10,
    ensures
        r@ == seq![digit_char(d as nat)],
{
    proof {
        reveal_strlit("0");
        reveal_strlit("1");
        reveal_strlit("2");
        reveal_strlit("3");
        reveal_strlit("4");
        reveal_strlit("5");
        reveal_strlit("6");
        reveal_strlit("7");
        reveal_strlit("8");
        reveal_strlit("9");
    }
    if d == 0 {
        "0"
    } else if d == 1 {
        "1"
    } else if d == 2 {
        "2"
    } else if d == 3 {
        "3"
    } else if d == 4 {
        "4"
    } else if d == 5 {
        "5"
    } else if d == 6 {
        "6"
    } else if d == 7 {
        "7"
    } else if d == 8 {
        "8"
    } else {
        "9"
    }
}

/// Renders a natural number in decimal.
fn dec_string(n: u64) -> (r: String)
    ensures
        r@ == dec_rep(n as nat),
    decreases n,
{
    if n < 10 {
        digit_str(n).to_owned()
    } else {
        let r = dec_string(n / 10).concat(digit_str(n % 10));
        proof {
            assert(r@ =~= dec_rep(n as nat));
        }
        r
    }
}

/// Renders an integer in decimal, with a leading minus sign when negative.
pub fn int_string(v: i32) -> (r: String)
    ensures
        r@ == int_rep(v as int),
{
    if v >= 0 {
        dec_string(v as u64)
    } else {
        let mag = (-(v as i64)) as u64;
        proof {
            reveal_strlit("-");
        }
        let r = String::from_str("-").concat(dec_string(mag).as_str());
        proof {
            assert(r@ =~= int_rep(v as int));
        }
        r
    }
}

/// The message text for each error model.
pub open spec fn message_of(e: ErrorModel) -> Seq<char> {
    match e {
        ErrorModel::Environment => "cannot resolve the HOME environment value"@,
        ErrorModel::DirectoryNotFound(p) => "directory does not exist: "@ + p,
        ErrorModel::DirectoryChange(c) => "failed to change directory: "@ + c,
        ErrorModel::Spawn(n, c) => "failed to execute command: "@ + n + " ("@ + c + ")"@,
        ErrorModel::NonZeroExit(code) => match code {
            Some(v) => "command failed with exit code: "@ + int_rep(v as int),
            None => "command failed without an exit code"@,
        },
        ErrorModel::Wait(c) => "failed to wait for child process: "@ + c,
        ErrorModel::InputRead(c) => "failed to read input: "@ + c,
    }
}

impl ShellError {
    /// The human-readable message that the loop reports for this error.
    pub fn message(&self) -> (r: String)
        ensures
            r@ == message_of(self.model()),
    {
        match self {
            ShellError::Environment => String::from_str(
                "cannot resolve the HOME environment value",
            ),
            ShellError::DirectoryNotFound(p) => {
                let r = String::from_str("directory does not exist: ").concat(p.as_str());
                r
            },
            ShellError::DirectoryChange(c) => {
                let r = String::from_str("failed to change directory: ").concat(c.as_str());
                r
            },
            ShellError::Spawn(n, c) => {
                let r = String::from_str("failed to execute command: ")
                    .concat(n.as_str())
                    .concat(" (")
                    .concat(c.as_str())
                    .concat(")");
                proof {
                    assert(r@ =~= message_of(self.model()));
                }
                r
            },
            ShellError::NonZeroExit(code) => match code {
                Some(v) => {
                    let r = String::from_str("command failed with exit code: ").concat(
                        int_string(*v).as_str(),
                    );
                    r
                },
                None => String::from_str("command failed without an exit code"),
            },
            ShellError::Wait(c) => {
                let r = String::from_str("failed to wait for child process: ").concat(c.as_str());
                r
            },
            ShellError::InputRead(c) => {
                let r = String::from_str("failed to read input: ").concat(c.as_str());
                r
            },
        }
    }
}

} // verus!
