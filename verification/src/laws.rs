//! The behavioural laws of the dispatcher, proved once over the model that
//! the executable functions' contracts speak of.

use vstd::prelude::*;

use crate::errors::ErrorModel;
use crate::interpreter::StepModel;
use crate::interpreter::is_builtin_name;
use crate::interpreter::resolved_target;
use crate::interpreter::step_model;
use crate::tokens::is_shell_ws;
use crate::tokens::skip_ws;
use crate::tokens::tokens_of;

verus! {

/// A line whose first token is a builtin name is handled by the dispatcher
/// itself: it never directs an external launch.
pub proof fn lemma_builtin_never_launches(
    cur: Seq<char>,
    input: Seq<char>,
    home: Option<Seq<char>>,
)
    requires
        tokens_of(input).len() > 0,
        is_builtin_name(tokens_of(input)[0]),
    ensures
        !(step_model(cur, input, home) is Launch),
{
}

/// `exit` ends the session whatever arguments follow it.
pub proof fn lemma_exit_always_terminates(
    cur: Seq<char>,
    input: Seq<char>,
    home: Option<Seq<char>>,
)
    requires
        tokens_of(input).len() > 0,
        tokens_of(input)[0] == "exit"@,
    ensures
        step_model(cur, input, home) is Terminate,
{
}

/// `pwd` prints exactly the session's current directory, unmodified.
pub proof fn lemma_pwd_prints_current_dir(
    cur: Seq<char>,
    input: Seq<char>,
    home: Option<Seq<char>>,
)
    requires
        tokens_of(input).len() > 0,
        tokens_of(input)[0] == "pwd"@,
    ensures
        step_model(cur, input, home) == StepModel::Output(cur),
{
    reveal_strlit("pwd");
    reveal_strlit("exit");
    reveal_strlit("help");
    reveal_strlit("cd");
}

/// A whitespace-only line has no tokens at all.
pub proof fn lemma_blank_line_has_no_tokens(s: Seq<char>)
    requires
        forall|i: int| 0 <= i < s.len() ==> is_shell_ws(s[i]),
    ensures
        tokens_of(s).len() == 0,
    decreases s.len(),
{
    if s.len() > 0 {
        assert(forall|i: int| 0 <= i < s.drop_first().len() ==> is_shell_ws(s.drop_first()[i]));
        lemma_blank_line_has_no_tokens(s.drop_first());
        assert(skip_ws(s) == skip_ws(s.drop_first()));
    }
}

/// An empty or whitespace-only line dispatches nothing: no output, no state
/// change, no error.
pub proof fn lemma_blank_line_no_dispatch(cur: Seq<char>, input: Seq<char>, home: Option<Seq<char>>)
    requires
        forall|i: int| 0 <= i < input.len() ==> is_shell_ws(input[i]),
    ensures
        step_model(cur, input, home) is Empty,
{
    lemma_blank_line_has_no_tokens(input);
}

/// A relative `cd` target is the old directory, a separator and the
/// argument, concatenated verbatim with no normalization; a `pwd`
/// dispatched in the session that results prints exactly that path.
pub proof fn lemma_cd_relative_then_pwd(
    d: Seq<char>,
    rel: Seq<char>,
    pwd_line: Seq<char>,
    home: Option<Seq<char>>,
)
    requires
        rel.len() > 0,
        rel[0] != '/',
        tokens_of(pwd_line).len() > 0,
        tokens_of(pwd_line)[0] == "pwd"@,
    ensures
        resolved_target(d, rel) == d + "/"@ + rel,
        step_model(resolved_target(d, rel), pwd_line, home) == StepModel::Output(d + "/"@ + rel),
{
    lemma_pwd_prints_current_dir(resolved_target(d, rel), pwd_line, home);
}

/// A `cd` with no argument resolves its target from the `HOME` value, and
/// fails with the environment error exactly when that value is missing.
pub proof fn lemma_cd_without_argument_uses_home(
    cur: Seq<char>,
    input: Seq<char>,
    home: Option<Seq<char>>,
)
    requires
        tokens_of(input) =~= seq!["cd"@],
    ensures
        step_model(cur, input, home) == match home {
            Some(h) => StepModel::ChangeDir(resolved_target(cur, h)),
            None => StepModel::Failed(ErrorModel::Environment),
        },
{
    reveal_strlit("cd");
    reveal_strlit("exit");
    reveal_strlit("help");
}

} // verus!
