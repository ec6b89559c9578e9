//! The environment of the user's login shell, of which a program started
//! from the desktop gets too little.

use crate::text::{
    chars_find_from, chars_first_index_from, chars_lines, chars_of, find, first_index, lines_of,
    slice_chars, string_of, texts, trim, trim_chars, views,
};
use vstd::prelude::*;

verus! {

/// What the shell is made to print before and behind its environment.
pub const SHELL_ENV_DELIMITER: &'static str = "_SHELL_ENV_DELIMITER_";

/// The variables that the programs started by the tool need.
pub open spec fn runtime_vars() -> Seq<Seq<char>> {
    seq![
        "PATH"@,
        "HTTP_PROXY"@,
        "HTTPS_PROXY"@,
        "ALL_PROXY"@,
        "NO_PROXY"@,
        "http_proxy"@,
        "https_proxy"@,
        "all_proxy"@,
        "no_proxy"@,
    ]
}

pub fn runtime_shell_env_vars() -> (vars: Vec<String>)
    ensures
        texts(vars@) == runtime_vars(),
{
    let mut vars: Vec<String> = Vec::new();
    vars.push("PATH".to_owned());
    vars.push("HTTP_PROXY".to_owned());
    vars.push("HTTPS_PROXY".to_owned());
    vars.push("ALL_PROXY".to_owned());
    vars.push("NO_PROXY".to_owned());
    vars.push("http_proxy".to_owned());
    vars.push("https_proxy".to_owned());
    vars.push("all_proxy".to_owned());
    vars.push("no_proxy".to_owned());
    assert(texts(vars@) =~= runtime_vars());
    vars
}

/// The shell to ask where none is set.
pub fn default_shell(macos: bool) -> (shell: &'static str)
    ensures
        shell@ == if macos {
            "/bin/zsh"@
        } else {
            "/bin/sh"@
        },
{
    if macos {
        "/bin/zsh"
    } else {
        "/bin/sh"
    }
}

/// The command that makes a shell print its environment between two
/// delimiters.
pub open spec fn print_env_command() -> Seq<char> {
    "echo -n \""@ + SHELL_ENV_DELIMITER@ + "\"; env; echo -n \""@ + SHELL_ENV_DELIMITER@
        + "\"; exit"@
}

pub fn shell_env_command() -> (command: String)
    ensures
        command@ == print_env_command(),
{
    let mut command = "echo -n \"".to_owned();
    command.append(SHELL_ENV_DELIMITER);
    command.append("\"; env; echo -n \"");
    command.append(SHELL_ENV_DELIMITER);
    command.append("\"; exit");
    command
}

/// What stands in `output` between the first delimiter and the next, or
/// the end; none where there is no delimiter.
pub open spec fn env_block(output: Seq<char>) -> Option<Seq<char>> {
    let mark = SHELL_ENV_DELIMITER@;
    match find(output, mark) {
        None => None,
        Some(first) => {
            let rest = output.skip(first + mark.len());
            match find(rest, mark) {
                Some(second) => Some(rest.take(second)),
                None => Some(rest),
            }
        },
    }
}

/// The variable that a line of the environment sets: the name before the
/// first `=` and the value behind it. None for a blank line, a line
/// without `=`, and a name that is not asked for; all names are asked for
/// where `vars` is empty.
pub open spec fn assignment_of(line: Seq<char>, vars: Seq<Seq<char>>) -> Option<
    (Seq<char>, Seq<char>),
> {
    if trim(line).len() == 0 {
        None
    } else {
        match first_index(line, '=') {
            None => None,
            Some(at) => if vars.len() == 0 || vars.contains(line.take(at)) {
                Some((line.take(at), line.skip(at + 1)))
            } else {
                None
            },
        }
    }
}

/// The assignments of `lines`, in order.
pub open spec fn assignments_of(lines: Seq<Seq<char>>, vars: Seq<Seq<char>>) -> Seq<
    (Seq<char>, Seq<char>),
>
    decreases lines.len(),
{
    if lines.len() == 0 {
        Seq::empty()
    } else {
        match assignment_of(lines.last(), vars) {
            Some(pair) => assignments_of(lines.drop_last(), vars).push(pair),
            None => assignments_of(lines.drop_last(), vars),
        }
    }
}

/// The variables to set, given what the shell printed: the assignments of
/// the lines of the environment block. None where the output has no block.
pub open spec fn shell_assignments(output: Seq<char>, vars: Seq<Seq<char>>) -> Option<
    Seq<(Seq<char>, Seq<char>)>,
> {
    match env_block(output) {
        Some(block) => Some(assignments_of(lines_of(block), vars)),
        None => None,
    }
}

/// The views of a list of pairs of strings.
pub open spec fn pairs(list: Seq<(String, String)>) -> Seq<(Seq<char>, Seq<char>)> {
    Seq::new(list.len(), |i: int| (list[i].0@, list[i].1@))
}

fn block_of(output: &Vec<char>) -> (r: Option<Vec<char>>)
    ensures
        match r {
            Some(block) => env_block(output@) == Some(block@),
            None => env_block(output@) is None,
        },
{
    let mark = chars_of(SHELL_ENV_DELIMITER);
    let first = match chars_find_from(output, &mark, 0) {
        Some(at) => at,
        None => {
            return None;
        },
    };
    let total = output.len();
    let rest = slice_chars(output, first + mark.len(), total);
    match chars_find_from(&rest, &mark, 0) {
        Some(second) => {
            Some(slice_chars(&rest, 0, second))
        },
        None => Some(rest),
    }
}

fn asked_for(vars: &Vec<String>, name: &String) -> (r: bool)
    ensures
        r == (vars@.len() == 0 || texts(vars@).contains(name@)),
{
    if vars.len() == 0 {
        return true;
    }
    let mut i: usize = 0;
    while i < vars.len()
        invariant
            i <= vars.len(),
            vars@.len() > 0,
            forall|j: int| 0 <= j < i ==> texts(vars@)[j] != name@,
        decreases vars.len() - i,
    {
        if vars[i] == *name {
            assert(texts(vars@)[i as int] == name@);
            return true;
        }
        i = i + 1;
    }
    false
}

/// Reads what the login shell printed and returns the variables to set:
/// those of `vars`, or all where `vars` is empty. None where the output
/// does not hold the environment between delimiters.
pub fn parse_shell_env(output: &str, vars: &Vec<String>) -> (r: Option<Vec<(String, String)>>)
    ensures
        match r {
            Some(list) => shell_assignments(output@, texts(vars@)) == Some(pairs(list@)),
            None => shell_assignments(output@, texts(vars@)) is None,
        },
{
    let chars = chars_of(output);
    let block = match block_of(&chars) {
        Some(block) => block,
        None => {
            return None;
        },
    };
    let all_lines = chars_lines(&block);
    let ghost all = views(all_lines@);
    let mut list: Vec<(String, String)> = Vec::new();
    let mut i: usize = 0;
    assert(all.take(0) =~= Seq::<Seq<char>>::empty());
    assert(pairs(list@) =~= Seq::<(Seq<char>, Seq<char>)>::empty());
    while i < all_lines.len()
        invariant
            i <= all_lines.len(),
            all == views(all_lines@),
            pairs(list@) == assignments_of(all.take(i as int), texts(vars@)),
        decreases all_lines.len() - i,
    {
        let line = &all_lines[i];
        assert(all[i as int] == line@);
        assert(all.take(i as int + 1).drop_last() =~= all.take(i as int));
        if trim_chars(line).len() > 0 {
            if let Some(at) = chars_first_index_from(line, '=', 0) {
                let name = string_of(&slice_chars(line, 0, at));
                if asked_for(vars, &name) {
                    let value = string_of(&slice_chars(line, at + 1, line.len()));
                    let ghost before = pairs(list@);
                    list.push((name, value));
                    assert(pairs(list@) =~= before.push((line@.take(at as int), line@.skip(at as int + 1))));
                }
            }
        }
        i = i + 1;
    }
    assert(all.take(i as int) =~= all);
    Some(list)
}


/// What is to be done about the environment.
#[derive(Debug)]
pub enum ShellEnvAction {
    /// Nothing: the environment is taken as it is.
    Nothing,
    /// Run the login shell with `command`, hand what it prints to
    /// `parse_shell_env` together with `vars`, and set what comes back.
    AskShell { command: String, vars: Vec<String> },
}

/// Decides what is to be done so that the variables `vars` are as in the
/// user's login shell: elsewhere than on macOS nothing, there the shell is
/// asked.
pub fn apply_user_shell_env_vars(macos: bool, vars: Vec<String>) -> (action: ShellEnvAction)
    ensures
        match action {
            ShellEnvAction::Nothing => !macos,
            ShellEnvAction::AskShell { command, vars: asked } => macos && command@
                == print_env_command() && asked@ == vars@,
        },
{
    if !macos {
        return ShellEnvAction::Nothing;
    }
    ShellEnvAction::AskShell { command: shell_env_command(), vars }
}

/// Decides what is to be done for the variables that the programs started
/// by the tool need.
pub fn apply_runtime_shell_env_defaults(macos: bool) -> (action: ShellEnvAction)
    ensures
        match action {
            ShellEnvAction::Nothing => !macos,
            ShellEnvAction::AskShell { command, vars } => macos && command@ == print_env_command()
                && texts(vars@) == runtime_vars(),
        },
{
    apply_user_shell_env_vars(macos, runtime_shell_env_vars())
}

/// The same decision, as the desktop shell of the tool asks for it at its
/// start.
pub fn fix_path_env(macos: bool) -> (action: ShellEnvAction)
    ensures
        match action {
            ShellEnvAction::Nothing => !macos,
            ShellEnvAction::AskShell { command, vars } => macos && command@ == print_env_command()
                && texts(vars@) == runtime_vars(),
        },
{
    apply_runtime_shell_env_defaults(macos)
}

} // verus!
