//! Where the Codex executable is looked for.

use crate::task_input::LocalPath;
use crate::text::{
    chars_eq_str, chars_find_from, chars_of, chars_split_whitespace, chars_to_ascii_lowercase,
    chars_trim_of, class_of, find, opt_view, split_whitespace, string_of, texts,
    to_ascii_lowercase, trim_of, views, CharSet,
};
use vstd::prelude::*;

verus! {

/// A place where the executable may be: a path, or a path below the home
/// directory.
pub struct Candidate {
    pub home: Option<Seq<char>>,
    pub rest: Seq<char>,
}

pub open spec fn candidate_of(path: LocalPath) -> Candidate {
    Candidate {
        home: match path.home {
            Some(home) => Some(home@),
            None => None,
        },
        rest: path.rest@,
    }
}

pub open spec fn plain(path: Seq<char>) -> Candidate {
    Candidate { home: None, rest: path }
}

/// The places that are tried, one after the other.
pub struct DefaultCodexCandidates {
    pub idx: u8,
    pub cargo_home: Option<String>,
}

impl DefaultCodexCandidates {
    /// The candidate below the home directory, where it is still to come.
    pub open spec fn cargo_candidate(self) -> Seq<Candidate> {
        match self.cargo_home {
            Some(home) => seq![Candidate { home: Some(home@), rest: ".cargo/bin/codex"@ }],
            None => Seq::empty(),
        }
    }

    /// The candidates that are still to come, in order: the two places
    /// where Homebrew installs, the place where Cargo installs if the home
    /// directory is known, and the bare name, to be found on the path.
    pub open spec fn remaining(self) -> Seq<Candidate> {
        if self.idx == 0 {
            seq![plain("/opt/homebrew/bin/codex"@), plain("/usr/local/bin/codex"@)]
                + self.cargo_candidate() + seq![plain("codex"@)]
        } else if self.idx == 1 {
            seq![plain("/usr/local/bin/codex"@)] + self.cargo_candidate() + seq![plain("codex"@)]
        } else if self.idx == 2 {
            self.cargo_candidate() + seq![plain("codex"@)]
        } else if self.idx == 3 {
            seq![plain("codex"@)]
        } else {
            Seq::empty()
        }
    }

    /// All candidates, given the home directory if it is known.
    pub fn new(home: Option<&str>) -> (out: Self)
        ensures
            out.idx == 0,
            match out.cargo_home {
                Some(dir) => opt_view(home) == Some(dir@),
                None => home is None,
            },
    {
        DefaultCodexCandidates {
            idx: 0,
            cargo_home: match home {
                Some(home) => Some(home.to_owned()),
                None => None,
            },
        }
    }

    /// The bare name alone, which depends on no machine.
    pub fn test_only() -> (out: Self)
        ensures
            out.idx == 3,
            out.cargo_home is None,
            out.remaining() == seq![plain("codex"@)],
    {
        DefaultCodexCandidates { idx: 3, cargo_home: None }
    }

    /// The next candidate, if one is left.
    pub fn next(&mut self) -> (r: Option<LocalPath>)
        ensures
            match r {
                Some(path) => old(self).remaining() == seq![candidate_of(path)]
                    + final(self).remaining(),
                None => old(self).remaining().len() == 0 && final(self).remaining().len() == 0,
            },
    {
        let idx = self.idx;
        self.idx = if idx < 255 {
            idx + 1
        } else {
            255
        };
        if idx == 0 {
            let path = LocalPath { home: None, rest: "/opt/homebrew/bin/codex".to_owned() };
            assert(old(self).remaining() =~= seq![candidate_of(path)] + self.remaining());
            return Some(path);
        }
        if idx == 1 {
            let path = LocalPath { home: None, rest: "/usr/local/bin/codex".to_owned() };
            assert(old(self).remaining() =~= seq![candidate_of(path)] + self.remaining());
            return Some(path);
        }
        if idx == 2 {
            if let Some(home) = self.cargo_home.take() {
                let path = LocalPath { home: Some(home), rest: ".cargo/bin/codex".to_owned() };
                assert(old(self).remaining() =~= seq![candidate_of(path)] + self.remaining());
                return Some(path);
            }
            self.idx = 4;
            let path = LocalPath { home: None, rest: "codex".to_owned() };
            assert(old(self).remaining() =~= seq![candidate_of(path)] + self.remaining());
            return Some(path);
        }
        if idx == 3 {
            let path = LocalPath { home: None, rest: "codex".to_owned() };
            assert(old(self).remaining() =~= seq![candidate_of(path)] + self.remaining());
            return Some(path);
        }
        None
    }

    /// All candidates that are left, in order.
    pub fn collect(self) -> (all: Vec<LocalPath>)
        ensures
            all@.len() == self.remaining().len(),
            forall|i: int|
                0 <= i < all@.len() ==> candidate_of(#[trigger] all@[i]) == self.remaining()[i],
    {
        let mut rest = self;
        let mut all: Vec<LocalPath> = Vec::new();
        let ghost mut seen: Seq<Candidate> = Seq::empty();
        let mut steps: u8 = 0;
        assert(seen + rest.remaining() =~= self.remaining());
        while steps < 5
            invariant
                seen + rest.remaining() == self.remaining(),
                all@.len() == seen.len(),
                forall|i: int| 0 <= i < all@.len() ==> candidate_of(#[trigger] all@[i]) == seen[i],
                rest.remaining().len() + steps <= 5,
            decreases 5 - steps,
        {
            let ghost before = rest.remaining();
            match rest.next() {
                Some(path) => {
                    proof {
                        assert(seen.push(candidate_of(path)) + rest.remaining() =~= seen + before);
                        seen = seen.push(candidate_of(path));
                    }
                    all.push(path);
                },
                None => {},
            }
            steps = steps + 1;
        }
        assert(seen + rest.remaining() =~= seen);
        all
    }
}

/// The candidates to try: the bare name alone where `testing`, all
/// otherwise.
pub fn default_codex_candidates(testing: bool, home: Option<&str>) -> (out: DefaultCodexCandidates)
    ensures
        testing ==> out.remaining() == seq![plain("codex"@)],
        !testing ==> out.idx == 0 && match out.cargo_home {
            Some(dir) => opt_view(home) == Some(dir@),
            None => home is None,
        },
{
    if testing {
        DefaultCodexCandidates::test_only()
    } else {
        DefaultCodexCandidates::new(home)
    }
}

/// The executable to run: the one that was set, else the first candidate
/// that was found to be one, else the one that the shell knows, else the
/// bare name.
pub fn codex_executable(
    explicit: Option<String>,
    found_candidate: Option<String>,
    shell_discovered: Option<String>,
) -> (path: String)
    ensures
        path@ == match (explicit, found_candidate, shell_discovered) {
            (Some(p), _, _) => p@,
            (None, Some(p), _) => p@,
            (None, None, Some(p)) => p@,
            (None, None, None) => "codex"@,
        },
{
    if let Some(path) = explicit {
        return path;
    }
    if let Some(path) = found_candidate {
        return path;
    }
    if let Some(path) = shell_discovered {
        return path;
    }
    "codex".to_owned()
}

/// The arguments that make the shell whose file is named `shell_name` run
/// `command`, by the kind of shell that the lower-case name shows.
pub open spec fn lookup_args(shell_name: Seq<char>, command: Seq<char>) -> Seq<Seq<char>> {
    let name = to_ascii_lowercase(shell_name);
    if find(name, "zsh"@) is Some || find(name, "bash"@) is Some {
        seq!["-l"@, "-i"@, "-c"@, command]
    } else if find(name, "powershell"@) is Some || find(name, "pwsh"@) is Some {
        seq!["-Command"@, command]
    } else if name == "cmd"@ || name == "cmd.exe"@ {
        seq!["/C"@, command]
    } else {
        seq!["-c"@, command]
    }
}

fn holds(name: &Vec<char>, word: &str) -> (r: bool)
    ensures
        r == (find(name@, word@) is Some),
{
    let pat = chars_of(word);
    chars_find_from(name, &pat, 0).is_some()
}

/// The arguments for the shell; `shell_name` is the file name of the
/// shell, or the empty text where its path has none.
pub fn shell_lookup_args(shell_name: &str, command: &str) -> (args: Vec<String>)
    ensures
        texts(args@) == lookup_args(shell_name@, command@),
{
    let chars = chars_of(shell_name);
    let name = chars_to_ascii_lowercase(&chars);
    let mut args: Vec<String> = Vec::new();
    if holds(&name, "zsh") || holds(&name, "bash") {
        args.push("-l".to_owned());
        args.push("-i".to_owned());
        args.push("-c".to_owned());
    } else if holds(&name, "powershell") || holds(&name, "pwsh") {
        args.push("-Command".to_owned());
    } else if chars_eq_str(&name, "cmd") || chars_eq_str(&name, "cmd.exe") {
        args.push("/C".to_owned());
    } else {
        args.push("-c".to_owned());
    }
    args.push(command.to_owned());
    assert(texts(args@) =~= lookup_args(shell_name@, command@));
    args
}

/// The characters that are taken off the ends of a word of shell output.
pub open spec fn path_trim_class() -> crate::text::CharClass {
    class_of("'\",;:`"@)
}

/// The words of `raw`, each without quotes and punctuation at its ends.
pub open spec fn path_tokens(raw: Seq<char>) -> Seq<Seq<char>> {
    let words = split_whitespace(raw);
    Seq::new(words.len(), |i: int| trim_of(words[i], path_trim_class()))
}

/// Those of `tokens` whose flag is set, in order.
pub open spec fn flagged(tokens: Seq<Seq<char>>, flags: Seq<bool>) -> Seq<Seq<char>>
    decreases tokens.len(),
{
    if tokens.len() == 0 || flags.len() != tokens.len() {
        Seq::empty()
    } else if flags.last() {
        flagged(tokens.drop_last(), flags.drop_last()).push(tokens.last())
    } else {
        flagged(tokens.drop_last(), flags.drop_last())
    }
}

/// Calls `Path::is_absolute` on `token` taken as a path. What counts as
/// absolute depends on the platform, so nothing is claimed of the answer.
#[verifier::external_body]
fn path_is_absolute(token: &String) -> (r: bool) {
    std::path::Path::new(token).is_absolute()
}

/// The cleaned words of `raw`.
pub fn clean_path_tokens(raw: &str) -> (tokens: Vec<String>)
    ensures
        texts(tokens@) == path_tokens(raw@),
{
    let chars = chars_of(raw);
    let words = chars_split_whitespace(&chars);
    let set = CharSet::of("'\",;:`");
    let mut tokens: Vec<String> = Vec::new();
    let mut i: usize = 0;
    while i < words.len()
        invariant
            i <= words.len(),
            views(words@) == split_whitespace(raw@),
            set@ == path_trim_class(),
            tokens@.len() == i,
            forall|j: int|
                0 <= j < i ==> (#[trigger] tokens@[j])@ == trim_of(
                    views(words@)[j],
                    path_trim_class(),
                ),
        decreases words.len() - i,
    {
        assert(views(words@)[i as int] == words@[i as int]@);
        tokens.push(string_of(&chars_trim_of(&words[i], &set)));
        i = i + 1;
    }
    assert(texts(tokens@) =~= path_tokens(raw@));
    tokens
}

/// Keeps those of `tokens` whose flag is set.
pub fn keep_flagged(tokens: &Vec<String>, flags: &Vec<bool>) -> (kept: Vec<String>)
    requires
        flags@.len() == tokens@.len(),
    ensures
        texts(kept@) == flagged(texts(tokens@), flags@),
{
    let mut kept: Vec<String> = Vec::new();
    let mut i: usize = 0;
    let ghost all = texts(tokens@);
    assert(texts(kept@) =~= flagged(all.take(0), flags@.take(0)));
    while i < tokens.len()
        invariant
            i <= tokens.len(),
            flags@.len() == tokens@.len(),
            all == texts(tokens@),
            texts(kept@) == flagged(all.take(i as int), flags@.take(i as int)),
        decreases tokens.len() - i,
    {
        assert(all.take(i as int + 1).drop_last() =~= all.take(i as int));
        assert(flags@.take(i as int + 1).drop_last() =~= flags@.take(i as int));
        if flags[i] {
            let ghost before = texts(kept@);
            kept.push(tokens[i].clone());
            assert(texts(kept@) =~= before.push(all[i as int]));
        }
        i = i + 1;
    }
    assert(all.take(i as int) =~= all);
    assert(flags@.take(i as int) =~= flags@);
    kept
}

/// The words of `raw` that are absolute paths on this platform, cleaned,
/// in order.
pub fn parse_absolute_path_tokens(raw: &str) -> (paths: Vec<String>)
    ensures
        exists|flags: Seq<bool>|
            flags.len() == path_tokens(raw@).len() && texts(paths@) == flagged(
                path_tokens(raw@),
                flags,
            ),
{
    let tokens = clean_path_tokens(raw);
    let mut flags: Vec<bool> = Vec::new();
    let mut i: usize = 0;
    while i < tokens.len()
        invariant
            i <= tokens.len(),
            flags@.len() == i,
        decreases tokens.len() - i,
    {
        flags.push(path_is_absolute(&tokens[i]));
        i = i + 1;
    }
    keep_flagged(&tokens, &flags)
}

/// Whether a file named `file_name` is the Codex executable: the name in
/// lower case is `codex` or `codex.exe`.
pub open spec fn codex_name(file_name: Option<Seq<char>>) -> bool {
    match file_name {
        Some(name) => to_ascii_lowercase(name) == "codex"@ || to_ascii_lowercase(name)
            == "codex.exe"@,
        None => false,
    }
}

/// `file_name` is the file name of the path in question, or none where
/// the path has none.
pub fn looks_like_codex_executable_name(file_name: Option<&str>) -> (r: bool)
    ensures
        r == codex_name(opt_view(file_name)),
{
    match file_name {
        Some(name) => {
            let chars = chars_of(name);
            let lowered = chars_to_ascii_lowercase(&chars);
            chars_eq_str(&lowered, "codex") || chars_eq_str(&lowered, "codex.exe")
        },
        None => false,
    }
}

} // verus!
