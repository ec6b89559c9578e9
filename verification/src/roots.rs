//! Where the tool and the agents keep their files.

use crate::task_input::LocalPath;
use crate::text::{chars_of, opt_view, string_of, trim, trim_chars};
use vstd::prelude::*;

verus! {

/// A root directory: `rest` below the home directory `home`, or `rest`
/// itself where `home` is none.
pub struct Root {
    pub home: Option<Seq<char>>,
    pub rest: Seq<char>,
}

pub open spec fn root_of(path: LocalPath) -> Root {
    Root {
        home: match path.home {
            Some(home) => Some(home@),
            None => None,
        },
        rest: path.rest@,
    }
}

/// The root to use: the one that is set; else `fallback`, where one is
/// given; else `dir` below the home directory. None where that is asked
/// for and not known.
pub open spec fn resolved_root(
    root_override: Option<Seq<char>>,
    fallback: Option<Seq<char>>,
    home: Option<Seq<char>>,
    dir: Seq<char>,
) -> Option<Root> {
    match root_override {
        Some(root) => Some(Root { home: None, rest: root }),
        None => match fallback {
            Some(path) => Some(Root { home: None, rest: path }),
            None => match home {
                Some(home) => Some(Root { home: Some(home), rest: dir }),
                None => None,
            },
        },
    }
}

fn resolve(root_override: Option<&str>, fallback: Option<&str>, home: Option<&str>, dir: &str) -> (r:
    Option<LocalPath>)
    ensures
        match r {
            Some(path) => resolved_root(
                opt_view(root_override),
                opt_view(fallback),
                opt_view(home),
                dir@,
            ) == Some(root_of(path)),
            None => resolved_root(opt_view(root_override), opt_view(fallback), opt_view(home), dir@)
                is None,
        },
{
    if let Some(root) = root_override {
        return Some(LocalPath { home: None, rest: root.to_owned() });
    }
    if let Some(path) = fallback {
        return Some(LocalPath { home: None, rest: path.to_owned() });
    }
    match home {
        Some(home) => Some(LocalPath { home: Some(home.to_owned()), rest: dir.to_owned() }),
        None => None,
    }
}

/// The root of the tool's own files: the override, else `luban` below the
/// home directory.
pub fn resolve_luban_root(root_override: Option<&str>, home: Option<&str>) -> (r: Option<LocalPath>)
    ensures
        match r {
            Some(path) => resolved_root(opt_view(root_override), None, opt_view(home), "luban"@)
                == Some(root_of(path)),
            None => resolved_root(opt_view(root_override), None, opt_view(home), "luban"@) is None,
        },
{
    resolve(root_override, None, home, "luban")
}

/// The relative directory that stands for a root while testing.
pub open spec fn testing_fallback(testing: bool, dir: Seq<char>) -> Option<Seq<char>> {
    if testing {
        Some(dir)
    } else {
        None
    }
}

/// The root of Codex: the override; else `.codex`, relative while testing
/// and below the home directory otherwise.
pub fn resolve_codex_root(root_override: Option<&str>, testing: bool, home: Option<&str>) -> (r:
    Option<LocalPath>)
    ensures
        match r {
            Some(path) => resolved_root(
                opt_view(root_override),
                testing_fallback(testing, ".codex"@),
                opt_view(home),
                ".codex"@,
            ) == Some(root_of(path)),
            None => resolved_root(
                opt_view(root_override),
                testing_fallback(testing, ".codex"@),
                opt_view(home),
                ".codex"@,
            ) is None,
        },
{
    resolve(
        root_override,
        if testing {
            Some(".codex")
        } else {
            None
        },
        home,
        ".codex",
    )
}

/// The root of an agent that keeps its files in the directory `dir`: the
/// override; else `dir`, relative while testing and below the home
/// directory otherwise.
pub fn resolve_agent_root(
    root_override: Option<&str>,
    testing: bool,
    home: Option<&str>,
    dir: &str,
) -> (r: Option<LocalPath>)
    ensures
        match r {
            Some(path) => resolved_root(
                opt_view(root_override),
                testing_fallback(testing, dir@),
                opt_view(home),
                dir@,
            ) == Some(root_of(path)),
            None => resolved_root(
                opt_view(root_override),
                testing_fallback(testing, dir@),
                opt_view(home),
                dir@,
            ) is None,
        },
{
    resolve(
        root_override,
        if testing {
            Some(dir)
        } else {
            None
        },
        home,
        dir,
    )
}

/// The configuration directory that `xdg_config_home` names, if it is set
/// and not blank: the value trimmed.
pub open spec fn xdg_dir(xdg_config_home: Option<Seq<char>>) -> Option<Seq<char>> {
    match xdg_config_home {
        Some(value) => if trim(value).len() > 0 {
            Some(trim(value))
        } else {
            None
        },
        None => None,
    }
}

/// The root of Amp, as the parts of its path to be joined in order: the
/// override; else `.amp` while testing; else `amp` below the
/// configuration directory of the desktop, if that is set; else
/// `.config/amp` below the home directory. None where the home directory
/// is asked for and not known.
pub open spec fn amp_root_parts(
    root_override: Option<Seq<char>>,
    testing: bool,
    xdg_config_home: Option<Seq<char>>,
    home: Option<Seq<char>>,
) -> Option<Seq<Seq<char>>> {
    match root_override {
        Some(root) => Some(seq![root]),
        None => if testing {
            Some(seq![".amp"@])
        } else {
            match xdg_dir(xdg_config_home) {
                Some(dir) => Some(seq![dir, "amp"@]),
                None => match home {
                    Some(home) => Some(seq![home, ".config"@, "amp"@]),
                    None => None,
                },
            }
        },
    }
}

pub fn resolve_amp_root(
    root_override: Option<&str>,
    testing: bool,
    xdg_config_home: Option<&str>,
    home: Option<&str>,
) -> (r: Option<Vec<String>>)
    ensures
        match r {
            Some(parts) => amp_root_parts(
                opt_view(root_override),
                testing,
                opt_view(xdg_config_home),
                opt_view(home),
            ) == Some(crate::text::texts(parts@)),
            None => amp_root_parts(
                opt_view(root_override),
                testing,
                opt_view(xdg_config_home),
                opt_view(home),
            ) is None,
        },
{
    let mut parts: Vec<String> = Vec::new();
    if let Some(root) = root_override {
        parts.push(root.to_owned());
        assert(crate::text::texts(parts@) =~= seq![root@]);
        return Some(parts);
    }
    if testing {
        parts.push(".amp".to_owned());
        assert(crate::text::texts(parts@) =~= seq![".amp"@]);
        return Some(parts);
    }
    if let Some(value) = xdg_config_home {
        let chars = chars_of(value);
        let trimmed = trim_chars(&chars);
        if trimmed.len() > 0 {
            parts.push(string_of(&trimmed));
            parts.push("amp".to_owned());
            assert(crate::text::texts(parts@) =~= seq![trim(value@), "amp"@]);
            return Some(parts);
        }
    }
    match home {
        Some(home) => {
            parts.push(home.to_owned());
            parts.push(".config".to_owned());
            parts.push("amp".to_owned());
            assert(crate::text::texts(parts@) =~= seq![home@, ".config"@, "amp"@]);
            Some(parts)
        },
        None => None,
    }
}

} // verus!
