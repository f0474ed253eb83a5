//! The program's start: the environment variables it reads before anything else, what it does
//! when they are set, and how it chooses what to log.

use vstd::prelude::*;

use crate::cli::Level;
use crate::text::{chars_of, push_char, str_eq};

verus! {

/// The program.
#[derive(Debug)]
pub struct Souko {}

/// What `str::to_uppercase` gives for a string: its characters mapped to upper case by the
/// Unicode rules, some to more than one character.
pub uninterp spec fn uppercase(s: Seq<char>) -> Seq<char>;

/// `str::to_uppercase`.
///
/// Trusted: the result is the named `uppercase` of the argument; nothing more is stated of it.
#[verifier::external_body]
fn to_uppercase(s: &str) -> (res: String)
    ensures
        res@ == uppercase(s@),
{
    s.to_uppercase()
}

/// `s` with every `-` written `_`.
pub open spec fn dashes_to_underscores(s: Seq<char>) -> Seq<char> {
    s.map_values(|c: char| if c == '-' { '_' } else { c })
}

/// What the program does on start.
#[derive(Debug)]
pub enum StartupAction {
    /// Print a completion script for `shell` and stop.
    PrintCompletion { shell: String },
    /// Write the manual pages into `output_dir` and stop.
    GenerateMan { output_dir: String },
    /// Run the command the arguments give.
    Run,
}

/// What the program logs.
#[derive(Debug, Clone, Copy, PartialEq, Eq, Structural)]
pub enum LogFilter {
    /// What `RUST_LOG` says.
    FromEnv,
    /// Messages of `level` and above; nothing where it is `None`.
    Default { level: Option<Level> },
}

/// A completion script's shell.
#[derive(Debug, Clone, Copy, PartialEq, Eq, Structural)]
pub enum CompletionShell {
    Bash,
    Elvish,
    Fish,
    PowerShell,
    Zsh,
    Nushell,
}

/// The shell a name stands for.
pub open spec fn shell_named(name: Seq<char>) -> Option<CompletionShell> {
    if name == "bash"@ {
        Some(CompletionShell::Bash)
    } else if name == "elvish"@ {
        Some(CompletionShell::Elvish)
    } else if name == "fish"@ {
        Some(CompletionShell::Fish)
    } else if name == "powershell"@ {
        Some(CompletionShell::PowerShell)
    } else if name == "zsh"@ {
        Some(CompletionShell::Zsh)
    } else if name == "nushell"@ {
        Some(CompletionShell::Nushell)
    } else {
        None
    }
}

/// A shell name that is not known.
#[derive(Debug)]
pub struct UnknownShell {
    pub shell: String,
}

impl UnknownShell {
    /// The message shown to the user.
    pub fn message(&self) -> (res: String)
        ensures
            res@ == "unknown shell `"@ + self.shell@
                + "`, expected one of `bash`, `elvish`, `fish`, `powershell`, `zsh`, `nushell`"@,
    {
        let mut res = String::from_str("unknown shell `");
        res.append(self.shell.as_str());
        res.append("`, expected one of `bash`, `elvish`, `fish`, `powershell`, `zsh`, `nushell`");
        res
    }
}

impl CompletionShell {
    /// The shell named `name`; `bash`, `elvish`, `fish`, `powershell`, `zsh` and `nushell` are
    /// known.
    pub fn parse(name: &str) -> (res: Result<CompletionShell, UnknownShell>)
        ensures
            match res {
                Ok(s) => shell_named(name@) == Some(s),
                Err(e) => shell_named(name@) is None && e.shell@ == name@,
            },
    {
        if str_eq(name, "bash") {
            Ok(CompletionShell::Bash)
        } else if str_eq(name, "elvish") {
            Ok(CompletionShell::Elvish)
        } else if str_eq(name, "fish") {
            Ok(CompletionShell::Fish)
        } else if str_eq(name, "powershell") {
            Ok(CompletionShell::PowerShell)
        } else if str_eq(name, "zsh") {
            Ok(CompletionShell::Zsh)
        } else if str_eq(name, "nushell") {
            Ok(CompletionShell::Nushell)
        } else {
            Err(UnknownShell { shell: name.to_owned() })
        }
    }
}

impl Souko {
    /// The prefix of the program's environment variables, from its name in upper case: each
    /// `-` written `_`.
    pub fn env_prefix_of_upper(upper: &str) -> (res: String)
        ensures
            res@ == dashes_to_underscores(upper@),
    {
        let c = chars_of(upper);
        let mut res = String::new();
        let mut i: usize = 0;
        while i < c.len()
            invariant
                c@ == upper@,
                i <= c.len(),
                res@ == dashes_to_underscores(upper@.take(i as int)),
            decreases c.len() - i,
        {
            assert(upper@.take(i + 1) =~= upper@.take(i as int).push(upper@[i as int]));
            assert(dashes_to_underscores(upper@.take(i + 1)) =~= dashes_to_underscores(
                upper@.take(i as int),
            ).push(if c[i as int] == '-' { '_' } else { c[i as int] }));
            if c[i] == '-' {
                push_char(&mut res, '_');
            } else {
                push_char(&mut res, c[i]);
            }
            i = i + 1;
        }
        assert(upper@.take(c.len() as int) =~= upper@);
        res
    }

    /// The prefix of the program's environment variables: its name in upper case, each `-`
    /// written `_`.
    pub fn env_prefix(bin_name: &str) -> (res: String)
        ensures
            res@ == dashes_to_underscores(uppercase(bin_name@)),
    {
        let upper = to_uppercase(bin_name);
        Self::env_prefix_of_upper(upper.as_str())
    }

    /// The variable that asks for a completion script: the prefix and `_COMPLETE`.
    pub fn completion_env_var(prefix: &str) -> (res: String)
        ensures
            res@ == prefix@ + "_COMPLETE"@,
    {
        let mut res = prefix.to_owned();
        res.append("_COMPLETE");
        res
    }

    /// The variable that asks for the manual pages: the prefix and `_GENERATE_MAN_TO`.
    pub fn man_env_var(prefix: &str) -> (res: String)
        ensures
            res@ == prefix@ + "_GENERATE_MAN_TO"@,
    {
        let mut res = prefix.to_owned();
        res.append("_GENERATE_MAN_TO");
        res
    }

    /// What to do on start, given the values of the completion and manual-page variables: a
    /// completion script where the first is set, else manual pages where the second is set,
    /// else the command.
    pub fn startup_action(completion: Option<String>, man_dir: Option<String>) -> (res: StartupAction)
        ensures
            match completion {
                Some(shell) => res matches StartupAction::PrintCompletion { shell: s } && s@ == shell@,
                None => match man_dir {
                    Some(dir) => res matches StartupAction::GenerateMan { output_dir: d } && d@
                        == dir@,
                    None => res is Run,
                },
            },
    {
        match completion {
            Some(shell) => StartupAction::PrintCompletion { shell },
            None => match man_dir {
                Some(output_dir) => StartupAction::GenerateMan { output_dir },
                None => StartupAction::Run,
            },
        }
    }

    /// What to log: what `RUST_LOG` says where it is set, else the level of the command line.
    pub fn log_filter(rust_log_set: bool, verbosity: Option<Level>) -> (res: LogFilter)
        ensures
            res == (if rust_log_set {
                LogFilter::FromEnv
            } else {
                LogFilter::Default { level: verbosity }
            }),
    {
        if rust_log_set {
            LogFilter::FromEnv
        } else {
            LogFilter::Default { level: verbosity }
        }
    }
}

} // verus!
