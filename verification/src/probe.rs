//! What the report says about the shell, the terminal and the configuration
//! files, worked out from whatever could be found. A lookup that found nothing
//! is a `None`, and the field it feeds falls back to a placeholder.

use vstd::prelude::*;
use vstd::string::*;
use crate::report::{ShellInfo, ShellInfoView, TerminalInfo, TerminalInfoView};
use crate::text::{chars_of, same_text, string_chars, trim, trimmed};

verus! {

/// Stands for the shell's name where the shell is not known.
pub const UNKNOWN_SHELL: &'static str = "<unknown shell>";

/// Stands for the terminal's name where none is announced.
pub const UNKNOWN_TERMINAL: &'static str = "<unknown terminal>";

/// Stands for a version that could not be found.
pub const UNKNOWN_VERSION: &'static str = "<unknown version>";

/// Stands for a configuration file that could not be read.
pub const UNKNOWN_CONFIG: &'static str = "<unknown config>";

/// The environment variable that names the shell.
pub const SHELL_VARIABLE: &'static str = "STARSHIP_SHELL";

/// The argument that makes a shell print its version.
pub const VERSION_FLAG: &'static str = "--version";

/// The environment variable that names the terminal.
pub const TERMINAL_VARIABLE: &'static str = "TERM_PROGRAM";

/// The environment variable consulted for the terminal's name where the first
/// is not usable.
pub const ALTERNATE_TERMINAL_VARIABLE: &'static str = "LC_TERMINAL";

/// The environment variable that holds the terminal's version.
pub const TERMINAL_VERSION_VARIABLE: &'static str = "TERM_PROGRAM_VERSION";

/// The environment variable consulted for the terminal's version where the
/// first is not usable.
pub const ALTERNATE_TERMINAL_VERSION_VARIABLE: &'static str = "LC_TERMINAL_VERSION";

/// Where the tool keeps its own configuration, below the home directory.
pub const STARSHIP_CONFIG_PATH: &'static str = ".config/starship.toml";

/// A text that was found, trimmed; the placeholder where none was found.
pub open spec fn trimmed_or(text: Option<Seq<char>>, placeholder: Seq<char>) -> Seq<char> {
    match text {
        Some(t) => trimmed(t),
        None => placeholder,
    }
}

/// The shell as the report shows it. Without a name nothing else is looked at.
/// With one, the version is what the shell printed and the configuration is
/// what its file holds, each trimmed and each with its own placeholder.
pub open spec fn shell_info_of(
    shell: Option<Seq<char>>,
    version_output: Option<Seq<char>>,
    config_text: Option<Seq<char>>,
) -> ShellInfoView {
    match shell {
        Some(name) => ShellInfoView {
            name,
            version: trimmed_or(version_output, UNKNOWN_VERSION@),
            config: trimmed_or(config_text, UNKNOWN_CONFIG@),
        },
        None => ShellInfoView {
            name: UNKNOWN_SHELL@,
            version: UNKNOWN_VERSION@,
            config: UNKNOWN_CONFIG@,
        },
    }
}

/// A variable counts where it is set to something other than the empty text.
pub open spec fn is_usable(value: Option<Seq<char>>) -> bool {
    value matches Some(v) && v.len() > 0
}

/// The first usable value of two, in that order; the placeholder where neither
/// is usable.
pub open spec fn first_usable(
    first: Option<Seq<char>>,
    second: Option<Seq<char>>,
    placeholder: Seq<char>,
) -> Seq<char> {
    if is_usable(first) {
        first->0
    } else if is_usable(second) {
        second->0
    } else {
        placeholder
    }
}

/// The terminal as the report shows it: name and version are each the first
/// usable value of their two variables, each with its own placeholder.
pub open spec fn terminal_info_of(
    term_program: Option<Seq<char>>,
    lc_terminal: Option<Seq<char>>,
    term_program_version: Option<Seq<char>>,
    lc_terminal_version: Option<Seq<char>>,
) -> TerminalInfoView {
    TerminalInfoView {
        name: first_usable(term_program, lc_terminal, UNKNOWN_TERMINAL@),
        version: first_usable(term_program_version, lc_terminal_version, UNKNOWN_VERSION@),
    }
}

/// The shells whose configuration file is known.
pub open spec fn is_known_shell(shell: Seq<char>) -> bool {
    ||| shell == "bash"@
    ||| shell == "fish"@
    ||| shell == "ion"@
    ||| shell == "powershell"@
    ||| shell == "zsh"@
}

/// Where a shell keeps its configuration, below the home directory.
pub open spec fn relative_config_path(shell: Seq<char>, windows: bool) -> Option<Seq<char>> {
    if shell == "bash"@ {
        Some(".bashrc"@)
    } else if shell == "fish"@ {
        Some(".config/fish/config.fish"@)
    } else if shell == "ion"@ {
        Some(".config/ion/initrc"@)
    } else if shell == "powershell"@ {
        if windows {
            Some("Documents/PowerShell/Microsoft.PowerShell_profile.ps1"@)
        } else {
            Some(".config/powershell/Microsoft.PowerShell_profile.ps1"@)
        }
    } else if shell == "zsh"@ {
        Some(".zshrc"@)
    } else {
        None
    }
}

/// The character that the platform puts between the parts of a path.
pub open spec fn separator(windows: bool) -> char {
    if windows {
        '\\'
    } else {
        '/'
    }
}

/// The characters that the platform reads as separating the parts of a path.
pub open spec fn is_separator(c: char, windows: bool) -> bool {
    c == '/' || (windows && c == '\\')
}

/// A relative path below a directory: the two are set side by side, with a
/// separator between them unless the directory is empty or ends in one.
pub open spec fn joined(directory: Seq<char>, relative: Seq<char>, windows: bool) -> Seq<char> {
    if directory.len() == 0 || is_separator(directory.last(), windows) {
        directory + relative
    } else {
        directory + seq![separator(windows)] + relative
    }
}

/// The path of a shell's configuration file: the shell's relative path below
/// the home directory, where both are known.
pub open spec fn config_path_of(home: Option<Seq<char>>, shell: Seq<char>, windows: bool) -> Option<
    Seq<char>,
> {
    match (home, relative_config_path(shell, windows)) {
        (Some(h), Some(relative)) => Some(joined(h, relative, windows)),
        _ => None,
    }
}

/// The path of the tool's own configuration file, where the home directory is
/// known.
pub open spec fn starship_config_path_of(home: Option<Seq<char>>, windows: bool) -> Option<
    Seq<char>,
> {
    match home {
        Some(h) => Some(joined(h, STARSHIP_CONFIG_PATH@, windows)),
        None => None,
    }
}

/// Without a shell name, the report shows the placeholder for it, whatever
/// else was found.
pub proof fn lemma_unnamed_shell_is_unknown(
    version_output: Option<Seq<char>>,
    config_text: Option<Seq<char>>,
)
    ensures
        shell_info_of(None, version_output, config_text).name == UNKNOWN_SHELL@,
        shell_info_of(None, version_output, config_text).version == UNKNOWN_VERSION@,
        shell_info_of(None, version_output, config_text).config == UNKNOWN_CONFIG@,
{
}

/// With a shell name, the report shows that name as it is, whatever else was
/// found.
pub proof fn lemma_named_shell_keeps_its_name(
    name: Seq<char>,
    version_output: Option<Seq<char>>,
    config_text: Option<Seq<char>>,
)
    ensures
        shell_info_of(Some(name), version_output, config_text).name == name,
{
}

/// A configuration path is resolved exactly for a known shell with a known
/// home directory. For any other shell there is none, so no file is read and
/// the report shows the placeholder for the configuration.
pub proof fn lemma_only_known_shells_have_a_config_path(
    home: Option<Seq<char>>,
    shell: Seq<char>,
    windows: bool,
    version_output: Option<Seq<char>>,
)
    ensures
        config_path_of(home, shell, windows) is Some <==> home is Some && is_known_shell(shell),
        !is_known_shell(shell) ==> shell_info_of(Some(shell), version_output, None).config
            == UNKNOWN_CONFIG@,
{
}

/// Trims a text that was found; gives the placeholder where none was found.
pub fn trimmed_or_placeholder(text: Option<&str>, placeholder: &str) -> (shown: String)
    ensures
        shown@ == trimmed_or(chars_of(text), placeholder@),
{
    match text {
        Some(t) => trim(t).to_owned(),
        None => placeholder.to_owned(),
    }
}

/// Describes the shell from what was found: the value of the shell variable,
/// what the shell printed when asked for its version, and the text of its
/// configuration file.
pub fn get_shell_info(
    shell: Option<&str>,
    version_output: Option<&str>,
    config_text: Option<&str>,
) -> (info: ShellInfo)
    ensures
        info@ == shell_info_of(chars_of(shell), chars_of(version_output), chars_of(config_text)),
        shell is None ==> info.name@ == UNKNOWN_SHELL@,
        shell matches Some(name) ==> info.name@ == name@,
{
    match shell {
        Some(name) => ShellInfo {
            name: name.to_owned(),
            version: trimmed_or_placeholder(version_output, UNKNOWN_VERSION),
            config: trimmed_or_placeholder(config_text, UNKNOWN_CONFIG),
        },
        None => ShellInfo {
            name: UNKNOWN_SHELL.to_owned(),
            version: UNKNOWN_VERSION.to_owned(),
            config: UNKNOWN_CONFIG.to_owned(),
        },
    }
}

/// Tells whether a variable is set to something other than the empty text.
pub fn usable(value: Option<&str>) -> (yes: bool)
    ensures
        yes == is_usable(chars_of(value)),
{
    match value {
        Some(v) => !v.is_empty(),
        None => false,
    }
}

/// Picks the first usable value of two, or the placeholder.
pub fn first_usable_or(first: Option<&str>, second: Option<&str>, placeholder: &str) -> (shown:
    String)
    ensures
        shown@ == first_usable(chars_of(first), chars_of(second), placeholder@),
{
    if usable(first) {
        match first {
            Some(v) => v.to_owned(),
            None => placeholder.to_owned(),
        }
    } else if usable(second) {
        match second {
            Some(v) => v.to_owned(),
            None => placeholder.to_owned(),
        }
    } else {
        placeholder.to_owned()
    }
}

/// Describes the terminal from the values of its four variables.
pub fn get_terminal_info(
    term_program: Option<&str>,
    lc_terminal: Option<&str>,
    term_program_version: Option<&str>,
    lc_terminal_version: Option<&str>,
) -> (info: TerminalInfo)
    ensures
        info@ == terminal_info_of(
            chars_of(term_program),
            chars_of(lc_terminal),
            chars_of(term_program_version),
            chars_of(lc_terminal_version),
        ),
{
    TerminalInfo {
        name: first_usable_or(term_program, lc_terminal, UNKNOWN_TERMINAL),
        version: first_usable_or(term_program_version, lc_terminal_version, UNKNOWN_VERSION),
    }
}

/// Gives the place of a shell's configuration file below the home directory,
/// for the shells whose place is known.
pub fn get_relative_config_path(shell: &str, windows: bool) -> (relative: Option<&'static str>)
    ensures
        chars_of(relative) == relative_config_path(shell@, windows),
{
    if same_text(shell, "bash") {
        Some(".bashrc")
    } else if same_text(shell, "fish") {
        Some(".config/fish/config.fish")
    } else if same_text(shell, "ion") {
        Some(".config/ion/initrc")
    } else if same_text(shell, "powershell") {
        if windows {
            Some("Documents/PowerShell/Microsoft.PowerShell_profile.ps1")
        } else {
            Some(".config/powershell/Microsoft.PowerShell_profile.ps1")
        }
    } else if same_text(shell, "zsh") {
        Some(".zshrc")
    } else {
        None
    }
}

/// Sets a relative path below a directory.
pub fn join_path(directory: &str, relative: &str, windows: bool) -> (path: String)
    ensures
        path@ == joined(directory@, relative@, windows),
{
    let length = directory.unicode_len();
    let mut path = directory.to_owned();
    if length > 0 {
        let last = directory.get_char(length - 1);
        if !(last == '/' || (windows && last == '\\')) {
            proof {
                reveal_strlit("\\");
                reveal_strlit("/");
                assert("\\"@ =~= seq!['\\']);
                assert("/"@ =~= seq!['/']);
            }
            if windows {
                path.append("\\");
            } else {
                path.append("/");
            }
        }
    }
    path.append(relative);
    path
}

/// Resolves the path of a shell's configuration file against the home
/// directory.
pub fn get_config_path(home: Option<&str>, shell: &str, windows: bool) -> (path: Option<String>)
    ensures
        string_chars(path) == config_path_of(chars_of(home), shell@, windows),
        path is Some <==> home is Some && is_known_shell(shell@),
{
    match home {
        Some(h) => match get_relative_config_path(shell, windows) {
            Some(relative) => Some(join_path(h, relative, windows)),
            None => None,
        },
        None => None,
    }
}

/// Resolves the path of the tool's own configuration file against the home
/// directory.
pub fn get_starship_config_path(home: Option<&str>, windows: bool) -> (path: Option<String>)
    ensures
        string_chars(path) == starship_config_path_of(chars_of(home), windows),
{
    match home {
        Some(h) => Some(join_path(h, STARSHIP_CONFIG_PATH, windows)),
        None => None,
    }
}

/// Gives the tool's configuration as the report shows it: the text of its
/// file, trimmed, or the placeholder where the file could not be read.
pub fn get_starship_config(config_text: Option<&str>) -> (shown: String)
    ensures
        shown@ == trimmed_or(chars_of(config_text), UNKNOWN_CONFIG@),
{
    trimmed_or_placeholder(config_text, UNKNOWN_CONFIG)
}

} // verus!
