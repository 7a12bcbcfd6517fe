//! The environment that a bug report describes, and the report's text.

use vstd::prelude::*;
use vstd::string::*;
use crate::text::{contains, lemma_append_keeps_occurrences, lemma_contains_suffix};

verus! {

/// What is known of the user's shell.
#[derive(Debug, Clone, PartialEq, Eq)]
pub struct ShellInfo {
    pub name: String,
    pub version: String,
    pub config: String,
}

/// What is known of the user's terminal emulator.
#[derive(Debug, Clone, PartialEq, Eq)]
pub struct TerminalInfo {
    pub name: String,
    pub version: String,
}

/// Everything a report says about the user's environment.
#[derive(Debug, Clone, PartialEq, Eq)]
pub struct Environment {
    pub os_type: String,
    pub os_version: String,
    pub shell_info: ShellInfo,
    pub terminal_info: TerminalInfo,
    pub starship_config: String,
}

/// A `ShellInfo` as character sequences.
pub struct ShellInfoView {
    pub name: Seq<char>,
    pub version: Seq<char>,
    pub config: Seq<char>,
}

/// A `TerminalInfo` as character sequences.
pub struct TerminalInfoView {
    pub name: Seq<char>,
    pub version: Seq<char>,
}

/// An `Environment` as character sequences.
pub struct EnvironmentView {
    pub os_type: Seq<char>,
    pub os_version: Seq<char>,
    pub shell_info: ShellInfoView,
    pub terminal_info: TerminalInfoView,
    pub starship_config: Seq<char>,
}

impl View for ShellInfo {
    type V = ShellInfoView;

    open spec fn view(&self) -> ShellInfoView {
        ShellInfoView { name: self.name@, version: self.version@, config: self.config@ }
    }
}

impl View for TerminalInfo {
    type V = TerminalInfoView;

    open spec fn view(&self) -> TerminalInfoView {
        TerminalInfoView { name: self.name@, version: self.version@ }
    }
}

impl View for Environment {
    type V = EnvironmentView;

    open spec fn view(&self) -> EnvironmentView {
        EnvironmentView {
            os_type: self.os_type@,
            os_version: self.os_version@,
            shell_info: self.shell_info@,
            terminal_info: self.terminal_info@,
            starship_config: self.starship_config@,
        }
    }
}

/// The report's opening lines: versions of the tool, the shell, the operating
/// system and the terminal emulator.
pub open spec fn report_summary(starship_version: Seq<char>, environment: EnvironmentView) -> Seq<
    char,
> {
    "- Starship version: "@ + starship_version + "\n- "@ + environment.shell_info.name
        + " version: "@ + environment.shell_info.version + "\n- Operating system: "@
        + environment.os_type + " "@ + environment.os_version + "\n- Terminal emulator: "@
        + environment.terminal_info.name + " "@ + environment.terminal_info.version
}

/// The whole report: the summary, then the shell's configuration and the
/// tool's configuration, each in a fenced block. The configurations are put in
/// as they are, fences in them included.
pub open spec fn report_text(starship_version: Seq<char>, environment: EnvironmentView) -> Seq<
    char,
> {
    report_summary(starship_version, environment)
        + "\n\n#### Relevant Shell Configuration\n\n```bash\n"@ + environment.shell_info.config
        + "\n```\n\n#### Starship Configuration\n\n```toml\n"@ + environment.starship_config
        + "\n```"@
}

/// The tool's version and every field of the environment occur in a text.
pub open spec fn shows_every_field(
    text: Seq<char>,
    starship_version: Seq<char>,
    environment: EnvironmentView,
) -> bool {
    &&& contains(text, starship_version)
    &&& contains(text, environment.os_type)
    &&& contains(text, environment.os_version)
    &&& contains(text, environment.shell_info.name)
    &&& contains(text, environment.shell_info.version)
    &&& contains(text, environment.shell_info.config)
    &&& contains(text, environment.terminal_info.name)
    &&& contains(text, environment.terminal_info.version)
    &&& contains(text, environment.starship_config)
}

/// Every field of the environment, and the tool's version, can be read in the
/// report.
pub proof fn lemma_report_shows_every_field(
    starship_version: Seq<char>,
    environment: EnvironmentView,
)
    ensures
        shows_every_field(
            report_text(starship_version, environment),
            starship_version,
            environment,
        ),
{
    let e = environment;
    let r0 = "- Starship version: "@;
    let r1 = r0 + starship_version;
    let r2 = r1 + "\n- "@;
    let r3 = r2 + e.shell_info.name;
    let r4 = r3 + " version: "@;
    let r5 = r4 + e.shell_info.version;
    let r6 = r5 + "\n- Operating system: "@;
    let r7 = r6 + e.os_type;
    let r8 = r7 + " "@;
    let r9 = r8 + e.os_version;
    let r10 = r9 + "\n- Terminal emulator: "@;
    let r11 = r10 + e.terminal_info.name;
    let r12 = r11 + " "@;
    let r13 = r12 + e.terminal_info.version;
    let r14 = r13 + "\n\n#### Relevant Shell Configuration\n\n```bash\n"@;
    let r15 = r14 + e.shell_info.config;
    let r16 = r15 + "\n```\n\n#### Starship Configuration\n\n```toml\n"@;
    let r17 = r16 + e.starship_config;
    let r18 = r17 + "\n```"@;
    assert(r18 == report_text(starship_version, environment));
    lemma_contains_suffix(r0, starship_version);
    lemma_append_keeps_occurrences(r1, "\n- "@);
    lemma_contains_suffix(r2, e.shell_info.name);
    lemma_append_keeps_occurrences(r2, e.shell_info.name);
    lemma_append_keeps_occurrences(r3, " version: "@);
    lemma_contains_suffix(r4, e.shell_info.version);
    lemma_append_keeps_occurrences(r4, e.shell_info.version);
    lemma_append_keeps_occurrences(r5, "\n- Operating system: "@);
    lemma_contains_suffix(r6, e.os_type);
    lemma_append_keeps_occurrences(r6, e.os_type);
    lemma_append_keeps_occurrences(r7, " "@);
    lemma_contains_suffix(r8, e.os_version);
    lemma_append_keeps_occurrences(r8, e.os_version);
    lemma_append_keeps_occurrences(r9, "\n- Terminal emulator: "@);
    lemma_contains_suffix(r10, e.terminal_info.name);
    lemma_append_keeps_occurrences(r10, e.terminal_info.name);
    lemma_append_keeps_occurrences(r11, " "@);
    lemma_contains_suffix(r12, e.terminal_info.version);
    lemma_append_keeps_occurrences(r12, e.terminal_info.version);
    lemma_append_keeps_occurrences(r13, "\n\n#### Relevant Shell Configuration\n\n```bash\n"@);
    lemma_contains_suffix(r14, e.shell_info.config);
    lemma_append_keeps_occurrences(r14, e.shell_info.config);
    lemma_append_keeps_occurrences(r15, "\n```\n\n#### Starship Configuration\n\n```toml\n"@);
    lemma_contains_suffix(r16, e.starship_config);
    lemma_append_keeps_occurrences(r16, e.starship_config);
    lemma_append_keeps_occurrences(r17, "\n```"@);
}

/// Renders the report for `environment` as reported by the tool at
/// `starship_version`. Every field can be read in it.
pub fn format_env_info(starship_version: &str, environment: Environment) -> (report: String)
    ensures
        report@ == report_text(starship_version@, environment@),
        shows_every_field(report@, starship_version@, environment@),
{
    proof {
        lemma_report_shows_every_field(starship_version@, environment@);
    }
    let mut report = String::from_str("- Starship version: ");
    report.append(starship_version);
    report.append("\n- ");
    report.append(environment.shell_info.name.as_str());
    report.append(" version: ");
    report.append(environment.shell_info.version.as_str());
    report.append("\n- Operating system: ");
    report.append(environment.os_type.as_str());
    report.append(" ");
    report.append(environment.os_version.as_str());
    report.append("\n- Terminal emulator: ");
    report.append(environment.terminal_info.name.as_str());
    report.append(" ");
    report.append(environment.terminal_info.version.as_str());
    report.append("\n\n#### Relevant Shell Configuration\n\n```bash\n");
    report.append(environment.shell_info.config.as_str());
    report.append("\n```\n\n#### Starship Configuration\n\n```toml\n");
    report.append(environment.starship_config.as_str());
    report.append("\n```");
    report
}

} // verus!
