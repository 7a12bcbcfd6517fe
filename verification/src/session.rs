//! The run of a bug report, one step at a time.
//!
//! A session never touches the outside world. It hands its caller one
//! [`Action`] at a time (look up a variable, read a file, open a link) and
//! is told what came of it as an [`Event`]. Which action comes next, and what
//! is printed at the end, depends only on the answers so far.

use vstd::prelude::*;
use vstd::string::*;
use crate::link::{
    get_github_issue_link, issue_link, link_to_show, short_link, shortener_address,
    shortener_endpoint, SHORTENER_FIELD,
};
use crate::probe::{
    config_path_of, get_config_path, get_shell_info, get_starship_config,
    get_starship_config_path, get_terminal_info, is_known_shell, is_usable, shell_info_of,
    starship_config_path_of, terminal_info_of, trimmed_or, usable,
    ALTERNATE_TERMINAL_VARIABLE, ALTERNATE_TERMINAL_VERSION_VARIABLE, SHELL_VARIABLE,
    TERMINAL_VARIABLE, TERMINAL_VERSION_VARIABLE, UNKNOWN_CONFIG, VERSION_FLAG,
};
use crate::report::{format_env_info, report_text, Environment, EnvironmentView};
use crate::text::{
    as_text, chars_of, contains, lemma_append_keeps_occurrences, lemma_contains_middle,
    string_chars,
};

verus! {

/// What is said once the issue page is open in the browser.
pub const OPENED_MESSAGE: &'static str = "Take a look at your browser. A GitHub issue has been created and your environment info has been copied to your clipboard.";

/// What is said before the link, where the browser could not be opened.
pub const LINK_MESSAGE: &'static str = "Your environment info has been copied to your clipboard. Click this link to create a GitHub issue:\n\n  ";

/// What is said before the report, where the clipboard could not take it.
pub const CLIPBOARD_MESSAGE: &'static str = "\n\nYour clipboard was unavailable, so here's the summary of your environment:\n\n";

/// What a session is waiting to hear about.
#[derive(Clone, Copy, Debug, PartialEq, Eq, Structural)]
pub enum Phase {
    /// The home directory.
    Home,
    /// The variable that names the shell.
    Shell,
    /// What the shell prints when asked for its version.
    ShellVersion,
    /// The text of the shell's configuration file.
    ShellConfig,
    /// The variable that names the terminal.
    Terminal,
    /// The variable that names the terminal, second choice.
    AlternateTerminal,
    /// The variable that holds the terminal's version.
    TerminalVersion,
    /// The variable that holds the terminal's version, second choice.
    AlternateTerminalVersion,
    /// The text of the tool's own configuration file.
    StarshipConfig,
    /// Whether the clipboard took the report.
    Clipboard,
    /// Whether the browser opened the issue link.
    Browser,
    /// The slug that the shortener made of the issue link.
    Shortener,
    /// That the closing text has been printed.
    Output,
    /// Nothing: the run is over.
    Finished,
}

/// What a session asks its caller to do next.
#[derive(Clone, Debug, PartialEq, Eq)]
pub enum Action {
    /// Find the user's home directory; answer with its path.
    FindHome,
    /// Look up an environment variable; answer with its value.
    ReadVariable { name: String },
    /// Run a program with one argument; answer with what it wrote to its
    /// standard output.
    RunCommand { program: String, argument: String },
    /// Read a file; answer with its text.
    ReadFile { path: String },
    /// Put a text on the clipboard; answer with whether that worked.
    CopyToClipboard { text: String },
    /// Open a link in the browser; answer with whether that worked.
    OpenLink { link: String },
    /// Post a link to the shortener as one form field; answer with the body
    /// of the response.
    ShortenLink { endpoint: String, field: String, link: String },
    /// Write a text to standard output; any answer will do.
    Print { text: String },
    /// Nothing is left to do.
    Stop,
}

/// What came of an action.
#[derive(Clone, Debug, PartialEq, Eq)]
pub enum Event {
    /// The text that was asked for, or `None` where it could not be had.
    Text(Option<String>),
    /// Whether what was asked for has been done.
    Done(bool),
}

/// An `Action` as character sequences.
pub enum ActionView {
    FindHome,
    ReadVariable { name: Seq<char> },
    RunCommand { program: Seq<char>, argument: Seq<char> },
    ReadFile { path: Seq<char> },
    CopyToClipboard { text: Seq<char> },
    OpenLink { link: Seq<char> },
    ShortenLink { endpoint: Seq<char>, field: Seq<char>, link: Seq<char> },
    Print { text: Seq<char> },
    Stop,
}

/// An `Event` as character sequences.
pub enum EventView {
    Text(Option<Seq<char>>),
    Done(bool),
}

impl View for Action {
    type V = ActionView;

    open spec fn view(&self) -> ActionView {
        match self {
            Action::FindHome => ActionView::FindHome,
            Action::ReadVariable { name } => ActionView::ReadVariable { name: name@ },
            Action::RunCommand { program, argument } => ActionView::RunCommand {
                program: program@,
                argument: argument@,
            },
            Action::ReadFile { path } => ActionView::ReadFile { path: path@ },
            Action::CopyToClipboard { text } => ActionView::CopyToClipboard { text: text@ },
            Action::OpenLink { link } => ActionView::OpenLink { link: link@ },
            Action::ShortenLink { endpoint, field, link } => ActionView::ShortenLink {
                endpoint: endpoint@,
                field: field@,
                link: link@,
            },
            Action::Print { text } => ActionView::Print { text: text@ },
            Action::Stop => ActionView::Stop,
        }
    }
}

impl View for Event {
    type V = EventView;

    open spec fn view(&self) -> EventView {
        match self {
            Event::Text(text) => EventView::Text(string_chars(*text)),
            Event::Done(done) => EventView::Done(*done),
        }
    }
}

impl EventView {
    /// The text that an event brings; an answer to another question brings none.
    pub open spec fn text(self) -> Option<Seq<char>> {
        match self {
            EventView::Text(text) => text,
            EventView::Done(_) => None,
        }
    }

    /// Whether an event reports success; an answer to another question does not.
    pub open spec fn succeeded(self) -> bool {
        self == EventView::Done(true)
    }
}

/// The text to show at the end. Where the browser opened, one sentence says
/// so; else the link is shown, short where a slug was had. Where the
/// clipboard did not take the report, the report follows.
pub open spec fn closing_text(
    opened: bool,
    slug: Option<Seq<char>>,
    copied: bool,
    link: Seq<char>,
    report: Seq<char>,
) -> Seq<char> {
    let first = if opened {
        OPENED_MESSAGE@
    } else {
        LINK_MESSAGE@ + link_to_show(slug, link) + "\n"@
    };
    if copied {
        first
    } else {
        first + CLIPBOARD_MESSAGE@ + report + "\n"@
    }
}

/// Whatever fails, the user is left with something to go on: the link where
/// the browser did not open, the report where the clipboard did not take it.
/// Where both worked, one sentence says so and nothing else is shown.
pub proof fn lemma_closing_text_leaves_nobody_stranded(
    opened: bool,
    slug: Option<Seq<char>>,
    copied: bool,
    link: Seq<char>,
    report: Seq<char>,
)
    ensures
        opened && copied ==> closing_text(opened, slug, copied, link, report) == OPENED_MESSAGE@,
        !opened ==> contains(
            closing_text(opened, slug, copied, link, report),
            link_to_show(slug, link),
        ),
        !copied ==> contains(closing_text(opened, slug, copied, link, report), report),
{
    let shown = link_to_show(slug, link);
    let first = if opened {
        OPENED_MESSAGE@
    } else {
        LINK_MESSAGE@ + shown + "\n"@
    };
    if !opened {
        lemma_contains_middle(LINK_MESSAGE@, shown, "\n"@);
        lemma_append_keeps_occurrences(first, CLIPBOARD_MESSAGE@);
        lemma_append_keeps_occurrences(first + CLIPBOARD_MESSAGE@, report);
        lemma_append_keeps_occurrences(first + CLIPBOARD_MESSAGE@ + report, "\n"@);
    }
    if !copied {
        lemma_contains_middle(first + CLIPBOARD_MESSAGE@, report, "\n"@);
    }
}

/// Builds the text to show at the end.
pub fn closing_output(opened: bool, slug: Option<&str>, copied: bool, link: &str, report: &str) -> (shown:
    String)
    ensures
        shown@ == closing_text(opened, chars_of(slug), copied, link@, report@),
{
    let mut shown = String::new();
    if opened {
        shown.append(OPENED_MESSAGE);
    } else {
        let link_shown = short_link(slug, link);
        shown.append(LINK_MESSAGE);
        shown.append(link_shown.as_str());
        shown.append("\n");
    }
    if !copied {
        shown.append(CLIPBOARD_MESSAGE);
        shown.append(report);
        shown.append("\n");
    }
    assert(shown@ =~= closing_text(opened, chars_of(slug), copied, link@, report@));
    shown
}

/// A run in progress: where it stands, and every answer it has had.
#[derive(Clone, Debug, PartialEq, Eq)]
pub struct Session {
    pub phase: Phase,
    pub starship_version: String,
    pub os_type: String,
    pub os_version: String,
    pub windows: bool,
    pub home: Option<String>,
    pub shell: Option<String>,
    pub shell_version_output: Option<String>,
    pub shell_config_text: Option<String>,
    pub term_program: Option<String>,
    pub lc_terminal: Option<String>,
    pub term_program_version: Option<String>,
    pub lc_terminal_version: Option<String>,
    pub starship_config_text: Option<String>,
    pub copied: bool,
    pub opened: bool,
    pub slug: Option<String>,
}

/// A `Session` as character sequences.
pub struct SessionView {
    pub phase: Phase,
    pub starship_version: Seq<char>,
    pub os_type: Seq<char>,
    pub os_version: Seq<char>,
    pub windows: bool,
    pub home: Option<Seq<char>>,
    pub shell: Option<Seq<char>>,
    pub shell_version_output: Option<Seq<char>>,
    pub shell_config_text: Option<Seq<char>>,
    pub term_program: Option<Seq<char>>,
    pub lc_terminal: Option<Seq<char>>,
    pub term_program_version: Option<Seq<char>>,
    pub lc_terminal_version: Option<Seq<char>>,
    pub starship_config_text: Option<Seq<char>>,
    pub copied: bool,
    pub opened: bool,
    pub slug: Option<Seq<char>>,
}

impl View for Session {
    type V = SessionView;

    open spec fn view(&self) -> SessionView {
        SessionView {
            phase: self.phase,
            starship_version: self.starship_version@,
            os_type: self.os_type@,
            os_version: self.os_version@,
            windows: self.windows,
            home: string_chars(self.home),
            shell: string_chars(self.shell),
            shell_version_output: string_chars(self.shell_version_output),
            shell_config_text: string_chars(self.shell_config_text),
            term_program: string_chars(self.term_program),
            lc_terminal: string_chars(self.lc_terminal),
            term_program_version: string_chars(self.term_program_version),
            lc_terminal_version: string_chars(self.lc_terminal_version),
            starship_config_text: string_chars(self.starship_config_text),
            copied: self.copied,
            opened: self.opened,
            slug: string_chars(self.slug),
        }
    }
}

/// The text inside an option, or the empty text.
pub open spec fn text_or_empty(text: Option<Seq<char>>) -> Seq<char> {
    match text {
        Some(t) => t,
        None => Seq::empty(),
    }
}

impl Phase {
    /// How many steps, at most, a session in this phase is from its end.
    pub open spec fn rank(self) -> nat {
        match self {
            Phase::Home => 13,
            Phase::Shell => 12,
            Phase::ShellVersion => 11,
            Phase::ShellConfig => 10,
            Phase::Terminal => 9,
            Phase::AlternateTerminal => 8,
            Phase::TerminalVersion => 7,
            Phase::AlternateTerminalVersion => 6,
            Phase::StarshipConfig => 5,
            Phase::Clipboard => 4,
            Phase::Browser => 3,
            Phase::Shortener => 2,
            Phase::Output => 1,
            Phase::Finished => 0,
        }
    }
}

impl SessionView {
    /// A session that has just begun.
    pub open spec fn initial(
        starship_version: Seq<char>,
        os_type: Seq<char>,
        os_version: Seq<char>,
        windows: bool,
    ) -> SessionView {
        SessionView {
            phase: Phase::Home,
            starship_version,
            os_type,
            os_version,
            windows,
            home: None,
            shell: None,
            shell_version_output: None,
            shell_config_text: None,
            term_program: None,
            lc_terminal: None,
            term_program_version: None,
            lc_terminal_version: None,
            starship_config_text: None,
            copied: false,
            opened: false,
            slug: None,
        }
    }

    /// The path of the shell's configuration file, as far as it is known.
    pub open spec fn shell_config_path(self) -> Option<Seq<char>> {
        config_path_of(self.home, text_or_empty(self.shell), self.windows)
    }

    /// The path of the tool's configuration file, as far as it is known.
    pub open spec fn starship_config_path(self) -> Option<Seq<char>> {
        starship_config_path_of(self.home, self.windows)
    }

    /// The environment as the answers so far describe it.
    pub open spec fn environment(self) -> EnvironmentView {
        EnvironmentView {
            os_type: self.os_type,
            os_version: self.os_version,
            shell_info: shell_info_of(self.shell, self.shell_version_output, self.shell_config_text),
            terminal_info: terminal_info_of(
                self.term_program,
                self.lc_terminal,
                self.term_program_version,
                self.lc_terminal_version,
            ),
            starship_config: trimmed_or(self.starship_config_text, UNKNOWN_CONFIG@),
        }
    }

    /// The report as the answers so far make it.
    pub open spec fn report(self) -> Seq<char> {
        report_text(self.starship_version, self.environment())
    }

    /// The text that the session prints at its end.
    pub open spec fn output(self) -> Seq<char> {
        closing_text(self.opened, self.slug, self.copied, issue_link(), self.report())
    }

    /// What the session asks for in the phase it is in. A consistent session
    /// that asks about the shell or for a file has the shell's name or the
    /// file's path; in any other the empty text stands in for what is missing.
    pub open spec fn request(self) -> ActionView {
        match self.phase {
            Phase::Home => ActionView::FindHome,
            Phase::Shell => ActionView::ReadVariable { name: SHELL_VARIABLE@ },
            Phase::ShellVersion => ActionView::RunCommand {
                program: text_or_empty(self.shell),
                argument: VERSION_FLAG@,
            },
            Phase::ShellConfig => ActionView::ReadFile {
                path: text_or_empty(self.shell_config_path()),
            },
            Phase::Terminal => ActionView::ReadVariable { name: TERMINAL_VARIABLE@ },
            Phase::AlternateTerminal => ActionView::ReadVariable {
                name: ALTERNATE_TERMINAL_VARIABLE@,
            },
            Phase::TerminalVersion => ActionView::ReadVariable { name: TERMINAL_VERSION_VARIABLE@ },
            Phase::AlternateTerminalVersion => ActionView::ReadVariable {
                name: ALTERNATE_TERMINAL_VERSION_VARIABLE@,
            },
            Phase::StarshipConfig => ActionView::ReadFile {
                path: text_or_empty(self.starship_config_path()),
            },
            Phase::Clipboard => ActionView::CopyToClipboard { text: self.report() },
            Phase::Browser => ActionView::OpenLink { link: issue_link() },
            Phase::Shortener => ActionView::ShortenLink {
                endpoint: shortener_address(),
                field: SHORTENER_FIELD@,
                link: issue_link(),
            },
            Phase::Output => ActionView::Print { text: self.output() },
            Phase::Finished => ActionView::Stop,
        }
    }

    /// The session once the answer to its request is written down.
    pub open spec fn record(self, event: EventView) -> SessionView {
        match self.phase {
            Phase::Home => SessionView { home: event.text(), ..self },
            Phase::Shell => SessionView { shell: event.text(), ..self },
            Phase::ShellVersion => SessionView { shell_version_output: event.text(), ..self },
            Phase::ShellConfig => SessionView { shell_config_text: event.text(), ..self },
            Phase::Terminal => SessionView { term_program: event.text(), ..self },
            Phase::AlternateTerminal => SessionView { lc_terminal: event.text(), ..self },
            Phase::TerminalVersion => SessionView { term_program_version: event.text(), ..self },
            Phase::AlternateTerminalVersion => SessionView {
                lc_terminal_version: event.text(),
                ..self
            },
            Phase::StarshipConfig => SessionView { starship_config_text: event.text(), ..self },
            Phase::Clipboard => SessionView { copied: event.succeeded(), ..self },
            Phase::Browser => SessionView { opened: event.succeeded(), ..self },
            Phase::Shortener => SessionView { slug: event.text(), ..self },
            Phase::Output => self,
            Phase::Finished => self,
        }
    }

    /// The first phase, from the terminal's version on, that has anything to
    /// ask: the tool's configuration wants a home directory to look in.
    pub open spec fn after_terminal(self) -> Phase {
        if self.home is Some {
            Phase::StarshipConfig
        } else {
            Phase::Clipboard
        }
    }

    /// The phase that follows the one the session is in, given the answers
    /// written down. A phase with nothing to ask is passed over: the shell's
    /// version and configuration without a shell, a configuration file without
    /// a path, a second variable where the first was usable, the shortener
    /// where the browser opened.
    pub open spec fn following(self) -> Phase {
        match self.phase {
            Phase::Home => Phase::Shell,
            Phase::Shell => if self.shell is Some {
                Phase::ShellVersion
            } else {
                Phase::Terminal
            },
            Phase::ShellVersion => if self.shell_config_path() is Some {
                Phase::ShellConfig
            } else {
                Phase::Terminal
            },
            Phase::ShellConfig => Phase::Terminal,
            Phase::Terminal => if is_usable(self.term_program) {
                Phase::TerminalVersion
            } else {
                Phase::AlternateTerminal
            },
            Phase::AlternateTerminal => Phase::TerminalVersion,
            Phase::TerminalVersion => if is_usable(self.term_program_version) {
                self.after_terminal()
            } else {
                Phase::AlternateTerminalVersion
            },
            Phase::AlternateTerminalVersion => self.after_terminal(),
            Phase::StarshipConfig => Phase::Clipboard,
            Phase::Clipboard => Phase::Browser,
            Phase::Browser => if self.opened {
                Phase::Output
            } else {
                Phase::Shortener
            },
            Phase::Shortener => Phase::Output,
            Phase::Output => Phase::Finished,
            Phase::Finished => Phase::Finished,
        }
    }

    /// One step: the answer is written down, and the session moves on.
    pub open spec fn step(self, event: EventView) -> SessionView {
        let recorded = self.record(event);
        SessionView { phase: recorded.following(), ..recorded }
    }

    /// What holds of every session that a run can reach: it is in no phase
    /// that the answers so far would have passed over. A phase that asks about
    /// the shell has a shell, a phase that reads a file has its path, a second
    /// variable is asked for only where the first was not usable, and the
    /// shortener only where the browser did not open.
    pub open spec fn consistent(self) -> bool {
        &&& self.phase == Phase::ShellVersion ==> self.shell is Some
        &&& self.phase == Phase::ShellConfig ==> self.shell is Some && self.shell_config_path()
            is Some
        &&& self.phase == Phase::AlternateTerminal ==> !is_usable(self.term_program)
        &&& self.phase == Phase::AlternateTerminalVersion ==> !is_usable(
            self.term_program_version,
        )
        &&& self.phase == Phase::StarshipConfig ==> self.starship_config_path() is Some
        &&& self.phase == Phase::Shortener ==> !self.opened
    }
}

/// Every step brings a session nearer to its end, and a finished session
/// stays as it is.
pub proof fn lemma_step_advances(session: SessionView, event: EventView)
    ensures
        session.phase != Phase::Finished ==> session.step(event).phase.rank()
            < session.phase.rank(),
        session.phase == Phase::Finished ==> session.step(event) == session,
{
}

/// A session asks to print only at the last step before its end, and then it
/// asks to print its output.
pub proof fn lemma_prints_at_the_end_only(session: SessionView, event: EventView)
    ensures
        session.request() is Print <==> session.phase == Phase::Output,
        session.phase == Phase::Output ==> session.request() == (ActionView::Print {
            text: session.output(),
        }),
        session.step(event).phase == Phase::Finished <==> session.phase == Phase::Output
            || session.phase == Phase::Finished,
{
}

/// A session begins consistent, and no answer makes it inconsistent.
pub proof fn lemma_step_keeps_consistency(session: SessionView, event: EventView)
    ensures
        SessionView::initial(
            session.starship_version,
            session.os_type,
            session.os_version,
            session.windows,
        ).consistent(),
        session.consistent() ==> session.step(event).consistent(),
{
}

/// A session whose shell is not one of the known ones never comes to ask for
/// the shell's configuration file.
pub proof fn lemma_unknown_shell_reads_no_config(session: SessionView, event: EventView)
    requires
        session.phase != Phase::Home,
        session.phase != Phase::Shell,
        session.shell matches Some(name) && !is_known_shell(name),
    ensures
        session.step(event).phase != Phase::ShellConfig,
        session.step(event).shell == session.shell,
{
}

impl Event {
    /// Takes the text that the event brings.
    pub fn into_text(self) -> (text: Option<String>)
        ensures
            string_chars(text) == self@.text(),
    {
        match self {
            Event::Text(text) => text,
            Event::Done(_) => None,
        }
    }

    /// Tells whether the event reports success.
    pub fn succeeded(&self) -> (yes: bool)
        ensures
            yes == self@.succeeded(),
    {
        match self {
            Event::Text(_) => false,
            Event::Done(done) => *done,
        }
    }
}

/// Copies the text inside an option, or makes an empty one.
fn owned_or_empty(text: Option<&str>) -> (owned: String)
    ensures
        owned@ == text_or_empty(chars_of(text)),
{
    match text {
        Some(t) => t.to_owned(),
        None => String::new(),
    }
}

/// Begins a run for the tool at `starship_version`, on the operating system
/// described by `os_type` and `os_version`. Gives the session and the first
/// thing it asks for.
pub fn create(starship_version: &str, os_type: &str, os_version: &str, windows: bool) -> (begun: (
    Session,
    Action,
))
    ensures
        begun.0@ == SessionView::initial(starship_version@, os_type@, os_version@, windows),
        begun.0@.consistent(),
        begun.1@ == begun.0@.request(),
{
    let session = Session {
        phase: Phase::Home,
        starship_version: starship_version.to_owned(),
        os_type: os_type.to_owned(),
        os_version: os_version.to_owned(),
        windows,
        home: None,
        shell: None,
        shell_version_output: None,
        shell_config_text: None,
        term_program: None,
        lc_terminal: None,
        term_program_version: None,
        lc_terminal_version: None,
        starship_config_text: None,
        copied: false,
        opened: false,
        slug: None,
    };
    (session, Action::FindHome)
}

impl Session {
    /// Tells whether the run is over.
    pub fn is_finished(&self) -> (yes: bool)
        ensures
            yes == (self@.phase == Phase::Finished),
    {
        self.phase == Phase::Finished
    }

    /// Resolves the path of the shell's configuration file.
    pub fn shell_config_path(&self) -> (path: Option<String>)
        ensures
            string_chars(path) == self@.shell_config_path(),
    {
        let shell = owned_or_empty(as_text(&self.shell));
        get_config_path(as_text(&self.home), shell.as_str(), self.windows)
    }

    /// Describes the environment from the answers so far.
    pub fn environment(&self) -> (environment: Environment)
        ensures
            environment@ == self@.environment(),
    {
        Environment {
            os_type: self.os_type.clone(),
            os_version: self.os_version.clone(),
            shell_info: get_shell_info(
                as_text(&self.shell),
                as_text(&self.shell_version_output),
                as_text(&self.shell_config_text),
            ),
            terminal_info: get_terminal_info(
                as_text(&self.term_program),
                as_text(&self.lc_terminal),
                as_text(&self.term_program_version),
                as_text(&self.lc_terminal_version),
            ),
            starship_config: get_starship_config(as_text(&self.starship_config_text)),
        }
    }

    /// Renders the report from the answers so far.
    pub fn report(&self) -> (report: String)
        ensures
            report@ == self@.report(),
    {
        format_env_info(self.starship_version.as_str(), self.environment())
    }

    /// Builds what the session asks for in the phase it is in.
    pub fn request(&self) -> (action: Action)
        ensures
            action@ == self@.request(),
    {
        match self.phase {
            Phase::Home => Action::FindHome,
            Phase::Shell => Action::ReadVariable { name: SHELL_VARIABLE.to_owned() },
            Phase::ShellVersion => Action::RunCommand {
                program: owned_or_empty(as_text(&self.shell)),
                argument: VERSION_FLAG.to_owned(),
            },
            Phase::ShellConfig => {
                let path = self.shell_config_path();
                Action::ReadFile { path: owned_or_empty(as_text(&path)) }
            },
            Phase::Terminal => Action::ReadVariable { name: TERMINAL_VARIABLE.to_owned() },
            Phase::AlternateTerminal => Action::ReadVariable {
                name: ALTERNATE_TERMINAL_VARIABLE.to_owned(),
            },
            Phase::TerminalVersion => Action::ReadVariable {
                name: TERMINAL_VERSION_VARIABLE.to_owned(),
            },
            Phase::AlternateTerminalVersion => Action::ReadVariable {
                name: ALTERNATE_TERMINAL_VERSION_VARIABLE.to_owned(),
            },
            Phase::StarshipConfig => {
                let path = get_starship_config_path(as_text(&self.home), self.windows);
                Action::ReadFile { path: owned_or_empty(as_text(&path)) }
            },
            Phase::Clipboard => Action::CopyToClipboard { text: self.report() },
            Phase::Browser => Action::OpenLink { link: get_github_issue_link() },
            Phase::Shortener => Action::ShortenLink {
                endpoint: shortener_endpoint(),
                field: SHORTENER_FIELD.to_owned(),
                link: get_github_issue_link(),
            },
            Phase::Output => {
                let link = get_github_issue_link();
                let report = self.report();
                Action::Print {
                    text: closing_output(
                        self.opened,
                        as_text(&self.slug),
                        self.copied,
                        link.as_str(),
                        report.as_str(),
                    ),
                }
            },
            Phase::Finished => Action::Stop,
        }
    }

    /// Writes the answer to the session's request down.
    fn record(&mut self, event: Event)
        ensures
            final(self)@ == old(self)@.record(event@),
    {
        match self.phase {
            Phase::Home => {
                self.home = event.into_text();
            },
            Phase::Shell => {
                self.shell = event.into_text();
            },
            Phase::ShellVersion => {
                self.shell_version_output = event.into_text();
            },
            Phase::ShellConfig => {
                self.shell_config_text = event.into_text();
            },
            Phase::Terminal => {
                self.term_program = event.into_text();
            },
            Phase::AlternateTerminal => {
                self.lc_terminal = event.into_text();
            },
            Phase::TerminalVersion => {
                self.term_program_version = event.into_text();
            },
            Phase::AlternateTerminalVersion => {
                self.lc_terminal_version = event.into_text();
            },
            Phase::StarshipConfig => {
                self.starship_config_text = event.into_text();
            },
            Phase::Clipboard => {
                self.copied = event.succeeded();
            },
            Phase::Browser => {
                self.opened = event.succeeded();
            },
            Phase::Shortener => {
                self.slug = event.into_text();
            },
            Phase::Output => {},
            Phase::Finished => {},
        }
    }

    /// Picks the first phase, from the terminal's version on, that has
    /// anything to ask.
    fn after_terminal(&self) -> (phase: Phase)
        ensures
            phase == self@.after_terminal(),
    {
        if self.home.is_some() {
            Phase::StarshipConfig
        } else {
            Phase::Clipboard
        }
    }

    /// Picks the phase that follows the one the session is in.
    fn following(&self) -> (phase: Phase)
        ensures
            phase == self@.following(),
    {
        match self.phase {
            Phase::Home => Phase::Shell,
            Phase::Shell => if self.shell.is_some() {
                Phase::ShellVersion
            } else {
                Phase::Terminal
            },
            Phase::ShellVersion => if self.shell_config_path().is_some() {
                Phase::ShellConfig
            } else {
                Phase::Terminal
            },
            Phase::ShellConfig => Phase::Terminal,
            Phase::Terminal => if usable(as_text(&self.term_program)) {
                Phase::TerminalVersion
            } else {
                Phase::AlternateTerminal
            },
            Phase::AlternateTerminal => Phase::TerminalVersion,
            Phase::TerminalVersion => if usable(as_text(&self.term_program_version)) {
                self.after_terminal()
            } else {
                Phase::AlternateTerminalVersion
            },
            Phase::AlternateTerminalVersion => self.after_terminal(),
            Phase::StarshipConfig => Phase::Clipboard,
            Phase::Clipboard => Phase::Browser,
            Phase::Browser => if self.opened {
                Phase::Output
            } else {
                Phase::Shortener
            },
            Phase::Shortener => Phase::Output,
            Phase::Output => Phase::Finished,
            Phase::Finished => Phase::Finished,
        }
    }

    /// Takes the answer to the session's request, moves the session on, and
    /// gives what it asks for next. Each step brings the end nearer.
    pub fn step(&mut self, event: Event) -> (action: Action)
        ensures
            final(self)@ == old(self)@.step(event@),
            action@ == final(self)@.request(),
            old(self)@.consistent() ==> final(self)@.consistent(),
            old(self)@.phase != Phase::Finished ==> final(self)@.phase.rank() < old(
                self,
            )@.phase.rank(),
    {
        proof {
            lemma_step_advances(self@, event@);
            lemma_step_keeps_consistency(self@, event@);
        }
        self.record(event);
        self.phase = self.following();
        self.request()
    }
}

} // verus!
