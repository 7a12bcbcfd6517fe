//! What a whole run amounts to, stated against a model of the outside world.
//!
//! A [`World`] answers every action a session can ask for. Driving a session
//! against it, step by step, prints one text; the theorem at the end of this
//! file says that it is the text that the world calls for, worked out in one
//! go from everything the world holds.

use vstd::prelude::*;
use crate::link::{issue_link, shortener_address, SHORTENER_FIELD};
use crate::probe::{
    config_path_of, is_known_shell, is_usable, shell_info_of, starship_config_path_of,
    terminal_info_of, trimmed_or, ALTERNATE_TERMINAL_VARIABLE,
    ALTERNATE_TERMINAL_VERSION_VARIABLE, SHELL_VARIABLE, TERMINAL_VARIABLE,
    TERMINAL_VERSION_VARIABLE, UNKNOWN_CONFIG, UNKNOWN_SHELL, UNKNOWN_VERSION, VERSION_FLAG,
};
use crate::report::{report_text, EnvironmentView};
use crate::session::{
    closing_text, lemma_prints_at_the_end_only, lemma_step_advances, ActionView, EventView,
    Phase, SessionView,
};

verus! {

/// Everything a run can find out, and whether what it attempts works.
pub struct World {
    /// The home directory, if the user has one.
    pub home: Option<Seq<char>>,
    /// The environment variables that are set, by name.
    pub variables: Map<Seq<char>, Seq<char>>,
    /// What each program that can be run writes to its standard output, by
    /// program and argument.
    pub outputs: Map<(Seq<char>, Seq<char>), Seq<char>>,
    /// The files that can be read, by path.
    pub files: Map<Seq<char>, Seq<char>>,
    /// Whether the clipboard takes a text.
    pub clipboard_works: bool,
    /// Whether the browser opens a link.
    pub browser_opens: bool,
    /// The slugs that the shortener answers with, by address, form field and
    /// link.
    pub slugs: Map<(Seq<char>, Seq<char>, Seq<char>), Seq<char>>,
}

/// What is known under a key, if anything.
pub open spec fn find<K>(known: Map<K, Seq<char>>, key: K) -> Option<Seq<char>> {
    if known.dom().contains(key) {
        Some(known[key])
    } else {
        None
    }
}

impl World {
    /// What comes of an action in this world.
    pub open spec fn answer(self, action: ActionView) -> EventView {
        match action {
            ActionView::FindHome => EventView::Text(self.home),
            ActionView::ReadVariable { name } => EventView::Text(find(self.variables, name)),
            ActionView::RunCommand { program, argument } => EventView::Text(
                find(self.outputs, (program, argument)),
            ),
            ActionView::ReadFile { path } => EventView::Text(find(self.files, path)),
            ActionView::CopyToClipboard { text } => EventView::Done(self.clipboard_works),
            ActionView::OpenLink { link } => EventView::Done(self.browser_opens),
            ActionView::ShortenLink { endpoint, field, link } => EventView::Text(
                find(self.slugs, (endpoint, field, link)),
            ),
            ActionView::Print { text } => EventView::Done(true),
            ActionView::Stop => EventView::Done(true),
        }
    }

    /// The session after its request has been answered by this world.
    pub open spec fn advance(self, session: SessionView) -> SessionView {
        session.step(self.answer(session.request()))
    }

    /// The session after so many of its requests have been answered.
    pub open spec fn run(self, session: SessionView, steps: nat) -> SessionView
        decreases steps,
    {
        if steps == 0 {
            session
        } else {
            self.run(self.advance(session), (steps - 1) as nat)
        }
    }

    /// The texts that the session asks to print over so many steps, in order.
    pub open spec fn printed(self, session: SessionView, steps: nat) -> Seq<Seq<char>>
        decreases steps,
    {
        if steps == 0 {
            Seq::empty()
        } else {
            let now = match session.request() {
                ActionView::Print { text } => seq![text],
                _ => Seq::empty(),
            };
            now + self.printed(self.advance(session), (steps - 1) as nat)
        }
    }

    /// The value of the shell variable.
    pub open spec fn shell(self) -> Option<Seq<char>> {
        find(self.variables, SHELL_VARIABLE@)
    }

    /// What the shell prints when asked for its version.
    pub open spec fn shell_version_output(self) -> Option<Seq<char>> {
        match self.shell() {
            Some(name) => find(self.outputs, (name, VERSION_FLAG@)),
            None => None,
        }
    }

    /// The text of the file at a path, where there is a path.
    pub open spec fn file_at(self, path: Option<Seq<char>>) -> Option<Seq<char>> {
        match path {
            Some(p) => find(self.files, p),
            None => None,
        }
    }

    /// The text of the shell's configuration file.
    pub open spec fn shell_config_text(self, windows: bool) -> Option<Seq<char>> {
        match self.shell() {
            Some(name) => self.file_at(config_path_of(self.home, name, windows)),
            None => None,
        }
    }

    /// The text of the tool's configuration file.
    pub open spec fn starship_config_text(self, windows: bool) -> Option<Seq<char>> {
        self.file_at(starship_config_path_of(self.home, windows))
    }

    /// The slug that the shortener answers with for the issue link.
    pub open spec fn slug(self) -> Option<Seq<char>> {
        find(self.slugs, (shortener_address(), SHORTENER_FIELD@, issue_link()))
    }

    /// The environment that this world presents, every lookup made.
    pub open spec fn environment(self, os_type: Seq<char>, os_version: Seq<char>, windows: bool)
        -> EnvironmentView {
        EnvironmentView {
            os_type,
            os_version,
            shell_info: shell_info_of(
                self.shell(),
                self.shell_version_output(),
                self.shell_config_text(windows),
            ),
            terminal_info: terminal_info_of(
                find(self.variables, TERMINAL_VARIABLE@),
                find(self.variables, ALTERNATE_TERMINAL_VARIABLE@),
                find(self.variables, TERMINAL_VERSION_VARIABLE@),
                find(self.variables, ALTERNATE_TERMINAL_VERSION_VARIABLE@),
            ),
            starship_config: trimmed_or(self.starship_config_text(windows), UNKNOWN_CONFIG@),
        }
    }

    /// The text that a run in this world owes the user.
    pub open spec fn output(
        self,
        starship_version: Seq<char>,
        os_type: Seq<char>,
        os_version: Seq<char>,
        windows: bool,
    ) -> Seq<char> {
        closing_text(
            self.browser_opens,
            self.slug(),
            self.clipboard_works,
            issue_link(),
            report_text(starship_version, self.environment(os_type, os_version, windows)),
        )
    }

    /// The session that a run from `start` is in when it has come to `phase`:
    /// every answer that has been asked for by then is written down, and
    /// nothing else is.
    pub open spec fn session_in(self, phase: Phase, start: SessionView) -> SessionView {
        let rank = phase.rank();
        let term_program = find(self.variables, TERMINAL_VARIABLE@);
        let term_program_version = find(self.variables, TERMINAL_VERSION_VARIABLE@);
        SessionView {
            phase,
            home: if rank <= 12 {
                self.home
            } else {
                None
            },
            shell: if rank <= 11 {
                self.shell()
            } else {
                None
            },
            shell_version_output: if rank <= 10 {
                self.shell_version_output()
            } else {
                None
            },
            shell_config_text: if rank <= 9 {
                self.shell_config_text(start.windows)
            } else {
                None
            },
            term_program: if rank <= 8 {
                term_program
            } else {
                None
            },
            lc_terminal: if rank <= 7 && !is_usable(term_program) {
                find(self.variables, ALTERNATE_TERMINAL_VARIABLE@)
            } else {
                None
            },
            term_program_version: if rank <= 6 {
                term_program_version
            } else {
                None
            },
            lc_terminal_version: if rank <= 5 && !is_usable(term_program_version) {
                find(self.variables, ALTERNATE_TERMINAL_VERSION_VARIABLE@)
            } else {
                None
            },
            starship_config_text: if rank <= 4 {
                self.starship_config_text(start.windows)
            } else {
                None
            },
            copied: rank <= 3 && self.clipboard_works,
            opened: rank <= 2 && self.browser_opens,
            slug: if rank <= 1 && !self.browser_opens {
                self.slug()
            } else {
                None
            },
            ..start
        }
    }

    /// The session is one that a run from `start` in this world comes to.
    pub open spec fn on_course(self, session: SessionView, start: SessionView) -> bool {
        &&& session == self.session_in(session.phase, start)
        &&& session.consistent()
    }
}

/// Where the shell variable is not set, the environment shows the placeholders
/// for the shell's name, version and configuration, whatever else the world
/// holds.
pub proof fn lemma_unset_shell_variable_is_unknown_shell(
    world: World,
    os_type: Seq<char>,
    os_version: Seq<char>,
    windows: bool,
)
    requires
        !world.variables.dom().contains(SHELL_VARIABLE@),
    ensures
        world.environment(os_type, os_version, windows).shell_info.name == UNKNOWN_SHELL@,
        world.environment(os_type, os_version, windows).shell_info.version == UNKNOWN_VERSION@,
        world.environment(os_type, os_version, windows).shell_info.config == UNKNOWN_CONFIG@,
{
}

/// Where the shell variable is set, the environment shows its value as the
/// shell's name, whatever else the world holds.
pub proof fn lemma_set_shell_variable_names_the_shell(
    world: World,
    os_type: Seq<char>,
    os_version: Seq<char>,
    windows: bool,
)
    requires
        world.variables.dom().contains(SHELL_VARIABLE@),
    ensures
        world.environment(os_type, os_version, windows).shell_info.name
            == world.variables[SHELL_VARIABLE@],
{
}

/// Where the shell variable names a shell that is not one of the known ones,
/// the environment shows the placeholder for the shell's configuration,
/// whatever files the world holds.
pub proof fn lemma_unknown_shell_shows_no_config(
    world: World,
    os_type: Seq<char>,
    os_version: Seq<char>,
    windows: bool,
)
    requires
        world.variables.dom().contains(SHELL_VARIABLE@),
        !is_known_shell(world.variables[SHELL_VARIABLE@]),
    ensures
        config_path_of(world.home, world.variables[SHELL_VARIABLE@], windows) is None,
        world.environment(os_type, os_version, windows).shell_info.config == UNKNOWN_CONFIG@,
{
}

/// A run begins on course.
pub proof fn lemma_run_begins_on_course(
    world: World,
    starship_version: Seq<char>,
    os_type: Seq<char>,
    os_version: Seq<char>,
    windows: bool,
)
    ensures
        world.on_course(
            SessionView::initial(starship_version, os_type, os_version, windows),
            SessionView::initial(starship_version, os_type, os_version, windows),
        ),
{
}

/// Every answer of the world keeps a run on course.
pub proof fn lemma_run_stays_on_course(world: World, session: SessionView, start: SessionView)
    requires
        world.on_course(session, start),
    ensures
        world.on_course(world.advance(session), start),
{
}

/// A session on course that has come to the clipboard hands it the report of
/// the world's environment.
pub proof fn lemma_clipboard_gets_the_report(world: World, session: SessionView, start: SessionView)
    requires
        world.on_course(session, start),
        session.phase == Phase::Clipboard,
    ensures
        session.request() == (ActionView::CopyToClipboard {
            text: report_text(
                start.starship_version,
                world.environment(start.os_type, start.os_version, start.windows),
            ),
        }),
{
}

/// A session on course that has come to its output prints what the world
/// calls for.
pub proof fn lemma_output_on_course(world: World, session: SessionView, start: SessionView)
    requires
        world.on_course(session, start),
        session.phase.rank() <= 1,
    ensures
        session.output() == world.output(
            start.starship_version,
            start.os_type,
            start.os_version,
            start.windows,
        ),
{
}

/// From a session on course, a run that is long enough prints the world's
/// output once, unless the session has finished already.
proof fn lemma_printed_from(world: World, session: SessionView, start: SessionView, steps: nat)
    requires
        world.on_course(session, start),
        steps >= session.phase.rank(),
    ensures
        world.printed(session, steps) == if session.phase == Phase::Finished {
            Seq::<Seq<char>>::empty()
        } else {
            seq![
                world.output(
                    start.starship_version,
                    start.os_type,
                    start.os_version,
                    start.windows,
                ),
            ]
        },
        world.run(session, steps).phase == Phase::Finished,
    decreases steps,
{
    if steps > 0 {
        let event = world.answer(session.request());
        let next = world.advance(session);
        lemma_step_advances(session, event);
        lemma_prints_at_the_end_only(session, event);
        lemma_run_stays_on_course(world, session, start);
        lemma_printed_from(world, next, start, (steps - 1) as nat);
        if session.phase == Phase::Output {
            lemma_output_on_course(world, session, start);
        }
        let now = match session.request() {
            ActionView::Print { text } => seq![text],
            _ => Seq::<Seq<char>>::empty(),
        };
        assert(world.printed(session, steps) =~= now + world.printed(next, (steps - 1) as nat));
    }
}

/// A whole run comes to its end within thirteen steps, whatever the world
/// holds, and prints exactly one text: the one that the world calls for.
pub proof fn theorem_run_prints_the_output(
    world: World,
    starship_version: Seq<char>,
    os_type: Seq<char>,
    os_version: Seq<char>,
    windows: bool,
    steps: nat,
)
    requires
        steps >= 13,
    ensures
        world.run(SessionView::initial(starship_version, os_type, os_version, windows), steps).phase
            == Phase::Finished,
        world.printed(SessionView::initial(starship_version, os_type, os_version, windows), steps)
            == seq![world.output(starship_version, os_type, os_version, windows)],
{
    let start = SessionView::initial(starship_version, os_type, os_version, windows);
    lemma_run_begins_on_course(world, starship_version, os_type, os_version, windows);
    lemma_printed_from(world, start, start, steps);
}

} // verus!
