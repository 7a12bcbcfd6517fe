use bug_report::link::get_github_issue_link;
use bug_report::report::format_env_info;
use bug_report::session::{
    closing_output, create, Action, Event, Phase, Session, CLIPBOARD_MESSAGE, LINK_MESSAGE,
    OPENED_MESSAGE,
};

struct FakeWorld {
    home: Option<&'static str>,
    variables: Vec<(&'static str, &'static str)>,
    outputs: Vec<(&'static str, &'static str, &'static str)>,
    files: Vec<(&'static str, &'static str)>,
    clipboard_works: bool,
    browser_opens: bool,
    slug: Option<&'static str>,
}

fn answer(world: &FakeWorld, action: &Action) -> Event {
    match action {
        Action::FindHome => Event::Text(world.home.map(|home| home.to_string())),
        Action::ReadVariable { name } => Event::Text(
            world
                .variables
                .iter()
                .find(|(known, _)| known == name)
                .map(|(_, value)| value.to_string()),
        ),
        Action::RunCommand { program, argument } => Event::Text(
            world
                .outputs
                .iter()
                .find(|(known, flag, _)| known == program && flag == argument)
                .map(|(_, _, output)| output.to_string()),
        ),
        Action::ReadFile { path } => Event::Text(
            world
                .files
                .iter()
                .find(|(known, _)| known == path)
                .map(|(_, text)| text.to_string()),
        ),
        Action::CopyToClipboard { .. } => Event::Done(world.clipboard_works),
        Action::OpenLink { .. } => Event::Done(world.browser_opens),
        Action::ShortenLink { .. } => Event::Text(world.slug.map(|slug| slug.to_string())),
        Action::Print { .. } => Event::Done(true),
        Action::Stop => Event::Done(true),
    }
}

fn drive(world: &FakeWorld, windows: bool) -> (Vec<Action>, Session) {
    let (mut session, mut action) = create("0.1.2", "Linux", "1.2.3", windows);
    let mut asked = Vec::new();
    for _ in 0..14 {
        asked.push(action.clone());
        if action == Action::Stop {
            break;
        }
        action = session.step(answer(world, &action));
    }
    (asked, session)
}

fn printed(asked: &[Action]) -> Vec<String> {
    asked
        .iter()
        .filter_map(|action| match action {
            Action::Print { text } => Some(text.clone()),
            _ => None,
        })
        .collect()
}

fn variable(name: &str) -> Action {
    Action::ReadVariable { name: name.to_string() }
}

fn file(path: &str) -> Action {
    Action::ReadFile { path: path.to_string() }
}

fn well_stocked_world() -> FakeWorld {
    FakeWorld {
        home: Some("/test/home"),
        variables: vec![
            ("STARSHIP_SHELL", "zsh"),
            ("TERM_PROGRAM", "iTerm.app"),
            ("LC_TERMINAL", "iTerm2"),
            ("TERM_PROGRAM_VERSION", "3.3.7"),
            ("LC_TERMINAL_VERSION", "3.3.6"),
        ],
        outputs: vec![("zsh", "--version", "zsh 5.8 (x86_64-apple-darwin19.3.0)\n")],
        files: vec![
            ("/test/home/.zshrc", "\neval \"$(starship init zsh)\"\n"),
            ("/test/home/.config/starship.toml", "add_newline = false\n"),
        ],
        clipboard_works: true,
        browser_opens: true,
        slug: Some("abc123"),
    }
}

fn empty_world() -> FakeWorld {
    FakeWorld {
        home: None,
        variables: vec![],
        outputs: vec![],
        files: vec![],
        clipboard_works: false,
        browser_opens: false,
        slug: None,
    }
}

const WELL_STOCKED_REPORT: &str = "- Starship version: 0.1.2\n- zsh version: zsh 5.8 (x86_64-apple-darwin19.3.0)\n- Operating system: Linux 1.2.3\n- Terminal emulator: iTerm.app 3.3.7\n\n#### Relevant Shell Configuration\n\n```bash\neval \"$(starship init zsh)\"\n```\n\n#### Starship Configuration\n\n```toml\nadd_newline = false\n```";

const EMPTY_REPORT: &str = "- Starship version: 0.1.2\n- <unknown shell> version: <unknown version>\n- Operating system: Linux 1.2.3\n- Terminal emulator: <unknown terminal> <unknown version>\n\n#### Relevant Shell Configuration\n\n```bash\n<unknown config>\n```\n\n#### Starship Configuration\n\n```toml\n<unknown config>\n```";

#[test]
fn a_session_begins_by_asking_for_the_home_directory() {
    let (session, action) = create("0.1.2", "Linux", "1.2.3", false);

    assert_eq!(Action::FindHome, action);
    assert_eq!(Action::FindHome, session.request());
    assert_eq!(Phase::Home, session.phase);
    assert_eq!("0.1.2", session.starship_version);
    assert_eq!("Linux", session.os_type);
    assert_eq!("1.2.3", session.os_version);
    assert!(!session.windows);
    assert!(!session.is_finished());
    assert_eq!(EMPTY_REPORT, session.report());
}

#[test]
fn in_a_well_stocked_world_every_first_lookup_is_enough() {
    let (asked, session) = drive(&well_stocked_world(), false);

    let link = get_github_issue_link();
    let expected = vec![
        Action::FindHome,
        variable("STARSHIP_SHELL"),
        Action::RunCommand { program: "zsh".to_string(), argument: "--version".to_string() },
        file("/test/home/.zshrc"),
        variable("TERM_PROGRAM"),
        variable("TERM_PROGRAM_VERSION"),
        file("/test/home/.config/starship.toml"),
        Action::CopyToClipboard { text: WELL_STOCKED_REPORT.to_string() },
        Action::OpenLink { link },
        Action::Print { text: OPENED_MESSAGE.to_string() },
        Action::Stop,
    ];
    assert_eq!(expected, asked);
    assert!(session.is_finished());
    assert_eq!(WELL_STOCKED_REPORT, session.report());
}

#[test]
fn in_an_empty_world_nothing_fails_and_the_report_is_printed() {
    let (asked, session) = drive(&empty_world(), false);

    let link = get_github_issue_link();
    let expected = vec![
        Action::FindHome,
        variable("STARSHIP_SHELL"),
        variable("TERM_PROGRAM"),
        variable("LC_TERMINAL"),
        variable("TERM_PROGRAM_VERSION"),
        variable("LC_TERMINAL_VERSION"),
        Action::CopyToClipboard { text: EMPTY_REPORT.to_string() },
        Action::OpenLink { link: link.clone() },
        Action::ShortenLink {
            endpoint: "https://git.io/create".to_string(),
            field: "url".to_string(),
            link: link.clone(),
        },
        Action::Print {
            text: format!(
                "Your environment info has been copied to your clipboard. Click this link to create a GitHub issue:\n\n  {}\n\n\nYour clipboard was unavailable, so here's the summary of your environment:\n\n{}\n",
                link, EMPTY_REPORT
            ),
        },
        Action::Stop,
    ];
    assert_eq!(expected, asked);
    assert!(session.is_finished());
}

#[test]
fn shell_variable_unset_gives_the_unknown_shell() {
    let mut world = well_stocked_world();
    world.variables.retain(|(name, _)| *name != "STARSHIP_SHELL");

    let (asked, session) = drive(&world, false);

    let environment = session.environment();
    assert_eq!("<unknown shell>", environment.shell_info.name);
    assert_eq!("<unknown version>", environment.shell_info.version);
    assert_eq!("<unknown config>", environment.shell_info.config);
    assert!(!asked.iter().any(|action| matches!(action, Action::RunCommand { .. })));
    assert_eq!(vec![file("/test/home/.config/starship.toml")], reads(&asked));
}

#[test]
fn shell_variable_set_to_fish_gives_fish() {
    let mut world = empty_world();
    world.variables.push(("STARSHIP_SHELL", "fish"));

    let (asked, session) = drive(&world, false);

    let environment = session.environment();
    assert_eq!("fish", environment.shell_info.name);
    assert_eq!("<unknown version>", environment.shell_info.version);
    assert_eq!("<unknown config>", environment.shell_info.config);
    assert!(asked.contains(&Action::RunCommand {
        program: "fish".to_string(),
        argument: "--version".to_string(),
    }));
}

fn reads(asked: &[Action]) -> Vec<Action> {
    asked.iter().filter(|action| matches!(action, Action::ReadFile { .. })).cloned().collect()
}

#[test]
fn unknown_shell_has_no_configuration_file_read() {
    let mut world = well_stocked_world();
    world.variables[0] = ("STARSHIP_SHELL", "tcsh");
    world.outputs = vec![("tcsh", "--version", "tcsh 6.22.02\n")];
    world.files.push(("/test/home/.tcshrc", "set prompt"));

    let (asked, session) = drive(&world, false);

    assert_eq!(vec![file("/test/home/.config/starship.toml")], reads(&asked));
    let environment = session.environment();
    assert_eq!("tcsh", environment.shell_info.name);
    assert_eq!("tcsh 6.22.02", environment.shell_info.version);
    assert_eq!("<unknown config>", environment.shell_info.config);
}

#[test]
fn known_shell_has_its_configuration_file_read() {
    let mut world = well_stocked_world();
    world.variables[0] = ("STARSHIP_SHELL", "powershell");
    world.home = Some("C:\\Users\\me");
    world.files = vec![(
        "C:\\Users\\me\\Documents/PowerShell/Microsoft.PowerShell_profile.ps1",
        "Invoke-Expression (&starship init powershell)\r\n",
    )];

    let (asked, session) = drive(&world, true);

    assert_eq!(
        vec![
            file("C:\\Users\\me\\Documents/PowerShell/Microsoft.PowerShell_profile.ps1"),
            file("C:\\Users\\me\\.config/starship.toml"),
        ],
        reads(&asked)
    );
    let environment = session.environment();
    assert_eq!("powershell", environment.shell_info.name);
    assert_eq!("<unknown version>", environment.shell_info.version);
    assert_eq!("Invoke-Expression (&starship init powershell)", environment.shell_info.config);
    assert_eq!("<unknown config>", environment.starship_config);
}

#[test]
fn unreadable_files_leave_placeholders() {
    let mut world = well_stocked_world();
    world.files = vec![];

    let (asked, session) = drive(&world, false);

    assert_eq!(
        vec![file("/test/home/.zshrc"), file("/test/home/.config/starship.toml")],
        reads(&asked)
    );
    let environment = session.environment();
    assert_eq!("<unknown config>", environment.shell_info.config);
    assert_eq!("<unknown config>", environment.starship_config);
}

#[test]
fn without_a_home_directory_no_file_is_read() {
    let mut world = well_stocked_world();
    world.home = None;

    let (asked, session) = drive(&world, false);

    assert!(reads(&asked).is_empty());
    let environment = session.environment();
    assert_eq!("zsh", environment.shell_info.name);
    assert_eq!("zsh 5.8 (x86_64-apple-darwin19.3.0)", environment.shell_info.version);
    assert_eq!("<unknown config>", environment.shell_info.config);
    assert_eq!("<unknown config>", environment.starship_config);
}

#[test]
fn second_terminal_variables_are_asked_only_when_needed() {
    let mut world = well_stocked_world();
    world.variables = vec![
        ("TERM_PROGRAM", ""),
        ("LC_TERMINAL", "iTerm2"),
        ("TERM_PROGRAM_VERSION", "3.3.7"),
        ("LC_TERMINAL_VERSION", "3.3.6"),
    ];

    let (asked, session) = drive(&world, false);

    let variables: Vec<Action> = asked
        .iter()
        .filter(|action| matches!(action, Action::ReadVariable { .. }))
        .cloned()
        .collect();
    assert_eq!(
        vec![
            variable("STARSHIP_SHELL"),
            variable("TERM_PROGRAM"),
            variable("LC_TERMINAL"),
            variable("TERM_PROGRAM_VERSION"),
        ],
        variables
    );
    let environment = session.environment();
    assert_eq!("iTerm2", environment.terminal_info.name);
    assert_eq!("3.3.7", environment.terminal_info.version);
}

#[test]
fn browser_opening_is_reported_even_without_the_clipboard() {
    let mut world = well_stocked_world();
    world.clipboard_works = false;

    let (asked, _) = drive(&world, false);

    let expected = format!(
        "Take a look at your browser. A GitHub issue has been created and your environment info has been copied to your clipboard.\n\nYour clipboard was unavailable, so here's the summary of your environment:\n\n{}\n",
        WELL_STOCKED_REPORT
    );
    assert_eq!(vec![expected], printed(&asked));
    assert!(!asked.iter().any(|action| matches!(action, Action::ShortenLink { .. })));
}

#[test]
fn short_link_is_shown_where_the_browser_stays_shut() {
    let mut world = well_stocked_world();
    world.browser_opens = false;

    let (asked, _) = drive(&world, false);

    let expected = "Your environment info has been copied to your clipboard. Click this link to create a GitHub issue:\n\n  https://git.io/abc123\n".to_string();
    assert_eq!(vec![expected], printed(&asked));
    assert!(asked.contains(&Action::ShortenLink {
        endpoint: "https://git.io/create".to_string(),
        field: "url".to_string(),
        link: get_github_issue_link(),
    }));
}

#[test]
fn long_link_is_shown_where_the_shortener_fails() {
    let mut world = well_stocked_world();
    world.browser_opens = false;
    world.slug = None;

    let (asked, _) = drive(&world, false);

    let expected = format!(
        "Your environment info has been copied to your clipboard. Click this link to create a GitHub issue:\n\n  {}\n",
        get_github_issue_link()
    );
    assert_eq!(vec![expected], printed(&asked));
}

#[test]
fn every_run_prints_once_and_stops_within_thirteen_steps() {
    let shells = [None, Some("zsh"), Some("tcsh"), Some("")];
    let terminals = [None, Some(""), Some("iTerm.app")];
    for home in [None, Some("/test/home")] {
        for shell in shells {
            for terminal in terminals {
                for flags in 0..8u32 {
                    let mut world = well_stocked_world();
                    world.home = home;
                    world.variables.retain(|(name, _)| {
                        *name != "STARSHIP_SHELL" && *name != "TERM_PROGRAM"
                            && *name != "TERM_PROGRAM_VERSION"
                    });
                    if let Some(shell) = shell {
                        world.variables.push(("STARSHIP_SHELL", shell));
                    }
                    if let Some(terminal) = terminal {
                        world.variables.push(("TERM_PROGRAM", terminal));
                        world.variables.push(("TERM_PROGRAM_VERSION", terminal));
                    }
                    world.clipboard_works = flags & 1 != 0;
                    world.browser_opens = flags & 2 != 0;
                    world.slug = if flags & 4 != 0 { Some("abc123") } else { None };

                    let (asked, session) = drive(&world, false);

                    assert!(session.is_finished());
                    assert!(asked.len() <= 14);
                    assert_eq!(Some(&Action::Stop), asked.last());
                    let texts = printed(&asked);
                    assert_eq!(1, texts.len());
                    assert!(matches!(asked[asked.len() - 2], Action::Print { .. }));
                    assert_eq!(world.clipboard_works, !texts[0].contains(session.report().as_str()));
                    assert_eq!(world.browser_opens, texts[0].starts_with(OPENED_MESSAGE));
                    assert_eq!(!world.browser_opens, texts[0].starts_with(LINK_MESSAGE));
                    let report = format_env_info("0.1.2", session.environment());
                    assert_eq!(report, session.report());
                    let copied = asked.iter().find_map(|action| match action {
                        Action::CopyToClipboard { text } => Some(text.clone()),
                        _ => None,
                    });
                    assert_eq!(Some(report), copied);
                }
            }
        }
    }
}

#[test]
fn a_finished_session_stays_finished() {
    let (_, mut session) = drive(&well_stocked_world(), false);
    let before = session.clone();

    assert_eq!(Action::Stop, session.step(Event::Text(Some("late".to_string()))));
    assert_eq!(Action::Stop, session.step(Event::Done(true)));
    assert_eq!(Action::Stop, session.request());
    assert_eq!(before, session);
}

#[test]
fn an_answer_of_the_wrong_kind_counts_as_none() {
    let (mut session, _) = create("0.1.2", "Linux", "1.2.3", false);

    assert_eq!(variable("STARSHIP_SHELL"), session.step(Event::Done(true)));
    assert_eq!(None, session.home);
    assert_eq!(variable("TERM_PROGRAM"), session.step(Event::Done(true)));
    assert_eq!(None, session.shell);
    assert_eq!(variable("TERM_PROGRAM_VERSION"), session.step(Event::Text(Some("kitty".to_string()))));
    assert_eq!(
        Action::CopyToClipboard {
            text: "- Starship version: 0.1.2\n- <unknown shell> version: <unknown version>\n- Operating system: Linux 1.2.3\n- Terminal emulator: kitty 0.19\n\n#### Relevant Shell Configuration\n\n```bash\n<unknown config>\n```\n\n#### Starship Configuration\n\n```toml\n<unknown config>\n```".to_string(),
        },
        session.step(Event::Text(Some("0.19".to_string())))
    );
    assert!(matches!(session.step(Event::Text(Some("yes".to_string()))), Action::OpenLink { .. }));
    assert!(!session.copied);
    assert!(matches!(session.step(Event::Text(None)), Action::ShortenLink { .. }));
    assert!(!session.opened);
    assert!(matches!(session.step(Event::Done(true)), Action::Print { .. }));
    assert_eq!(None, session.slug);
    assert_eq!(Action::Stop, session.step(Event::Done(false)));
}

#[test]
fn events_are_read_by_their_kind() {
    assert_eq!(Some("a".to_string()), Event::Text(Some("a".to_string())).into_text());
    assert_eq!(None, Event::Text(None).into_text());
    assert_eq!(None, Event::Done(true).into_text());
    assert!(Event::Done(true).succeeded());
    assert!(!Event::Done(false).succeeded());
    assert!(!Event::Text(Some("true".to_string())).succeeded());
    assert!(!Event::Text(None).succeeded());
}

#[test]
fn closing_output_has_four_shapes() {
    let opened = "Take a look at your browser. A GitHub issue has been created and your environment info has been copied to your clipboard.";
    let with_link = "Your environment info has been copied to your clipboard. Click this link to create a GitHub issue:\n\n  ";
    let unavailable = "\n\nYour clipboard was unavailable, so here's the summary of your environment:\n\n";
    assert_eq!(opened, OPENED_MESSAGE);
    assert_eq!(with_link, LINK_MESSAGE);
    assert_eq!(unavailable, CLIPBOARD_MESSAGE);

    assert_eq!(opened, closing_output(true, None, true, "LINK", "REPORT"));
    assert_eq!(opened, closing_output(true, Some("slug"), true, "LINK", "REPORT"));
    assert_eq!(
        format!("{}{}REPORT\n", opened, unavailable),
        closing_output(true, None, false, "LINK", "REPORT")
    );
    assert_eq!(
        format!("{}LINK\n", with_link),
        closing_output(false, None, true, "LINK", "REPORT")
    );
    assert_eq!(
        format!("{}https://git.io/slug\n", with_link),
        closing_output(false, Some("slug"), true, "LINK", "REPORT")
    );
    assert_eq!(
        format!("{}LINK\n{}REPORT\n", with_link, unavailable),
        closing_output(false, None, false, "LINK", "REPORT")
    );
    assert_eq!(
        format!("{}https://git.io/slug\n{}REPORT\n", with_link, unavailable),
        closing_output(false, Some("slug"), false, "LINK", "REPORT")
    );
}

#[test]
fn shell_config_path_follows_home_and_shell() {
    let (mut session, _) = create("0.1.2", "Linux", "1.2.3", false);
    assert_eq!(None, session.shell_config_path());

    session.step(Event::Text(Some("/test/home".to_string())));
    assert_eq!(None, session.shell_config_path());

    session.step(Event::Text(Some("bash".to_string())));
    assert_eq!(Some("/test/home/.bashrc".to_string()), session.shell_config_path());
    assert_eq!(Phase::ShellVersion, session.phase);
}
