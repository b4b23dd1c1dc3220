//! The whole gesture, from the key to the host's command line, against a host that records every
//! call and never creates a tab.

use herdr_runner::controller::runner::{Step, TabReply};
use herdr_runner::controller::{Controller, Effects, Modal, PromptMode, PromptState};
use herdr_runner::input::{map_key, Intent, KeyCode, KeyEvent, KeyModifiers};
use herdr_runner::prompt::PromptInput;
use herdr_runner::runner::{RootPane, TabCreated, TabCreatedResult, HISTORY_MAX};
use herdr_runner::tree::{Node, NodeKind};
use std::path::PathBuf;

fn key(code: KeyCode) -> KeyEvent {
    KeyEvent {
        code,
        modifiers: KeyModifiers::none(),
    }
}

/// How the recording host answers `tab create`.
#[derive(Clone, Copy)]
enum Reply {
    /// A well-formed reply naming pane `w9:pQ`.
    Pane,
    /// A well-formed reply with no pane in it (herdr changed shape, or failed in part).
    NoPane,
    /// A reply that could not be read.
    Unreadable,
    /// The call itself failed (herdr not running, non-zero exit).
    Error,
    /// The tab was created, and `pane run` then failed.
    PaneThenError,
}

/// A controller with a host that records every argument vector.
struct Viewer {
    ctrl: Controller,
    calls: Vec<Vec<String>>,
    reply: Reply,
}

impl Viewer {
    fn with_host(reply: Reply) -> Viewer {
        let mut ctrl = Controller::new(None);
        ctrl.set_host(true);
        Viewer {
            ctrl,
            calls: Vec::new(),
            reply,
        }
    }

    fn select(&mut self, path: &str, kind: NodeKind) {
        self.ctrl.select(Some(Node {
            path: PathBuf::from(path),
            kind,
        }));
    }

    fn press(&mut self, event: KeyEvent) -> Effects {
        let mut step = self.ctrl.run_command_key(event);
        loop {
            step = match step {
                Step::Done(effects) => return effects,
                Step::CreateTab(request) => {
                    let args = request.args().iter().map(|s| s.to_string()).collect();
                    self.calls.push(args);
                    let reply = match self.reply {
                        Reply::Pane | Reply::PaneThenError => {
                            TabReply::Answered(Some(created(Some("w9:pQ"))))
                        }
                        Reply::NoPane => TabReply::Answered(Some(created(None))),
                        Reply::Unreadable => TabReply::Answered(None),
                        Reply::Error => TabReply::Failed,
                    };
                    self.ctrl.tab_answered(request, reply)
                }
                Step::RunInPane(request) => {
                    let args = request.args().iter().map(|s| s.to_string()).collect();
                    self.calls.push(args);
                    let started = !matches!(self.reply, Reply::PaneThenError);
                    Step::Done(self.ctrl.pane_answered(request, started))
                }
            };
        }
    }

    fn type_text(&mut self, text: &str) {
        for c in text.chars() {
            self.press(key(KeyCode::Char(c)));
        }
    }

    /// `!`, the command, enter.
    fn run(&mut self, command: &str) {
        self.ctrl.handle(Intent::RunCommand);
        self.type_text(command);
        self.press(key(KeyCode::Enter));
    }

    fn notice(&self) -> &str {
        self.ctrl.action_notice().map_or("", |n| n.as_str())
    }
}

fn created(pane_id: Option<&str>) -> TabCreated {
    TabCreated {
        result: TabCreatedResult {
            root_pane: pane_id.map(|id| RootPane {
                pane_id: Some(id.to_string()),
            }),
        },
    }
}

#[test]
fn bang_runs_the_command_in_a_new_tab_rooted_at_the_selected_directory() {
    // The whole gesture: `!` opens the prompt, the typed command is confirmed with Enter, and the
    // host gets exactly two calls: create the tab at the selected directory, then run the command
    // in that tab's root pane.
    let mut viewer = Viewer::with_host(Reply::Pane);
    viewer.select("/r/sub", NodeKind::Dir);

    assert_eq!(map_key(key(KeyCode::Char('!'))), Some(Intent::RunCommand));
    viewer.ctrl.handle(Intent::RunCommand);
    assert!(viewer.ctrl.prompt_open(), "`!` opens the prompt");
    viewer.type_text("npm test");
    viewer.press(key(KeyCode::Enter));
    assert!(!viewer.ctrl.prompt_open(), "confirming closes the prompt");

    let calls = &viewer.calls;
    assert_eq!(calls.len(), 2, "exactly two host calls: {calls:?}");
    assert_eq!(
        calls[0],
        vec!["tab", "create", "--cwd", "/r/sub", "--label", "npm test", "--focus"],
        "the tab is created at the SELECTED directory and named after the command"
    );
    assert_eq!(
        calls[1],
        vec!["pane", "run", "w9:pQ", "npm test"],
        "the command runs in the pane herdr reported for the new tab"
    );
}

#[test]
fn a_selected_file_runs_in_the_directory_holding_it() {
    // With a file selected there is still an obvious place to run, the directory it lives in.
    let mut viewer = Viewer::with_host(Reply::Pane);
    viewer.select("/r/sub/inner.txt", NodeKind::File);

    viewer.run("code .");

    assert_eq!(
        viewer.calls[0][3], "/r/sub",
        "a file's command runs in its parent directory"
    );
}

#[test]
fn a_file_and_its_directory_give_the_same_host_calls() {
    let mut on_file = Viewer::with_host(Reply::Pane);
    on_file.select("/r/sub/inner.txt", NodeKind::File);
    on_file.run("make");
    let mut on_dir = Viewer::with_host(Reply::Pane);
    on_dir.select("/r/sub", NodeKind::Dir);
    on_dir.run("make");
    assert_eq!(on_file.calls, on_dir.calls);
    assert_eq!(on_file.calls.len(), 2);
    assert_eq!(on_file.notice(), on_dir.notice());
}

#[test]
fn the_command_reaches_the_shell_as_one_unsplit_argument() {
    let mut viewer = Viewer::with_host(Reply::Pane);
    viewer.select("/r/sub", NodeKind::Dir);

    viewer.run("npm test && echo done");

    assert_eq!(
        viewer.calls[1],
        vec!["pane", "run", "w9:pQ", "npm test && echo done"],
        "pipes/&&/quotes travel as one element for the shell to parse"
    );
}

#[test]
fn a_command_starting_with_a_dash_is_hidden_from_herdrs_own_cli() {
    let mut viewer = Viewer::with_host(Reply::Pane);
    viewer.select("/r/sub", NodeKind::Dir);

    viewer.run("--version");

    assert_eq!(
        viewer.calls[1][3], " --version",
        "a leading dash is prefixed with a space so herdr cannot read it as a flag"
    );
}

#[test]
fn the_prompt_opens_empty_so_typing_never_appends_to_a_leftover_command() {
    let mut viewer = Viewer::with_host(Reply::Pane);
    viewer.select("/r/sub", NodeKind::Dir);

    viewer.run("git log --oneline -3");

    viewer.ctrl.handle(Intent::RunCommand);
    assert_eq!(
        viewer.ctrl.prompt_query(),
        "",
        "the prompt reopens empty"
    );
    viewer.type_text("code .");
    assert_eq!(
        viewer.ctrl.prompt_query(),
        "code .",
        "what you type is the whole command"
    );
    viewer.press(key(KeyCode::Enter));

    assert_eq!(viewer.calls[3][3], "code .", "and that is what runs");
}

#[test]
fn up_and_down_walk_the_session_history() {
    let mut viewer = Viewer::with_host(Reply::Pane);
    viewer.select("/r/sub", NodeKind::Dir);

    for command in ["npm test", "code ."] {
        viewer.run(command);
    }

    viewer.ctrl.handle(Intent::RunCommand);
    assert_eq!(viewer.ctrl.prompt_query(), "");
    viewer.press(key(KeyCode::Up));
    assert_eq!(viewer.ctrl.prompt_query(), "code .", "↑ recalls the newest");
    viewer.press(key(KeyCode::Up));
    assert_eq!(viewer.ctrl.prompt_query(), "npm test", "↑ again goes older");
    viewer.press(key(KeyCode::Up));
    assert_eq!(
        viewer.ctrl.prompt_query(),
        "npm test",
        "and stops at the oldest"
    );
    viewer.press(key(KeyCode::Down));
    assert_eq!(
        viewer.ctrl.prompt_query(),
        "code .",
        "↓ walks back toward newest"
    );
    viewer.press(key(KeyCode::Down));
    assert_eq!(
        viewer.ctrl.prompt_query(),
        "",
        "↓ past the newest returns to the empty line"
    );
}

#[test]
fn a_recalled_command_can_be_edited_and_run() {
    let mut viewer = Viewer::with_host(Reply::Pane);
    viewer.select("/r/sub", NodeKind::Dir);

    viewer.run("npm test");

    viewer.ctrl.handle(Intent::RunCommand);
    viewer.press(key(KeyCode::Up)); // "npm test"
    for _ in 0..4 {
        viewer.press(key(KeyCode::Backspace)); // → "npm "
    }
    viewer.type_text("run build");
    viewer.press(key(KeyCode::Enter));

    assert_eq!(viewer.calls[3][3], "npm run build");
}

#[test]
fn esc_leaves_no_trace() {
    // Cancel must be free: prompt closed, no host call, nothing added to the history.
    let mut viewer = Viewer::with_host(Reply::Pane);
    viewer.select("/r/sub", NodeKind::Dir);

    viewer.ctrl.handle(Intent::RunCommand);
    viewer.type_text("rm -rf /");
    viewer.press(key(KeyCode::Esc));

    assert!(!viewer.ctrl.prompt_open(), "Esc closes the prompt");
    assert!(
        viewer.calls.is_empty(),
        "a cancelled command never reaches the host"
    );

    viewer.ctrl.handle(Intent::RunCommand);
    viewer.press(key(KeyCode::Up));
    assert_eq!(
        viewer.ctrl.prompt_query(),
        "",
        "and it is not in the history either — ↑ finds nothing"
    );
}

#[test]
fn an_empty_command_runs_nothing() {
    let mut viewer = Viewer::with_host(Reply::Pane);
    viewer.select("/r/sub", NodeKind::Dir);

    viewer.run("   "); // whitespace only: trimmed to empty

    assert!(!viewer.ctrl.prompt_open());
    assert!(
        viewer.calls.is_empty(),
        "an empty command never reaches the host"
    );
}

#[test]
fn without_herdr_the_gesture_explains_itself_instead_of_opening_a_prompt() {
    let mut ctrl = Controller::new(Some(Node {
        path: PathBuf::from("/r/sub"),
        kind: NodeKind::Dir,
    })); // deliberately no set_host

    ctrl.handle(Intent::RunCommand);
    assert!(!ctrl.prompt_open(), "no prompt without a host");
    assert!(
        ctrl.action_notice().is_some_and(|n| n.contains("herdr")),
        "the notice names the missing piece, got {:?}",
        ctrl.action_notice()
    );
}

#[test]
fn a_failing_host_call_degrades_to_a_notice() {
    // The second call is never attempted: there is no pane to run in.
    let mut viewer = Viewer::with_host(Reply::Error);
    viewer.select("/r/sub", NodeKind::Dir);

    viewer.run("npm test");

    assert_eq!(viewer.calls.len(), 1, "only the create was tried");
    assert!(
        viewer
            .ctrl
            .action_notice()
            .is_some_and(|n| n.contains("Run:")),
        "the failure is reported, got {:?}",
        viewer.ctrl.action_notice()
    );
}

#[test]
fn a_reply_without_a_pane_degrades_to_a_notice() {
    // A well-formed reply without a pane must not send a second call with a guessed id.
    let mut viewer = Viewer::with_host(Reply::NoPane);
    viewer.select("/r/sub", NodeKind::Dir);

    viewer.run("npm test");

    assert_eq!(viewer.calls.len(), 1, "no run without a pane id");
    assert!(viewer
        .ctrl
        .action_notice()
        .is_some_and(|n| n.contains("Run:")));
}

#[test]
fn each_outcome_has_its_own_notice() {
    let cases = [
        (Reply::Pane, 2, "Running `npm test`"),
        (
            Reply::NoPane,
            1,
            "Run: herdr reported no pane for the new tab",
        ),
        (
            Reply::Unreadable,
            1,
            "Run: herdr reported no pane for the new tab",
        ),
        (Reply::Error, 1, "Run: herdr could not open a tab"),
        (
            Reply::PaneThenError,
            2,
            "Run: herdr could not start the command",
        ),
    ];
    for (reply, calls, notice) in cases {
        let mut viewer = Viewer::with_host(reply);
        viewer.select("/r/sub", NodeKind::Dir);
        viewer.run("npm test");
        assert_eq!(viewer.calls.len(), calls);
        assert_eq!(viewer.notice(), notice);
        assert_eq!(viewer.ctrl.command_history(), &vec!["npm test"]);
        assert!(!viewer.ctrl.prompt_open());
    }
}

#[test]
fn a_long_command_is_ellipsized_in_label_and_notice_only() {
    let mut viewer = Viewer::with_host(Reply::Pane);
    viewer.select("/r/sub", NodeKind::Dir);
    viewer.run("cargo test --all-features --workspace");
    assert_eq!(viewer.calls[0][5], "cargo test --all-featur…");
    assert_eq!(viewer.calls[1][3], "cargo test --all-features --workspace");
    assert_eq!(viewer.notice(), "Running `cargo test --all-featur…`");
}

#[test]
fn an_unsafe_pane_id_is_not_passed_on() {
    let mut ctrl = Controller::new(Some(Node {
        path: PathBuf::from("/r"),
        kind: NodeKind::Dir,
    }));
    ctrl.set_host(true);
    match ctrl.run_command("ls") {
        Step::CreateTab(request) => {
            let reply = TabReply::Answered(Some(created(Some("--workspace"))));
            assert!(matches!(
                ctrl.tab_answered(request, reply),
                Step::Done(Effects { redraw: true })
            ));
        }
        other => panic!("{other:?}"),
    }
    assert_eq!(
        ctrl.action_notice().unwrap(),
        "Run: herdr reported no pane for the new tab"
    );
}

#[test]
fn a_retry_is_bang_up_enter() {
    let mut viewer = Viewer::with_host(Reply::Error);
    viewer.select("/r/sub", NodeKind::Dir);
    viewer.run("npm test");
    viewer.reply = Reply::Pane;
    viewer.ctrl.handle(Intent::RunCommand);
    viewer.press(key(KeyCode::Up));
    viewer.press(key(KeyCode::Enter));
    assert_eq!(viewer.calls.len(), 3);
    assert_eq!(viewer.calls[1], viewer.calls[0]);
    assert_eq!(viewer.calls[2], vec!["pane", "run", "w9:pQ", "npm test"]);
    assert_eq!(viewer.ctrl.command_history(), &vec!["npm test"]);
}

#[test]
fn without_a_selection_there_is_nowhere_to_run() {
    let mut viewer = Viewer::with_host(Reply::Pane);
    assert_eq!(
        viewer.ctrl.handle(Intent::RunCommand),
        Effects { redraw: true }
    );
    assert!(!viewer.ctrl.prompt_open());
    assert_eq!(viewer.notice(), "Run: select a file or directory first");

    viewer.select("/", NodeKind::File);
    viewer.ctrl.handle(Intent::RunCommand);
    assert!(!viewer.ctrl.prompt_open(), "a root file has no directory");
}

#[test]
fn a_run_that_loses_its_target_or_its_host_says_so_and_is_remembered() {
    let mut viewer = Viewer::with_host(Reply::Pane);
    viewer.select("/r/sub", NodeKind::Dir);
    viewer.ctrl.handle(Intent::RunCommand);
    viewer.type_text("one");
    viewer.ctrl.select(None);
    viewer.press(key(KeyCode::Enter));
    assert_eq!(viewer.notice(), "Run: select a file or directory first");

    viewer.select("/r/sub", NodeKind::Dir);
    viewer.ctrl.handle(Intent::RunCommand);
    viewer.type_text("two");
    viewer.ctrl.set_host(false);
    viewer.press(key(KeyCode::Enter));
    assert_eq!(viewer.notice(), "Run: needs herdr to open a tab");

    assert!(viewer.calls.is_empty());
    assert_eq!(viewer.ctrl.command_history(), &vec!["one", "two"]);
}

#[test]
fn a_picker_or_a_finder_keeps_the_keys() {
    for modal in [Modal::Picker, Modal::Finder] {
        let mut viewer = Viewer::with_host(Reply::Pane);
        viewer.select("/r/sub", NodeKind::Dir);
        viewer.ctrl.set_modal(modal);
        assert_eq!(
            viewer.ctrl.handle(Intent::RunCommand),
            Effects { redraw: false }
        );
        assert!(!viewer.ctrl.prompt_open());
        assert_eq!(viewer.ctrl.action_notice(), None);
    }
}

#[test]
fn the_prompt_replaces_another_prompt_and_saves_the_scroll() {
    let mut viewer = Viewer::with_host(Reply::Pane);
    viewer.select("/r/sub", NodeKind::Dir);
    viewer.ctrl.set_content_scroll(17);
    viewer.ctrl.set_modal(Modal::Prompt(PromptState {
        mode: PromptMode::GoToLine,
        input: PromptInput::with_text("12".to_string()),
        saved_scroll: 3,
    }));
    viewer.ctrl.handle(Intent::RunCommand);
    match viewer.ctrl.modal() {
        Modal::Prompt(prompt) => {
            assert_eq!(prompt.mode, PromptMode::RunCommand);
            assert_eq!(prompt.input.query(), "");
            assert_eq!(prompt.saved_scroll, 17);
        }
        other => panic!("{other:?}"),
    }
}

#[test]
fn a_line_is_edited_in_the_middle() {
    let mut viewer = Viewer::with_host(Reply::Pane);
    viewer.select("/r/sub", NodeKind::Dir);
    viewer.ctrl.handle(Intent::RunCommand);
    viewer.type_text("эх!");
    viewer.press(key(KeyCode::Left));
    viewer.press(key(KeyCode::Char('о')));
    assert_eq!(viewer.ctrl.prompt_query(), "эхо!");
    viewer.press(key(KeyCode::Home));
    viewer.press(key(KeyCode::Backspace));
    viewer.press(key(KeyCode::Left));
    viewer.press(key(KeyCode::Char('>')));
    viewer.press(key(KeyCode::Right));
    viewer.press(key(KeyCode::Backspace));
    assert_eq!(viewer.ctrl.prompt_query(), ">хо!");
    viewer.press(key(KeyCode::End));
    viewer.press(key(KeyCode::Right));
    viewer.press(key(KeyCode::Backspace));
    assert_eq!(viewer.ctrl.prompt_query(), ">хо");
}

#[test]
fn only_keys_with_at_most_shift_type_their_character() {
    let mut viewer = Viewer::with_host(Reply::Pane);
    viewer.select("/r/sub", NodeKind::Dir);
    viewer.ctrl.handle(Intent::RunCommand);
    let shift = KeyModifiers {
        shift: true,
        ..KeyModifiers::none()
    };
    let control = KeyModifiers {
        control: true,
        ..KeyModifiers::none()
    };
    let pressed = viewer.press(KeyEvent {
        code: KeyCode::Char('A'),
        modifiers: shift,
    });
    assert_eq!(pressed, Effects { redraw: true });
    let pressed = viewer.press(KeyEvent {
        code: KeyCode::Char('b'),
        modifiers: control,
    });
    assert_eq!(pressed, Effects { redraw: false });
    assert_eq!(
        viewer.press(key(KeyCode::Other)),
        Effects { redraw: false }
    );
    assert_eq!(viewer.ctrl.prompt_query(), "A");
    let control_bang = KeyEvent {
        code: KeyCode::Char('!'),
        modifiers: control,
    };
    assert_eq!(map_key(control_bang), None);
    assert_eq!(map_key(key(KeyCode::Char('?'))), None);
    assert_eq!(map_key(key(KeyCode::Enter)), None);
}

#[test]
fn editing_does_not_move_the_history_walk() {
    let mut viewer = Viewer::with_host(Reply::Pane);
    viewer.select("/r/sub", NodeKind::Dir);
    for command in ["one", "two", "three"] {
        viewer.run(command);
    }
    viewer.ctrl.handle(Intent::RunCommand);
    viewer.press(key(KeyCode::Up));
    viewer.type_text(" more");
    assert_eq!(viewer.ctrl.prompt_query(), "three more");
    viewer.press(key(KeyCode::Up));
    assert_eq!(viewer.ctrl.prompt_query(), "two");
    assert_eq!(viewer.press(key(KeyCode::Up)), Effects { redraw: true });
    assert_eq!(viewer.press(key(KeyCode::Up)), Effects { redraw: false });
    viewer.type_text("!");
    assert_eq!(viewer.ctrl.prompt_query(), "one!");
}

#[test]
fn the_history_of_a_session_is_bounded_and_without_repeats() {
    let mut viewer = Viewer::with_host(Reply::Pane);
    viewer.select("/r/sub", NodeKind::Dir);
    for i in 0..HISTORY_MAX + 3 {
        viewer.run(&format!("cmd {i}"));
        viewer.run(&format!("cmd {i}"));
    }
    let history = viewer.ctrl.command_history();
    assert_eq!(history.len(), HISTORY_MAX);
    assert_eq!(history[0], "cmd 3");
    assert_eq!(history[HISTORY_MAX - 1], format!("cmd {}", HISTORY_MAX + 2));
}

#[test]
fn a_command_is_trimmed_before_it_is_run_and_remembered() {
    let mut viewer = Viewer::with_host(Reply::Pane);
    viewer.select("/r/sub", NodeKind::Dir);
    viewer.run("  npm test \t");
    assert_eq!(viewer.calls[1][3], "npm test");
    assert_eq!(viewer.ctrl.command_history(), &vec!["npm test"]);
}

#[test]
fn keys_without_a_prompt_change_nothing_but_ask_for_a_redraw() {
    let mut viewer = Viewer::with_host(Reply::Pane);
    viewer.select("/r/sub", NodeKind::Dir);
    assert_eq!(
        viewer.press(key(KeyCode::Char('x'))),
        Effects { redraw: true }
    );
    assert_eq!(viewer.press(key(KeyCode::Enter)), Effects { redraw: true });
    assert!(viewer.calls.is_empty());
    assert!(viewer.ctrl.command_history().is_empty());
    assert_eq!(viewer.ctrl.prompt_query(), "");
}

#[test]
fn a_directory_whose_path_is_no_text_is_refused_with_a_notice() {
    let mut raw = PathBuf::new().into_os_string();
    assert!(raw.is_empty());
    raw = serde_json::from_str(r#"{"Unix":[47,114,47,255]}"#).unwrap();
    let mut ctrl = Controller::new(Some(Node {
        path: PathBuf::from(raw),
        kind: NodeKind::Dir,
    }));
    ctrl.set_host(true);
    assert!(matches!(
        ctrl.run_command("ls"),
        Step::Done(Effects { redraw: true })
    ));
    assert_eq!(
        ctrl.action_notice().unwrap(),
        "Run: directory path is not valid UTF-8"
    );
    assert_eq!(ctrl.command_history(), &vec!["ls"]);
}
