//! The pure half of the gesture, on given values.

use herdr_runner::launch::is_flag_safe;
use herdr_runner::runner::{
    history_step, pane_run_args, parse_root_pane_id, push_history, shell_arg, tab_create_args,
    tab_label, target_dir, RootPane, TabCreated, TabCreatedResult, HISTORY_MAX, LABEL_MAX,
};
use herdr_runner::tree::NodeKind;
use serde_json::Value;
use std::path::{Path, PathBuf};

/// Reads herdr's reply: `result` must be there, `root_pane` and `pane_id` may be missing or null.
fn read_reply(json: &str) -> Option<TabCreated> {
    let reply: Value = serde_json::from_str(json).ok()?;
    let result = reply.as_object()?.get("result")?.as_object()?;
    let root_pane = match result.get("root_pane") {
        None | Some(Value::Null) => None,
        Some(pane) => {
            let pane_id = match pane.as_object()?.get("pane_id") {
                None | Some(Value::Null) => None,
                Some(id) => Some(id.as_str()?.to_string()),
            };
            Some(RootPane { pane_id })
        }
    };
    Some(TabCreated {
        result: TabCreatedResult { root_pane },
    })
}

fn reply_with(pane_id: Option<&str>) -> Option<TabCreated> {
    Some(TabCreated {
        result: TabCreatedResult {
            root_pane: Some(RootPane {
                pane_id: pane_id.map(str::to_string),
            }),
        },
    })
}

#[test]
fn target_dir_is_the_directory_itself_or_a_files_parent() {
    assert_eq!(
        target_dir(Path::new("/r/src"), NodeKind::Dir),
        Some(PathBuf::from("/r/src")),
        "a directory runs in itself"
    );
    assert_eq!(
        target_dir(Path::new("/r/src/main.rs"), NodeKind::File),
        Some(PathBuf::from("/r/src")),
        "a file runs in the directory holding it"
    );
    assert_eq!(
        target_dir(Path::new("/"), NodeKind::File),
        None,
        "a parentless file has nowhere to run"
    );
}

#[test]
fn target_dir_of_the_root_and_of_a_bare_name() {
    assert_eq!(
        target_dir(Path::new("/"), NodeKind::Dir),
        Some(PathBuf::from("/"))
    );
    assert_eq!(
        target_dir(Path::new("main.rs"), NodeKind::File),
        Some(PathBuf::from(""))
    );
    assert_eq!(target_dir(Path::new(""), NodeKind::File), None);
}

#[test]
fn a_file_and_the_directory_holding_it_have_the_same_target() {
    for dir in ["/r/src", "/r/src/", "/", "src", "", "./a", "a/./b", ".."] {
        for name in ["main.rs", ".hidden", "с пробелом", "-x"] {
            let dir = Path::new(dir);
            assert_eq!(
                target_dir(&dir.join(name), NodeKind::File),
                target_dir(dir, NodeKind::Dir),
                "{name} in {dir:?}"
            );
        }
    }
}

/// A path without the separators and the `.` components at its end.
fn settled(path: &str) -> &str {
    let mut rest = path;
    while rest.len() > 1 && (rest.ends_with('/') || rest.ends_with("/.")) {
        rest = &rest[..rest.len() - 1];
    }
    rest
}

#[test]
fn a_files_target_is_its_path_without_the_last_component() {
    // Every path of up to eight characters made of a letter, a dot and a separator.
    let mut paths = vec![String::new()];
    let mut from = 0;
    for _ in 0..8 {
        let to = paths.len();
        for i in from..to {
            for c in ['a', '.', '/'] {
                paths.push(format!("{}{c}", paths[i]));
            }
        }
        from = to;
    }
    assert_eq!(paths.len(), 9841);
    for path in paths.iter().filter(|path| !path.starts_with("//")) {
        let end = settled(path);
        let name_at = end.rfind('/').map_or(0, |i| i + 1);
        let expected = if name_at == end.len() {
            None
        } else {
            Some(settled(&end[..name_at]).to_string())
        };
        let dir = target_dir(Path::new(path), NodeKind::File);
        let text = dir.map(|dir| dir.to_str().unwrap().to_string());
        assert_eq!(text, expected, "the parent of {path:?}");
        assert_eq!(
            Path::new(path),
            Path::new(end),
            "trailing separators and dots make no other path"
        );
    }
}

#[test]
fn a_files_target_is_written_as_its_directory_is() {
    for (path, dir) in [
        ("/r/src/main.rs", "/r/src"),
        ("/main.rs", "/"),
        ("main.rs", ""),
        ("./main.rs", "."),
        ("../main.rs", ".."),
        ("/r/src//main.rs", "/r/src"),
        ("/r/./main.rs", "/r"),
        ("/r/main.rs/", "/r"),
        ("/r/..", "/r"),
    ] {
        let target = target_dir(Path::new(path), NodeKind::File).unwrap();
        assert_eq!(target.to_str(), Some(dir), "the parent of {path:?}");
    }
}

#[test]
fn tab_label_is_the_command_ellipsized_on_character_boundaries() {
    assert_eq!(tab_label("code ."), "code .");
    assert_eq!(tab_label("  npm test  "), "npm test", "trimmed");
    let long = "cargo test --all-features --workspace";
    let label = tab_label(long);
    assert_eq!(label.chars().count(), LABEL_MAX, "ellipsized to the cap");
    assert!(label.ends_with('…'));
    // Multibyte must not be cut mid-character (it would panic on a byte slice).
    let cyrillic = "эхо ".repeat(20);
    assert_eq!(tab_label(&cyrillic).chars().count(), LABEL_MAX);
}

#[test]
fn tab_label_at_the_cap_and_one_past_it() {
    assert_eq!(tab_label(&"x".repeat(LABEL_MAX)), "x".repeat(LABEL_MAX));
    assert_eq!(
        tab_label(&"x".repeat(LABEL_MAX + 1)),
        format!("{}…", "x".repeat(LABEL_MAX - 1))
    );
    assert_eq!(
        tab_label("cargo test --all-features --workspace"),
        "cargo test --all-featur…"
    );
    assert_eq!(tab_label(" \t\n"), "");
}

#[test]
fn tab_label_trims_exactly_the_white_space_characters() {
    for c in (0..=0x10ffffu32).filter_map(char::from_u32) {
        let code = c as u32;
        let white = (0x9..=0xd).contains(&code)
            || (0x2000..=0x200a).contains(&code)
            || [
                0x20, 0x85, 0xa0, 0x1680, 0x2028, 0x2029, 0x202f, 0x205f, 0x3000,
            ]
            .contains(&code);
        let padded = format!("{c}a{c}b{c}");
        let expected = if white {
            format!("a{c}b")
        } else {
            padded.clone()
        };
        assert_eq!(tab_label(&padded), expected, "U+{code:04X}");
    }
}

#[test]
fn host_argv_are_the_verified_shapes() {
    // Pinned against a live herdr 0.7.x: if either shape changes, this is the tripwire.
    assert_eq!(
        tab_create_args("/r/src", "npm test"),
        vec![
            "tab", "create", "--cwd", "/r/src", "--label", "npm test", "--focus"
        ]
    );
    assert_eq!(
        pane_run_args("w2:pA", "npm test"),
        vec!["pane", "run", "w2:pA", "npm test"]
    );
}

#[test]
fn shell_arg_guards_only_a_leading_dash() {
    assert_eq!(
        shell_arg("code ."),
        "code .",
        "ordinary commands are untouched"
    );
    assert_eq!(
        shell_arg("--version"),
        " --version",
        "a leading dash is hidden from herdr's own CLI by one space"
    );
    assert_eq!(
        shell_arg("echo -n hi"),
        "echo -n hi",
        "a dash INSIDE the command is not the CLI's business"
    );
}

#[test]
fn shell_arg_of_nothing_and_of_a_dash_alone() {
    assert_eq!(shell_arg(""), "");
    assert_eq!(shell_arg("-"), " -");
    assert_eq!(shell_arg(" -x"), " -x");
}

#[test]
fn push_history_appends_and_collapses_repeats() {
    let mut h = Vec::new();
    push_history(&mut h, "npm test");
    push_history(&mut h, "npm test"); // the same command again: one entry to walk back through
    push_history(&mut h, "code .");
    assert_eq!(h, vec!["npm test", "code ."]);
    // A repeat that is not consecutive is a real entry: the walk order stays chronological.
    push_history(&mut h, "npm test");
    assert_eq!(h, vec!["npm test", "code .", "npm test"]);
}

#[test]
fn push_history_drops_the_oldest_past_the_cap() {
    let mut h = Vec::new();
    for i in 0..HISTORY_MAX + 5 {
        push_history(&mut h, &format!("cmd {i}"));
    }
    assert_eq!(h.len(), HISTORY_MAX);
    assert_eq!(h.first().unwrap(), "cmd 5", "the oldest fell off");
    assert_eq!(h.last().unwrap(), &format!("cmd {}", HISTORY_MAX + 4));
}

#[test]
fn a_full_history_keeps_its_oldest_entry_on_a_repeat() {
    let mut h = Vec::new();
    for i in 0..HISTORY_MAX {
        push_history(&mut h, &format!("cmd {i}"));
    }
    assert_eq!(h.len(), HISTORY_MAX);
    push_history(&mut h, &format!("cmd {}", HISTORY_MAX - 1));
    assert_eq!(h.len(), HISTORY_MAX);
    assert_eq!(h.first().unwrap(), "cmd 0");
}

#[test]
fn history_step_walks_shell_style_from_the_empty_line() {
    let len = 3; // [oldest, middle, newest] = indices 0,1,2
    // ↑ from the empty line lands on the NEWEST, then walks older and stops at the oldest.
    assert_eq!(history_step(len, None, true), Some(2));
    assert_eq!(history_step(len, Some(2), true), Some(1));
    assert_eq!(history_step(len, Some(1), true), Some(0));
    assert_eq!(history_step(len, Some(0), true), Some(0), "stops at oldest");
    // ↓ walks back toward the newest, then off the end to the empty line.
    assert_eq!(history_step(len, Some(0), false), Some(1));
    assert_eq!(
        history_step(len, Some(2), false),
        None,
        "past newest → empty"
    );
    assert_eq!(history_step(len, None, false), None, "already empty");
}

#[test]
fn history_step_is_inert_on_an_empty_history() {
    assert_eq!(history_step(0, None, true), None);
    assert_eq!(history_step(0, None, false), None);
}

#[test]
fn history_step_from_a_position_outside_the_history() {
    assert_eq!(history_step(0, Some(4), true), None);
    assert_eq!(history_step(3, Some(7), true), Some(6));
    assert_eq!(history_step(3, Some(7), false), None);
}

#[test]
fn down_undoes_up_off_the_oldest_entry() {
    for pos in [None, Some(4), Some(3), Some(2), Some(1)] {
        assert_eq!(history_step(5, history_step(5, pos, true), false), pos);
    }
    assert_eq!(
        history_step(5, history_step(5, Some(0), true), false),
        Some(1),
        "up does not move from the oldest entry, down does"
    );
    for pos in [Some(0), Some(1), Some(2), Some(3), Some(4)] {
        assert_eq!(history_step(5, history_step(5, pos, false), true), pos);
    }
}

#[test]
fn parse_root_pane_id_reads_the_new_tabs_pane() {
    // The real reply shape, trimmed to what is read.
    let json = r#"{"id":"cli:tab:create","result":{"root_pane":{"pane_id":"w2:pD","cwd":"/r"},
                       "tab":{"tab_id":"w2:t7"}},"type":"tab_created"}"#;
    assert_eq!(
        parse_root_pane_id(read_reply(json)),
        Some("w2:pD".to_string())
    );
}

#[test]
fn parse_root_pane_id_rejects_junk_and_unsafe_ids() {
    assert_eq!(parse_root_pane_id(read_reply("not json")), None);
    assert_eq!(
        parse_root_pane_id(read_reply(r#"{"result":{}}"#)),
        None,
        "no pane"
    );
    assert_eq!(
        parse_root_pane_id(read_reply(
            r#"{"result":{"root_pane":{"pane_id":"--workspace"}}}"#
        )),
        None,
        "an id that could option-inject is refused, not passed along"
    );
    assert_eq!(
        parse_root_pane_id(read_reply(r#"{"result":{"root_pane":{"pane_id":""}}}"#)),
        None,
        "an empty id is not a pane"
    );
}

#[test]
fn parse_root_pane_id_reads_only_a_present_id() {
    assert_eq!(parse_root_pane_id(None), None);
    assert_eq!(parse_root_pane_id(reply_with(None)), None);
    assert_eq!(
        parse_root_pane_id(reply_with(Some("w-1:p-2"))),
        Some("w-1:p-2".to_string())
    );
}

#[test]
fn flag_safety_is_about_the_first_character() {
    assert!(is_flag_safe("w2:pD"));
    assert!(is_flag_safe("w-2"));
    assert!(!is_flag_safe("-w2"));
    assert!(!is_flag_safe("-"));
    assert!(!is_flag_safe(""));
}
