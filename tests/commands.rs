use rez_launcher::launch::{pick_launcher, shell_invocation, terminal_invocation, Launcher};
use rez_launcher::names::{distinct_texts, keep_text_values, StoredValue};
use rez_launcher::object_id::parse_stage_id;
use rez_launcher::queries::{all_collections_result, collections_by_uri_result, tools_or_empty};
use rez_launcher::snapshot::{
    env_command, fresh_snapshot_file_name, generation_command, join_with_spaces, load_command,
    snapshot_file_name, tool_command,
};

fn strings(v: &[&str]) -> Vec<String> {
    v.iter().map(|s| s.to_string()).collect()
}

#[test]
fn resolver_command_lines() {
    let packages = strings(&["maya-2024", "arnold-5"]);
    assert_eq!(generation_command(&packages, "/tmp/out.rxt"), "rez env maya-2024 arnold-5 -o /tmp/out.rxt");
    assert_eq!(load_command("/tmp/in.rxt"), "rez env -i /tmp/in.rxt");
    assert_eq!(tool_command("maya", &packages), "rez env maya-2024 arnold-5 -- maya");
    assert_eq!(env_command(&packages), "rez env maya-2024 arnold-5");
    assert_eq!(join_with_spaces(&vec![]), "");
    assert_eq!(join_with_spaces(&strings(&["one"])), "one");
}

#[test]
fn terminal_and_shell_arguments() {
    assert_eq!(pick_launcher(true, true, true), Launcher::WindowsConsole);
    assert_eq!(pick_launcher(false, true, true), Launcher::Xterm);
    assert_eq!(pick_launcher(false, false, true), Launcher::GnomeTerminal);
    assert_eq!(pick_launcher(false, false, false), Launcher::DefaultTerminal);
    assert_eq!(
        terminal_invocation(Launcher::WindowsConsole, "rez env -i x"),
        strings(&["cmd", "/c", "start", "cmd", "/k", "rez env -i x"])
    );
    assert_eq!(
        terminal_invocation(Launcher::Xterm, "rez env -i x"),
        strings(&["xterm", "-e", "bash -c 'rez env -i x && bash'"])
    );
    assert_eq!(
        terminal_invocation(Launcher::GnomeTerminal, "rez env a"),
        strings(&["gnome-terminal", "-e", "bash -c 'rez env a && bash'"])
    );
    assert_eq!(
        terminal_invocation(Launcher::DefaultTerminal, "rez env a"),
        strings(&["x-terminal-emulator", "-e", "bash -c 'rez env a && bash'"])
    );
    assert_eq!(shell_invocation(true, "rez env a"), strings(&["cmd", "/c", "rez env a"]));
    assert_eq!(shell_invocation(false, "rez env a"), strings(&["sh", "-c", "rez env a"]));
}

#[test]
fn snapshot_file_names() {
    assert_eq!(snapshot_file_name("rez_env", "20240501_101500", "Ab3dE6gH"), "rez_env_20240501_101500_Ab3dE6gH.rxt");
    let a = fresh_snapshot_file_name("rez_stage");
    assert!(a.starts_with("rez_stage_"));
    assert!(a.ends_with(".rxt"));
    let stem = &a[..a.len() - 4];
    let suffix = &stem[stem.len() - 8..];
    assert!(suffix.chars().all(|c| c.is_ascii_alphanumeric()));
    assert_eq!(stem.as_bytes()[stem.len() - 9], b'_');
    assert_ne!(fresh_snapshot_file_name("rez_stage"), fresh_snapshot_file_name("rez_stage"));
}

#[test]
fn stage_id_text_forms() {
    let id = parse_stage_id("0123456789abcdefABCDEF00").unwrap();
    assert_eq!(id.bytes, [0x01, 0x23, 0x45, 0x67, 0x89, 0xab, 0xcd, 0xef, 0xab, 0xcd, 0xef, 0x00]);
    assert!(parse_stage_id("0123456789abcdefABCDEF0").is_err());
    assert!(parse_stage_id("0123456789abcdefABCDEF0g").is_err());
    assert!(parse_stage_id("").is_err());
    assert!(!parse_stage_id("xyz").unwrap_err().is_empty());
}

#[test]
fn stored_names_are_decoded_and_deduplicated() {
    let values = vec![
        StoredValue::Text("A".to_string()),
        StoredValue::Other,
        StoredValue::Text("B".to_string()),
        StoredValue::Text("A".to_string()),
    ];
    let texts = keep_text_values(values);
    assert_eq!(texts, strings(&["A", "B", "A"]));
    assert_eq!(distinct_texts(&texts), strings(&["A", "B"]));
    assert!(distinct_texts(&vec![]).is_empty());
    assert!(keep_text_values(vec![StoredValue::Other]).is_empty());
}

#[test]
fn collection_listing_answers() {
    let r = collections_by_uri_result("shots/010", vec![]);
    assert!(r.success);
    assert_eq!(r.message, Some("no collection found in shots/010".to_string()));
    assert_eq!(r.collections, None);
    let r = all_collections_result(vec![]);
    assert_eq!(r.message, Some("No package collections found in database".to_string()));
    assert_eq!(r.collections, None);
    assert_eq!(tools_or_empty(None), Vec::<String>::new());
    assert_eq!(tools_or_empty(Some(strings(&["maya"]))), strings(&["maya"]));
}
