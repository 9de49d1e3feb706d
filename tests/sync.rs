use shadow_sync::config::{
    create_info, default_comment_prefix, default_suppress_comments, parse_config, parse_entry,
    ConfigError, ConfigFile, SyncConfiguration, DEFAULT_CONFIG_FILE,
};
use shadow_sync::entry::{failure_of, plan_steps, EntryError, EntryTask, Step};
use shadow_sync::json::{find_member, JsonValue};
use shadow_sync::location::resolve_target;
use shadow_sync::run::{
    config_failure_message, download_message, failure_message, start_run, version_message,
    SyncRun,
};

fn s(text: &str) -> String {
    text.to_string()
}

fn obj(members: Vec<(&str, JsonValue)>) -> JsonValue {
    JsonValue::Object(members.into_iter().map(|(k, v)| (s(k), v)).collect())
}

fn jstr(text: &str) -> JsonValue {
    JsonValue::Str(s(text))
}

fn example_doc() -> JsonValue {
    obj(vec![
        ("version", jstr("1")),
        (
            "syncFiles",
            JsonValue::Array(vec![obj(vec![
                ("file", jstr("out/a.txt")),
                ("remote", jstr("https://example.com/a.txt")),
            ])]),
        ),
    ])
}

fn entry(file: &str, remote: &str, prefix: &str, suppress: bool) -> SyncConfiguration {
    SyncConfiguration {
        file: s(file),
        remote: s(remote),
        comment_prefix: s(prefix),
        suppress_comments: suppress,
    }
}

fn drive(task: &mut EntryTask, results: &[bool]) -> Vec<Step> {
    let mut seen = Vec::new();
    let mut i = 0;
    while let Some(step) = task.current() {
        seen.push(step.clone());
        let ok = results[i];
        i += 1;
        task.report(ok);
    }
    seen
}

#[test]
fn defaults_are_hash_space_and_false() {
    assert_eq!(default_comment_prefix(), "# ");
    assert!(!default_suppress_comments());
    assert_eq!(DEFAULT_CONFIG_FILE, "shadows.json");
}

#[test]
fn example_config_decodes_with_defaults() {
    let config = parse_config(&example_doc()).unwrap();
    assert_eq!(config.version, "1");
    assert_eq!(config.sync_files, vec![entry("out/a.txt", "https://example.com/a.txt", "# ", false)]);
}

#[test]
fn explicit_prefix_and_suppress_are_kept() {
    let v = obj(vec![
        ("file", jstr("x/y.lua")),
        ("remote", jstr("http://h/y.lua")),
        ("commentPrefix", jstr("-- ")),
        ("suppressComments", JsonValue::Bool(true)),
        ("extra", JsonValue::Number(s("3"))),
    ]);
    assert_eq!(parse_entry(&v), Some(entry("x/y.lua", "http://h/y.lua", "-- ", true)));
}

#[test]
fn entry_with_wrong_types_is_rejected() {
    let missing_remote = obj(vec![("file", jstr("a/b"))]);
    assert_eq!(parse_entry(&missing_remote), None);
    let bad_prefix = obj(vec![
        ("file", jstr("a/b")),
        ("remote", jstr("u")),
        ("commentPrefix", JsonValue::Null),
    ]);
    assert_eq!(parse_entry(&bad_prefix), None);
    let bad_suppress = obj(vec![
        ("file", jstr("a/b")),
        ("remote", jstr("u")),
        ("suppressComments", jstr("yes")),
    ]);
    assert_eq!(parse_entry(&bad_suppress), None);
    assert_eq!(parse_entry(&JsonValue::Array(vec![])), None);
}

#[test]
fn one_malformed_entry_rejects_the_whole_config() {
    let doc = obj(vec![
        ("version", jstr("1")),
        (
            "syncFiles",
            JsonValue::Array(vec![
                obj(vec![("file", jstr("a/b")), ("remote", jstr("u"))]),
                obj(vec![("file", jstr("c/d"))]),
            ]),
        ),
    ]);
    assert_eq!(parse_config(&doc).unwrap_err(), ConfigError::Malformed);
    assert!(matches!(start_run(&doc), Err(ConfigError::Malformed)));
}

#[test]
fn config_without_version_or_list_is_malformed() {
    let no_version = obj(vec![("syncFiles", JsonValue::Array(vec![]))]);
    assert_eq!(parse_config(&no_version).unwrap_err(), ConfigError::Malformed);
    let no_list = obj(vec![("version", jstr("1"))]);
    assert_eq!(parse_config(&no_list).unwrap_err(), ConfigError::Malformed);
    assert_eq!(parse_config(&jstr("{}")).unwrap_err(), ConfigError::Malformed);
    let empty = obj(vec![("version", jstr("2")), ("syncFiles", JsonValue::Array(vec![]))]);
    assert_eq!(parse_config(&empty).unwrap(), ConfigFile { version: s("2"), sync_files: vec![] });
}

#[test]
fn first_member_with_a_name_wins() {
    let members = vec![(s("a"), JsonValue::Null), (s("b"), JsonValue::Null), (s("b"), JsonValue::Null)];
    assert_eq!(find_member(&members, &s("b")), Some(1));
    assert_eq!(find_member(&members, &s("c")), None);
}

#[test]
fn header_text_is_exact() {
    let e = entry("out/a.txt", "https://example.com/a.txt", "# ", false);
    assert_eq!(
        create_info(&e),
        "# This file is shadowing https://example.com/a.txt\n# All changes will be overwritten by the next sync\n\n"
    );
    let custom = create_info(&entry("f", "r", "// ", false));
    let custom_lines: Vec<&str> = custom.split('\n').collect();
    assert_eq!(custom_lines, vec!["// This file is shadowing r", "// All changes will be overwritten by the next sync", "", ""]);
}

#[test]
fn target_is_resolved_against_the_config_directory() {
    let t = resolve_target("/cfg", "out/a.txt");
    assert_eq!(t.path, "/cfg/out/a.txt");
    assert_eq!(t.dir, Some(s("/cfg/out")));
}

#[test]
fn example_entry_plans_header_then_body() {
    let e = entry("out/a.txt", "https://example.com/a.txt", "# ", false);
    let mut task = EntryTask::for_entry(&e, "/cfg");
    let steps = drive(&mut task, &[true, true, true, true, true]);
    assert_eq!(
        steps,
        vec![
            Step::CreateDirectories(s("/cfg/out")),
            Step::Fetch(s("https://example.com/a.txt")),
            Step::CreateFile(s("/cfg/out/a.txt")),
            Step::WriteHeader(s("# This file is shadowing https://example.com/a.txt\n# All changes will be overwritten by the next sync\n\n")),
            Step::CopyBody,
        ]
    );
    assert_eq!(task.outcome(), Some(Ok(())));
}

#[test]
fn suppressed_entry_writes_body_only() {
    let e = entry("out/a.txt", "u", "# ", true);
    let plan = plan_steps(&e, &s("/cfg/out/a.txt"), &Some(s("/cfg/out"))).unwrap();
    assert_eq!(
        plan,
        vec![
            Step::CreateDirectories(s("/cfg/out")),
            Step::Fetch(s("u")),
            Step::CreateFile(s("/cfg/out/a.txt")),
            Step::CopyBody,
        ]
    );
}

#[test]
fn parentless_path_is_rejected_before_any_step() {
    let e = entry("", "u", "# ", false);
    let mut task = EntryTask::new(&e, &s("/"), &None);
    assert!(task.current().is_none());
    assert_eq!(task.outcome(), Some(Err(EntryError::InvalidPath)));
    assert_eq!(drive(&mut task, &[]), vec![]);
    let root = EntryTask::for_entry(&e, "/");
    assert_eq!(root.outcome(), Some(Err(EntryError::InvalidPath)));
    assert_eq!(plan_steps(&e, &s("/"), &None), Err(EntryError::InvalidPath));
}

#[test]
fn failed_fetch_stops_the_entry() {
    let e = entry("out/a.txt", "https://unreachable.invalid/a", "# ", false);
    let mut task = EntryTask::for_entry(&e, "/cfg");
    let steps = drive(&mut task, &[true, false]);
    assert_eq!(steps.len(), 2);
    assert_eq!(task.outcome(), Some(Err(EntryError::RemoteUnavailable)));
}

#[test]
fn each_step_failure_has_its_error() {
    assert_eq!(failure_of(&Step::CreateDirectories(s("d"))), EntryError::CreateDirectories);
    assert_eq!(failure_of(&Step::Fetch(s("u"))), EntryError::RemoteUnavailable);
    assert_eq!(failure_of(&Step::CreateFile(s("p"))), EntryError::CreateFile);
    assert_eq!(failure_of(&Step::WriteHeader(s("h"))), EntryError::WriteHeader);
    assert_eq!(failure_of(&Step::CopyBody), EntryError::CopyBody);
    let e = entry("out/a.txt", "u", "# ", false);
    let mut task = EntryTask::for_entry(&e, "/cfg");
    drive(&mut task, &[false]);
    assert_eq!(task.outcome(), Some(Err(EntryError::CreateDirectories)));
    let mut task = EntryTask::for_entry(&e, "/cfg");
    drive(&mut task, &[true, true, false]);
    assert_eq!(task.outcome(), Some(Err(EntryError::CreateFile)));
    let mut task = EntryTask::for_entry(&e, "/cfg");
    drive(&mut task, &[true, true, true, false]);
    assert_eq!(task.outcome(), Some(Err(EntryError::WriteHeader)));
    let mut task = EntryTask::for_entry(&e, "/cfg");
    drive(&mut task, &[true, true, true, true, false]);
    assert_eq!(task.outcome(), Some(Err(EntryError::CopyBody)));
}

#[test]
fn every_entry_is_attempted_even_when_all_fail() {
    let entries: Vec<SyncConfiguration> =
        (0..4).map(|i| entry(&format!("d/{}", i), "u", "# ", false)).collect();
    let mut run = SyncRun::new(ConfigFile { version: s("1"), sync_files: entries.clone() });
    let mut seen = Vec::new();
    while let Some(e) = run.next_entry() {
        seen.push(e.clone());
        run.record(&Err(EntryError::RemoteUnavailable));
    }
    assert_eq!(seen, entries);
    assert_eq!(run.attempted(), 4);
    assert_eq!(run.failed(), 4);
    assert!(run.is_finished());
}

#[test]
fn failing_second_entry_leaves_the_first_done() {
    let doc = obj(vec![
        ("version", jstr("1")),
        (
            "syncFiles",
            JsonValue::Array(vec![
                obj(vec![("file", jstr("out/a.txt")), ("remote", jstr("https://example.com/a.txt"))]),
                obj(vec![("file", jstr("out/b.txt")), ("remote", jstr("https://unreachable.invalid/b"))]),
            ]),
        ),
    ]);
    let mut run = start_run(&doc).unwrap();
    let first = run.next_entry().unwrap().clone();
    let mut task = EntryTask::for_entry(&first, "/cfg");
    drive(&mut task, &[true, true, true, true, true]);
    let first_outcome = task.outcome().unwrap();
    assert_eq!(first_outcome, Ok(()));
    run.record(&first_outcome);
    let second = run.next_entry().unwrap().clone();
    let mut task = EntryTask::for_entry(&second, "/cfg");
    drive(&mut task, &[true, false]);
    let second_outcome = task.outcome().unwrap();
    assert_eq!(second_outcome, Err(EntryError::RemoteUnavailable));
    run.record(&second_outcome);
    assert_eq!(run.attempted(), 2);
    assert_eq!(run.failed(), 1);
    assert!(run.next_entry().is_none());
}

#[test]
fn log_lines_are_exact() {
    let e = entry("out/a.txt", "https://example.com/a.txt", "# ", false);
    assert_eq!(download_message(&e), "Downloading out/a.txt from https://example.com/a.txt");
    assert_eq!(failure_message(EntryError::InvalidPath), "Failed to download file: Invalid path");
    assert_eq!(
        failure_message(EntryError::CopyBody),
        "Failed to download file: Couldn't download file"
    );
    assert_eq!(config_failure_message(ConfigError::Malformed), "Error: Couldn't parse config file");
    assert_eq!(config_failure_message(ConfigError::NotFound), "Error: Couldn't find config file");
    let config = parse_config(&example_doc()).unwrap();
    assert_eq!(version_message(&config), "Config file version: 1");
}

#[test]
fn error_messages_are_distinct() {
    let entry_errors = [
        EntryError::InvalidPath,
        EntryError::CreateDirectories,
        EntryError::RemoteUnavailable,
        EntryError::CreateFile,
        EntryError::WriteHeader,
        EntryError::CopyBody,
    ];
    let texts: Vec<&str> = entry_errors.iter().map(|e| e.message()).collect();
    assert_eq!(
        texts,
        vec![
            "Invalid path",
            "Couldn't create parent directories",
            "Couldn't access remote location",
            "Couldn't create or open file",
            "Couldn't write to file",
            "Couldn't download file",
        ]
    );
    assert_eq!(ConfigError::NoParentFolder.message(), "Couldn't find parent folder");
    assert_eq!(ConfigError::NotOpenable.message(), "Couldn't open config file");
    assert_eq!(ConfigError::NotReadable.message(), "Couldn't read config file");
}
