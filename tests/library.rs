use awssm::command::AwsSM;
use awssm::error::AsmError;
use awssm::search::{contains_chars, name_contains, search_all_secrets};
use awssm::select::select_secret;
use awssm::table::{list_secrets, search_secret};
use awssm::value::{describe_secret, get_secret_value, value_text};
use awssm::workflow::{
    confirms_deletion, create_secret, delete_secret, describe_command, edit_needs_value,
    edit_secret, edit_seed, file_url, get_editor, get_value_command, list_command, same_text,
    starts_with_chars,
};
use awssm::{Secret, SecretList};

fn secret(arn: &str, name: &str, description: Option<&str>, value: Option<&str>) -> Secret {
    Secret {
        arn: arn.to_string(),
        name: name.to_string(),
        description: description.map(|d| d.to_string()),
        value: value.map(|v| v.to_string()),
    }
}

fn sample() -> SecretList {
    SecretList {
        list: vec![
            secret("arn:1", "db-pass", Some("prod db"), Some("s3cr3t")),
            secret("arn:2", "DB-User", None, Some("admin")),
            secret("arn:3", "web-token", Some("frontend"), None),
        ],
    }
}

fn names(list: &SecretList) -> Vec<String> {
    list.list.iter().map(|s| s.name.clone()).collect()
}

fn strings(v: &[&str]) -> Vec<String> {
    v.iter().map(|s| s.to_string()).collect()
}

#[test]
fn search_ignores_case_on_both_sides() {
    let found = search_all_secrets(&sample(), "dB").unwrap();
    assert_eq!(names(&found), vec!["db-pass", "DB-User"]);
    let found = search_all_secrets(&sample(), "TOKEN").unwrap();
    assert_eq!(names(&found), vec!["web-token"]);
}

#[test]
fn search_keeps_list_order_and_all_matches() {
    let found = search_all_secrets(&sample(), "-").unwrap();
    assert_eq!(names(&found), vec!["db-pass", "DB-User", "web-token"]);
    let found = search_all_secrets(&sample(), "").unwrap();
    assert_eq!(found.list.len(), 3);
}

#[test]
fn search_without_match_fails() {
    match search_all_secrets(&sample(), "missing") {
        Err(AsmError::NoMatch { query }) => assert_eq!(query, "missing"),
        _ => panic!("expected no match"),
    }
    let empty = SecretList { list: vec![] };
    assert!(matches!(search_all_secrets(&empty, ""), Err(AsmError::NoMatch { .. })));
}

#[test]
fn name_contains_compares_lower_case() {
    assert!(name_contains("DB-PASS", "db"));
    assert!(name_contains("db-pass", "PASS"));
    assert!(!name_contains("db-pass", "user"));
}

#[test]
fn substring_edge_cases() {
    assert!(contains_chars("abc", ""));
    assert!(contains_chars("abc", "abc"));
    assert!(contains_chars("abc", "c"));
    assert!(!contains_chars("abc", "abcd"));
    assert!(!contains_chars("", "a"));
    assert!(starts_with_chars("yesterday", "yes"));
    assert!(!starts_with_chars("ye", "yes"));
    assert!(same_text("y", "y"));
    assert!(!same_text("y", "yy"));
}

#[test]
fn single_match_is_selected_without_choice() {
    let found = search_all_secrets(&sample(), "web").unwrap();
    assert!(!found.needs_prompt());
    let chosen = select_secret(found, 7).unwrap();
    assert_eq!(chosen.arn, "arn:3");
}

#[test]
fn several_matches_need_a_choice() {
    let found = search_all_secrets(&sample(), "db").unwrap();
    assert!(found.needs_prompt());
    assert_eq!(found.names(), vec!["db-pass", "DB-User"]);
    let chosen = select_secret(found, 1).unwrap();
    assert_eq!(chosen.arn, "arn:2");
}

#[test]
fn choice_past_the_end_is_refused() {
    let found = search_all_secrets(&sample(), "db").unwrap();
    match select_secret(found, 2) {
        Err(AsmError::InvalidSelection { index, count }) => {
            assert_eq!(index, 2);
            assert_eq!(count, 2);
        }
        _ => panic!("expected an invalid selection"),
    }
}

#[test]
fn json_value_is_pretty_printed() {
    let s = secret("arn:1", "conf", None, Some("{\"a\":1}"));
    let text = get_secret_value(&s, false).unwrap();
    assert_eq!(text, "{\n  \"a\": 1\n}");
    let parsed: serde_json::Value = serde_json::from_str(&text).unwrap();
    assert_eq!(parsed, serde_json::from_str::<serde_json::Value>("{\"a\": 1}").unwrap());
}

#[test]
fn nested_json_value_is_pretty_printed() {
    let s = secret("arn:1", "conf", None, Some("{\"a\":[1,2],\"b\":{\"c\":null}}"));
    let text = get_secret_value(&s, false).unwrap();
    assert_eq!(
        text,
        "{\n  \"a\": [\n    1,\n    2\n  ],\n  \"b\": {\n    \"c\": null\n  }\n}"
    );
}

#[test]
fn colored_json_value_keeps_content() {
    let s = secret("arn:1", "conf", None, Some("{\"a\":1}"));
    let text = get_secret_value(&s, true).unwrap();
    assert!(text.contains("\"a\""));
    assert!(text.contains('1'));
    assert_ne!(text, "{\"a\":1}");
}

#[test]
fn plain_value_is_returned_unchanged() {
    let s = secret("arn:1", "token", None, Some("plain-text"));
    assert_eq!(get_secret_value(&s, false).unwrap(), "plain-text");
    assert_eq!(get_secret_value(&s, true).unwrap(), "plain-text");
}

#[test]
fn absent_value_is_empty() {
    let s = secret("arn:1", "token", None, None);
    assert_eq!(get_secret_value(&s, false).unwrap(), "");
}

#[test]
fn value_text_follows_the_rendering() {
    assert_eq!(value_text("raw".to_string(), None).unwrap(), "raw");
    assert_eq!(value_text("raw".to_string(), Some(Ok("pretty".to_string()))).unwrap(), "pretty");
    let e = serde_json::from_str::<serde_json::Value>("{").unwrap_err();
    assert!(matches!(value_text("raw".to_string(), Some(Err(e))), Err(AsmError::Json { .. })));
}

#[test]
fn describe_reads_json() {
    let text = describe_secret("{\"ARN\":\"arn:1\",\"Name\":\"db-pass\"}").unwrap();
    assert!(text.contains("arn:1"));
    assert!(text.contains("db-pass"));
    assert!(matches!(describe_secret("not json"), Err(AsmError::Json { .. })));
}

#[test]
fn fields_show_absent_description_as_empty() {
    let s = secret("arn:2", "DB-User", None, None);
    assert_eq!(s.fields(), vec!["DB-User", ""]);
    assert_eq!(Secret::headers(), vec!["Name", "Description"]);
}

#[test]
fn table_never_shows_null() {
    let list = SecretList { list: vec![secret("arn:2", "api-key", None, None)] };
    let text = list.render_table();
    assert!(text.contains("api-key"));
    assert!(!text.contains("null"));
    assert!(!text.contains("None"));
    assert!(text.contains("│ api-key │             │"));
}

#[test]
fn table_has_header_and_rows_framed_by_empty_lines() {
    let text = list_secrets(&sample());
    assert!(text.starts_with("\n╭"));
    assert!(text.ends_with("╯\n"));
    assert!(text.contains("│ Name      │ Description │"));
    assert!(text.contains("│ db-pass   │ prod db     │"));
    assert!(text.contains("│ web-token │ frontend    │"));
    let rows = sample().rows();
    assert_eq!(rows.len(), 3);
    assert_eq!(rows[1], vec!["DB-User", ""]);
}

#[test]
fn end_to_end_search_and_value() {
    let list = SecretList {
        list: vec![secret("arn:1", "db-pass", Some("prod db"), Some("s3cr3t"))],
    };
    let text = search_secret(&list, "db").unwrap();
    assert!(text.contains("│ Name    │ Description │"));
    assert!(text.contains("│ db-pass │ prod db     │"));
    assert_eq!(text.matches("db-pass").count(), 1);
    let found = search_all_secrets(&list, "db").unwrap();
    let chosen = select_secret(found, 0).unwrap();
    assert_eq!(get_secret_value(&chosen, true).unwrap(), "s3cr3t");
}

#[test]
fn search_display_without_match_fails() {
    assert!(matches!(search_secret(&sample(), "zzz"), Err(AsmError::NoMatch { .. })));
}

#[test]
fn unchanged_edit_makes_no_call() {
    let s = secret("arn:1", "db-pass", None, None);
    let before = b"s3cr3t".to_vec();
    assert!(edit_secret(&s, false, "/tmp/x.json", &before, &before.clone()).is_none());
    assert!(edit_secret(&s, true, "/tmp/x.json", &vec![], &vec![]).is_none());
}

#[test]
fn edit_of_one_byte_updates() {
    let s = secret("arn:1", "db-pass", None, None);
    let before = b"s3cr3t".to_vec();
    let after = b"s3cr3T".to_vec();
    let call = edit_secret(&s, false, "/tmp/x.json", &before, &after).unwrap();
    assert_eq!(call.subcommand, "update-secret");
    assert_eq!(
        call.arguments,
        strings(&["--secret-id", "arn:1", "--secret-string", "file:///tmp/x.json"])
    );
    let call = edit_secret(&s, true, "/tmp/x.json", &before, &b"s3cr3t\n".to_vec()).unwrap();
    assert_eq!(
        call.arguments,
        strings(&["--secret-id", "arn:1", "--description", "file:///tmp/x.json"])
    );
}

#[test]
fn deletion_confirmations() {
    for reply in ["y", "Yes", "YES", "yes please"] {
        assert!(confirms_deletion(reply), "{reply}");
    }
    for reply in ["n", "", "maybe", "Y", "ye"] {
        assert!(!confirms_deletion(reply), "{reply}");
    }
}

#[test]
fn delete_call_only_when_confirmed() {
    let s = secret("arn:9", "old", None, None);
    assert!(delete_secret(&s, "n").is_none());
    assert!(delete_secret(&s, "maybe").is_none());
    let call = delete_secret(&s, "YES").unwrap();
    assert_eq!(call.subcommand, "delete-secret");
    assert_eq!(call.arguments, strings(&["--secret-id", "arn:9"]));
}

#[test]
fn create_call_carries_name_file_and_description() {
    let call = create_secret("new", &Some("d".to_string()), "/tmp/a.json", true).unwrap();
    assert_eq!(call.subcommand, "create-secret");
    assert_eq!(
        call.arguments,
        strings(&[
            "--name",
            "new",
            "--secret-string",
            "file:///tmp/a.json",
            "--description",
            "d"
        ])
    );
    let call = create_secret("new", &None, "/tmp/a.json", true).unwrap();
    assert_eq!(call.arguments.len(), 4);
    assert!(create_secret("new", &None, "/tmp/a.json", false).is_none());
}

#[test]
fn command_line_of_a_call() {
    let call = AwsSM::new("get-secret-value").args(strings(&["--secret-id", "arn:1"]));
    assert_eq!(call.program(), "aws");
    assert_eq!(
        call.argv(),
        strings(&["secretsmanager", "get-secret-value", "--secret-id", "arn:1"])
    );
    assert_eq!(AwsSM::new("list-secrets").argv(), strings(&["secretsmanager", "list-secrets"]));
}

#[test]
fn outcome_of_a_run() {
    assert_eq!(AwsSM::outcome(true, "out".to_string(), "err".to_string()).unwrap(), "out");
    match AwsSM::outcome(false, "out".to_string(), "err".to_string()) {
        Err(AsmError::Remote { stderr }) => assert_eq!(stderr, "err"),
        _ => panic!("expected a remote failure"),
    }
}

#[test]
fn editor_choice() {
    assert_eq!(get_editor(Some("code".to_string()), Some("nano".to_string())), "code");
    assert_eq!(get_editor(None, Some("nano".to_string())), "nano");
    assert_eq!(get_editor(None, None), "vi");
}

#[test]
fn file_url_prefixes_path() {
    assert_eq!(file_url("/tmp/f"), "file:///tmp/f");
}

#[test]
fn colored_json_value_is_pretty_once_colours_are_removed() {
    let s = secret("arn:1", "conf", None, Some("{\"a\":1}"));
    let text = get_secret_value(&s, true).unwrap();
    let mut plain = String::new();
    let mut in_escape = false;
    for c in text.chars() {
        if c == '\u{1b}' {
            in_escape = true;
        } else if in_escape {
            if c == 'm' {
                in_escape = false;
            }
        } else {
            plain.push(c);
        }
    }
    assert_eq!(plain, "{\n  \"a\": 1\n}");
}

#[test]
fn describe_shows_every_field() {
    let text = describe_secret("{\"ARN\":\"arn:1\",\"Name\":\"db-pass\",\"Tags\":[]}").unwrap();
    assert_eq!(
        text,
        "{\n  \"ARN\": \"arn:1\",\n  \"Name\": \"db-pass\",\n  \"Tags\": []\n}"
    );
    assert!(matches!(describe_secret(""), Err(AsmError::Json { .. })));
}

#[test]
fn lookup_calls_name_the_secret() {
    let call = list_command();
    assert_eq!(call.subcommand, "list-secrets");
    assert!(call.arguments.is_empty());
    let call = get_value_command("arn:7");
    assert_eq!(call.subcommand, "get-secret-value");
    assert_eq!(call.arguments, strings(&["--secret-id", "arn:7"]));
    let call = describe_command("arn:7");
    assert_eq!(call.subcommand, "describe-secret");
    assert_eq!(call.arguments, strings(&["--secret-id", "arn:7"]));
}

#[test]
fn edit_seed_takes_description_or_value() {
    let s = secret("arn:1", "conf", Some("about"), None);
    assert!(!edit_needs_value(true));
    assert!(edit_needs_value(false));
    assert_eq!(edit_seed(&s, true, &None).unwrap(), "about");
    let bare = secret("arn:1", "conf", None, None);
    assert_eq!(edit_seed(&bare, true, &None).unwrap(), "");
    let fetched = Some(secret("arn:1", "conf", None, Some("{\"a\":1}")));
    assert_eq!(edit_seed(&s, false, &fetched).unwrap(), "{\n  \"a\": 1\n}");
    let fetched = Some(secret("arn:1", "conf", None, Some("plain")));
    assert_eq!(edit_seed(&s, false, &fetched).unwrap(), "plain");
}
