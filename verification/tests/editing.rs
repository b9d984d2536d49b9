use env_editor::app::{EnvEditorApp, FileError, FileStage};
use env_editor::i18n::{Language, TextKey};
use env_editor::item::EnvItem;
use env_editor::merge::merge_into;
use env_editor::parse::parse_content;
use env_editor::secret::{hex_encode, random_secret};
use env_editor::serialize::serialize_items;
use env_editor::settings::{SecretLength, TargetOsFormat};

fn var(key: &str, value: &str, description: &[&str], commented: bool, show: bool) -> EnvItem {
    EnvItem::Variable {
        key: key.to_string(),
        value: value.to_string(),
        description: description.iter().map(|s| s.to_string()).collect(),
        is_commented_out: commented,
        show_password: show,
    }
}

fn header(text: &str) -> EnvItem {
    EnvItem::Header { text: text.to_string() }
}

fn app() -> EnvEditorApp<()> {
    EnvEditorApp::new(Vec::new())
}

fn sample() -> Vec<EnvItem> {
    vec![
        header("Database"),
        var("DB_HOST", "localhost", &["The host.", "Second\n1. one"], false, true),
        var("SECRET_KEY", "", &[], true, false),
    ]
}

#[test]
fn serializes_headers_and_variables() {
    let text = serialize_items(&sample(), "\n");
    let expected = format!(
        "# {} Database {}\n# The host.\n#\n# Second\n# 1. one\nDB_HOST=localhost\n\n#SECRET_KEY=\n\n",
        "=".repeat(29),
        "=".repeat(30)
    );
    assert_eq!(text, expected);
}

#[test]
fn serializes_with_crlf() {
    let text = serialize_items(&vec![var("A", "1", &["Help."], false, true)], "\r\n");
    assert_eq!(text, "# Help.\r\nA=1\r\n\r\n");
}

#[test]
fn save_then_load_gives_the_items_back() {
    for eol in ["\n", "\r\n"] {
        let items = sample();
        assert_eq!(parse_content(&serialize_items(&items, eol)), items);
    }
}

#[test]
fn long_header_title_reads_back_up_to_limit() {
    let title = "T".repeat(62);
    let items = vec![header(&title)];
    assert_eq!(parse_content(&serialize_items(&items, "\n")), items);
    let too_long = "T".repeat(70);
    let items = vec![header(&too_long)];
    assert_ne!(parse_content(&serialize_items(&items, "\n")), items);
}

#[test]
fn serialize_env_uses_target_line_endings() {
    let mut a = app();
    a.items = vec![var("A", "1", &[], false, true)];
    assert_eq!(a.serialize_env(), "A=1\n\n");
    a.target_os = TargetOsFormat::Windows;
    assert_eq!(a.serialize_env(), "A=1\r\n\r\n");
}

#[test]
fn merge_takes_values_by_key() {
    let mut items = vec![
        header("Db"),
        var("DB_HOST", "", &["Host."], true, true),
        var("DB_PASSWORD", "", &[], true, false),
        var("UNSET", "keep", &[], false, true),
    ];
    let new = parse_content("DB_HOST=db.example.com\nDB_PASSWORD=secret\nOTHER=1\nDB_HOST=second\n");
    let count = merge_into(&mut items, &new);
    assert_eq!(count, 2);
    assert_eq!(
        items,
        vec![
            header("Db"),
            var("DB_HOST", "db.example.com", &["Host."], false, true),
            var("DB_PASSWORD", "secret", &[], false, false),
            var("UNSET", "keep", &[], false, true),
        ]
    );
    let again = merge_into(&mut items, &new);
    assert_eq!(again, 2);
    assert_eq!(items[1], var("DB_HOST", "db.example.com", &["Host."], false, true));
}

#[test]
fn merge_without_variables_changes_nothing() {
    let mut items = sample();
    let count = merge_into(&mut items, &[header("Only a header")]);
    assert_eq!(count, 0);
    assert_eq!(items, sample());
}

#[test]
fn load_template_counts_variables() {
    let mut a = app();
    a.load_template("example.env".to_string(), Ok("# --- S ---\nA=1\n#B=2\n".to_string()));
    assert_eq!(a.items.len(), 3);
    assert_eq!(a.example_path, Some("example.env".to_string()));
    assert_eq!(a.status_msg, "Template erfolgreich geladen! 2 Variablen gefunden.");
}

#[test]
fn load_template_reports_read_errors() {
    let mut a = app();
    a.items = sample();
    let err = FileError { stage: FileStage::Open, detail: "not found".to_string() };
    a.load_template("x.env".to_string(), Err(err));
    assert_eq!(a.status_msg, "Fehler beim Öffnen: not found");
    assert_eq!(a.items, sample());
    assert_eq!(a.example_path, None);
}

#[test]
fn merge_env_reports_count_in_language() {
    let mut a = app();
    a.current_lang = Language::English;
    a.items = vec![var("A", "", &[], true, true), var("B", "", &[], true, true)];
    a.merge_env(".env".to_string(), Ok("A=1\n".to_string()));
    assert_eq!(a.status_msg, "Existing .env merged! 1 values merged.");
    assert_eq!(a.env_path, Some(".env".to_string()));
    assert_eq!(a.items[0], var("A", "1", &[], false, true));
}

#[test]
fn merge_items_counts() {
    let mut a = app();
    a.items = vec![var("A", "", &[], true, true)];
    let n = a.merge_items(&[var("A", "x", &[], true, true)]);
    assert_eq!(n, 1);
    assert_eq!(a.items, vec![var("A", "x", &[], true, true)]);
}

#[test]
fn save_finished_messages() {
    let mut a = app();
    a.save_finished(Ok("/tmp/.env".to_string()));
    assert_eq!(a.status_msg, "Gespeichert unter: /tmp/.env");
    a.save_finished(Err("disk full".to_string()));
    assert_eq!(a.status_msg, "disk full");
}

#[test]
fn file_error_messages_for_each_stage() {
    let a = app();
    let m = |stage| a.file_error_message(&FileError { stage, detail: "d".to_string() });
    assert_eq!(m(FileStage::Open), "Fehler beim Öffnen: d");
    assert!(m(FileStage::Read).ends_with(": d"));
    assert!(m(FileStage::Create).ends_with(": d"));
    assert!(m(FileStage::Write).ends_with(": d"));
}

#[test]
fn search_matches_key_or_description() {
    let item = var("DB_HOST", "", &["The Database server."], false, true);
    assert!(item.matches_search(""));
    assert!(item.matches_search("db_h"));
    assert!(item.matches_search("DATABASE"));
    assert!(!item.matches_search("redis"));
    assert!(!header("Database").matches_search("data"));
    assert!(header("Database").matches_search(""));
}

#[test]
fn sensitive_keys() {
    for k in ["DB_PASSWORD", "api_key", "JWT_SECRET", "PASSWORD", "SMTP_PASS", "GITHUB_TOKEN", "MY_CLIENT_SECRET_FILE", "JWT_ALGO", "X_PRIVATE_KEY", "TOKEN", "secret", "Key"] {
        assert!(EnvItem::is_sensitive_key(k), "{}", k);
    }
    for k in ["DB_HOST", "MONKEY", "BYPASS", "PASSWORDS", "KEYS", "TOKENS", "MY_SECRETS"] {
        assert!(!EnvItem::is_sensitive_key(k), "{}", k);
    }
}

#[test]
fn validation_rules() {
    let v = EnvEditorApp::<()>::validate_value;
    assert_eq!(v("ANY", ""), Ok(()));
    assert_eq!(v("APP_URL", ""), Ok(()));
    assert_eq!(v("APP_URL", "https://x"), Ok(()));
    assert_eq!(v("APP_URL", "ftp://x"), Ok(()));
    assert_eq!(v("app_url", "example.com"), Err("URL should start with http:// or https://".to_string()));
    assert_eq!(v("DB_HOST", "db"), Err("HOST should be a hostname or full URL".to_string()));
    assert_eq!(v("DB_HOST", "localhost"), Ok(()));
    assert_eq!(v("SMTP_PORT", "587"), Ok(()));
    assert_eq!(v("SMTP_PORT", "65535"), Ok(()));
    assert_eq!(v("SMTP_PORT", "65536"), Err("Port must be a number between 0 and 65535".to_string()));
    assert_eq!(v("SMTP_PORT", "+1"), Ok(()));
    assert_eq!(v("SMTP_PORT", " 1"), Err("Port must be a number between 0 and 65535".to_string()));
    assert_eq!(v("SMTP_PORT", "abc"), Err("Port must be a number between 0 and 65535".to_string()));
    assert_eq!(v("HOST_PORT", "587"), Err("HOST should be a hostname or full URL".to_string()));
    assert_eq!(v("URL_PORT", "http://x"), Err("Port must be a number between 0 and 65535".to_string()));
    for (value, ok) in [("0", true), ("00022", true), ("+", false), ("", true), ("-1", false)] {
        assert_eq!(v("PORT", value).is_ok(), ok, "{}", value);
        if !value.is_empty() {
            assert_eq!(value.parse::<u16>().is_ok(), ok, "{}", value);
        }
    }
}

#[test]
fn secrets_are_hex_of_chosen_length() {
    let s32 = random_secret(SecretLength::Bytes32).unwrap();
    assert_eq!(s32.len(), 64);
    assert!(s32.chars().all(|c| c.is_ascii_hexdigit() && !c.is_ascii_uppercase()));
    let s16 = random_secret(SecretLength::Bytes16).unwrap();
    assert_eq!(s16.len(), 32);
    let mut a = app();
    a.secret_len = SecretLength::Bytes16;
    let s = a.generate_secret().unwrap();
    assert_eq!(s.len(), 32);
    assert_eq!(a.status_msg, Language::German.translate("secret_copied"));
}

#[test]
fn hex_encoding() {
    assert_eq!(hex_encode(&[0x00, 0x0f, 0xa5, 0xff]), "000fa5ff");
    assert_eq!(hex_encode(&[]), "");
}

#[test]
fn settings_labels() {
    assert_eq!(TargetOsFormat::Linux.eol(), "\n");
    assert_eq!(TargetOsFormat::Windows.eol(), "\r\n");
    assert_eq!(TargetOsFormat::Linux.label(), "Linux / Docker (LF)");
    assert_eq!(TargetOsFormat::Windows.label(), "Windows (CRLF)");
    assert_eq!(SecretLength::Bytes16.byte_count(), 16);
    assert_eq!(SecretLength::Bytes32.byte_count(), 32);
    assert_eq!(SecretLength::Bytes16.label(), "32 Chars (16B)");
    assert_eq!(SecretLength::Bytes32.label(), "64 Chars (32B)");
}

#[test]
fn translations() {
    assert_eq!(Language::German.name(), "Deutsch");
    assert_eq!(Language::French.name(), "Français");
    assert_eq!(Language::English.translate("count_vars"), "{} variables found.");
    assert_eq!(Language::German.translate("none"), "Keine");
    assert_eq!(Language::Italian.translate("save_title"), "Salva .env");
    assert_eq!(Language::Spanish.translate("no_such_key"), "?");
    assert_eq!(Language::English.phrase_of(TextKey::Title), Language::English.translate("title"));
    let keys = [
        "title", "load_template", "load_env", "save", "filter_hint", "template_lbl", "target_lbl",
        "none", "status_start", "status_template_err", "status_template_ok", "status_env_ok",
        "grid_desc", "grid_key", "grid_val", "no_desc", "gen_secret", "secret_copied",
        "line_endings", "secret_len_lbl", "err_open", "err_read", "err_create", "err_write",
        "err_backup", "saved_to", "count_vars", "count_merged", "toggle_visibility",
        "secret_hover", "pick_template", "pick_env", "save_title",
    ];
    for lang in [Language::German, Language::English, Language::French, Language::Spanish, Language::Italian] {
        for k in keys {
            let t = lang.translate(k);
            assert!(!t.is_empty() && t != "?", "{:?} {}", lang, k);
        }
    }
}

#[test]
fn new_editor_defaults() {
    let a = app();
    assert!(a.items.is_empty());
    assert_eq!(a.current_lang, Language::German);
    assert_eq!(a.status_msg, Language::German.translate("status_start"));
    assert_eq!(a.remote_form.port, "22");
    assert_eq!(a.remote_form.remote_dir, ".");
    assert!(a.remote_session.is_none());
}

#[test]
fn merging_a_just_saved_file_changes_nothing() {
    let items = sample();
    let mut merged = items.clone();
    let saved = parse_content(&serialize_items(&items, "\r\n"));
    let count = merge_into(&mut merged, &saved);
    assert_eq!(count, 2);
    assert_eq!(merged, items);
}

#[test]
fn windows_text_is_linux_text_with_crlf() {
    let items = sample();
    let lf = serialize_items(&items, "\n");
    let crlf = serialize_items(&items, "\r\n");
    assert_eq!(crlf, lf.replace("\n", "\r\n"));
    assert_eq!(serialize_items(&Vec::new(), "\n"), "");
}

#[test]
fn exactly_the_value_messages_hold_one_placeholder() {
    let keys = [
        "title", "load_template", "load_env", "save", "filter_hint", "template_lbl", "target_lbl",
        "none", "status_start", "status_template_err", "status_template_ok", "status_env_ok",
        "grid_desc", "grid_key", "grid_val", "no_desc", "gen_secret", "secret_copied",
        "line_endings", "secret_len_lbl", "err_open", "err_read", "err_create", "err_write",
        "err_backup", "saved_to", "count_vars", "count_merged", "toggle_visibility",
        "secret_hover", "pick_template", "pick_env", "save_title",
    ];
    let with_value = ["err_open", "err_read", "err_create", "err_write", "err_backup", "saved_to", "count_vars", "count_merged"];
    for lang in [Language::German, Language::English, Language::French, Language::Spanish, Language::Italian] {
        for k in keys {
            let expected = if with_value.contains(&k) { 1 } else { 0 };
            assert_eq!(lang.translate(k).matches("{}").count(), expected, "{:?} {}", lang, k);
        }
    }
}

#[test]
fn loading_saving_and_loading_again() {
    let text = "# -----\n# Database\n# -----\n# The host.\n# 587 = submission\nDB_HOST=localhost\n\n# Secret.\n#DB_PASSWORD=\n# --- Mail ---\nSMTP_PORT = 587\n";
    let loaded = parse_content(text);
    for eol in ["\n", "\r\n"] {
        assert_eq!(parse_content(&serialize_items(&loaded, eol)), loaded);
    }
}

#[test]
fn joined_help_line_can_turn_into_a_header() {
    let loaded = parse_content("# #---#\n# abc\nK=1\n");
    assert_eq!(loaded, vec![var("K", "1", &["#---# abc"], false, true)]);
    let again = parse_content(&serialize_items(&loaded, "\n"));
    assert_ne!(again, loaded);
}

#[test]
fn title_of_only_rule_characters_does_not_read_back() {
    let loaded = parse_content("# ---\n# ═ #\n# ---\n");
    assert_eq!(loaded, vec![header("═")]);
    assert_eq!(parse_content(&serialize_items(&loaded, "\n")), Vec::<EnvItem>::new());
}
