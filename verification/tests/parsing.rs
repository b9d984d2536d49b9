use env_editor::app::EnvEditorApp;
use env_editor::item::EnvItem;
use env_editor::parse::parse_content;
use env_editor::text::is_white_space;

fn var(key: &str, value: &str, description: &[&str], commented: bool, show: bool) -> EnvItem {
    EnvItem::Variable {
        key: key.to_string(),
        value: value.to_string(),
        description: description.iter().map(|s| s.to_string()).collect(),
        is_commented_out: commented,
        show_password: show,
    }
}

fn header(text: &str) -> EnvItem {
    EnvItem::Header { text: text.to_string() }
}

fn app() -> EnvEditorApp<()> {
    EnvEditorApp::new(Vec::new())
}

#[test]
fn parses_block_and_inline_headers() {
    let text = "# -----------------\n# Database\n# -----------------\n# The host of the database server.\nDB_HOST=localhost\n# The password.\n#DB_PASSWORD=\n# --- Storage ---\nSTORAGE_PATH=/data\n";
    let items = parse_content(text);
    assert_eq!(
        items,
        vec![
            header("Database"),
            var("DB_HOST", "localhost", &["The host of the database server."], false, true),
            var("DB_PASSWORD", "", &["The password."], true, false),
            header("Storage"),
            var("STORAGE_PATH", "/data", &[], false, true),
        ]
    );
}

#[test]
fn parses_unicode_frames() {
    let items = parse_content("# ── Mail ──\nSMTP_HOST=mail.example.com\n# ━━ Other ━━\n# ═══════\n# Last\n# ═══════\n");
    assert_eq!(
        items,
        vec![
            header("Mail"),
            var("SMTP_HOST", "mail.example.com", &[], false, true),
            header("Other"),
            header("Last"),
        ]
    );
}

#[test]
fn lower_case_line_continues_paragraph() {
    let items = parse_content("# Where files go;\n# continued in lower case.\n# A new sentence.\nSTORAGE=/data\n");
    assert_eq!(
        items,
        vec![var(
            "STORAGE",
            "/data",
            &["Where files go; continued in lower case.", "A new sentence."],
            false,
            true
        )]
    );
}

#[test]
fn legend_entries_stay_on_their_own_lines() {
    let items = parse_content(
        "# SMTP security:\n#   starttls = port 587\n#   tls = port 465\nSMTP_SECURITY=starttls\n# Modes:\n# 1. first\n# 2. second\nMODE=1\n",
    );
    assert_eq!(
        items,
        vec![
            var(
                "SMTP_SECURITY",
                "starttls",
                &["SMTP security:\nstarttls = port 587\ntls = port 465"],
                false,
                true
            ),
            var("MODE", "1", &["Modes:\n1. first\n2. second"], false, true),
        ]
    );
}

#[test]
fn blank_lines_and_empty_comments_split_paragraphs() {
    let items = parse_content("# First part.\n\n# second part.\n#\n# third part.\nX=1\n");
    assert_eq!(
        items,
        vec![var("X", "1", &["First part.", "second part.", "third part."], false, true)]
    );
}

#[test]
fn copy_hints_and_bare_separators_are_dropped() {
    let items = parse_content("# Copy this file to .env\n# cp example.env .env\n# Lost text.\n# ----------\nA=b\n");
    assert_eq!(items, vec![var("A", "b", &[], false, true)]);
}

#[test]
fn comment_with_space_is_no_variable() {
    let items = parse_content("# Beispiel: REDIS_URL=redis://x\n#  tls = 465\nREDIS_URL=redis://localhost\n");
    assert_eq!(
        items,
        vec![var(
            "REDIS_URL",
            "redis://localhost",
            &["Beispiel: REDIS_URL=redis://x\ntls = 465"],
            false,
            true
        )]
    );
}

#[test]
fn crlf_and_whitespace_are_trimmed() {
    let items = parse_content("  API_TOKEN = abc  \r\n#PORT= 8080\r\n");
    assert_eq!(
        items,
        vec![var("API_TOKEN", "abc", &[], false, false), var("PORT", "8080", &[], true, true)]
    );
}

#[test]
fn invalid_keys_are_text() {
    let items = parse_content("# 1abc=2\n#my key=3\nKEY-NAME=4\nOK=5\n");
    assert_eq!(items, vec![var("OK", "5", &["1abc=2 my key=3"], false, true)]);
}

#[test]
fn empty_input_has_no_items() {
    assert_eq!(parse_content(""), Vec::<EnvItem>::new());
    assert_eq!(app().parse_str("").unwrap(), Vec::<EnvItem>::new());
}

#[test]
fn line_shape_helpers() {
    assert!(EnvEditorApp::<()>::is_pure_separator("# ----------"));
    assert!(EnvEditorApp::<()>::is_pure_separator("# ── ──"));
    assert!(EnvEditorApp::<()>::is_pure_separator("# ═══════════════"));
    assert!(!EnvEditorApp::<()>::is_inline_header("#══x══"));
    assert_eq!(EnvEditorApp::<()>::strip_header_decoration("# ═ Titel"), "═ Titel");
    assert_eq!(parse_content("#NAME=a══b\n"), vec![var("NAME", "a══b", &[], true, true)]);
    assert!(!EnvEditorApp::<()>::is_pure_separator("# -- x --"));
    assert!(!EnvEditorApp::<()>::is_pure_separator("#"));
    assert!(!EnvEditorApp::<()>::is_pure_separator("----"));
    assert!(EnvEditorApp::<()>::is_inline_header("# --- Azure Blob Storage ---"));
    assert!(!EnvEditorApp::<()>::is_inline_header("# -- Title --"));
    assert!(!EnvEditorApp::<()>::is_inline_header("# ---------"));
    assert_eq!(EnvEditorApp::<()>::strip_header_decoration("# === Title ==="), "Title");
    assert_eq!(EnvEditorApp::<()>::strip_header_decoration("#---"), "");
    assert_eq!(
        EnvEditorApp::<()>::extract_assignment("#KEY = value "),
        Some(("KEY".to_string(), "value".to_string()))
    );
    assert_eq!(
        EnvEditorApp::<()>::extract_assignment("_A1=x=y"),
        Some(("_A1".to_string(), "x=y".to_string()))
    );
    assert_eq!(EnvEditorApp::<()>::extract_assignment("# KEY=value"), None);
    assert_eq!(EnvEditorApp::<()>::extract_assignment("KEY"), None);
    assert_eq!(EnvEditorApp::<()>::extract_assignment("9KEY=1"), None);
    assert!(EnvEditorApp::<()>::is_commented_out_flag("#A=1"));
    assert!(!EnvEditorApp::<()>::is_commented_out_flag("A=1"));
}

#[test]
fn legend_entry_shapes() {
    assert!(EnvEditorApp::<()>::looks_like_legend_entry("587 = STARTTLS submission"));
    assert!(EnvEditorApp::<()>::looks_like_legend_entry("1. a binary built with"));
    assert!(EnvEditorApp::<()>::looks_like_legend_entry("12 . twelve"));
    assert!(!EnvEditorApp::<()>::looks_like_legend_entry("Lower values = fresher quota"));
    assert!(!EnvEditorApp::<()>::looks_like_legend_entry("averyveryverylongtokenname = x"));
    assert!(!EnvEditorApp::<()>::looks_like_legend_entry("plain text"));
    assert!(!EnvEditorApp::<()>::looks_like_legend_entry(". dot"));
}

#[test]
fn white_space_matches_std() {
    for u in 0u32..0x11_0000 {
        if let Some(c) = char::from_u32(u) {
            assert_eq!(is_white_space(c), c.is_whitespace(), "{:?}", c);
        }
    }
}

#[test]
fn non_ascii_lower_case_continues_paragraph() {
    let items = parse_content("# Über den Dienst\n# ändern Sie hier.\n# Ändern ist neu.\nX=1\n");
    assert_eq!(
        items,
        vec![var("X", "1", &["Über den Dienst ändern Sie hier.", "Ändern ist neu."], false, true)]
    );
}

#[test]
fn loaded_variables_have_proper_names() {
    let text = "# ---\n#A B=1\n_x9=2\n#api_key=3\n 9=4\n# = =\nÄ=5\n# ── ──\n# ── T ──\nv=\n";
    let items = parse_content(text);
    assert!(!items.is_empty());
    for item in &items {
        match item {
            EnvItem::Header { text } => assert!(!text.is_empty()),
            EnvItem::Variable { key, show_password, .. } => {
                assert!(!key.is_empty());
                let first = key.chars().next().unwrap();
                assert!(first.is_ascii_alphabetic() || first == '_');
                assert!(key.chars().all(|c| c.is_ascii_alphanumeric() || c == '_'));
                assert_eq!(*show_password, !EnvItem::is_sensitive_key(key));
            }
        }
    }
}

#[test]
fn variables_come_from_assignment_lines_in_order() {
    let text = "#B=2\n# text\nA = 1\n# ---\n# #C=3\n# ---\n  D=4  \n";
    let items = parse_content(text);
    let keys: Vec<(String, bool)> = items
        .iter()
        .filter_map(|i| match i {
            EnvItem::Variable { key, is_commented_out, .. } => Some((key.clone(), *is_commented_out)),
            _ => None,
        })
        .collect();
    assert_eq!(keys, vec![("B".to_string(), true), ("A".to_string(), false), ("D".to_string(), false)]);
    assert_eq!(items[2], header("C=3"));
}
