use env_editor::app::EnvEditorApp;
use env_editor::item::EnvItem;
use env_editor::remote::{
    arrange_dir_entries, check_host_key, drop_profile, env_candidate_paths, host_id,
    keyring_account, listing_dir, settle_connect, stores_secret, upsert_profile, Auth, AuthKind,
    HostKeyOutcome, RemoteDirEntry, SavedConnection,
};
use env_editor::session::DirListing;

fn app() -> EnvEditorApp<u32> {
    EnvEditorApp::new(Vec::new())
}

fn entry(name: &str, is_dir: bool) -> RemoteDirEntry {
    RemoteDirEntry { name: name.to_string(), is_dir }
}

fn profile(name: &str, has_secret: bool) -> SavedConnection {
    SavedConnection {
        name: name.to_string(),
        host: "example.org".to_string(),
        port: 2222,
        username: "admin".to_string(),
        auth_kind: AuthKind::Password,
        key_path: None,
        has_secret,
    }
}

#[test]
fn directory_entries_dirs_first_then_by_name() {
    let raw = vec![
        entry("b.txt", false),
        entry(".", true),
        entry("zeta", true),
        entry("..", true),
        entry("a.env", false),
        entry("Alpha", true),
        entry("ärger", false),
    ];
    let out = arrange_dir_entries(raw);
    assert_eq!(
        out,
        vec![
            entry("Alpha", true),
            entry("zeta", true),
            entry("a.env", false),
            entry("b.txt", false),
            entry("ärger", false),
        ]
    );
    assert_eq!(arrange_dir_entries(Vec::new()), Vec::new());
}

#[test]
fn candidate_paths() {
    assert_eq!(env_candidate_paths(""), vec!["./example.env", "./.env.example", "./.env"]);
    assert_eq!(
        env_candidate_paths("/srv/app//"),
        vec!["/srv/app/example.env", "/srv/app/.env.example", "/srv/app/.env"]
    );
    assert_eq!(env_candidate_paths("/"), vec!["/example.env", "/.env.example", "/.env"]);
    assert_eq!(listing_dir(""), ".");
    assert_eq!(listing_dir("/srv"), "/srv");
}

#[test]
fn account_and_host_names() {
    assert_eq!(keyring_account(&profile("p", false)), "admin@example.org:2222");
    assert_eq!(host_id("example.org", 22), "example.org:22");
    assert_eq!(host_id("h", 0), "h:0");
    assert_eq!(host_id("h", 65535), "h:65535");
}

#[test]
fn host_key_trust_on_first_use() {
    let (ok, outcome) = check_host_key(None, "SHA256:abc".to_string());
    assert!(ok);
    let remembered = match outcome {
        Some(HostKeyOutcome::New(fp)) => fp,
        other => panic!("{:?}", other),
    };
    assert_eq!(remembered, "SHA256:abc");
    let (ok, outcome) = check_host_key(Some(remembered.clone()), "SHA256:abc".to_string());
    assert!(ok);
    assert!(outcome.is_none());
    let (ok, outcome) = check_host_key(Some(remembered), "SHA256:xyz".to_string());
    assert!(!ok);
    match outcome {
        Some(HostKeyOutcome::Mismatch { known, seen }) => {
            assert_eq!(known, "SHA256:abc");
            assert_eq!(seen, "SHA256:xyz");
        }
        other => panic!("{:?}", other),
    }
}

#[test]
fn settling_a_connection() {
    let mismatch = Some(HostKeyOutcome::Mismatch { known: "k".to_string(), seen: "s".to_string() });
    let r = settle_connect(mismatch, Err::<u32, String>("auth failed".to_string()));
    assert_eq!(
        r,
        Err("⚠️ Host-Key hat sich geändert — möglicher Man-in-the-Middle-Angriff! Bekannt: k, jetzt gemeldet: s. Verbindung abgebrochen.".to_string())
    );
    assert_eq!(settle_connect(Some(HostKeyOutcome::New("fp".to_string())), Ok(7u32)), Ok((7, Some("fp".to_string()))));
    assert_eq!(settle_connect(None, Ok(7u32)), Ok((7, None)));
    assert_eq!(settle_connect(None, Err::<u32, String>("e".to_string())), Err("e".to_string()));
}

#[test]
fn profiles_save_and_delete() {
    let list = vec![profile("a", false), profile("b", true)];
    let saved = upsert_profile(list.clone(), profile("a", false), true);
    assert_eq!(saved, vec![profile("b", true), profile("a", true)]);
    let deleted = drop_profile(saved, &"a".to_string());
    assert_eq!(deleted, vec![profile("b", true)]);
    assert_eq!(drop_profile(list.clone(), &"zzz".to_string()), list);
    assert!(stores_secret(&Some("pw".to_string())));
    assert!(!stores_secret(&Some(String::new())));
    assert!(!stores_secret(&None));
}

#[test]
fn connect_checks_the_form() {
    let mut a = app();
    a.remote_form.port = "x".to_string();
    assert!(a.remote_connect().is_none());
    assert_eq!(a.remote_status, "Ungültiger Port.");
    a.remote_form.port = " 22 ".to_string();
    a.remote_form.host = "  ".to_string();
    a.remote_form.username = "me".to_string();
    assert!(a.remote_connect().is_none());
    assert_eq!(a.remote_status, "Bitte Host und Benutzername angeben.");
    a.remote_form.host = " h ".to_string();
    a.remote_form.auth_kind = AuthKind::Key;
    assert!(a.remote_connect().is_none());
    assert_eq!(a.remote_status, "Bitte eine Schlüsseldatei wählen.");
    a.remote_form.key_path = Some("/k".to_string());
    a.remote_form.remote_dir = " /srv ".to_string();
    let req = a.remote_connect().unwrap();
    assert_eq!(req.params.host, "h");
    assert_eq!(req.params.port, 22);
    assert_eq!(req.params.username, "me");
    assert_eq!(req.dir, "/srv");
    match req.params.auth {
        Auth::Key { path, passphrase } => {
            assert_eq!(path, "/k");
            assert_eq!(passphrase, None);
        }
        other => panic!("{:?}", other),
    }
}

#[test]
fn connect_success_lists_and_offers_profile() {
    let mut a = app();
    a.remote_form.host = "h".to_string();
    a.remote_form.username = "me".to_string();
    a.remote_form.password = "pw".to_string();
    a.remote_form.remember = true;
    a.remote_form.remote_dir = " /srv ".to_string();
    let listing = DirListing::Listed {
        entries: vec![entry("sub", true)],
        found: Ok(vec!["/srv/.env".to_string()]),
    };
    let save = a.remote_connect_succeeded(5, Some("fp".to_string()), 22, listing).unwrap();
    assert_eq!(a.remote_session, Some(5));
    assert_eq!(a.remote_form.remote_dir, "/srv");
    assert_eq!(
        a.remote_status,
        "Neuer Host-Key akzeptiert und gespeichert (fp). 1 .env-Datei(en) gefunden, 1 Einträge in „/srv“."
    );
    assert_eq!(save.conn.name, "me@h");
    assert_eq!(save.conn.port, 22);
    assert!(!save.conn.has_secret);
    assert_eq!(save.secret, Some("pw".to_string()));
    a.remote_profile_saved(Err("x".to_string()));
    assert_eq!(a.remote_status, "Verbunden, aber Profil-Speichern fehlgeschlagen: x");
}

#[test]
fn failed_listing_and_refresh() {
    let mut a = app();
    a.remote_refresh("/x", DirListing::Failed("no".to_string()));
    assert_eq!(a.remote_status, "Keine aktive Verbindung.");
    a.remote_session = Some(1);
    a.remote_dir_entries = vec![entry("old", true)];
    a.remote_refresh("/x", DirListing::Failed("no".to_string()));
    assert_eq!(a.remote_status, "Verzeichnis konnte nicht gelistet werden: no");
    assert!(a.remote_dir_entries.is_empty());
    assert_eq!(a.remote_form.remote_dir, "/x");
    a.remote_refresh("/y", DirListing::Listed { entries: vec![], found: Err("e".to_string()) });
    assert_eq!(a.remote_status, "Suche fehlgeschlagen: e");
    a.remote_connect_failed("down".to_string());
    assert!(a.remote_session.is_none());
    assert_eq!(a.remote_status, "down");
}

#[test]
fn navigation() {
    let mut a = app();
    assert_eq!(a.remote_navigate("sub"), "sub");
    a.remote_form.remote_dir = "/srv/app/".to_string();
    assert_eq!(a.remote_navigate("sub"), "/srv/app/sub");
    assert_eq!(a.remote_navigate(".."), "/srv");
    a.remote_form.remote_dir = "/var/www/".to_string();
    assert_eq!(a.remote_navigate(".."), "/var");
    a.remote_form.remote_dir = "///".to_string();
    assert_eq!(a.remote_navigate(".."), "/");
    a.remote_form.remote_dir = "/srv".to_string();
    assert_eq!(a.remote_navigate(".."), "/");
    a.remote_form.remote_dir = "plain".to_string();
    assert_eq!(a.remote_navigate(".."), "/");
    a.remote_form.remote_dir = " /srv/app ".to_string();
    let down = a.remote_navigate("sub");
    a.remote_form.remote_dir = down;
    assert_eq!(a.remote_navigate(".."), "/srv/app");
}

#[test]
fn applying_and_deleting_profiles() {
    let mut a: EnvEditorApp<u32> = EnvEditorApp::new(vec![profile("a", true), profile("b", false)]);
    assert!(a.remote_secret_wanted(0));
    assert!(!a.remote_secret_wanted(1));
    assert!(!a.remote_secret_wanted(5));
    a.remote_apply_saved(0, Some("pw".to_string()));
    assert_eq!(a.remote_form.host, "example.org");
    assert_eq!(a.remote_form.port, "2222");
    assert_eq!(a.remote_form.password, "pw");
    assert!(a.remote_form.remember);
    a.remote_apply_saved(1, Some("ignored".to_string()));
    assert_eq!(a.remote_form.password, "");
    assert_eq!(a.remote_delete_saved(0), Some(profile("a", true)));
    assert_eq!(a.remote_saved_connections, vec![profile("b", false)]);
    assert_eq!(a.remote_delete_saved(3), None);
    a.remote_status = "before".to_string();
    a.remote_delete_finished(Ok(()));
    assert_eq!(a.remote_status, "before");
    a.remote_delete_finished(Err("keyring locked".to_string()));
    assert_eq!(a.remote_status, "keyring locked");
}

#[test]
fn remote_load_merge_and_save() {
    let mut a = app();
    a.remote_load_as_template("/srv/example.env".to_string(), Ok("A=1\n".to_string()));
    assert_eq!(a.remote_status, "Keine aktive Verbindung.");
    a.remote_session = Some(1);
    a.remote_window_open = true;
    a.remote_load_as_template("/srv/example.env".to_string(), Ok("A=1\n#B=\n".to_string()));
    assert_eq!(a.items.len(), 2);
    assert_eq!(a.remote_active_path, Some("/srv/example.env".to_string()));
    assert_eq!(a.status_msg, "Template erfolgreich geladen! 2 Variablen gefunden.");
    assert_eq!(a.remote_status, "Als Vorlage geladen: /srv/example.env");
    assert!(!a.remote_window_open);
    a.remote_merge("/srv/.env".to_string(), Ok("B=2\n".to_string()));
    assert_eq!(a.remote_status, "Bestehende .env abgeglichen! 1 Werte übernommen.");
    assert_eq!(
        a.items[1],
        EnvItem::Variable {
            key: "B".to_string(),
            value: "2".to_string(),
            description: vec![],
            is_commented_out: false,
            show_password: true,
        }
    );
    a.remote_merge("/srv/.env".to_string(), Err("read failed".to_string()));
    assert_eq!(a.remote_status, "read failed");
    let w = a.remote_save_active().unwrap();
    assert_eq!(w.path, "/srv/.env");
    assert_eq!(w.content, "A=1\n\nB=2\n\n");
    a.remote_save_finished(w.path, Ok(()));
    assert_eq!(a.remote_status, "Auf Server gespeichert: /srv/.env");
    a.remote_disconnect();
    assert!(a.remote_session.is_none());
    assert!(a.remote_save_active().is_none());
    assert_eq!(a.remote_status, "Keine Remote-Zieldatei ausgewählt (erst laden/abgleichen).");
    assert_eq!(a.items.len(), 2);
}
