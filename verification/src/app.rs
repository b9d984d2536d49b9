//! The editor's state and what each command does to it.
//!
//! The editor is generic in the type `S` of the live remote session, which
//! the library only holds. Reading and writing files and talking to the
//! server happen outside: the commands here take what was read (or the
//! error that occurred) and give back what is to be written or sent.
use vstd::prelude::*;
use crate::i18n::{Language, TextKey, phrase};
use crate::item::{EnvItem, ItemView, items_view};
use crate::merge::{merge_count, merge_into, merged_items};
use crate::numeral::{decimal, decimal_of, parse_u16, parse_u16_chars};
use crate::parse::{
    assignment, assignment_of, header_title, inline_header, is_commented, is_inline_header,
    is_legend_entry, is_pure_separator, legend_entry, parse_content, parse_text, pure_separator,
    title_of,
};
use crate::remote::{AuthKind, RemoteDirEntry, SavedConnection};
use crate::secret::{hex_text, random_secret};
use crate::serialize::{serialize_items, serialize_text};
use crate::settings::{SecretLength, TargetOsFormat, eol_of, secret_bytes};
use crate::text::{
    append_str, ascii_upper, chars_of, contains_seq, has_infix, has_prefix, owned, replace_all,
    replaced, starts_with, string_of, to_ascii_upper, };

verus! {

/// The step at which reading or writing a local file failed.
#[derive(Debug, Clone, Copy, PartialEq, Eq, Structural)]
pub enum FileStage {
    Open,
    Read,
    Create,
    Write,
}

/// A failed file operation: the step, and the system's description.
#[derive(Debug)]
pub struct FileError {
    pub stage: FileStage,
    pub detail: String,
}

/// The catalogue key of the message for each failed step.
pub open spec fn stage_key(stage: FileStage) -> TextKey {
    match stage {
        FileStage::Open => TextKey::ErrOpen,
        FileStage::Read => TextKey::ErrRead,
        FileStage::Create => TextKey::ErrCreate,
        FileStage::Write => TextKey::ErrWrite,
    }
}

/// The placeholder that a catalogue phrase holds for a value.
pub open spec fn placeholder() -> Seq<char> {
    seq!['{', '}']
}

/// A catalogue phrase with every placeholder replaced by `value`.
pub open spec fn filled(l: Language, k: TextKey, value: Seq<char>) -> Seq<char> {
    replace_all(phrase(l, k), placeholder(), value)
}

/// The message for a failed file operation.
pub open spec fn file_error_text(l: Language, stage: FileStage, detail: Seq<char>) -> Seq<char> {
    filled(l, stage_key(stage), detail)
}

/// The number of variables among `items`.
pub open spec fn var_count(items: Seq<ItemView>) -> nat
    decreases items.len(),
{
    if items.len() == 0 {
        0
    } else {
        var_count(items.drop_last()) + (if items.last() is Variable {
            1nat
        } else {
            0nat
        })
    }
}

/// The status after a template was loaded with `n` variables.
pub open spec fn template_loaded_text(l: Language, n: nat) -> Seq<char> {
    phrase(l, TextKey::StatusTemplateOk) + seq![' '] + filled(l, TextKey::CountVars, decimal(n))
}

/// The status after `n` values were taken from an existing file.
pub open spec fn env_merged_text(l: Language, n: nat) -> Seq<char> {
    phrase(l, TextKey::StatusEnvOk) + seq![' '] + filled(l, TextKey::CountMerged, decimal(n))
}

/// The fields of the connection dialog.
#[derive(Debug)]
pub struct RemoteForm {
    pub profile_name: String,
    pub host: String,
    pub port: String,
    pub username: String,
    pub auth_kind: AuthKind,
    pub password: String,
    pub show_password: bool,
    pub key_path: Option<String>,
    pub key_passphrase: String,
    pub remote_dir: String,
    /// Whether the profile, and its secret in the keyring, are saved after
    /// a successful connection.
    pub remember: bool,
}

/// A fresh connection dialog: port 22, directory `.`, password
/// authentication, everything else empty or off.
pub open spec fn is_fresh_form(f: RemoteForm) -> bool {
    &&& f.profile_name@ == Seq::<char>::empty()
    &&& f.host@ == Seq::<char>::empty()
    &&& f.port@ == seq!['2', '2']
    &&& f.username@ == Seq::<char>::empty()
    &&& f.auth_kind == AuthKind::Password
    &&& f.password@ == Seq::<char>::empty()
    &&& !f.show_password
    &&& f.key_path is None
    &&& f.key_passphrase@ == Seq::<char>::empty()
    &&& f.remote_dir@ == seq!['.']
    &&& !f.remember
}

impl Default for RemoteForm {
    fn default() -> (f: Self)
        ensures
            is_fresh_form(f),
    {
        let mut port = String::new();
        port.push('2');
        port.push('2');
        let mut dir = String::new();
        dir.push('.');
        assert(port@ =~= seq!['2', '2']);
        assert(dir@ =~= seq!['.']);
        RemoteForm {
            profile_name: String::new(),
            host: String::new(),
            port,
            username: String::new(),
            auth_kind: AuthKind::Password,
            password: String::new(),
            show_password: false,
            key_path: None,
            key_passphrase: String::new(),
            remote_dir: dir,
            remember: false,
        }
    }
}

/// The editor: the loaded items, the settings, and the remote state.
pub struct EnvEditorApp<S> {
    pub items: Vec<EnvItem>,
    /// The template file that was loaded.
    pub example_path: Option<String>,
    /// The existing `.env` file that was merged in.
    pub env_path: Option<String>,
    pub status_msg: String,
    pub search_query: String,
    pub current_lang: Language,
    pub target_os: TargetOsFormat,
    pub secret_len: SecretLength,
    /// Whether the connection dialog is open.
    pub remote_window_open: bool,
    /// The live session, while connected.
    pub remote_session: Option<S>,
    /// The remote file last loaded or merged: where "save to server" writes.
    pub remote_active_path: Option<String>,
    /// The saved profiles, without secrets.
    pub remote_saved_connections: Vec<SavedConnection>,
    pub remote_form: RemoteForm,
    /// The template and `.env` files found in the remote directory.
    pub remote_found_files: Vec<String>,
    /// The entries of the remote directory shown.
    pub remote_dir_entries: Vec<RemoteDirEntry>,
    /// The status line of the connection dialog.
    pub remote_status: String,
}

impl<S> EnvEditorApp<S> {
    /// A new editor in German with no template loaded, given the saved
    /// profiles.
    pub fn new(saved_connections: Vec<SavedConnection>) -> (app: Self)
        ensures
            app.items@.len() == 0,
            app.example_path is None,
            app.env_path is None,
            app.status_msg@ == phrase(Language::German, TextKey::StatusStart),
            app.search_query@ == Seq::<char>::empty(),
            app.current_lang == Language::German,
            app.target_os == TargetOsFormat::Linux,
            app.secret_len == SecretLength::Bytes32,
            !app.remote_window_open,
            app.remote_session is None,
            app.remote_active_path is None,
            app.remote_saved_connections == saved_connections,
            is_fresh_form(app.remote_form),
            app.remote_found_files@.len() == 0,
            app.remote_dir_entries@.len() == 0,
            app.remote_status@ == Seq::<char>::empty(),
    {
        let lang = Language::German;
        EnvEditorApp {
            items: Vec::new(),
            example_path: None,
            env_path: None,
            status_msg: owned(lang.phrase_of(TextKey::StatusStart)),
            search_query: String::new(),
            current_lang: lang,
            target_os: TargetOsFormat::Linux,
            secret_len: SecretLength::Bytes32,
            remote_window_open: false,
            remote_session: None,
            remote_active_path: None,
            remote_saved_connections: saved_connections,
            remote_form: RemoteForm::default(),
            remote_found_files: Vec::new(),
            remote_dir_entries: Vec::new(),
            remote_status: String::new(),
        }
    }

    // ---------- Line shapes ----------

    /// Whether a comment text is a short legend or list entry, such as
    /// `587 = STARTTLS submission` or `1. a binary built with ...`.
    pub fn looks_like_legend_entry(body: &str) -> (b: bool)
        ensures
            b == is_legend_entry(body@),
    {
        legend_entry(chars_of(body).as_slice())
    }

    /// Whether a trimmed line is a purely decorative rule, such as
    /// `# ----------` or `# ══════`.
    pub fn is_pure_separator(trimmed: &str) -> (b: bool)
        ensures
            b == is_pure_separator(trimmed@),
    {
        pure_separator(chars_of(trimmed).as_slice())
    }

    /// Whether a trimmed line is a one-line header such as `# --- Title ---`.
    pub fn is_inline_header(trimmed: &str) -> (b: bool)
        ensures
            b == is_inline_header(trimmed@),
    {
        inline_header(chars_of(trimmed).as_slice())
    }

    /// The title of a header line: the line without `#`, `=`, `-`, `─`,
    /// `━` and white space at either end.
    pub fn strip_header_decoration(trimmed: &str) -> (s: String)
        ensures
            s@ == header_title(trimmed@),
    {
        let t = title_of(chars_of(trimmed).as_slice());
        string_of(t.as_slice())
    }

    /// The key and value that a trimmed line assigns, if it is an
    /// assignment, active or commented out.
    pub fn extract_assignment(trimmed: &str) -> (r: Option<(String, String)>)
        ensures
            match r {
                Some((k, v)) => assignment(trimmed@) == Some((k@, v@)),
                None => assignment(trimmed@) is None,
            },
    {
        match assignment_of(chars_of(trimmed).as_slice()) {
            Some((k, v)) => Some((string_of(k.as_slice()), string_of(v.as_slice()))),
            None => None,
        }
    }

    /// Whether a trimmed line is commented out: it starts with `#`.
    pub fn is_commented_out_flag(trimmed: &str) -> (b: bool)
        ensures
            b == is_commented(trimmed@),
    {
        let cs = chars_of(trimmed);
        cs.len() > 0 && cs[0] == '#'
    }

    // ---------- Parsing ----------

    /// The items of an `.env` text. Every text parses.
    pub fn parse_str(&self, content: &str) -> (r: Result<Vec<EnvItem>, String>)
        ensures
            match r {
                Ok(items) => items_view(items@) == parse_text(content@),
                Err(_) => false,
            },
    {
        Ok(parse_content(content))
    }

    /// The message for a failed file operation, in the current language.
    pub fn file_error_message(&self, err: &FileError) -> (s: String)
        ensures
            s@ == file_error_text(self.current_lang, err.stage, err.detail@),
    {
        let key = match err.stage {
            FileStage::Open => TextKey::ErrOpen,
            FileStage::Read => TextKey::ErrRead,
            FileStage::Create => TextKey::ErrCreate,
            FileStage::Write => TextKey::ErrWrite,
        };
        fill(self.current_lang, key, &chars_of(err.detail.as_str()))
    }

    /// The items of a file, given what reading it gave: its text, or the
    /// step at which reading failed, which becomes the message.
    pub fn parse(&self, file: Result<String, FileError>) -> (r: Result<Vec<EnvItem>, String>)
        ensures
            match file {
                Ok(content) => r matches Ok(items) && items_view(items@) == parse_text(content@),
                Err(e) => r matches Err(m) && m@ == file_error_text(
                    self.current_lang,
                    e.stage,
                    e.detail@,
                ),
            },
    {
        match file {
            Ok(content) => self.parse_str(content.as_str()),
            Err(e) => Err(self.file_error_message(&e)),
        }
    }

    /// Loads a template: given what reading `path` gave, the items are
    /// replaced by the file's and the status counts its variables; where
    /// reading failed, only the status changes, to the message.
    pub fn load_template(&mut self, path: String, file: Result<String, FileError>)
        ensures
            match file {
                Ok(content) => {
                    &&& items_view(final(self).items@) == parse_text(content@)
                    &&& final(self).example_path == Some(path)
                    &&& final(self).status_msg@ == template_loaded_text(
                        old(self).current_lang,
                        var_count(parse_text(content@)),
                    )
                    &&& *final(self) == (EnvEditorApp {
                        items: final(self).items,
                        example_path: final(self).example_path,
                        status_msg: final(self).status_msg,
                        ..*old(self)
                    })
                },
                Err(e) => {
                    &&& final(self).status_msg@ == file_error_text(
                        old(self).current_lang,
                        e.stage,
                        e.detail@,
                    )
                    &&& *final(self) == (EnvEditorApp {
                        status_msg: final(self).status_msg,
                        ..*old(self)
                    })
                },
            },
    {
        match self.parse(file) {
            Ok(items) => {
                let count = count_variables(&items);
                self.items = items;
                self.example_path = Some(path);
                self.status_msg = self.loaded_status(count);
            },
            Err(msg) => {
                self.status_msg = msg;
            },
        }
    }

    fn loaded_status(&self, count: usize) -> (s: String)
        ensures
            s@ == template_loaded_text(self.current_lang, count as nat),
    {
        let mut s = owned(self.current_lang.phrase_of(TextKey::StatusTemplateOk));
        s.push(' ');
        let tail = fill(self.current_lang, TextKey::CountVars, &decimal_of(count as u64));
        append_str(&mut s, tail.as_str());
        assert(s@ =~= template_loaded_text(self.current_lang, count as nat));
        s
    }

    fn merged_status(&self, count: usize) -> (s: String)
        ensures
            s@ == env_merged_text(self.current_lang, count as nat),
    {
        let mut s = owned(self.current_lang.phrase_of(TextKey::StatusEnvOk));
        s.push(' ');
        let tail = fill(self.current_lang, TextKey::CountMerged, &decimal_of(count as u64));
        append_str(&mut s, tail.as_str());
        assert(s@ =~= env_merged_text(self.current_lang, count as nat));
        s
    }

    /// Merges an existing `.env` file into the loaded template: given what
    /// reading `path` gave, each variable of the template takes the value
    /// and commented-out state of the first variable of the same key in the
    /// file, and the status counts them; where reading failed, only the
    /// status changes, to the message.
    pub fn merge_env(&mut self, path: String, file: Result<String, FileError>)
        ensures
            match file {
                Ok(content) => {
                    &&& items_view(final(self).items@) == merged_items(
                        items_view(old(self).items@),
                        parse_text(content@),
                    )
                    &&& final(self).env_path == Some(path)
                    &&& final(self).status_msg@ == env_merged_text(
                        old(self).current_lang,
                        merge_count(items_view(old(self).items@), parse_text(content@)),
                    )
                    &&& *final(self) == (EnvEditorApp {
                        items: final(self).items,
                        env_path: final(self).env_path,
                        status_msg: final(self).status_msg,
                        ..*old(self)
                    })
                },
                Err(e) => {
                    &&& final(self).status_msg@ == file_error_text(
                        old(self).current_lang,
                        e.stage,
                        e.detail@,
                    )
                    &&& *final(self) == (EnvEditorApp {
                        status_msg: final(self).status_msg,
                        ..*old(self)
                    })
                },
            },
    {
        let new_items = match self.parse(file) {
            Ok(v) => v,
            Err(msg) => {
                self.status_msg = msg;
                return;
            },
        };
        let count = self.merge_items(&new_items);
        self.env_path = Some(path);
        self.status_msg = self.merged_status(count);
    }

    /// Takes into the loaded items, by key, the value and commented-out
    /// state of `new_items`; returns how many variables took a value.
    pub fn merge_items(&mut self, new_items: &[EnvItem]) -> (count: usize)
        ensures
            items_view(final(self).items@) == merged_items(
                items_view(old(self).items@),
                items_view(new_items@),
            ),
            count == merge_count(items_view(old(self).items@), items_view(new_items@)),
            *final(self) == (EnvEditorApp { items: final(self).items, ..*old(self) }),
    {
        merge_into(&mut self.items, new_items)
    }

    // ---------- Saving ----------

    /// The `.env` text of the loaded items, with the chosen line endings.
    pub fn serialize_env(&self) -> (s: String)
        ensures
            s@ == serialize_text(items_view(self.items@), eol_of(self.target_os)),
    {
        serialize_items(&self.items, self.target_os.eol())
    }

    /// Records how saving ended: the path written, shown in the message
    /// `saved_to`, or the message of the failure.
    pub fn save_finished(&mut self, outcome: Result<String, String>)
        ensures
            match outcome {
                Ok(path) => final(self).status_msg@ == filled(
                    old(self).current_lang,
                    TextKey::SavedTo,
                    path@,
                ),
                Err(m) => final(self).status_msg@ == m@,
            },
            *final(self) == (EnvEditorApp { status_msg: final(self).status_msg, ..*old(self) }),
    {
        match outcome {
            Ok(path) => {
                self.status_msg = fill(self.current_lang, TextKey::SavedTo, &chars_of(path.as_str()));
            },
            Err(m) => {
                self.status_msg = m;
            },
        }
    }

    // ---------- Secrets ----------

    /// Generates a random secret of the chosen length, as lower-case
    /// hexadecimal, and sets the status to `secret_copied`; the caller puts
    /// the secret on the clipboard. Where the operating system cannot
    /// provide random bytes, there is no secret and the status says so.
    pub fn generate_secret(&mut self) -> (secret: Option<String>)
        ensures
            match secret {
                Some(s) => {
                    &&& exists|b: Seq<u8>| b.len() == secret_bytes(old(self).secret_len) && s@ == hex_text(b)
                    &&& s@.len() == 2 * secret_bytes(old(self).secret_len)
                    &&& final(self).status_msg@ == phrase(old(self).current_lang, TextKey::SecretCopied)
                },
                None => final(self).status_msg@ == no_random_text(),
            },
            *final(self) == (EnvEditorApp { status_msg: final(self).status_msg, ..*old(self) }),
    {
        match random_secret(self.secret_len) {
            Some(secret) => {
                self.status_msg = owned(self.current_lang.phrase_of(TextKey::SecretCopied));
                Some(secret)
            },
            None => {
                self.status_msg = owned("Zufallsgenerator des Systems nicht verfügbar.");
                None
            },
        }
    }

    // ---------- Validation ----------

    /// Checks a value against its key: for a key holding `URL` or `HOST`
    /// (in upper case), the value must be `localhost` or hold `://`; for one
    /// holding `PORT`, it must be a port number. An empty value always passes.
    pub fn validate_value(key: &str, value: &str) -> (r: Result<(), String>)
        ensures
            match r {
                Ok(()) => validation(key@, value@) is None,
                Err(m) => validation(key@, value@) == Some(m@),
            },
    {
        let v = chars_of(value);
        if v.len() == 0 {
            return Ok(());
        }
        let upper = to_ascii_upper(chars_of(key).as_slice());
        let has_url = has_infix(upper.as_slice(), chars_of("URL").as_slice());
        let has_host = has_infix(upper.as_slice(), chars_of("HOST").as_slice());
        if has_url || has_host {
            let http = has_prefix(v.as_slice(), chars_of("http://").as_slice());
            let https = has_prefix(v.as_slice(), chars_of("https://").as_slice());
            let scheme = has_infix(v.as_slice(), chars_of("://").as_slice());
            let local = chars_equal(&v, &chars_of("localhost"));
            if !http && !https && !scheme && !local {
                return Err(
                    if has_url {
                        owned("URL should start with http:// or https://")
                    } else {
                        owned("HOST should be a hostname or full URL")
                    },
                );
            }
        }
        if has_infix(upper.as_slice(), chars_of("PORT").as_slice()) {
            if parse_u16_chars(v.as_slice()).is_none() {
                return Err(owned("Port must be a number between 0 and 65535"));
            }
        }
        Ok(())
    }
}

/// The status when the operating system could not provide random bytes.
pub open spec fn no_random_text() -> Seq<char> {
    "Zufallsgenerator des Systems nicht verfügbar."@
}

/// What `validate_value` objects to in `value` for `key`, if anything.
pub open spec fn validation(key: Seq<char>, value: Seq<char>) -> Option<Seq<char>> {
    let upper = ascii_upper(key);
    let has_url = contains_seq(upper, "URL"@);
    let has_host = contains_seq(upper, "HOST"@);
    if value.len() == 0 {
        None
    } else if (has_url || has_host) && !starts_with(value, "http://"@) && !starts_with(
        value,
        "https://"@,
    ) && !contains_seq(value, "://"@) && value != "localhost"@ {
        Some(
            if has_url {
                "URL should start with http:// or https://"@
            } else {
                "HOST should be a hostname or full URL"@
            },
        )
    } else if contains_seq(upper, "PORT"@) && parse_u16(value) is None {
        Some("Port must be a number between 0 and 65535"@)
    } else {
        None
    }
}

/// Whether two character vectors are equal.
pub fn chars_equal(a: &Vec<char>, b: &Vec<char>) -> (r: bool)
    ensures
        r == (a@ == b@),
{
    if a.len() != b.len() {
        return false;
    }
    let mut i: usize = 0;
    while i < a.len()
        invariant
            a@.len() == b@.len(),
            i <= a@.len(),
            forall|j: int| 0 <= j < i ==> a@[j] == b@[j],
        decreases a@.len() - i,
    {
        if a[i] != b[i] {
            return false;
        }
        i = i + 1;
    }
    assert(a@ =~= b@);
    true
}

/// A catalogue phrase with every placeholder replaced by `value`.
pub fn fill(l: Language, k: TextKey, value: &Vec<char>) -> (s: String)
    ensures
        s@ == filled(l, k, value@),
{
    let p = chars_of(l.phrase_of(k));
    let mut ph: Vec<char> = Vec::new();
    ph.push('{');
    ph.push('}');
    assert(ph@ =~= placeholder());
    let r = replaced(p.as_slice(), ph.as_slice(), value.as_slice());
    string_of(r.as_slice())
}

/// The number of variables among `items`.
pub fn count_variables(items: &Vec<EnvItem>) -> (n: usize)
    ensures
        n == var_count(items_view(items@)),
{
    let ghost iv = items_view(items@);
    let mut n: usize = 0;
    let mut i: usize = 0;
    while i < items.len()
        invariant
            iv == items_view(items@),
            i <= items@.len(),
            n == var_count(iv.take(i as int)),
            n <= i,
        decreases items@.len() - i,
    {
        if let EnvItem::Variable { .. } = &items[i] {
            n = n + 1;
        }
        i = i + 1;
        assert(iv.take(i as int).drop_last() =~= iv.take(i - 1));
        assert(iv.take(i as int).last() == items@[i - 1]@);
    }
    assert(iv.take(iv.len() as int) =~= iv);
    n
}

} // verus!
