//! The editor's remote commands. Each takes what the server answered (or
//! the error), or gives back what is to be sent; the connection itself is
//! made by the caller, which holds it in `remote_session`.
use vstd::prelude::*;
use crate::app::{EnvEditorApp, RemoteForm, env_merged_text, template_loaded_text, var_count};
use crate::item::{items_view};
use crate::merge::{merge_count, merged_items};
use crate::numeral::{decimal, decimal_of};
use crate::parse::{parse_content, parse_text, push_chars};
use crate::remote::{
    Auth, AuthKind, ConnectParams, RemoteDirEntry, SavedConnection, without_trailing_slashes,
};
use crate::serialize::serialize_text;
use crate::settings::eol_of;
use crate::text::{append_str, chars_of, copy_range, owned, string_of, trim, trimmed};

verus! {

/// What listing a remote directory gave.
#[derive(Debug)]
pub enum DirListing {
    /// The directory could not be read.
    Failed(String),
    /// Its entries, arranged for display, and the template or `.env` files
    /// found in it, or why looking for them failed.
    Listed { entries: Vec<RemoteDirEntry>, found: Result<Vec<String>, String> },
}

/// A connection to be made, and the directory to list once connected.
#[derive(Debug)]
pub struct ConnectRequest {
    pub params: ConnectParams,
    pub dir: String,
}

/// A profile to be saved, with the secret to put in the keyring.
#[derive(Debug)]
pub struct ProfileSave {
    pub conn: SavedConnection,
    pub secret: Option<String>,
}

/// A file to be written on the server.
#[derive(Debug)]
pub struct WriteRequest {
    pub path: String,
    pub content: String,
}

pub open spec fn no_session_text() -> Seq<char> {
    "Keine aktive Verbindung."@
}

/// The dialog status after listing `dir`.
pub open spec fn listing_status(dir: Seq<char>, listing: DirListing) -> Seq<char> {
    match listing {
        DirListing::Failed(e) => "Verzeichnis konnte nicht gelistet werden: "@ + e@,
        DirListing::Listed { entries, found } => match found {
            Ok(files) => decimal(files@.len()) + " .env-Datei(en) gefunden, "@ + decimal(
                entries@.len(),
            ) + " Einträge in „"@ + dir + "“."@,
            Err(e) => "Suche fehlgeschlagen: "@ + e@,
        },
    }
}

/// `b` is `a` after showing the listing of `dir`, apart from the status:
/// the dialog's directory becomes `dir`; the entries become the listed
/// ones, or none where the directory could not be read; the found files
/// become the found ones, none where the search failed, and stay where the
/// directory could not be read.
pub open spec fn after_listing<S>(
    a: EnvEditorApp<S>,
    b: EnvEditorApp<S>,
    dir: Seq<char>,
    listing: DirListing,
) -> bool {
    &&& b.remote_form.remote_dir@ == dir
    &&& b.remote_form == (RemoteForm { remote_dir: b.remote_form.remote_dir, ..a.remote_form })
    &&& match listing {
        DirListing::Failed(_) => {
            &&& b.remote_dir_entries@.len() == 0
            &&& b.remote_found_files == a.remote_found_files
        },
        DirListing::Listed { entries, found } => {
            &&& b.remote_dir_entries == entries
            &&& match found {
                Ok(files) => b.remote_found_files == files,
                Err(_) => b.remote_found_files@.len() == 0,
            }
        },
    }
    &&& b == (EnvEditorApp {
        remote_form: b.remote_form,
        remote_dir_entries: b.remote_dir_entries,
        remote_found_files: b.remote_found_files,
        remote_status: b.remote_status,
        ..a
    })
}

/// The name under which a profile is saved: the trimmed profile name, or
/// `user@host` from the untrimmed fields where it is empty.
pub open spec fn profile_name_text(f: RemoteForm) -> Seq<char> {
    if trim(f.profile_name@).len() == 0 {
        f.username@ + seq!['@'] + f.host@
    } else {
        trim(f.profile_name@)
    }
}

/// The status after a new host key was accepted and remembered.
pub open spec fn new_host_key_text(fp: Seq<char>, rest: Seq<char>) -> Seq<char> {
    "Neuer Host-Key akzeptiert und gespeichert ("@ + fp + "). "@ + rest
}

/// The directory that a navigation leads to from `current`: for `..` the
/// parent of `current` without slashes at its end (`/` where there is
/// none), or the sub-directory `name`.
pub open spec fn navigate_target(current: Seq<char>, name: Seq<char>) -> Seq<char> {
    let cur = trim(current);
    if name == ".."@ {
        let c = without_trailing_slashes(cur);
        if c.contains('/') {
            let i = choose|i: int| last_slash_is(c, i);
            if i > 0 {
                c.take(i)
            } else {
                "/"@
            }
        } else {
            "/"@
        }
    } else if cur.len() == 0 || cur == "."@ {
        name
    } else {
        without_trailing_slashes(cur) + seq!['/'] + name
    }
}

/// `i` is the last index of `/` in `s`.
pub open spec fn last_slash_is(s: Seq<char>, i: int) -> bool {
    &&& 0 <= i < s.len()
    &&& s[i] == '/'
    &&& forall|j: int| i < j < s.len() ==> s[j] != '/'
}

/// `cur` without slashes at its end.
fn drop_trailing_slashes(cur: &Vec<char>) -> (out: Vec<char>)
    ensures
        out@ == without_trailing_slashes(cur@),
{
    let mut m = cur.len();
    assert(cur@.take(m as int) =~= cur@);
    while m > 0 && cur[m - 1] == '/'
        invariant
            m <= cur@.len(),
            without_trailing_slashes(cur@) == without_trailing_slashes(cur@.take(m as int)),
        decreases m,
    {
        assert(cur@.take(m as int).drop_last() =~= cur@.take(m - 1));
        m = m - 1;
    }
    let out = copy_range(cur.as_slice(), 0, m);
    assert(out@ =~= cur@.take(m as int));
    assert(cur@.take(m as int) == without_trailing_slashes(cur@.take(m as int)));
    out
}

fn last_slash(s: &Vec<char>) -> (r: Option<usize>)
    ensures
        match r {
            Some(i) => last_slash_is(s@, i as int),
            None => !s@.contains('/'),
        },
{
    let mut m = s.len();
    while m > 0
        invariant
            m <= s@.len(),
            forall|j: int| m <= j < s@.len() ==> s@[j] != '/',
        decreases m,
    {
        if s[m - 1] == '/' {
            return Some(m - 1);
        }
        m = m - 1;
    }
    None
}

impl<S> EnvEditorApp<S> {
    /// Ends the session. The loaded items stay; the save target on the
    /// server, the found files and the directory entries are forgotten.
    pub fn remote_disconnect(&mut self)
        ensures
            final(self).remote_session is None,
            final(self).remote_active_path is None,
            final(self).remote_found_files@.len() == 0,
            final(self).remote_dir_entries@.len() == 0,
            final(self).remote_status@ == "Verbindung getrennt."@,
            *final(self) == (EnvEditorApp {
                remote_session: final(self).remote_session,
                remote_active_path: final(self).remote_active_path,
                remote_found_files: final(self).remote_found_files,
                remote_dir_entries: final(self).remote_dir_entries,
                remote_status: final(self).remote_status,
                ..*old(self)
            }),
    {
        self.remote_session = None;
        self.remote_active_path = None;
        self.remote_found_files = Vec::new();
        self.remote_dir_entries = Vec::new();
        self.remote_status = owned("Verbindung getrennt.");
    }

    /// Checks the connection dialog and, where it is complete, gives the
    /// connection to make: the port must be a number, host and user name
    /// must not be blank, and key authentication needs a key file. Where a
    /// check fails, only the dialog's status changes, to say which.
    pub fn remote_connect(&mut self) -> (r: Option<ConnectRequest>)
        ensures
            ({
                let f = old(self).remote_form;
                let port = crate::numeral::parse_u16(trim(f.port@));
                if port is None {
                    &&& r is None
                    &&& final(self).remote_status@ == "Ungültiger Port."@
                    &&& *final(self) == (EnvEditorApp { remote_status: final(self).remote_status, ..*old(self) })
                } else if trim(f.host@).len() == 0 || trim(f.username@).len() == 0 {
                    &&& r is None
                    &&& final(self).remote_status@ == "Bitte Host und Benutzername angeben."@
                    &&& *final(self) == (EnvEditorApp { remote_status: final(self).remote_status, ..*old(self) })
                } else if f.auth_kind == AuthKind::Key && f.key_path is None {
                    &&& r is None
                    &&& final(self).remote_status@ == "Bitte eine Schlüsseldatei wählen."@
                    &&& *final(self) == (EnvEditorApp { remote_status: final(self).remote_status, ..*old(self) })
                } else {
                    &&& *final(self) == *old(self)
                    &&& r matches Some(req)
                    &&& req.params.host@ == trim(f.host@)
                    &&& req.params.port == port.unwrap()
                    &&& req.params.username@ == trim(f.username@)
                    &&& req.dir@ == trim(f.remote_dir@)
                    &&& match req.params.auth {
                        Auth::Password(pw) => f.auth_kind == AuthKind::Password && pw@ == f.password@,
                        Auth::Key { path, passphrase } => {
                            &&& f.auth_kind == AuthKind::Key
                            &&& f.key_path matches Some(kp) && path@ == kp@
                            &&& if f.key_passphrase@.len() == 0 {
                                passphrase is None
                            } else {
                                passphrase matches Some(pp) && pp@ == f.key_passphrase@
                            }
                        },
                    }
                }
            }),
    {
        let port_text = trimmed(chars_of(self.remote_form.port.as_str()).as_slice());
        let port = match crate::numeral::parse_u16_chars(port_text.as_slice()) {
            Some(p) => p,
            None => {
                self.remote_status = owned("Ungültiger Port.");
                return None;
            },
        };
        let host = trimmed(chars_of(self.remote_form.host.as_str()).as_slice());
        let user = trimmed(chars_of(self.remote_form.username.as_str()).as_slice());
        if host.len() == 0 || user.len() == 0 {
            self.remote_status = owned("Bitte Host und Benutzername angeben.");
            return None;
        }
        let auth = match self.remote_form.auth_kind {
            AuthKind::Password => Auth::Password(self.remote_form.password.clone()),
            AuthKind::Key => {
                let path = match &self.remote_form.key_path {
                    Some(p) => p.clone(),
                    None => {
                        self.remote_status = owned("Bitte eine Schlüsseldatei wählen.");
                        return None;
                    },
                };
                let passphrase = if chars_of(self.remote_form.key_passphrase.as_str()).len() == 0 {
                    None
                } else {
                    Some(self.remote_form.key_passphrase.clone())
                };
                Auth::Key { path, passphrase }
            },
        };
        let dir = trimmed(chars_of(self.remote_form.remote_dir.as_str()).as_slice());
        Some(
            ConnectRequest {
                params: ConnectParams {
                    host: string_of(host.as_slice()),
                    port,
                    username: string_of(user.as_slice()),
                    auth,
                },
                dir: string_of(dir.as_slice()),
            },
        )
    }

    /// Records a failed connection attempt: no session, no found files or
    /// entries, and the error as the dialog's status.
    pub fn remote_connect_failed(&mut self, err: String)
        ensures
            final(self).remote_session is None,
            final(self).remote_found_files@.len() == 0,
            final(self).remote_dir_entries@.len() == 0,
            final(self).remote_status == err,
            *final(self) == (EnvEditorApp {
                remote_session: final(self).remote_session,
                remote_found_files: final(self).remote_found_files,
                remote_dir_entries: final(self).remote_dir_entries,
                remote_status: final(self).remote_status,
                ..*old(self)
            }),
    {
        self.remote_session = None;
        self.remote_found_files = Vec::new();
        self.remote_dir_entries = Vec::new();
        self.remote_status = err;
    }

    /// Records a successful connection on `port`: the session is kept, the
    /// listing of the dialog's (trimmed) directory is shown, a newly
    /// remembered host key is reported before the listing's status, and,
    /// where the dialog asks to remember the profile, the profile to save
    /// is given back with its secret: the password, or a non-empty key
    /// passphrase.
    pub fn remote_connect_succeeded(
        &mut self,
        session: S,
        new_host_key: Option<String>,
        port: u16,
        listing: DirListing,
    ) -> (r: Option<ProfileSave>)
        ensures
            ({
                let f = old(self).remote_form;
                let dir = trim(f.remote_dir@);
                let with_session = EnvEditorApp { remote_session: Some(session), ..*old(self) };
                &&& after_listing(with_session, *final(self), dir, listing)
                &&& final(self).remote_status@ == match new_host_key {
                    Some(fp) => new_host_key_text(fp@, listing_status(dir, listing)),
                    None => listing_status(dir, listing),
                }
                &&& if f.remember {
                    &&& r matches Some(save)
                    &&& save.conn.name@ == profile_name_text(f)
                    &&& save.conn.host@ == trim(f.host@)
                    &&& save.conn.port == port
                    &&& save.conn.username@ == trim(f.username@)
                    &&& save.conn.auth_kind == f.auth_kind
                    &&& save.conn.key_path == f.key_path
                    &&& !save.conn.has_secret
                    &&& match f.auth_kind {
                        AuthKind::Password => save.secret matches Some(s) && s@ == f.password@,
                        AuthKind::Key => if f.key_passphrase@.len() == 0 {
                            save.secret is None
                        } else {
                            save.secret matches Some(s) && s@ == f.key_passphrase@
                        },
                    }
                } else {
                    r is None
                }
            }),
    {
        let ghost f = self.remote_form;
        let dir = trimmed(chars_of(self.remote_form.remote_dir.as_str()).as_slice());
        self.remote_session = Some(session);
        self.show_listing(string_of(dir.as_slice()), listing);
        match new_host_key {
            Some(fp) => {
                let mut s = owned("Neuer Host-Key akzeptiert und gespeichert (");
                append_str(&mut s, fp.as_str());
                append_str(&mut s, "). ");
                append_str(&mut s, self.remote_status.as_str());
                self.remote_status = s;
            },
            None => {},
        }
        if !self.remote_form.remember {
            return None;
        }
        let name_text = trimmed(chars_of(self.remote_form.profile_name.as_str()).as_slice());
        let name = if name_text.len() == 0 {
            let mut n = self.remote_form.username.clone();
            n.push('@');
            append_str(&mut n, self.remote_form.host.as_str());
            n
        } else {
            string_of(name_text.as_slice())
        };
        let host = trimmed(chars_of(self.remote_form.host.as_str()).as_slice());
        let user = trimmed(chars_of(self.remote_form.username.as_str()).as_slice());
        let key_path = match &self.remote_form.key_path {
            Some(p) => Some(p.clone()),
            None => None,
        };
        let conn = SavedConnection {
            name,
            host: string_of(host.as_slice()),
            port,
            username: string_of(user.as_slice()),
            auth_kind: self.remote_form.auth_kind,
            key_path,
            has_secret: false,
        };
        let secret = match self.remote_form.auth_kind {
            AuthKind::Password => Some(self.remote_form.password.clone()),
            AuthKind::Key => if chars_of(self.remote_form.key_passphrase.as_str()).len() == 0 {
                None
            } else {
                Some(self.remote_form.key_passphrase.clone())
            },
        };
        Some(ProfileSave { conn, secret })
    }

    /// Records how saving a profile ended: the profiles as read back, or the
    /// error in the dialog's status.
    pub fn remote_profile_saved(&mut self, outcome: Result<Vec<SavedConnection>, String>)
        ensures
            match outcome {
                Ok(list) => *final(self) == (EnvEditorApp {
                    remote_saved_connections: list,
                    ..*old(self)
                }),
                Err(e) => {
                    &&& final(self).remote_status@
                        == "Verbunden, aber Profil-Speichern fehlgeschlagen: "@ + e@
                    &&& *final(self) == (EnvEditorApp {
                        remote_status: final(self).remote_status,
                        ..*old(self)
                    })
                },
            },
    {
        match outcome {
            Ok(list) => {
                self.remote_saved_connections = list;
            },
            Err(e) => {
                let mut s = owned("Verbunden, aber Profil-Speichern fehlgeschlagen: ");
                append_str(&mut s, e.as_str());
                self.remote_status = s;
            },
        }
    }

    fn show_listing(&mut self, dir: String, listing: DirListing)
        ensures
            after_listing(*old(self), *final(self), dir@, listing),
            final(self).remote_status@ == listing_status(dir@, listing),
    {
        let ghost d = dir@;
        let ghost l = listing;
        match listing {
            DirListing::Failed(e) => {
                self.remote_form.remote_dir = dir;
                self.remote_dir_entries = Vec::new();
                let mut s = owned("Verzeichnis konnte nicht gelistet werden: ");
                append_str(&mut s, e.as_str());
                self.remote_status = s;
            },
            DirListing::Listed { entries, found } => {
                let n_entries = entries.len();
                self.remote_dir_entries = entries;
                match found {
                    Ok(files) => {
                        let n_files = files.len();
                        self.remote_found_files = files;
                        let mut s = String::new();
                        push_chars(&mut s, decimal_of(n_files as u64).as_slice());
                        append_str(&mut s, " .env-Datei(en) gefunden, ");
                        push_chars(&mut s, decimal_of(n_entries as u64).as_slice());
                        append_str(&mut s, " Einträge in „");
                        append_str(&mut s, dir.as_str());
                        append_str(&mut s, "“.");
                        self.remote_status = s;
                        assert(self.remote_status@ =~= listing_status(d, l));
                    },
                    Err(e) => {
                        self.remote_found_files = Vec::new();
                        let mut s = owned("Suche fehlgeschlagen: ");
                        append_str(&mut s, e.as_str());
                        self.remote_status = s;
                    },
                }
                self.remote_form.remote_dir = dir;
            },
        }
    }

    /// Shows the listing of `dir` without connecting anew. Without a
    /// session only the dialog's status changes, to say so, and the listing
    /// is not used.
    pub fn remote_refresh(&mut self, dir: &str, listing: DirListing)
        ensures
            if old(self).remote_session is None {
                &&& final(self).remote_status@ == no_session_text()
                &&& *final(self) == (EnvEditorApp { remote_status: final(self).remote_status, ..*old(self) })
            } else {
                &&& after_listing(*old(self), *final(self), dir@, listing)
                &&& final(self).remote_status@ == listing_status(dir@, listing)
            },
    {
        if self.remote_session.is_none() {
            self.remote_status = owned("Keine aktive Verbindung.");
            return;
        }
        self.show_listing(owned(dir), listing);
    }

    /// The directory that navigating to `name` leads to from the dialog's
    /// directory: `..` goes up, any other name goes down.
    pub fn remote_navigate(&self, name: &str) -> (target: String)
        ensures
            target@ == navigate_target(self.remote_form.remote_dir@, name@),
    {
        let cur = trimmed(chars_of(self.remote_form.remote_dir.as_str()).as_slice());
        let c = drop_trailing_slashes(&cur);
        let n = chars_of(name);
        let up = crate::app::chars_equal(&n, &chars_of(".."));
        if up {
            match last_slash(&c) {
                Some(i) => {
                    proof {
                        let k = choose|k: int| last_slash_is(c@, k);
                        if k < i {
                            assert(c@[k] != '/');
                        } else if k > i {
                            assert(c@[i as int] != '/');
                        }
                    }
                    if i > 0 {
                        let parent = copy_range(c.as_slice(), 0, i);
                        assert(parent@ =~= c@.take(i as int));
                        string_of(parent.as_slice())
                    } else {
                        owned("/")
                    }
                },
                None => owned("/"),
            }
        } else if cur.len() == 0 || crate::app::chars_equal(&cur, &chars_of(".")) {
            owned(name)
        } else {
            let mut out = string_of(c.as_slice());
            out.push('/');
            append_str(&mut out, name);
            assert(out@ =~= without_trailing_slashes(cur@) + seq!['/'] + name@);
            out
        }
    }

    /// Whether applying profile `idx` needs its secret from the keyring:
    /// the profile exists and has one.
    pub fn remote_secret_wanted(&self, idx: usize) -> (b: bool)
        ensures
            b == (idx < self.remote_saved_connections@.len()
                && self.remote_saved_connections@[idx as int].has_secret),
    {
        idx < self.remote_saved_connections.len() && self.remote_saved_connections[idx].has_secret
    }

    /// Fills the dialog from profile `idx`, with `secret` (read from the
    /// keyring, if any) as its password or passphrase where the profile
    /// has a secret. Nothing changes for an index past the end.
    pub fn remote_apply_saved(&mut self, idx: usize, secret: Option<String>)
        ensures
            if idx < old(self).remote_saved_connections@.len() {
                let c = old(self).remote_saved_connections@[idx as int];
                let use_secret = c.has_secret && secret is Some;
                &&& final(self).remote_form.profile_name@ == c.name@
                &&& final(self).remote_form.host@ == c.host@
                &&& final(self).remote_form.port@ == decimal(c.port as nat)
                &&& final(self).remote_form.username@ == c.username@
                &&& final(self).remote_form.auth_kind == c.auth_kind
                &&& final(self).remote_form.key_path == c.key_path
                &&& final(self).remote_form.remember
                &&& final(self).remote_form.password@ == (if use_secret && c.auth_kind
                    == AuthKind::Password {
                    secret.unwrap()@
                } else {
                    Seq::<char>::empty()
                })
                &&& final(self).remote_form.key_passphrase@ == (if use_secret && c.auth_kind
                    == AuthKind::Key {
                    secret.unwrap()@
                } else {
                    Seq::<char>::empty()
                })
                &&& final(self).remote_form.show_password == old(self).remote_form.show_password
                &&& final(self).remote_form.remote_dir == old(self).remote_form.remote_dir
                &&& *final(self) == (EnvEditorApp { remote_form: final(self).remote_form, ..*old(self) })
            } else {
                *final(self) == *old(self)
            },
    {
        if idx >= self.remote_saved_connections.len() {
            return;
        }
        let c = &self.remote_saved_connections[idx];
        let name = c.name.clone();
        let host = c.host.clone();
        let port = string_of(decimal_of(c.port as u64).as_slice());
        let user = c.username.clone();
        let kind = c.auth_kind;
        let key_path = match &c.key_path {
            Some(p) => Some(p.clone()),
            None => None,
        };
        let has_secret = c.has_secret;
        self.remote_form.profile_name = name;
        self.remote_form.host = host;
        self.remote_form.port = port;
        self.remote_form.username = user;
        self.remote_form.auth_kind = kind;
        self.remote_form.key_path = key_path;
        self.remote_form.remember = true;
        self.remote_form.password = String::new();
        self.remote_form.key_passphrase = String::new();
        if has_secret {
            match secret {
                Some(s) => match kind {
                    AuthKind::Password => {
                        self.remote_form.password = s;
                    },
                    AuthKind::Key => {
                        self.remote_form.key_passphrase = s;
                    },
                },
                None => {},
            }
        }
    }

    /// Removes profile `idx` from the list and gives it back, for its entry
    /// and secret to be deleted from storage. Nothing changes for an index
    /// past the end.
    pub fn remote_delete_saved(&mut self, idx: usize) -> (r: Option<SavedConnection>)
        ensures
            if idx < old(self).remote_saved_connections@.len() {
                &&& r == Some(old(self).remote_saved_connections@[idx as int])
                &&& final(self).remote_saved_connections@ == old(
                    self,
                ).remote_saved_connections@.remove(idx as int)
                &&& *final(self) == (EnvEditorApp {
                    remote_saved_connections: final(self).remote_saved_connections,
                    ..*old(self)
                })
            } else {
                r is None && *final(self) == *old(self)
            },
    {
        if idx < self.remote_saved_connections.len() {
            Some(self.remote_saved_connections.remove(idx))
        } else {
            None
        }
    }

    /// Records how deleting a profile from storage ended: the error becomes
    /// the dialog's status; on success nothing changes.
    pub fn remote_delete_finished(&mut self, outcome: Result<(), String>)
        ensures
            match outcome {
                Ok(()) => *final(self) == *old(self),
                Err(e) => *final(self) == (EnvEditorApp { remote_status: e, ..*old(self) }),
            },
    {
        match outcome {
            Ok(()) => {},
            Err(e) => {
                self.remote_status = e;
            },
        }
    }

    /// Loads a remote file as the template, given what reading it gave:
    /// the items become the file's, the local paths are forgotten, the file
    /// becomes the save target, and the dialog closes. Without a session,
    /// or where reading failed, only the dialog's status changes.
    pub fn remote_load_as_template(&mut self, remote_path: String, read: Result<String, String>)
        ensures
            if old(self).remote_session is None {
                &&& final(self).remote_status@ == no_session_text()
                &&& *final(self) == (EnvEditorApp { remote_status: final(self).remote_status, ..*old(self) })
            } else {
                match read {
                    Err(e) => *final(self) == (EnvEditorApp { remote_status: e, ..*old(self) }),
                    Ok(content) => {
                        &&& items_view(final(self).items@) == parse_text(content@)
                        &&& final(self).example_path is None
                        &&& final(self).env_path is None
                        &&& final(self).remote_active_path == Some(remote_path)
                        &&& final(self).status_msg@ == template_loaded_text(
                            old(self).current_lang,
                            var_count(parse_text(content@)),
                        )
                        &&& final(self).remote_status@ == "Als Vorlage geladen: "@ + remote_path@
                        &&& !final(self).remote_window_open
                        &&& *final(self) == (EnvEditorApp {
                            items: final(self).items,
                            example_path: final(self).example_path,
                            env_path: final(self).env_path,
                            remote_active_path: final(self).remote_active_path,
                            status_msg: final(self).status_msg,
                            remote_status: final(self).remote_status,
                            remote_window_open: final(self).remote_window_open,
                            ..*old(self)
                        })
                    },
                }
            },
    {
        if self.remote_session.is_none() {
            self.remote_status = owned("Keine aktive Verbindung.");
            return;
        }
        let content = match read {
            Ok(c) => c,
            Err(e) => {
                self.remote_status = e;
                return;
            },
        };
        let items = parse_content(content.as_str());
        let count = crate::app::count_variables(&items);
        let mut note = owned("Als Vorlage geladen: ");
        append_str(&mut note, remote_path.as_str());
        self.items = items;
        self.example_path = None;
        self.env_path = None;
        self.remote_active_path = Some(remote_path);
        self.status_msg = self.template_status(count);
        self.remote_status = note;
        self.remote_window_open = false;
    }

    fn template_status(&self, count: usize) -> (s: String)
        ensures
            s@ == template_loaded_text(self.current_lang, count as nat),
    {
        let mut s = owned(self.current_lang.phrase_of(crate::i18n::TextKey::StatusTemplateOk));
        s.push(' ');
        let tail = crate::app::fill(
            self.current_lang,
            crate::i18n::TextKey::CountVars,
            &decimal_of(count as u64),
        );
        append_str(&mut s, tail.as_str());
        assert(s@ =~= template_loaded_text(self.current_lang, count as nat));
        s
    }

    fn merge_status(&self, count: usize) -> (s: String)
        ensures
            s@ == env_merged_text(self.current_lang, count as nat),
    {
        let mut s = owned(self.current_lang.phrase_of(crate::i18n::TextKey::StatusEnvOk));
        s.push(' ');
        let tail = crate::app::fill(
            self.current_lang,
            crate::i18n::TextKey::CountMerged,
            &decimal_of(count as u64),
        );
        append_str(&mut s, tail.as_str());
        assert(s@ =~= env_merged_text(self.current_lang, count as nat));
        s
    }

    /// Merges a remote file into the loaded template, given what reading
    /// it gave, as a local merge does: the file becomes the save target,
    /// the dialog's status counts the values taken, and the dialog closes.
    /// Without a session, or where reading failed, only the dialog's status
    /// changes.
    pub fn remote_merge(&mut self, remote_path: String, read: Result<String, String>)
        ensures
            if old(self).remote_session is None {
                &&& final(self).remote_status@ == no_session_text()
                &&& *final(self) == (EnvEditorApp { remote_status: final(self).remote_status, ..*old(self) })
            } else {
                match read {
                    Err(e) => *final(self) == (EnvEditorApp { remote_status: e, ..*old(self) }),
                    Ok(content) => {
                        &&& items_view(final(self).items@) == merged_items(
                            items_view(old(self).items@),
                            parse_text(content@),
                        )
                        &&& final(self).remote_active_path == Some(remote_path)
                        &&& final(self).remote_status@ == env_merged_text(
                            old(self).current_lang,
                            merge_count(items_view(old(self).items@), parse_text(content@)),
                        )
                        &&& !final(self).remote_window_open
                        &&& *final(self) == (EnvEditorApp {
                            items: final(self).items,
                            remote_active_path: final(self).remote_active_path,
                            remote_status: final(self).remote_status,
                            remote_window_open: final(self).remote_window_open,
                            ..*old(self)
                        })
                    },
                }
            },
    {
        if self.remote_session.is_none() {
            self.remote_status = owned("Keine aktive Verbindung.");
            return;
        }
        let content = match read {
            Ok(c) => c,
            Err(e) => {
                self.remote_status = e;
                return;
            },
        };
        let new_items = parse_content(content.as_str());
        let count = self.merge_items(&new_items);
        self.remote_active_path = Some(remote_path);
        self.remote_status = self.merge_status(count);
        self.remote_window_open = false;
    }

    /// The write that saves the items to the server: the save target and
    /// the `.env` text. Without a save target, or without a session, only
    /// the dialog's status changes, to say which.
    pub fn remote_save_active(&mut self) -> (r: Option<WriteRequest>)
        ensures
            match old(self).remote_active_path {
                None => {
                    &&& r is None
                    &&& final(self).remote_status@
                        == "Keine Remote-Zieldatei ausgewählt (erst laden/abgleichen)."@
                    &&& *final(self) == (EnvEditorApp { remote_status: final(self).remote_status, ..*old(self) })
                },
                Some(path) => if old(self).remote_session is None {
                    &&& r is None
                    &&& final(self).remote_status@ == no_session_text()
                    &&& *final(self) == (EnvEditorApp { remote_status: final(self).remote_status, ..*old(self) })
                } else {
                    &&& *final(self) == *old(self)
                    &&& r matches Some(w)
                    &&& w.path@ == path@
                    &&& w.content@ == serialize_text(
                        items_view(old(self).items@),
                        eol_of(old(self).target_os),
                    )
                },
            },
    {
        let path = match &self.remote_active_path {
            Some(p) => p.clone(),
            None => {
                self.remote_status = owned(
                    "Keine Remote-Zieldatei ausgewählt (erst laden/abgleichen).",
                );
                return None;
            },
        };
        if self.remote_session.is_none() {
            self.remote_status = owned("Keine aktive Verbindung.");
            return None;
        }
        let content = self.serialize_env();
        Some(WriteRequest { path, content })
    }

    /// Records how writing `path` on the server ended.
    pub fn remote_save_finished(&mut self, path: String, result: Result<(), String>)
        ensures
            match result {
                Ok(()) => final(self).remote_status@ == "Auf Server gespeichert: "@ + path@,
                Err(e) => final(self).remote_status@ == e@,
            },
            *final(self) == (EnvEditorApp { remote_status: final(self).remote_status, ..*old(self) }),
    {
        match result {
            Ok(()) => {
                let mut s = owned("Auf Server gespeichert: ");
                append_str(&mut s, path.as_str());
                self.remote_status = s;
            },
            Err(e) => {
                self.remote_status = e;
            },
        }
    }
}

} // verus!
