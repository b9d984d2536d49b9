//! The decisions around the SSH/SFTP connection: connection profiles, the
//! host-key check (trust on first use), the remote directory listing and
//! the candidate `.env` files. The connection itself is made outside.
use vstd::prelude::*;
use crate::numeral::{decimal, decimal_of};
use crate::parse::push_chars;
use crate::text::chars_of;

verus! {

/// How a profile authenticates.
#[derive(Debug, Clone, Copy, PartialEq, Eq, Structural)]
pub enum AuthKind {
    Password,
    Key,
}

/// A saved connection profile. It never holds a password or passphrase:
/// those live in the system keyring, under the account that
/// `keyring_account` names.
#[derive(Debug, Clone, PartialEq, Eq)]
pub struct SavedConnection {
    pub name: String,
    pub host: String,
    pub port: u16,
    pub username: String,
    pub auth_kind: AuthKind,
    /// The private key file, for key authentication.
    pub key_path: Option<String>,
    /// Whether a secret for this profile was put in the keyring.
    pub has_secret: bool,
}

/// One entry of a remote directory.
#[derive(Debug, Clone, PartialEq, Eq)]
pub struct RemoteDirEntry {
    pub name: String,
    pub is_dir: bool,
}

/// The credentials of one connection attempt.
#[derive(Debug)]
pub enum Auth {
    Password(String),
    Key { path: String, passphrase: Option<String> },
}

/// The parameters of one connection attempt.
#[derive(Debug)]
pub struct ConnectParams {
    pub host: String,
    pub port: u16,
    pub username: String,
    pub auth: Auth,
}

/// What the host-key check found during the handshake.
#[derive(Debug)]
pub enum HostKeyOutcome {
    /// A host seen for the first time; its fingerprint is to be remembered.
    New(String),
    /// A host whose key differs from the remembered one.
    Mismatch { known: String, seen: String },
}

// ---------------------------------------------------------------------------
//  Names
// ---------------------------------------------------------------------------

/// The keyring account of a profile: `user@host:port`.
pub open spec fn keyring_account_text(username: Seq<char>, host: Seq<char>, port: u16) -> Seq<
    char,
> {
    username + seq!['@'] + host + seq![':'] + decimal(port as nat)
}

/// The key under which a host's fingerprint is remembered: `host:port`.
pub open spec fn host_id_text(host: Seq<char>, port: u16) -> Seq<char> {
    host + seq![':'] + decimal(port as nat)
}

/// The keyring account of a profile: `user@host:port`.
pub fn keyring_account(conn: &SavedConnection) -> (out: String)
    ensures
        out@ == keyring_account_text(conn.username@, conn.host@, conn.port),
{
    let mut out = String::new();
    push_chars(&mut out, chars_of(conn.username.as_str()).as_slice());
    out.push('@');
    push_chars(&mut out, chars_of(conn.host.as_str()).as_slice());
    out.push(':');
    push_chars(&mut out, decimal_of(conn.port as u64).as_slice());
    assert(out@ =~= keyring_account_text(conn.username@, conn.host@, conn.port));
    out
}

/// The key under which a host's fingerprint is remembered: `host:port`.
pub fn host_id(host: &str, port: u16) -> (out: String)
    ensures
        out@ == host_id_text(host@, port),
{
    let mut out = String::new();
    push_chars(&mut out, chars_of(host).as_slice());
    out.push(':');
    push_chars(&mut out, decimal_of(port as u64).as_slice());
    assert(out@ =~= host_id_text(host@, port));
    out
}

// ---------------------------------------------------------------------------
//  Candidate files
// ---------------------------------------------------------------------------

/// The directory that a listing reads: `.` for an empty path.
pub open spec fn effective_dir(dir: Seq<char>) -> Seq<char> {
    if dir.len() == 0 {
        seq!['.']
    } else {
        dir
    }
}

/// `dir` without slashes at its end.
pub open spec fn without_trailing_slashes(dir: Seq<char>) -> Seq<char>
    decreases dir.len(),
{
    if dir.len() > 0 && dir.last() == '/' {
        without_trailing_slashes(dir.drop_last())
    } else {
        dir
    }
}

/// Dropping the slashes at the end leaves a prefix that does not end in `/`.
pub proof fn lemma_without_trailing_slashes(dir: Seq<char>)
    ensures
        without_trailing_slashes(dir) == dir.take(without_trailing_slashes(dir).len() as int),
        without_trailing_slashes(dir).len() <= dir.len(),
        without_trailing_slashes(dir).len() > 0 ==> without_trailing_slashes(dir).last() != '/',
    decreases dir.len(),
{
    if dir.len() > 0 && dir.last() == '/' {
        lemma_without_trailing_slashes(dir.drop_last());
        let r = without_trailing_slashes(dir.drop_last());
        assert(dir.drop_last().take(r.len() as int) =~= dir.take(r.len() as int));
    } else {
        assert(dir.take(dir.len() as int) =~= dir);
    }
}

/// The path of file `name` in directory `dir`.
pub open spec fn path_in(dir: Seq<char>, name: Seq<char>) -> Seq<char> {
    without_trailing_slashes(effective_dir(dir)) + seq!['/'] + name
}

/// The paths at which a template or `.env` file is looked for in `dir`:
/// `example.env`, `.env.example` and `.env`, in that order.
pub open spec fn candidate_paths(dir: Seq<char>) -> Seq<Seq<char>> {
    seq![
        path_in(dir, "example.env"@),
        path_in(dir, ".env.example"@),
        path_in(dir, ".env"@),
    ]
}

/// The directory that a listing reads: `.` for an empty path.
pub fn listing_dir(dir: &str) -> (out: String)
    ensures
        out@ == effective_dir(dir@),
{
    let cs = chars_of(dir);
    let mut out = String::new();
    if cs.len() == 0 {
        out.push('.');
        assert(out@ =~= seq!['.']);
    } else {
        push_chars(&mut out, cs.as_slice());
        assert(out@ =~= dir@);
    }
    out
}

fn path_of(base: &Vec<char>, name: &str) -> (out: String)
    ensures
        out@ == base@ + seq!['/'] + name@,
{
    let mut out = String::new();
    push_chars(&mut out, base.as_slice());
    out.push('/');
    push_chars(&mut out, chars_of(name).as_slice());
    assert(out@ =~= base@ + seq!['/'] + name@);
    out
}

/// The paths at which a template or `.env` file is looked for in `dir`.
pub fn env_candidate_paths(dir: &str) -> (out: Vec<String>)
    ensures
        out@.len() == 3,
        forall|i: int| 0 <= i < 3 ==> (#[trigger] out@[i])@ == candidate_paths(dir@)[i],
{
    let d = chars_of(listing_dir(dir).as_str());
    let mut m = d.len();
    assert(d@.take(m as int) =~= d@);
    while m > 0 && d[m - 1] == '/'
        invariant
            m <= d@.len(),
            without_trailing_slashes(effective_dir(dir@)) == without_trailing_slashes(
                d@.take(m as int),
            ),
        decreases m,
    {
        assert(d@.take(m as int).drop_last() =~= d@.take(m - 1));
        m = m - 1;
    }
    let base = crate::text::copy_range(d.as_slice(), 0, m);
    assert(base@ =~= d@.take(m as int));
    let mut out: Vec<String> = Vec::new();
    out.push(path_of(&base, "example.env"));
    out.push(path_of(&base, ".env.example"));
    out.push(path_of(&base, ".env"));
    out
}

// ---------------------------------------------------------------------------
//  Directory listing order
// ---------------------------------------------------------------------------

/// Lexicographic order of character sequences. For strings this is the
/// order of `String`'s `Ord`: UTF-8 byte order and code point order agree.
pub open spec fn lex_le(a: Seq<char>, b: Seq<char>) -> bool
    decreases a.len(),
{
    if a.len() == 0 {
        true
    } else if b.len() == 0 {
        false
    } else if a[0] != b[0] {
        a[0] < b[0]
    } else {
        lex_le(a.drop_first(), b.drop_first())
    }
}

pub proof fn lemma_lex_total(a: Seq<char>, b: Seq<char>)
    ensures
        lex_le(a, b) || lex_le(b, a),
    decreases a.len(),
{
    if a.len() > 0 && b.len() > 0 && a[0] == b[0] {
        lemma_lex_total(a.drop_first(), b.drop_first());
    }
}

pub proof fn lemma_lex_trans(a: Seq<char>, b: Seq<char>, c: Seq<char>)
    requires
        lex_le(a, b),
        lex_le(b, c),
    ensures
        lex_le(a, c),
    decreases a.len(),
{
    if a.len() > 0 && b.len() > 0 && c.len() > 0 && a[0] == b[0] && b[0] == c[0] {
        lemma_lex_trans(a.drop_first(), b.drop_first(), c.drop_first());
    }
}

pub proof fn lemma_lex_antisym(a: Seq<char>, b: Seq<char>)
    requires
        lex_le(a, b),
        lex_le(b, a),
    ensures
        a == b,
    decreases a.len(),
{
    if a.len() > 0 && b.len() > 0 {
        lemma_lex_antisym(a.drop_first(), b.drop_first());
        assert(a =~= seq![a[0]] + a.drop_first());
        assert(b =~= seq![b[0]] + b.drop_first());
    }
}

/// The value of a directory entry: its name and whether it is a directory.
pub open spec fn entry_view(e: RemoteDirEntry) -> (Seq<char>, bool) {
    (e.name@, e.is_dir)
}

pub open spec fn entries_view(v: Seq<RemoteDirEntry>) -> Seq<(Seq<char>, bool)> {
    v.map_values(|e: RemoteDirEntry| entry_view(e))
}

/// The listing order: directories first, then by name.
pub open spec fn entry_le(a: (Seq<char>, bool), b: (Seq<char>, bool)) -> bool {
    (a.1 && !b.1) || (a.1 == b.1 && lex_le(a.0, b.0))
}

/// Entries other than `.` and `..`.
pub open spec fn is_listed(e: (Seq<char>, bool)) -> bool {
    e.0 != "."@ && e.0 != ".."@
}

pub open spec fn sorted_entries(v: Seq<(Seq<char>, bool)>) -> bool {
    forall|i: int, j: int| 0 <= i < j < v.len() ==> entry_le(#[trigger] v[i], #[trigger] v[j])
}

fn name_le(a: &Vec<char>, b: &Vec<char>) -> (r: bool)
    ensures
        r == lex_le(a@, b@),
{
    let mut i: usize = 0;
    assert(a@.skip(0) =~= a@);
    assert(b@.skip(0) =~= b@);
    while i < a.len() && i < b.len() && a[i] == b[i]
        invariant
            i <= a@.len(),
            i <= b@.len(),
            lex_le(a@, b@) == lex_le(a@.skip(i as int), b@.skip(i as int)),
        decreases a@.len() - i,
    {
        assert(a@.skip(i as int).drop_first() =~= a@.skip(i + 1));
        assert(b@.skip(i as int).drop_first() =~= b@.skip(i + 1));
        i = i + 1;
    }
    if i == a.len() {
        true
    } else if i == b.len() {
        false
    } else {
        a[i] < b[i]
    }
}

fn entry_before(a: &RemoteDirEntry, b: &RemoteDirEntry) -> (r: bool)
    ensures
        r == entry_le(entry_view(*a), entry_view(*b)),
{
    if a.is_dir != b.is_dir {
        a.is_dir
    } else {
        name_le(&chars_of(a.name.as_str()), &chars_of(b.name.as_str()))
    }
}

fn is_dot_name(name: &String) -> (r: bool)
    ensures
        r == !is_listed((name@, false)),
{
    let cs = chars_of(name.as_str());
    let dot = chars_of(".");
    let dots = chars_of("..");
    let a = cs.len() == dot.len() && crate::text::has_prefix(cs.as_slice(), dot.as_slice());
    let b = cs.len() == dots.len() && crate::text::has_prefix(cs.as_slice(), dots.as_slice());
    proof {
        if cs@.len() == dot@.len() {
            assert(cs@.take(dot@.len() as int) =~= cs@);
        }
        if cs@.len() == dots@.len() {
            assert(cs@.take(dots@.len() as int) =~= cs@);
        }
    }
    a || b
}

/// The position at which `e` goes into the sorted `out`: after every entry
/// that is not greater than `e`.
fn insertion_point(out: &Vec<RemoteDirEntry>, e: &RemoteDirEntry) -> (p: usize)
    requires
        sorted_entries(entries_view(out@)),
    ensures
        p <= out@.len(),
        forall|i: int| 0 <= i < p ==> entry_le(entry_view(#[trigger] out@[i]), entry_view(*e)),
        forall|i: int| p <= i < out@.len() ==> !entry_le(entry_view(#[trigger] out@[i]), entry_view(*e)),
{
    let ghost ov = entries_view(out@);
    let mut p: usize = 0;
    while p < out.len() && entry_before(&out[p], e)
        invariant
            ov == entries_view(out@),
            sorted_entries(ov),
            p <= out@.len(),
            forall|i: int| 0 <= i < p ==> entry_le(entry_view(#[trigger] out@[i]), entry_view(*e)),
        decreases out@.len() - p,
    {
        p = p + 1;
    }
    proof {
        if p < out@.len() {
            assert forall|i: int| p <= i < out@.len() implies !entry_le(entry_view(#[trigger] out@[i]), entry_view(*e)) by {
                if i > p && entry_le(entry_view(out@[i]), entry_view(*e)) {
                    assert(ov[p as int] == entry_view(out@[p as int]));
                    assert(ov[i] == entry_view(out@[i]));
                    assert(entry_le(ov[p as int], ov[i]));
                    lemma_entry_trans(ov[p as int], ov[i], entry_view(*e));
                }
            }
        }
    }
    p
}

pub proof fn lemma_entry_trans(a: (Seq<char>, bool), b: (Seq<char>, bool), c: (Seq<char>, bool))
    requires
        entry_le(a, b),
        entry_le(b, c),
    ensures
        entry_le(a, c),
{
    if a.1 == b.1 && b.1 == c.1 {
        lemma_lex_trans(a.0, b.0, c.0);
    }
}

pub proof fn lemma_entry_total(a: (Seq<char>, bool), b: (Seq<char>, bool))
    ensures
        entry_le(a, b) || entry_le(b, a),
{
    lemma_lex_total(a.0, b.0);
}

/// The entries of a directory as the listing shows them: without `.` and
/// `..`, directories first, each group by name.
pub fn arrange_dir_entries(raw: Vec<RemoteDirEntry>) -> (out: Vec<RemoteDirEntry>)
    ensures
        sorted_entries(entries_view(out@)),
        entries_view(out@).to_multiset() == entries_view(raw@).filter(
            |e: (Seq<char>, bool)| is_listed(e),
        ).to_multiset(),
{
    broadcast use vstd::seq_lib::group_to_multiset_ensures;

    let ghost rv = entries_view(raw@);
    let ghost keep = |e: (Seq<char>, bool)| is_listed(e);
    let ghost old_raw = raw;
    let mut raw = raw;
    let mut out: Vec<RemoteDirEntry> = Vec::new();
    let ghost mut k: int = 0;
    assert(rv.take(0) =~= Seq::<(Seq<char>, bool)>::empty());
    assert(entries_view(out@) =~= Seq::<(Seq<char>, bool)>::empty());
    assert(rv.skip(0) =~= rv);
    while raw.len() > 0
        invariant
            0 <= k <= rv.len(),
            rv == entries_view(old_raw@),
            keep == (|e: (Seq<char>, bool)| is_listed(e)),
            entries_view(raw@) == rv.skip(k),
            sorted_entries(entries_view(out@)),
            entries_view(out@).to_multiset() == rv.take(k).filter(keep).to_multiset(),
        decreases raw@.len(),
    {
        let ghost before = entries_view(out@);
        let ghost rr = entries_view(raw@);
        assert(rr.len() == raw@.len());
        assert(rr[0] == entry_view(raw@[0]));
        assert(rr[0] == rv[k]);
        let e = raw.remove(0);
        proof {
            assert(entries_view(raw@) =~= rr.drop_first());
            assert(entries_view(raw@) =~= rv.skip(k + 1));
            assert(entry_view(e) == rv[k]);
            assert(rv.take(k + 1) =~= rv.take(k).push(rv[k]));
            rv.take(k).lemma_filter_push(rv[k], keep);
            k = k + 1;
        }
        let dotted = is_dot_name(&e.name);
        assert(is_listed(entry_view(e)) == is_listed((e.name@, false)));
        assert(keep(rv[k - 1]) == is_listed(entry_view(e)));
        if !dotted {
            let p = insertion_point(&out, &e);
            let ghost x = entry_view(e);
            assert(keep(x));
            out.insert(p, e);
            proof {
                assert(entries_view(out@) =~= before.insert(p as int, x));
                assert(rv.take(k).filter(keep) == rv.take(k - 1).filter(keep).push(x));
                vstd::seq_lib::to_multiset_insert(before, p as int, x);
                vstd::seq_lib::to_multiset_build(rv.take(k - 1).filter(keep), x);
                assert forall|i: int, j: int| 0 <= i < j < entries_view(out@).len() implies entry_le(
                    #[trigger] entries_view(out@)[i],
                    #[trigger] entries_view(out@)[j],
                ) by {
                    let v = entries_view(out@);
                    if j < p {
                        assert(v[i] == before[i] && v[j] == before[j]);
                    } else if j == p {
                        assert(v[i] == before[i]);
                    } else if i == p {
                        assert(v[j] == before[j - 1]);
                        lemma_entry_total(before[j - 1], x);
                    } else if i < p {
                        assert(v[i] == before[i] && v[j] == before[j - 1]);
                    } else {
                        assert(v[i] == before[i - 1] && v[j] == before[j - 1]);
                    }
                }
            }
        } else {
            assert(!keep(rv[k - 1]));
            assert(rv.take(k).filter(keep) == rv.take(k - 1).filter(keep));
            assert(entries_view(out@) == before);
        }
    }
    proof {
        assert(rv.skip(k).len() == 0);
        assert(rv.take(k) =~= rv);
    }
    out
}

// ---------------------------------------------------------------------------
//  Host keys
// ---------------------------------------------------------------------------

/// Whether a host key passes, given the fingerprint remembered for the host
/// (if any): an unknown host passes, a known one only with that fingerprint.
pub open spec fn key_accepted(known: Option<Seq<char>>, seen: Seq<char>) -> bool {
    match known {
        Some(k) => k == seen,
        None => true,
    }
}

/// The fingerprint remembered for a host after a check: the one known
/// before, or, for an unknown host, the one it presented.
pub open spec fn remembered_key(known: Option<Seq<char>>, seen: Seq<char>) -> Option<Seq<char>> {
    match known {
        Some(k) => Some(k),
        None => Some(seen),
    }
}

/// The view of a remembered fingerprint.
pub open spec fn known_view(known: Option<String>) -> Option<Seq<char>> {
    match known {
        Some(k) => Some(k@),
        None => None,
    }
}

/// The verdict on a server's host key, given the fingerprint remembered for
/// the host (if any) and the one it presented: accept a known key that
/// matches; refuse one that differs, reporting both; accept an unknown host
/// and report its fingerprint as new, to be remembered.
pub fn check_host_key(known: Option<String>, fingerprint: String) -> (r: (bool, Option<HostKeyOutcome>))
    ensures
        r.0 == key_accepted(known_view(known), fingerprint@),
        r.1 matches Some(HostKeyOutcome::New(f)) ==> known is None && remembered_key(
            known_view(known),
            fingerprint@,
        ) == Some(f@),
        match known {
            Some(k) => if k@ == fingerprint@ {
                r.0 && r.1 is None
            } else {
                !r.0 && (r.1 matches Some(HostKeyOutcome::Mismatch { known: k2, seen })
                    && k2@ == k@ && seen@ == fingerprint@)
            },
            None => r.0 && (r.1 matches Some(HostKeyOutcome::New(f)) && f@ == fingerprint@),
        },
{
    match known {
        Some(k) => {
            if k.eq(&fingerprint) {
                (true, None)
            } else {
                (false, Some(HostKeyOutcome::Mismatch { known: k, seen: fingerprint }))
            }
        },
        None => (true, Some(HostKeyOutcome::New(fingerprint))),
    }
}

/// The message for a changed host key.
pub open spec fn mismatch_text(known: Seq<char>, seen: Seq<char>) -> Seq<char> {
    "\u{26a0}\u{fe0f} Host-Key hat sich ge\u{e4}ndert \u{2014} m\u{f6}glicher Man-in-the-Middle-Angriff! Bekannt: "@
        + known + ", jetzt gemeldet: "@ + seen + ". Verbindung abgebrochen."@
}

/// The outcome of a connection attempt, given what the host-key check
/// reported and the session (or the error) that the handshake and the
/// authentication gave: a changed host key is reported first, even where
/// authentication failed too; otherwise the session comes with the
/// fingerprint of a newly remembered host, if any.
pub fn settle_connect<H>(outcome: Option<HostKeyOutcome>, handle: Result<H, String>) -> (r: Result<
    (H, Option<String>),
    String,
>)
    ensures
        match outcome {
            Some(HostKeyOutcome::Mismatch { known, seen }) => r matches Err(m) && m@
                == mismatch_text(known@, seen@),
            Some(HostKeyOutcome::New(fp)) => match handle {
                Ok(h) => r matches Ok((h2, Some(f))) && h2 == h && f@ == fp@,
                Err(e) => r matches Err(m) && m@ == e@,
            },
            None => match handle {
                Ok(h) => r matches Ok((h2, None)) && h2 == h,
                Err(e) => r matches Err(m) && m@ == e@,
            },
        },
{
    match outcome {
        Some(HostKeyOutcome::Mismatch { known, seen }) => {
            let mut m = String::new();
            push_chars(
                &mut m,
                chars_of(
                    "\u{26a0}\u{fe0f} Host-Key hat sich ge\u{e4}ndert \u{2014} m\u{f6}glicher Man-in-the-Middle-Angriff! Bekannt: ",
                ).as_slice(),
            );
            push_chars(&mut m, chars_of(known.as_str()).as_slice());
            push_chars(&mut m, chars_of(", jetzt gemeldet: ").as_slice());
            push_chars(&mut m, chars_of(seen.as_str()).as_slice());
            push_chars(&mut m, chars_of(". Verbindung abgebrochen.").as_slice());
            Err(m)
        },
        Some(HostKeyOutcome::New(fp)) => match handle {
            Ok(h) => Ok((h, Some(fp))),
            Err(e) => Err(e),
        },
        None => match handle {
            Ok(h) => Ok((h, None)),
            Err(e) => Err(e),
        },
    }
}

// ---------------------------------------------------------------------------
//  Saved profiles
// ---------------------------------------------------------------------------

/// Whether a profile is named otherwise than `name`.
pub open spec fn not_named(name: Seq<char>) -> spec_fn(SavedConnection) -> bool {
    |c: SavedConnection| c.name@ != name
}

/// The profiles of `list` not named `name`, in order.
pub open spec fn others_than(list: Seq<SavedConnection>, name: Seq<char>) -> Seq<SavedConnection> {
    list.filter(not_named(name))
}

/// The profiles of `list` not named `name`, in order.
pub fn drop_profile(list: Vec<SavedConnection>, name: &String) -> (out: Vec<SavedConnection>)
    ensures
        out@ == others_than(list@, name@),
{
    let ghost lv = list@;
    let ghost keep = not_named(name@);
    let mut list = list;
    let mut out: Vec<SavedConnection> = Vec::new();
    let ghost mut k: int = 0;
    assert(lv.take(0) =~= Seq::<SavedConnection>::empty());
    assert(lv.skip(0) =~= lv);
    assert(lv.take(0).filter(keep) =~= Seq::<SavedConnection>::empty()) by {
        reveal(Seq::filter);
    }
    while list.len() > 0
        invariant
            0 <= k <= lv.len(),
            keep == not_named(name@),
            list@ == lv.skip(k),
            out@ == lv.take(k).filter(keep),
        decreases list@.len(),
    {
        let c = list.remove(0);
        proof {
            assert(list@ =~= lv.skip(k + 1));
            assert(lv.take(k + 1) =~= lv.take(k).push(c));
            lv.take(k).lemma_filter_push(c, keep);
            k = k + 1;
        }
        let same = c.name.eq(name);
        if !same {
            out.push(c);
        }
    }
    assert(lv.take(k) =~= lv);
    out
}

/// Whether a secret is to be put in the keyring: one was given and it is
/// not empty.
pub fn stores_secret(secret: &Option<String>) -> (b: bool)
    ensures
        b == (secret matches Some(s) && s@.len() > 0),
{
    match secret {
        Some(s) => chars_of(s.as_str()).len() > 0,
        None => false,
    }
}

/// The profile list after saving `conn`: any profile of the same name is
/// replaced, and the new one goes last, marked as having a secret where
/// one was put in the keyring.
pub fn upsert_profile(list: Vec<SavedConnection>, conn: SavedConnection, secret_stored: bool) -> (out:
    Vec<SavedConnection>)
    ensures
        out@ == others_than(list@, conn.name@).push(
            SavedConnection { has_secret: secret_stored || conn.has_secret, ..conn },
        ),
{
    let mut out = drop_profile(list, &conn.name);
    let mut conn = conn;
    if secret_stored {
        conn.has_secret = true;
    }
    out.push(conn);
    out
}

} // verus!
