//! Trust-on-first-use host keys, kept in an OpenSSH-style `known_hosts`
//! file: one `[host]:port key` line per host. Keys are handled as their
//! OpenSSH text with their SHA-256 fingerprint, both produced by the caller
//! from the parsed key; reading and writing the file stays with the caller.

use vstd::prelude::*;
use crate::format::{dec_digits, dec_string};
use crate::text::{cat, cat3, chars_of, is_ws, same_text, substring, trim, trim_str};

verus! {

#[derive(Debug, Clone, PartialEq, Eq)]
pub enum KnownHostCheck {
    Trusted,
    Unknown { fingerprint: String },
    Changed { expected: String, actual: String },
}

/// One trusted host key.
#[derive(Debug, Clone, PartialEq, Eq)]
pub struct KnownHostEntry {
    pub host_pattern: String,
    pub public_key: String,
    pub fingerprint: String,
}

/// A trusted host key as a vault snapshot keeps it.
#[derive(Debug, Clone, PartialEq, Eq)]
pub struct VaultKnownHostEntry {
    pub host_pattern: String,
    pub public_key: String,
}

/// The known hosts kept in the file at `path`.
#[derive(Debug, Clone, PartialEq, Eq)]
pub struct KnownHostsService {
    pub path: String,
}

impl KnownHostsService {
    pub fn new(path: &str) -> (r: Self)
        ensures
            r.path@ == path@,
    {
        KnownHostsService { path: String::from_str(path) }
    }
}

pub open spec fn host_pattern_text(host: Seq<char>, port: u16) -> Seq<char> {
    "["@ + host + "]:"@ + dec_digits(port as nat)
}

/// How a host and port are written in the file: `[host]:port`.
pub fn host_pattern(host: &str, port: u16) -> (r: String)
    ensures
        r@ == host_pattern_text(host@, port),
{
    let digits = dec_string(port as u64);
    let head = cat3("[", host, "]:");
    cat(head.as_str(), digits.as_str())
}

/// The index of the first entry for `pattern`, or -1.
pub open spec fn entry_index(entries: Seq<KnownHostEntry>, pattern: Seq<char>) -> int
    decreases entries.len(),
{
    if entries.len() == 0 {
        -1
    } else if entry_index(entries.drop_last(), pattern) >= 0 {
        entry_index(entries.drop_last(), pattern)
    } else if entries.last().host_pattern@ == pattern {
        entries.len() - 1
    } else {
        -1
    }
}

/// What the known hosts say of `key` presented by `host:port`: trusted when
/// the first entry for the host holds that key, changed when it holds
/// another, unknown when there is none.
pub open spec fn check_spec(entries: Seq<KnownHostEntry>, host: Seq<char>, port: u16, key: Seq<char>, fingerprint: Seq<char>, r: KnownHostCheck) -> bool {
    let i = entry_index(entries, host_pattern_text(host, port));
    if i < 0 {
        r matches KnownHostCheck::Unknown { fingerprint: f } && f@ == fingerprint
    } else if entries[i].public_key@ == key {
        r is Trusted
    } else {
        r matches KnownHostCheck::Changed { expected: e, actual: a } && e@ == entries[i].fingerprint@ && a@ == fingerprint
    }
}

proof fn lemma_entry_index_prefix(entries: Seq<KnownHostEntry>, pattern: Seq<char>, k: int)
    requires
        0 <= k <= entries.len(),
        entry_index(entries.take(k), pattern) >= 0,
    ensures
        entry_index(entries, pattern) == entry_index(entries.take(k), pattern),
    decreases entries.len() - k,
{
    if k < entries.len() {
        assert(entries.drop_last().take(k) =~= entries.take(k));
        lemma_entry_index_prefix(entries.drop_last(), pattern, k);
    } else {
        assert(entries.take(k) =~= entries);
    }
}

proof fn lemma_entry_index_range(entries: Seq<KnownHostEntry>, pattern: Seq<char>)
    ensures
        -1 <= entry_index(entries, pattern) < entries.len(),
        entry_index(entries, pattern) >= 0 ==> entries[entry_index(entries, pattern)].host_pattern@ == pattern,
    decreases entries.len(),
{
    if entries.len() > 0 {
        lemma_entry_index_range(entries.drop_last(), pattern);
    }
}

fn find_entry(entries: &[KnownHostEntry], pattern: &str) -> (r: Option<usize>)
    ensures
        match r {
            Some(i) => i == entry_index(entries@, pattern@) && i < entries@.len(),
            None => entry_index(entries@, pattern@) < 0,
        },
{
    let mut i: usize = 0;
    while i < entries.len()
        invariant
            i <= entries@.len(),
            entry_index(entries@.take(i as int), pattern@) < 0,
        decreases entries.len() - i,
    {
        assert(entries@.take(i + 1).drop_last() =~= entries@.take(i as int));
        if same_text(entries[i].host_pattern.as_str(), pattern) {
            proof { lemma_entry_index_prefix(entries@, pattern@, i + 1); }
            return Some(i);
        }
        i = i + 1;
    }
    assert(entries@.take(i as int) =~= entries@);
    None
}

/// Checks the key that `host:port` presented, given as its OpenSSH text and fingerprint.
pub fn check_known_host(entries: &[KnownHostEntry], host: &str, port: u16, key: &str, fingerprint: &str) -> (r: KnownHostCheck)
    ensures
        check_spec(entries@, host@, port, key@, fingerprint@, r),
{
    let pattern = host_pattern(host, port);
    proof { lemma_entry_index_range(entries@, pattern@); }
    match find_entry(entries, pattern.as_str()) {
        None => KnownHostCheck::Unknown { fingerprint: String::from_str(fingerprint) },
        Some(i) => {
            if same_text(entries[i].public_key.as_str(), key) {
                KnownHostCheck::Trusted
            } else {
                KnownHostCheck::Changed { expected: entries[i].fingerprint.clone(), actual: String::from_str(fingerprint) }
            }
        },
    }
}

pub open spec fn entry_is_for(pattern: Seq<char>) -> spec_fn(KnownHostEntry) -> bool {
    |e: KnownHostEntry| e.host_pattern@ == pattern
}

/// The entries after trusting `key` for `host:port`: every other host's
/// entries kept in order, the host's old entries dropped, the new one last.
pub fn accept_unknown_entries(entries: Vec<KnownHostEntry>, host: &str, port: u16, key: &str, fingerprint: &str)
    -> (r: Vec<KnownHostEntry>)
    ensures
        r@.len() >= 1,
        r@.drop_last() == entries@.filter(|e: KnownHostEntry| !entry_is_for(host_pattern_text(host@, port))(e)),
        r@.last().host_pattern@ == host_pattern_text(host@, port),
        r@.last().public_key@ == key@,
        r@.last().fingerprint@ == fingerprint@,
{
    let pattern = host_pattern(host, port);
    let ghost keep = |e: KnownHostEntry| !entry_is_for(host_pattern_text(host@, port))(e);
    let mut out: Vec<KnownHostEntry> = Vec::new();
    let mut i: usize = 0;
    while i < entries.len()
        invariant
            i <= entries@.len(),
            pattern@ == host_pattern_text(host@, port),
            keep == (|e: KnownHostEntry| !entry_is_for(host_pattern_text(host@, port))(e)),
            out@ == entries@.take(i as int).filter(keep),
        decreases entries.len() - i,
    {
        proof { crate::seqs::lemma_filter_take_step(entries@, i as int, keep); }
        if !same_text(entries[i].host_pattern.as_str(), pattern.as_str()) {
            out.push(entries[i].clone_entry());
        }
        i = i + 1;
    }
    assert(entries@.take(i as int) =~= entries@);
    let ghost kept = out@;
    out.push(KnownHostEntry {
        host_pattern: pattern,
        public_key: String::from_str(key),
        fingerprint: String::from_str(fingerprint),
    });
    assert(out@.drop_last() =~= kept);
    out
}

/// A host that no entry is for has no entry index.
proof fn lemma_entry_index_absent(entries: Seq<KnownHostEntry>, pattern: Seq<char>)
    requires
        forall|j: int| 0 <= j < entries.len() ==> (#[trigger] entries[j]).host_pattern@ != pattern,
    ensures
        entry_index(entries, pattern) == -1,
{
    lemma_entry_index_range(entries, pattern);
}

/// Trust on first use: once a key has been accepted for a host, the host is
/// trusted when it presents that key again, its change is reported against
/// the accepted fingerprint when it presents another, and what is known of
/// every other host stays as it was.
pub proof fn lemma_accepted_key_is_trusted(
    entries: Seq<KnownHostEntry>,
    accepted: Seq<KnownHostEntry>,
    host: Seq<char>,
    port: u16,
    key: Seq<char>,
    fingerprint: Seq<char>,
)
    requires
        accepted.len() >= 1,
        accepted.drop_last() == entries.filter(|e: KnownHostEntry| !entry_is_for(host_pattern_text(host, port))(e)),
        accepted.last().host_pattern@ == host_pattern_text(host, port),
        accepted.last().public_key@ == key,
        accepted.last().fingerprint@ == fingerprint,
    ensures
        entry_index(accepted, host_pattern_text(host, port)) == accepted.len() - 1,
        forall|presented_fingerprint: Seq<char>, r: KnownHostCheck|
            check_spec(accepted, host, port, key, presented_fingerprint, r) ==> r is Trusted,
        forall|other_key: Seq<char>, presented_fingerprint: Seq<char>, r: KnownHostCheck|
            other_key != key && check_spec(accepted, host, port, other_key, presented_fingerprint, r)
                ==> (r matches KnownHostCheck::Changed { expected: e, actual: a } && e@ == fingerprint && a@ == presented_fingerprint),
        forall|other: Seq<char>| #![trigger entry_index(accepted, other)] other != host_pattern_text(host, port) ==> {
            let i = entry_index(accepted, other);
            let j = entry_index(entries, other);
            (i < 0 <==> j < 0) && (i >= 0 ==> accepted[i] == entries[j])
        },
{
    let pattern = host_pattern_text(host, port);
    let keep = |e: KnownHostEntry| !entry_is_for(pattern)(e);
    let kept = entries.filter(keep);
    assert forall|j: int| 0 <= j < kept.len() implies (#[trigger] kept[j]).host_pattern@ != pattern by {
        entries.lemma_filter_pred(keep, j);
    }
    lemma_entry_index_absent(kept, pattern);
    lemma_entry_index_range(accepted, pattern);
    assert forall|other: Seq<char>| #![trigger entry_index(accepted, other)] other != pattern implies ({
        let i = entry_index(accepted, other);
        let j = entry_index(entries, other);
        (i < 0 <==> j < 0) && (i >= 0 ==> accepted[i] == entries[j])
    }) by {
        lemma_filtered_entry_index(entries, pattern, other);
        lemma_entry_index_range(kept, other);
        assert(accepted.last().host_pattern@ != other);
        if entry_index(kept, other) >= 0 {
            assert(accepted[entry_index(kept, other)] == kept[entry_index(kept, other)]);
        }
    }
}

/// Dropping the entries for one host leaves the first entry of every other
/// host where a lookup finds it.
proof fn lemma_filtered_entry_index(entries: Seq<KnownHostEntry>, pattern: Seq<char>, other: Seq<char>)
    requires
        other != pattern,
    ensures
        ({
            let kept = entries.filter(|e: KnownHostEntry| !entry_is_for(pattern)(e));
            let i = entry_index(kept, other);
            let j = entry_index(entries, other);
            (i < 0 <==> j < 0) && (i >= 0 ==> kept[i] == entries[j])
        }),
    decreases entries.len(),
{
    let keep = |e: KnownHostEntry| !entry_is_for(pattern)(e);
    if entries.len() > 0 {
        let init = entries.drop_last();
        lemma_filtered_entry_index(init, pattern, other);
        assert(entries =~= init.push(entries.last()));
        crate::seqs::lemma_filter_push(init, entries.last(), keep);
        lemma_entry_index_range(init.filter(keep), other);
        lemma_entry_index_range(init, other);
        if keep(entries.last()) {
            assert(entries.filter(keep) == init.filter(keep).push(entries.last()));
            assert(entries.filter(keep).drop_last() =~= init.filter(keep));
        } else {
            assert(entries.filter(keep) == init.filter(keep));
        }
    } else {
        assert(entries.filter(keep) =~= Seq::<KnownHostEntry>::empty());
    }
}

impl KnownHostEntry {
    pub fn clone_entry(&self) -> (r: Self)
        ensures
            r == *self,
    {
        KnownHostEntry {
            host_pattern: self.host_pattern.clone(),
            public_key: self.public_key.clone(),
            fingerprint: self.fingerprint.clone(),
        }
    }
}

#[derive(Debug, Clone, PartialEq, Eq)]
pub enum HostKeyRejection {
    Unknown { host: String, port: u16, fingerprint: String },
    Changed { host: String, port: u16, expected: String, actual: String },
}

impl HostKeyRejection {
    pub open spec fn message_spec(&self) -> Seq<char> {
        match self {
            HostKeyRejection::Unknown { host, port, fingerprint } =>
                "unknown SSH host key for `"@ + host@ + ":"@ + dec_digits(*port as nat) + "` ("@ + fingerprint@
                    + "); explicit accept is required before connecting"@,
            HostKeyRejection::Changed { host, port, expected, actual } =>
                "SSH host key changed for `"@ + host@ + ":"@ + dec_digits(*port as nat) + "` (expected "@ + expected@
                    + ", got "@ + actual@ + ")"@,
        }
    }

    pub fn message(&self) -> (r: String)
        ensures
            r@ == self.message_spec(),
    {
        match self {
            HostKeyRejection::Unknown { host, port, fingerprint } => {
                let digits = dec_string(*port as u64);
                let mut r = cat3("unknown SSH host key for `", host.as_str(), ":");
                r.append(digits.as_str());
                r.append("` (");
                r.append(fingerprint.as_str());
                r.append("); explicit accept is required before connecting");
                r
            },
            HostKeyRejection::Changed { host, port, expected, actual } => {
                let digits = dec_string(*port as u64);
                let mut r = cat3("SSH host key changed for `", host.as_str(), ":");
                r.append(digits.as_str());
                r.append("` (expected ");
                r.append(expected.as_str());
                r.append(", got ");
                r.append(actual.as_str());
                r.append(")");
                r
            },
        }
    }
}

/// Connecting goes on only with a trusted key.
pub fn ensure_trusted(check: KnownHostCheck, host: &str, port: u16) -> (r: Result<(), HostKeyRejection>)
    ensures
        match check {
            KnownHostCheck::Trusted => r is Ok,
            KnownHostCheck::Unknown { fingerprint } => r matches Err(HostKeyRejection::Unknown { host: h, port: p, fingerprint: f })
                && h@ == host@ && p == port && f@ == fingerprint@,
            KnownHostCheck::Changed { expected, actual } =>
                r matches Err(HostKeyRejection::Changed { host: h, port: p, expected: e, actual: a })
                && h@ == host@ && p == port && e@ == expected@ && a@ == actual@,
        },
{
    match check {
        KnownHostCheck::Trusted => Ok(()),
        KnownHostCheck::Unknown { fingerprint } =>
            Err(HostKeyRejection::Unknown { host: String::from_str(host), port, fingerprint }),
        KnownHostCheck::Changed { expected, actual } =>
            Err(HostKeyRejection::Changed { host: String::from_str(host), port, expected, actual }),
    }
}

// ---------------------------------------------------------------------------
// The file
// ---------------------------------------------------------------------------

/// A line of the file that holds an entry: not blank, not a `#` comment.
pub open spec fn is_entry_line(line: Seq<char>) -> bool {
    trim(line).len() > 0 && trim(line)[0] != '#'
}

pub fn is_known_host_entry_line(line: &str) -> (r: bool)
    ensures
        r == is_entry_line(line@),
{
    let t = trim_str(line);
    let v = chars_of(t.as_str());
    v.len() > 0 && v[0] != '#'
}

/// The index of the first whitespace character of `s`, or -1.
pub open spec fn first_ws(s: Seq<char>) -> int
    decreases s.len(),
{
    if s.len() == 0 {
        -1
    } else if is_ws(s[0]) {
        0
    } else if first_ws(s.drop_first()) < 0 {
        -1
    } else {
        1 + first_ws(s.drop_first())
    }
}

#[derive(Debug, Clone, PartialEq, Eq)]
pub enum KnownHostLineError {
    MissingPublicKey,
}

impl KnownHostLineError {
    pub fn message(&self) -> (r: String)
        ensures
            r@ == "invalid known_hosts entry: missing public key"@,
    {
        String::from_str("invalid known_hosts entry: missing public key")
    }
}

/// An entry line split into its host pattern and its key text: the pattern
/// runs up to the first whitespace of the trimmed line, the key is the rest, trimmed.
pub open spec fn entry_line_parts(line: Seq<char>) -> Option<(Seq<char>, Seq<char>)> {
    let t = trim(line);
    let i = first_ws(t);
    if i < 0 { None } else { Some((t.take(i), trim(t.skip(i)))) }
}

proof fn lemma_first_ws(s: Seq<char>, k: int)
    requires
        0 <= k <= s.len(),
        forall|j: int| 0 <= j < k ==> !is_ws(#[trigger] s[j]),
        k == s.len() || is_ws(s[k]),
    ensures
        first_ws(s) == (if k == s.len() { -1 } else { k }),
    decreases k,
{
    if k > 0 {
        assert forall|j: int| 0 <= j < k - 1 implies !is_ws(#[trigger] s.drop_first()[j]) by {
            assert(s.drop_first()[j] == s[j + 1]);
        }
        if k < s.len() {
            assert(s.drop_first()[k - 1] == s[k]);
        }
        lemma_first_ws(s.drop_first(), k - 1);
    }
}

pub fn parse_known_host_line(line: &str) -> (r: Result<(String, String), KnownHostLineError>)
    ensures
        match entry_line_parts(line@) {
            Some((p, k)) => r matches Ok((a, b)) && a@ == p && b@ == k,
            None => r is Err,
        },
{
    let t = trim_str(line);
    let v = chars_of(t.as_str());
    let n = v.len();
    let mut i: usize = 0;
    while i < n && !crate::text::char_is_ws(v[i])
        invariant
            n == v@.len(),
            v@ == t@,
            i <= n,
            forall|j: int| 0 <= j < i ==> !is_ws(#[trigger] v@[j]),
        decreases n - i,
    {
        i = i + 1;
    }
    proof { lemma_first_ws(t@, i as int); }
    if i == n {
        return Err(KnownHostLineError::MissingPublicKey);
    }
    let pattern = substring(t.as_str(), 0, i);
    let rest = substring(t.as_str(), i, n);
    assert(pattern@ =~= t@.take(i as int));
    assert(rest@ =~= t@.skip(i as int));
    Ok((pattern, trim_str(rest.as_str())))
}

pub open spec fn rendered_entries(entries: Seq<KnownHostEntry>) -> Seq<char>
    decreases entries.len(),
{
    if entries.len() == 0 {
        Seq::empty()
    } else {
        rendered_entries(entries.drop_last()) + entries.last().host_pattern@ + seq![' '] + entries.last().public_key@
            + seq!['\n']
    }
}

/// The file's text: one `pattern key` line per entry.
pub fn render_known_hosts(entries: &[KnownHostEntry]) -> (r: String)
    ensures
        r@ == rendered_entries(entries@),
{
    let mut body = String::new();
    let mut i: usize = 0;
    while i < entries.len()
        invariant
            i <= entries@.len(),
            body@ == rendered_entries(entries@.take(i as int)),
        decreases entries.len() - i,
    {
        assert(entries@.take(i + 1).drop_last() =~= entries@.take(i as int));
        body.append(entries[i].host_pattern.as_str());
        crate::format::push_char(&mut body, ' ');
        body.append(entries[i].public_key.as_str());
        crate::format::push_char(&mut body, '\n');
        i = i + 1;
    }
    assert(entries@.take(i as int) =~= entries@);
    body
}

/// An entry as a vault snapshot keeps it.
pub fn snapshot_entry(entry: &KnownHostEntry) -> (r: VaultKnownHostEntry)
    ensures
        r.host_pattern@ == entry.host_pattern@,
        r.public_key@ == entry.public_key@,
{
    VaultKnownHostEntry { host_pattern: entry.host_pattern.clone(), public_key: entry.public_key.clone() }
}

// ---------------------------------------------------------------------------
// The key a server shows while connecting
// ---------------------------------------------------------------------------

/// A server showed a key that no entry knows: the connection stops, and the
/// user may accept the key (given in OpenSSH form) and connect again.
#[derive(Debug, Clone, PartialEq, Eq)]
pub struct UnknownHostKeyError {
    pub host: String,
    pub port: u16,
    pub fingerprint: String,
    pub public_key_openssh: String,
}

impl UnknownHostKeyError {
    pub open spec fn message_spec(&self) -> Seq<char> {
        "unknown SSH host key for `"@ + self.host@ + "`:"@ + dec_digits(self.port as nat) + " ("@ + self.fingerprint@ + ")"@
    }

    pub fn message(&self) -> (r: String)
        ensures
            r@ == self.message_spec(),
    {
        let digits = dec_string(self.port as u64);
        let mut r = cat3("unknown SSH host key for `", self.host.as_str(), "`:");
        r.append(digits.as_str());
        r.append(" (");
        r.append(self.fingerprint.as_str());
        r.append(")");
        r
    }
}

pub open spec fn host_key_changed_text(host: Seq<char>, port: u16, expected: Seq<char>, actual: Seq<char>) -> Seq<char> {
    "SSH host key changed for `"@ + host + "`:"@ + dec_digits(port as nat) + " (expected "@ + expected + ", got "@ + actual
        + ")"@
}

/// What becomes of a connection whose server showed a key: it goes on with
/// a trusted key; an unknown one stops it with `UnknownHostKeyError`; a
/// changed one stops it with the message saying so.
#[derive(Debug, Clone, PartialEq, Eq)]
pub enum ServerKeyVerdict {
    Trusted,
    Unknown { fingerprint: String },
    Changed { message: String },
}

pub fn server_key_verdict(check: KnownHostCheck, host: &str, port: u16) -> (r: ServerKeyVerdict)
    ensures
        match check {
            KnownHostCheck::Trusted => r == ServerKeyVerdict::Trusted,
            KnownHostCheck::Unknown { fingerprint } => r == (ServerKeyVerdict::Unknown { fingerprint }),
            KnownHostCheck::Changed { expected, actual } => r matches ServerKeyVerdict::Changed { message }
                && message@ == host_key_changed_text(host@, port, expected@, actual@),
        },
{
    match check {
        KnownHostCheck::Trusted => ServerKeyVerdict::Trusted,
        KnownHostCheck::Unknown { fingerprint } => ServerKeyVerdict::Unknown { fingerprint },
        KnownHostCheck::Changed { expected, actual } => {
            let digits = dec_string(port as u64);
            let mut message = cat3("SSH host key changed for `", host, "`:");
            message.append(digits.as_str());
            message.append(" (expected ");
            message.append(expected.as_str());
            message.append(", got ");
            message.append(actual.as_str());
            message.append(")");
            ServerKeyVerdict::Changed { message }
        },
    }
}

} // verus!
