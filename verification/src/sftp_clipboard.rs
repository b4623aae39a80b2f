//! Pasting a clipboard image into a remote session: the image is written to
//! a per-session cache folder on the remote host, and week-old images of
//! this and other sessions are cleaned up. The transfers themselves stay
//! with the caller; the decisions are here.

use vstd::prelude::*;
use crate::format::{uuid_string, uuid_text};
use crate::ids::{uuid_new_v4, uuid_parse, uuid_parse_result};
use crate::sftp_model::{SftpDirectoryEntry, SftpDirectoryEntryKind};
use crate::text::{cat3, ends_with, is_prefix, is_suffix, same_text, starts_with, substring};

verus! {

pub const CLIPBOARD_CACHE_FILE_PREFIX: &'static str = "mica-clipboard-";
pub const CLIPBOARD_CACHE_FILE_SUFFIX: &'static str = ".png";
pub const CLIPBOARD_CACHE_RETENTION_SECONDS: u64 = 604800;
pub const CLIPBOARD_CACHE_DIRECTORY_PERMISSIONS: u32 = 0o700;
pub const CLIPBOARD_CACHE_FILE_PERMISSIONS: u32 = 0o600;
pub const MAX_OLD_CLIPBOARD_CACHE_SESSION_DIRS_SCANNED: usize = 32;
pub const MAX_CLIPBOARD_CACHE_FILES_SCANNED_PER_SESSION: usize = 128;

/// The remote metadata of a path.
#[derive(Debug, Clone, Copy, PartialEq, Eq, Default)]
pub struct SftpRemoteMetadata {
    pub size_bytes: Option<u64>,
    pub modified_unix_seconds: Option<u64>,
}

/// How a remote file is opened for writing.
#[derive(Debug, Clone, Copy, PartialEq, Eq)]
pub enum SftpWriteMode {
    CreateOrTruncate,
    CreateOrAppend,
    CreateNew { permissions: u32 },
}

/// The folders under the remote home that hold the cache, outermost first.
pub open spec fn clipboard_cache_root_components() -> Seq<Seq<char>> {
    seq![".cache"@, "mica-term"@, "clipboard"@]
}

pub fn clipboard_cache_root_component(i: usize) -> (r: &'static str)
    requires
        i < 3,
    ensures
        r@ == clipboard_cache_root_components()[i as int],
{
    if i == 0 {
        ".cache"
    } else if i == 1 {
        "mica-term"
    } else {
        "clipboard"
    }
}

/// Images last modified before this time are stale.
pub fn stale_cutoff(now_unix_seconds: u64) -> (r: u64)
    ensures
        r == if now_unix_seconds >= CLIPBOARD_CACHE_RETENTION_SECONDS {
            now_unix_seconds - CLIPBOARD_CACHE_RETENTION_SECONDS
        } else {
            0
        },
{
    now_unix_seconds.saturating_sub(CLIPBOARD_CACHE_RETENTION_SECONDS)
}

/// The file name of a cached image: the prefix, an identifier, `.png`.
pub open spec fn clipboard_file_name(id: u128) -> Seq<char> {
    CLIPBOARD_CACHE_FILE_PREFIX@ + uuid_text(id) + CLIPBOARD_CACHE_FILE_SUFFIX@
}

/// A fresh name for a cached image.
pub fn new_clipboard_file_name() -> (r: String)
    ensures
        exists|id: u128| r@ == clipboard_file_name(id),
{
    let id = uuid_new_v4();
    let text = uuid_string(id);
    let r = cat3(CLIPBOARD_CACHE_FILE_PREFIX, text.as_str(), CLIPBOARD_CACHE_FILE_SUFFIX);
    assert(r@ == clipboard_file_name(id));
    r
}

/// A cached image of this program, older than `cutoff`: a file named with
/// the cache prefix and suffix around something `Uuid::parse_str` accepts.
pub open spec fn is_stale_cache_entry(entry: SftpDirectoryEntry, cutoff: u64) -> bool {
    let name = entry.name@;
    let p = CLIPBOARD_CACHE_FILE_PREFIX@;
    let s = CLIPBOARD_CACHE_FILE_SUFFIX@;
    &&& entry.kind == SftpDirectoryEntryKind::File
    &&& is_prefix(p, name)
    &&& is_suffix(s, name)
    &&& entry.modified_unix_seconds matches Some(m) && m < cutoff
    &&& name.len() >= p.len() + s.len()
    &&& uuid_parse_result(name.subrange(p.len() as int, name.len() - s.len())) is Some
}

pub fn clipboard_cache_entry_is_stale(entry: &SftpDirectoryEntry, cutoff: u64) -> (r: bool)
    ensures
        r == is_stale_cache_entry(*entry, cutoff),
{
    if entry.kind != SftpDirectoryEntryKind::File {
        return false;
    }
    if !starts_with(entry.name.as_str(), CLIPBOARD_CACHE_FILE_PREFIX) || !ends_with(entry.name.as_str(), CLIPBOARD_CACHE_FILE_SUFFIX) {
        return false;
    }
    match entry.modified_unix_seconds {
        Some(m) => {
            if m >= cutoff {
                return false;
            }
        },
        None => return false,
    }
    proof {
        reveal_strlit("mica-clipboard-");
        reveal_strlit(".png");
    }
    let n = entry.name.as_str().unicode_len();
    let p = CLIPBOARD_CACHE_FILE_PREFIX.unicode_len();
    let s = CLIPBOARD_CACHE_FILE_SUFFIX.unicode_len();
    if n < p + s {
        return false;
    }
    let id = substring(entry.name.as_str(), p, n - s);
    uuid_parse(id.as_str()).is_some()
}

/// The session whose cache a folder is: a folder named exactly by the
/// displayed form of the identifier that its name parses to.
pub open spec fn cache_session_of(entry: SftpDirectoryEntry) -> Option<u128> {
    if entry.kind != SftpDirectoryEntryKind::Directory {
        None
    } else {
        match uuid_parse_result(entry.name@) {
            Some(id) => if entry.name@ == uuid_text(id) { Some(id) } else { None },
            None => None,
        }
    }
}

pub fn clipboard_cache_session_directory_id(entry: &SftpDirectoryEntry) -> (r: Option<u128>)
    ensures
        r == cache_session_of(*entry),
{
    if entry.kind != SftpDirectoryEntryKind::Directory {
        return None;
    }
    let id = uuid_parse(entry.name.as_str())?;
    let text = uuid_string(id);
    if same_text(entry.name.as_str(), text.as_str()) { Some(id) } else { None }
}

/// The order in which old session folders are looked at: by modification
/// time, folders without one last.
pub open spec fn modified_key(m: Option<u64>) -> u64 {
    match m {
        Some(x) => x,
        None => u64::MAX,
    }
}

/// `sorted` with `x` inserted after every element whose key is not larger (a stable insertion).
pub open spec fn insert_by_key(sorted: Seq<(u128, Option<u64>)>, x: (u128, Option<u64>)) -> Seq<(u128, Option<u64>)>
    decreases sorted.len(),
{
    if sorted.len() == 0 {
        seq![x]
    } else if modified_key(sorted.last().1) <= modified_key(x.1) {
        sorted.push(x)
    } else {
        insert_by_key(sorted.drop_last(), x).push(sorted.last())
    }
}

/// `s` stably sorted by modification key.
pub open spec fn sort_by_key(s: Seq<(u128, Option<u64>)>) -> Seq<(u128, Option<u64>)>
    decreases s.len(),
{
    if s.len() == 0 {
        Seq::empty()
    } else {
        insert_by_key(sort_by_key(s.drop_last()), s.last())
    }
}

/// The other sessions' cache folders in the listing, in listing order.
pub open spec fn other_session_dirs(entries: Seq<SftpDirectoryEntry>, current: u128) -> Seq<(u128, Option<u64>)>
    decreases entries.len(),
{
    if entries.len() == 0 {
        Seq::empty()
    } else {
        let rest = other_session_dirs(entries.drop_last(), current);
        match cache_session_of(entries.last()) {
            Some(id) => if id != current { rest.push((id, entries.last().modified_unix_seconds)) } else { rest },
            None => rest,
        }
    }
}

/// The old session folders to look at: other sessions' folders, oldest first, at most 32.
pub open spec fn old_session_dirs_to_scan(entries: Seq<SftpDirectoryEntry>, current: u128) -> Seq<(u128, Option<u64>)> {
    let sorted = sort_by_key(other_session_dirs(entries, current));
    if sorted.len() > MAX_OLD_CLIPBOARD_CACHE_SESSION_DIRS_SCANNED {
        sorted.take(MAX_OLD_CLIPBOARD_CACHE_SESSION_DIRS_SCANNED as int)
    } else {
        sorted
    }
}

proof fn lemma_insert_len(sorted: Seq<(u128, Option<u64>)>, x: (u128, Option<u64>))
    ensures
        insert_by_key(sorted, x).len() == sorted.len() + 1,
    decreases sorted.len(),
{
    if sorted.len() > 0 && modified_key(sorted.last().1) > modified_key(x.1) {
        lemma_insert_len(sorted.drop_last(), x);
    }
}

fn insert_sorted(v: &mut Vec<(u128, Option<u64>)>, x: (u128, Option<u64>))
    ensures
        final(v)@ == insert_by_key(old(v)@, x),
    decreases old(v)@.len(),
{
    let n = v.len();
    if n == 0 {
        v.push(x);
        assert(v@ =~= seq![x]);
        return;
    }
    let last = v[n - 1];
    let key_last = match last.1 {
        Some(m) => m,
        None => u64::MAX,
    };
    let key_x = match x.1 {
        Some(m) => m,
        None => u64::MAX,
    };
    if key_last <= key_x {
        v.push(x);
    } else {
        let ghost before = v@;
        let popped = v.pop();
        assert(v@ =~= before.drop_last());
        insert_sorted(v, x);
        v.push(last);
    }
}

/// The old session folders to look at, given the cache root's listing.
pub fn select_old_session_dirs(entries: &[SftpDirectoryEntry], current_session_id: u128) -> (r: Vec<(u128, Option<u64>)>)
    ensures
        r@ == old_session_dirs_to_scan(entries@, current_session_id),
{
    let mut sorted: Vec<(u128, Option<u64>)> = Vec::new();
    let ghost mut found: Seq<(u128, Option<u64>)> = Seq::empty();
    let mut i: usize = 0;
    while i < entries.len()
        invariant
            i <= entries@.len(),
            found == other_session_dirs(entries@.take(i as int), current_session_id),
            sorted@ == sort_by_key(found),
        decreases entries.len() - i,
    {
        let ghost prefix = entries@.take(i + 1);
        assert(prefix.drop_last() =~= entries@.take(i as int));
        match clipboard_cache_session_directory_id(&entries[i]) {
            Some(id) => {
                if id != current_session_id {
                    let item = (id, entries[i].modified_unix_seconds);
                    insert_sorted(&mut sorted, item);
                    proof {
                        assert(found.push(item).drop_last() =~= found);
                        found = found.push(item);
                    }
                }
            },
            None => {},
        }
        i = i + 1;
    }
    assert(entries@.take(i as int) =~= entries@);
    if sorted.len() > MAX_OLD_CLIPBOARD_CACHE_SESSION_DIRS_SCANNED {
        sorted.truncate(MAX_OLD_CLIPBOARD_CACHE_SESSION_DIRS_SCANNED);
    }
    sorted
}

/// After cleaning a session folder: empty for sure, not, or to be listed again.
#[derive(Debug, Clone, Copy, PartialEq, Eq, Structural)]
pub enum SessionCacheCleanupVerdict {
    ConfirmedEmpty,
    NotConfirmed,
    Recheck,
}

/// What a cleaning pass over a session folder that listed `entry_count`
/// entries tells: a folder with more entries than are scanned is never
/// confirmed empty; an empty listing is; otherwise the folder is listed
/// again only when something was removed.
pub fn session_cleanup_verdict(entry_count: usize, removed_any: bool) -> (r: SessionCacheCleanupVerdict)
    ensures
        r == if entry_count > MAX_CLIPBOARD_CACHE_FILES_SCANNED_PER_SESSION {
            SessionCacheCleanupVerdict::NotConfirmed
        } else if entry_count == 0 {
            SessionCacheCleanupVerdict::ConfirmedEmpty
        } else if !removed_any {
            SessionCacheCleanupVerdict::NotConfirmed
        } else {
            SessionCacheCleanupVerdict::Recheck
        },
{
    if entry_count > MAX_CLIPBOARD_CACHE_FILES_SCANNED_PER_SESSION {
        SessionCacheCleanupVerdict::NotConfirmed
    } else if entry_count == 0 {
        SessionCacheCleanupVerdict::ConfirmedEmpty
    } else if !removed_any {
        SessionCacheCleanupVerdict::NotConfirmed
    } else {
        SessionCacheCleanupVerdict::Recheck
    }
}

/// An old session's folder is removed once it is confirmed empty and was itself last modified before the cutoff.
pub fn should_remove_session_dir(confirmed_empty: bool, directory_modified: Option<u64>, cutoff: u64) -> (r: bool)
    ensures
        r == (confirmed_empty && (directory_modified matches Some(m) && m < cutoff)),
{
    match directory_modified {
        Some(m) => confirmed_empty && m < cutoff,
        None => false,
    }
}

/// The remote home directory must be an absolute path.
pub fn is_absolute_remote_home(home: &str) -> (r: bool)
    ensures
        r == (home@.len() > 0 && home@[0] == '/'),
{
    proof {
        reveal_strlit("/");
        if home@.len() > 0 && home@[0] == '/' {
            assert(home@.take(1) =~= "/"@);
        }
        if is_prefix("/"@, home@) {
            assert(home@.take(1)[0] == home@[0]);
        }
    }
    starts_with(home, "/")
}

} // verus!
