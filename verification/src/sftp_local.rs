//! The local side of SFTP work: where a remote file is staged to be opened
//! or edited, which local paths can be opened, revealed or trashed, the
//! `file://` URI handed to a file manager, and whether an edited working
//! copy changed. What the file system says of a path is read by the caller
//! and handed in as `LocalPathFacts`.

use vstd::prelude::*;
use crate::format::uuid_text;
use crate::ids::uuid_new_v4;
use crate::remote_paths::{last_segment, last_segment_of, local_join, local_join_spec};
use crate::text::{cat3, chars_of, trim, trim_str};

verus! {

#[derive(Debug, Clone, Copy, PartialEq, Eq, Structural)]
pub enum SftpOpenAction {
    DownloadAndOpen,
    EditLocally,
}

pub open spec fn staging_bucket_name(action: SftpOpenAction) -> Seq<char> {
    match action {
        SftpOpenAction::DownloadAndOpen => "downloads"@,
        SftpOpenAction::EditLocally => "working-copies"@,
    }
}

impl SftpOpenAction {
    /// The folder that files staged for this action go into.
    pub fn staging_bucket(self) -> (r: &'static str)
        ensures
            r@ == staging_bucket_name(self),
    {
        match self {
            SftpOpenAction::DownloadAndOpen => "downloads",
            SftpOpenAction::EditLocally => "working-copies",
        }
    }
}

/// A character that file systems refuse or treat specially in a name.
pub open spec fn is_reserved_name_char(c: char) -> bool {
    c == '/' || c == '\\' || c == ':' || c == '*' || c == '?' || c == '"' || c == '<' || c == '>' || c == '|'
}

/// `value` with reserved characters replaced by `_`; `remote-file` when that is blank.
pub open spec fn sanitized_file_name(value: Seq<char>) -> Seq<char> {
    let s = value.map_values(|c: char| if is_reserved_name_char(c) { '_' } else { c });
    if trim(s).len() == 0 { "remote-file"@ } else { s }
}

pub fn sanitize_file_name(value: &str) -> (r: String)
    ensures
        r@ == sanitized_file_name(value@),
{
    let v = chars_of(value);
    let mut out = String::new();
    let mut i: usize = 0;
    while i < v.len()
        invariant
            i <= v@.len(),
            v@ == value@,
            out@ == value@.take(i as int).map_values(|c: char| if is_reserved_name_char(c) { '_' } else { c }),
        decreases v.len() - i,
    {
        let c = v[i];
        let d = if c == '/' || c == '\\' || c == ':' || c == '*' || c == '?' || c == '"' || c == '<' || c == '>' || c == '|' {
            '_'
        } else {
            c
        };
        crate::format::push_char(&mut out, d);
        assert(out@ =~= value@.take(i + 1).map_values(|c: char| if is_reserved_name_char(c) { '_' } else { c }));
        i = i + 1;
    }
    assert(value@.take(i as int) =~= value@);
    if trim_str(out.as_str()).as_str().unicode_len() == 0 {
        String::from_str("remote-file")
    } else {
        out
    }
}

/// The name under which a remote file is staged: its last path segment,
/// or `remote-file` for a path ending in `/`.
pub open spec fn open_file_name(remote_path: Seq<char>) -> Seq<char> {
    let name = last_segment(remote_path);
    if name.len() == 0 { "remote-file"@ } else { name }
}

/// Where a remote file is staged under the temporary folder `temp_dir`:
/// `mica-term/sftp/<bucket>/<session>/<unique>-<name>`.
pub open spec fn staged_path(temp_dir: Seq<char>, session_id: u128, unique: u128, remote_path: Seq<char>, action: SftpOpenAction) -> Seq<char> {
    let d1 = local_join_spec(temp_dir, "mica-term"@);
    let d2 = local_join_spec(d1, "sftp"@);
    let d3 = local_join_spec(d2, staging_bucket_name(action));
    let d4 = local_join_spec(d3, uuid_text(session_id));
    local_join_spec(d4, uuid_text(unique) + "-"@ + sanitized_file_name(open_file_name(remote_path)))
}

/// The path a remote file is staged at for `action`, under `temp_dir`,
/// made unique by a fresh random identifier. Creating its folder is the caller's.
pub fn prepare_local_open_path(temp_dir: &str, session_id: u128, remote_path: &str, action: SftpOpenAction) -> (r: String)
    ensures
        exists|unique: u128| r@ == staged_path(temp_dir@, session_id, unique, remote_path@, action),
{
    let name = last_segment_of(remote_path);
    let file_name = if name.as_str().unicode_len() == 0 { String::from_str("remote-file") } else { name };
    let sanitized = sanitize_file_name(file_name.as_str());
    let unique = uuid_new_v4();
    let unique_text = crate::format::uuid_string(unique);
    let session_text = crate::format::uuid_string(session_id);
    let d1 = local_join(temp_dir, "mica-term");
    let d2 = local_join(d1.as_str(), "sftp");
    let d3 = local_join(d2.as_str(), action.staging_bucket());
    let d4 = local_join(d3.as_str(), session_text.as_str());
    let leaf = cat3(unique_text.as_str(), "-", sanitized.as_str());
    let r = local_join(d4.as_str(), leaf.as_str());
    assert(r@ == staged_path(temp_dir@, session_id, unique, remote_path@, action));
    r
}

/// What the file system says of a local path.
#[derive(Debug, Clone, PartialEq, Eq)]
pub struct LocalPathFacts {
    pub exists: bool,
    pub is_file: bool,
    pub is_dir: bool,
    /// The path's parent, when that is an existing folder.
    pub parent_dir: Option<String>,
}

#[derive(Debug, Clone, Copy, PartialEq, Eq, Structural)]
pub enum LocalOpenError {
    PathEmpty,
    PathMissing,
    FilePathEmpty,
    FileMissing,
    NotAFile,
    FolderPathEmpty,
    ContainingFolderMissing,
    AlreadyMissing,
}

impl LocalOpenError {
    pub open spec fn message_spec(self) -> Seq<char> {
        match self {
            LocalOpenError::PathEmpty => "Local path is empty."@,
            LocalOpenError::PathMissing => "Local path no longer exists."@,
            LocalOpenError::FilePathEmpty => "Local file path is empty."@,
            LocalOpenError::FileMissing => "Local file no longer exists."@,
            LocalOpenError::NotAFile => "Local file target is not a file."@,
            LocalOpenError::FolderPathEmpty => "Local folder path is empty."@,
            LocalOpenError::ContainingFolderMissing => "Local containing folder no longer exists."@,
            LocalOpenError::AlreadyMissing => "Local file already missing."@,
        }
    }

    pub fn message(self) -> (r: &'static str)
        ensures
            r@ == self.message_spec(),
    {
        match self {
            LocalOpenError::PathEmpty => "Local path is empty.",
            LocalOpenError::PathMissing => "Local path no longer exists.",
            LocalOpenError::FilePathEmpty => "Local file path is empty.",
            LocalOpenError::FileMissing => "Local file no longer exists.",
            LocalOpenError::NotAFile => "Local file target is not a file.",
            LocalOpenError::FolderPathEmpty => "Local folder path is empty.",
            LocalOpenError::ContainingFolderMissing => "Local containing folder no longer exists.",
            LocalOpenError::AlreadyMissing => "Local file already missing.",
        }
    }
}

/// A path can be opened with the default application when it is given and exists.
pub fn resolve_local_open_target(path: &str, facts: &LocalPathFacts) -> (r: Result<(), LocalOpenError>)
    ensures
        r == if path@.len() == 0 {
            Err::<(), LocalOpenError>(LocalOpenError::PathEmpty)
        } else if !facts.exists {
            Err(LocalOpenError::PathMissing)
        } else {
            Ok(())
        },
{
    if path.unicode_len() == 0 {
        Err(LocalOpenError::PathEmpty)
    } else if !facts.exists {
        Err(LocalOpenError::PathMissing)
    } else {
        Ok(())
    }
}

/// A file can be opened when it is given, exists and is a file.
pub fn resolve_local_file_target(path: &str, facts: &LocalPathFacts) -> (r: Result<(), LocalOpenError>)
    ensures
        r == if path@.len() == 0 {
            Err::<(), LocalOpenError>(LocalOpenError::FilePathEmpty)
        } else if !facts.exists {
            Err(LocalOpenError::FileMissing)
        } else if !facts.is_file {
            Err(LocalOpenError::NotAFile)
        } else {
            Ok(())
        },
{
    if path.unicode_len() == 0 {
        Err(LocalOpenError::FilePathEmpty)
    } else if !facts.exists {
        Err(LocalOpenError::FileMissing)
    } else if !facts.is_file {
        Err(LocalOpenError::NotAFile)
    } else {
        Ok(())
    }
}

/// A path can be trashed when it is given and exists.
pub fn resolve_local_trash_target(path: &str, facts: &LocalPathFacts) -> (r: Result<String, LocalOpenError>)
    ensures
        match r {
            Ok(p) => path@.len() > 0 && facts.exists && p@ == path@,
            Err(e) => e == if path@.len() == 0 { LocalOpenError::PathEmpty } else { LocalOpenError::AlreadyMissing }
                && (path@.len() == 0 || !facts.exists),
        },
{
    if path.unicode_len() == 0 {
        Err(LocalOpenError::PathEmpty)
    } else if !facts.exists {
        Err(LocalOpenError::AlreadyMissing)
    } else {
        Ok(String::from_str(path))
    }
}

/// What revealing a path shows: the folder to open and, for a file, the file to select in it.
#[derive(Debug, Clone, PartialEq, Eq)]
pub struct FolderOpenTarget {
    pub requested_path: String,
    pub directory_path: String,
    pub reveal_path: Option<String>,
}

/// A folder is revealed as itself; anything else by its existing parent
/// folder, with the path selected in it when it is a file.
pub fn resolve_local_reveal_target(path: &str, facts: &LocalPathFacts) -> (r: Result<FolderOpenTarget, LocalOpenError>)
    ensures
        if path@.len() == 0 {
            r == Err::<FolderOpenTarget, LocalOpenError>(LocalOpenError::FolderPathEmpty)
        } else if facts.is_dir {
            r matches Ok(t) && t.requested_path@ == path@ && t.directory_path@ == path@ && t.reveal_path is None
        } else {
            match facts.parent_dir {
                None => r == Err::<FolderOpenTarget, LocalOpenError>(LocalOpenError::ContainingFolderMissing),
                Some(parent) => r matches Ok(t) && t.requested_path@ == path@ && t.directory_path@ == parent@
                    && (if facts.is_file { t.reveal_path matches Some(p) && p@ == path@ } else { t.reveal_path is None }),
            }
        },
{
    if path.unicode_len() == 0 {
        return Err(LocalOpenError::FolderPathEmpty);
    }
    if facts.is_dir {
        return Ok(FolderOpenTarget {
            requested_path: String::from_str(path),
            directory_path: String::from_str(path),
            reveal_path: None,
        });
    }
    let directory_path = match &facts.parent_dir {
        Some(p) => p.clone(),
        None => return Err(LocalOpenError::ContainingFolderMissing),
    };
    let reveal_path = if facts.is_file { Some(String::from_str(path)) } else { None };
    Ok(FolderOpenTarget { requested_path: String::from_str(path), directory_path, reveal_path })
}

pub fn can_open_file_path_locally(path: &str, facts: &LocalPathFacts) -> (r: bool)
    ensures
        r == (path@.len() > 0 && facts.exists && facts.is_file),
{
    resolve_local_file_target(path, facts).is_ok()
}

pub fn can_open_folder_path_locally(path: &str, facts: &LocalPathFacts) -> (r: bool)
    ensures
        r == (path@.len() > 0 && (facts.is_dir || facts.parent_dir is Some)),
{
    resolve_local_reveal_target(path, facts).is_ok()
}

// ---------------------------------------------------------------------------
// File manager URIs
// ---------------------------------------------------------------------------

/// A byte that a `file://` URI carries as it is.
pub open spec fn is_uri_plain_byte(b: u8) -> bool {
    (0x41 <= b <= 0x5a) || (0x61 <= b <= 0x7a) || (0x30 <= b <= 0x39) || b == 0x2d || b == 0x5f || b == 0x2e
        || b == 0x7e || b == 0x2f
}

pub open spec fn upper_hex_char(d: int) -> char {
    if d < 10 { (48 + d) as char } else { (55 + d) as char }
}

/// The URI text of one byte: itself, or `%XX` in upper-case hex.
pub open spec fn uri_byte_text(b: u8) -> Seq<char> {
    if is_uri_plain_byte(b) {
        seq![b as char]
    } else {
        seq!['%', upper_hex_char(b as int / 16), upper_hex_char(b as int % 16)]
    }
}

pub open spec fn uri_escaped(bytes: Seq<u8>) -> Seq<char>
    decreases bytes.len(),
{
    if bytes.len() == 0 {
        Seq::empty()
    } else {
        uri_escaped(bytes.drop_last()) + uri_byte_text(bytes.last())
    }
}

fn upper_hex(d: u8) -> (c: char)
    requires
        d < 16,
    ensures
        c == upper_hex_char(d as int),
{
    if d < 10 { (48 + d) as char } else { (55 + d) as char }
}

/// The `file://` URI of an absolute path, every byte outside the unreserved
/// set and `/` percent-encoded.
pub fn file_manager_uri(path_text: &str) -> (r: String)
    ensures
        r@ == "file://"@ + uri_escaped(vstd::utf8::encode_utf8(path_text@)),
{
    let bytes = path_text.as_bytes();
    let mut uri = String::from_str("file://");
    let mut i: usize = 0;
    while i < bytes.len()
        invariant
            i <= bytes@.len(),
            bytes@ == vstd::utf8::encode_utf8(path_text@),
            uri@ == "file://"@ + uri_escaped(bytes@.take(i as int)),
        decreases bytes.len() - i,
    {
        let b = bytes[i];
        let ghost before = uri@;
        if (0x41 <= b && b <= 0x5a) || (0x61 <= b && b <= 0x7a) || (0x30 <= b && b <= 0x39) || b == 0x2d || b == 0x5f
            || b == 0x2e || b == 0x7e || b == 0x2f {
            crate::format::push_char(&mut uri, b as char);
        } else {
            crate::format::push_char(&mut uri, '%');
            crate::format::push_char(&mut uri, upper_hex(b / 16));
            crate::format::push_char(&mut uri, upper_hex(b % 16));
        }
        assert(bytes@.take(i + 1).drop_last() =~= bytes@.take(i as int));
        assert(uri@ =~= before + uri_byte_text(b));
        i = i + 1;
    }
    assert(bytes@.take(i as int) =~= bytes@);
    uri
}

// ---------------------------------------------------------------------------
// Working copies
// ---------------------------------------------------------------------------

/// A remote file downloaded to be edited locally.
#[derive(Debug, Clone, PartialEq, Eq)]
pub struct SftpWorkingCopy {
    pub task_id: String,
    pub session_id: u128,
    pub remote_path: String,
    pub local_path: String,
    pub upload_on_save: bool,
}

impl SftpWorkingCopy {
    pub fn new(session_id: u128, remote_path: &str, local_path: String, upload_on_save: bool) -> (r: Self)
        ensures
            exists|x: u128| r.task_id@ == uuid_text(x),
            r.session_id == session_id,
            r.remote_path@ == remote_path@,
            r.local_path@ == local_path@,
            r.upload_on_save == upload_on_save,
    {
        SftpWorkingCopy {
            task_id: crate::format::uuid_string(uuid_new_v4()),
            session_id,
            remote_path: String::from_str(remote_path),
            local_path,
            upload_on_save,
        }
    }
}

/// What a working copy's file looked like: when it was last modified (in
/// nanoseconds from the Unix epoch, if the system says) and its size.
#[derive(Debug, Clone, Copy, PartialEq, Eq, Structural)]
pub struct WorkingCopySnapshot {
    pub modified_at: Option<i128>,
    pub size_bytes: u64,
}

/// A working copy changed when its snapshot differs (appearing or vanishing counts).
pub fn working_copy_has_changed(previous: &Option<WorkingCopySnapshot>, next: &Option<WorkingCopySnapshot>) -> (r: bool)
    ensures
        r == (*previous != *next),
{
    match (previous, next) {
        (None, None) => false,
        (Some(a), Some(b)) => !(a.modified_at == b.modified_at && a.size_bytes == b.size_bytes),
        _ => true,
    }
}

} // verus!
