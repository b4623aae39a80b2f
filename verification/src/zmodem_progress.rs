//! The course of a ZMODEM transfer in each direction: which files and bytes
//! have gone by, and what the transfer dialog says at each step.
//!
//! The protocol engine and the local files are driven from outside; these
//! types take each step's outcome and keep the counters and the dialog state.

use vstd::prelude::*;
use crate::format::{dec_digits, dec_string};
use crate::remote_paths::{local_join, local_join_spec};
use crate::text::cat;
use crate::bytes::utf8_lossy_text;
use crate::zmodem_model::{
    safe_file_name, sanitize_zmodem_file_name, ZmodemDownloadConflictPolicy, ZmodemTransferDirection, ZmodemTransferPhase,
    ZmodemTransferState,
};
use crate::zmodem_scan::{initial_transfer_state, is_initial_state};

verus! {

// ---------------------------------------------------------------------------
// Upload
// ---------------------------------------------------------------------------

/// A local file chosen for upload: where it is, its name (which is also the
/// name sent to the remote side), and its size.
#[derive(Debug, Clone, PartialEq, Eq)]
pub struct UploadFile {
    pub path: String,
    pub display_name: String,
    pub size_bytes: u64,
}

/// The largest file a transfer can carry: ZMODEM counts offsets in 32 bits.
pub const ZMODEM_MAX_FILE_SIZE: u64 = 0xffff_ffff;

/// Why a chosen path cannot be uploaded.
#[derive(Debug, Clone, PartialEq, Eq)]
pub enum UploadFileError {
    NotAFile { path: String },
    MissingName,
    TooLarge { path: String },
}

impl UploadFileError {
    pub open spec fn message_spec(&self) -> Seq<char> {
        match self {
            UploadFileError::NotAFile { path } => "ZMODEM upload currently supports files only: `"@ + path@ + "`"@,
            UploadFileError::MissingName => "selected file is missing a visible name"@,
            UploadFileError::TooLarge { path } =>
                "ZMODEM upload does not support files larger than 4 GiB right now: `"@ + path@ + "`"@,
        }
    }

    pub fn message(&self) -> (r: String)
        ensures
            r@ == self.message_spec(),
    {
        match self {
            UploadFileError::NotAFile { path } => {
                let head = cat("ZMODEM upload currently supports files only: `", path.as_str());
                cat(head.as_str(), "`")
            },
            UploadFileError::MissingName => String::from_str("selected file is missing a visible name"),
            UploadFileError::TooLarge { path } => {
                let head = cat("ZMODEM upload does not support files larger than 4 GiB right now: `", path.as_str());
                cat(head.as_str(), "`")
            },
        }
    }
}

/// Checks a path chosen for upload, given what the file system says of it:
/// whether it is a regular file, its last component (if it has one) and its
/// length. It must be a file, have a name, and fit in a transfer.
pub fn check_upload_file(path: String, is_file: bool, file_name: Option<String>, len: u64) -> (r: Result<UploadFile, UploadFileError>)
    ensures
        !is_file ==> r == Err::<UploadFile, UploadFileError>(UploadFileError::NotAFile { path }),
        is_file && (file_name is None || file_name->0@.len() == 0) ==> r == Err::<UploadFile, UploadFileError>(UploadFileError::MissingName),
        is_file && file_name is Some && file_name->0@.len() > 0 && len > ZMODEM_MAX_FILE_SIZE
            ==> r == Err::<UploadFile, UploadFileError>(UploadFileError::TooLarge { path }),
        is_file && file_name is Some && file_name->0@.len() > 0 && len <= ZMODEM_MAX_FILE_SIZE
            ==> r == Ok::<UploadFile, UploadFileError>(UploadFile { path, display_name: file_name->0, size_bytes: len }),
{
    if !is_file {
        return Err(UploadFileError::NotAFile { path });
    }
    let name = match file_name {
        Some(name) => name,
        None => return Err(UploadFileError::MissingName),
    };
    if name.as_str().unicode_len() == 0 {
        return Err(UploadFileError::MissingName);
    }
    if len > ZMODEM_MAX_FILE_SIZE {
        return Err(UploadFileError::TooLarge { path });
    }
    Ok(UploadFile { path, display_name: name, size_bytes: len })
}

/// The sum of the files' sizes.
pub open spec fn total_size(files: Seq<UploadFile>) -> nat
    decreases files.len(),
{
    if files.len() == 0 {
        0
    } else {
        total_size(files.drop_last()) + files.last().size_bytes as nat
    }
}

/// The size of the files before the one at `index` (all of them when
/// `index` is past the end).
pub open spec fn size_before(files: Seq<UploadFile>, index: int) -> nat {
    total_size(files.take(if index < files.len() { index } else { files.len() as int }))
}

pub proof fn lemma_total_size_take(files: Seq<UploadFile>, i: int)
    requires
        0 <= i < files.len(),
    ensures
        total_size(files.take(i + 1)) == total_size(files.take(i)) + files[i].size_bytes,
        total_size(files.take(i + 1)) <= total_size(files),
    decreases files.len() - i,
{
    assert(files.take(i + 1).drop_last() =~= files.take(i));
    if i + 1 == files.len() {
        assert(files.take(i + 1) =~= files);
    } else {
        lemma_total_size_take(files, i + 1);
    }
}

proof fn lemma_total_size_whole(files: Seq<UploadFile>)
    ensures
        files.take(files.len() as int) =~= files,
{
}

/// Once the index has passed the last file, every byte of every file is
/// counted: what an upload shows after its last file equals the total.
pub proof fn lemma_all_files_counted(files: Seq<UploadFile>, index: int)
    requires
        index >= files.len(),
    ensures
        size_before(files, index) == total_size(files),
{
    lemma_total_size_whole(files);
}

/// What the upload dialog says while files are sent.
#[derive(Debug, Clone, Copy, PartialEq, Eq, Structural)]
pub enum UploadStatus {
    Preparing,
    Uploading,
    Finalizing,
}

pub open spec fn upload_status_text(status: UploadStatus) -> Seq<char> {
    match status {
        UploadStatus::Preparing => "Preparing upload"@,
        UploadStatus::Uploading => "Uploading"@,
        UploadStatus::Finalizing => "Finalizing upload"@,
    }
}

/// Why an upload could not start.
#[derive(Debug, Clone, Copy, PartialEq, Eq, Structural)]
pub enum UploadStartError {
    AlreadyFinished,
    NoFiles,
}

impl UploadStartError {
    pub open spec fn message_spec(self) -> Seq<char> {
        match self {
            UploadStartError::AlreadyFinished => "zmodem upload is already finished"@,
            UploadStartError::NoFiles => "no files were selected"@,
        }
    }

    pub fn message(self) -> (r: &'static str)
        ensures
            r@ == self.message_spec(),
    {
        match self {
            UploadStartError::AlreadyFinished => "zmodem upload is already finished",
            UploadStartError::NoFiles => "no files were selected",
        }
    }
}

/// The upload seen as values.
pub struct UploadView {
    pub files: Seq<UploadFile>,
    pub current_index: nat,
    pub bytes_transferred: nat,
    pub session_complete_pending: bool,
    pub finished: bool,
    pub state: ZmodemTransferState,
}

/// The name of the file being sent, empty when there is none.
pub open spec fn upload_current_name(v: UploadView) -> Seq<char> {
    if v.current_index < v.files.len() {
        v.files[v.current_index as int].display_name@
    } else {
        Seq::empty()
    }
}

/// `File i of n` while a named file is sent.
pub open spec fn upload_detail(v: UploadView) -> Seq<char> {
    if upload_current_name(v).len() == 0 {
        Seq::empty()
    } else {
        "File "@ + dec_digits(if v.current_index < usize::MAX { (v.current_index + 1) as nat } else { v.current_index })
            + " of "@ + dec_digits(v.files.len())
    }
}

/// `s` is `before` showing the running upload `v` with `status`.
pub open spec fn upload_running(s: ZmodemTransferState, before: ZmodemTransferState, v: UploadView, status: Seq<char>) -> bool {
    let total = total_size(v.files);
    &&& s.direction == before.direction
    &&& s.phase == ZmodemTransferPhase::Running
    &&& s.title@ == "ZMODEM Upload"@
    &&& s.headline@ == "Uploading files"@
    &&& s.status_text@ == status
    &&& s.detail_text@ == upload_detail(v)
    &&& s.error_text@.len() == 0
    &&& s.current_file_name@ == upload_current_name(v)
    &&& s.files_completed == (if v.current_index < v.files.len() { v.current_index } else { v.files.len() })
    &&& s.files_total == Some(v.files.len() as usize)
    &&& s.bytes_transferred == (if v.bytes_transferred < total { v.bytes_transferred } else { total })
    &&& s.bytes_total == Some(total as u64)
    &&& s.local_file_path == before.local_file_path
    &&& s.local_reveal_path == before.local_reveal_path
}

/// `s` is `before` after the remote side aborted an upload.
pub open spec fn upload_aborted(s: ZmodemTransferState, before: ZmodemTransferState) -> bool {
    &&& s.phase == ZmodemTransferPhase::Cancelled
    &&& s.headline@ == "Upload cancelled"@
    &&& s.status_text@ == "The remote shell aborted the transfer or the transfer was cancelled."@
    &&& s.detail_text@ == "No more files will be sent."@
    &&& s.error_text@.len() == 0
    &&& s == (ZmodemTransferState {
        phase: s.phase,
        headline: s.headline,
        status_text: s.status_text,
        detail_text: s.detail_text,
        error_text: s.error_text,
        ..before
    })
}

/// `s` is `before` after the user cancelled the upload `v`.
pub open spec fn upload_cancelled(s: ZmodemTransferState, before: ZmodemTransferState, v: UploadView) -> bool {
    let total = total_size(v.files);
    &&& s.direction == before.direction
    &&& s.title == before.title
    &&& s.phase == ZmodemTransferPhase::Cancelled
    &&& s.headline@ == "Upload cancelled"@
    &&& s.status_text@ == "The transfer was cancelled before all files were sent."@
    &&& s.detail_text@ == "The remote shell was told to abort the ZMODEM session."@
    &&& s.error_text@.len() == 0
    &&& s.current_file_name@.len() == 0
    &&& s.files_completed == (if v.current_index < v.files.len() { v.current_index } else { v.files.len() })
    &&& s.files_total == (if v.files.len() > 0 { Some(v.files.len() as usize) } else { None })
    &&& s.bytes_transferred == (if v.bytes_transferred < total { v.bytes_transferred } else { total })
    &&& s.bytes_total == (if total > 0 { Some(total as u64) } else { None })
    &&& s.local_file_path.is_none()
    &&& s.local_reveal_path.is_none()
}

/// `s` is `before` once every file of `v` went through.
pub open spec fn upload_completed(s: ZmodemTransferState, before: ZmodemTransferState, v: UploadView) -> bool {
    let total = total_size(v.files);
    &&& s.direction == before.direction
    &&& s.title == before.title
    &&& s.phase == ZmodemTransferPhase::Completed
    &&& s.headline@ == "Upload complete"@
    &&& s.status_text@ == "Transferred "@ + dec_digits(v.files.len()) + " file(s) with ZMODEM."@
    &&& s.detail_text@ == "The remote shell can continue using the received files."@
    &&& s.error_text@.len() == 0
    &&& s.current_file_name@.len() == 0
    &&& s.files_completed == v.files.len()
    &&& s.files_total == Some(v.files.len() as usize)
    &&& s.bytes_transferred == total
    &&& s.bytes_total == Some(total as u64)
    &&& s.local_file_path == before.local_file_path
    &&& s.local_reveal_path == before.local_reveal_path
}

/// The sending side of a transfer (the remote shell ran `rz`).
#[derive(Debug)]
pub struct UploadProgress {
    files: Vec<UploadFile>,
    current_index: usize,
    bytes_transferred: u64,
    total_bytes: u64,
    session_complete_pending: bool,
    finished: bool,
    state: ZmodemTransferState,
}

impl View for UploadProgress {
    type V = UploadView;

    closed spec fn view(&self) -> UploadView {
        UploadView {
            files: self.files@,
            current_index: self.current_index as nat,
            bytes_transferred: self.bytes_transferred as nat,
            session_complete_pending: self.session_complete_pending,
            finished: self.finished,
            state: self.state,
        }
    }
}

impl UploadProgress {
    #[verifier::type_invariant]
    closed spec fn total_is_sum(&self) -> bool {
        self.total_bytes == total_size(self.files@)
    }

    /// Waiting for the user to pick files.
    pub fn new() -> (r: Self)
        ensures
            r@.files.len() == 0,
            r@.current_index == 0,
            r@.bytes_transferred == 0,
            !r@.session_complete_pending,
            !r@.finished,
            is_initial_state(r@.state, ZmodemTransferDirection::Upload),
    {
        UploadProgress {
            files: Vec::new(),
            current_index: 0,
            bytes_transferred: 0,
            total_bytes: 0,
            session_complete_pending: false,
            finished: false,
            state: initial_transfer_state(ZmodemTransferDirection::Upload),
        }
    }

    /// What the dialog shows now.
    pub fn state(&self) -> (r: &ZmodemTransferState)
        ensures
            *r == self@.state,
    {
        &self.state
    }

    /// The session is over: nothing more is sent or shown.
    pub fn is_finished(&self) -> (r: bool)
        ensures
            r == self@.finished,
    {
        self.finished
    }

    /// Starts sending `files`, the first of them first.
    pub fn start(&mut self, files: Vec<UploadFile>) -> (r: Result<(), UploadStartError>)
        requires
            total_size(files@) <= u64::MAX,
        ensures
            old(self)@.finished ==> r == Err::<(), UploadStartError>(UploadStartError::AlreadyFinished)
                && final(self)@ == old(self)@,
            !old(self)@.finished && files@.len() == 0 ==> r == Err::<(), UploadStartError>(UploadStartError::NoFiles)
                && final(self)@ == old(self)@,
            !old(self)@.finished && files@.len() > 0 ==> r is Ok && final(self)@ == (UploadView {
                files: files@,
                current_index: 0,
                bytes_transferred: 0,
                ..old(self)@
            }),
    {
        if self.finished {
            return Err(UploadStartError::AlreadyFinished);
        }
        if files.len() == 0 {
            return Err(UploadStartError::NoFiles);
        }
        let mut total: u64 = 0;
        let mut i: usize = 0;
        while i < files.len()
            invariant
                i <= files.len(),
                total == total_size(files@.take(i as int)),
                total_size(files@) <= u64::MAX,
            decreases files.len() - i,
        {
            proof { lemma_total_size_take(files@, i as int); }
            total = total + files[i].size_bytes;
            i = i + 1;
        }
        proof { lemma_total_size_whole(files@); }
        proof { use_type_invariant(&*self); }
        let mut state = initial_transfer_state(ZmodemTransferDirection::Upload);
        std::mem::swap(&mut self.state, &mut state);
        *self = UploadProgress {
            files,
            current_index: 0,
            bytes_transferred: 0,
            total_bytes: total,
            session_complete_pending: self.session_complete_pending,
            finished: self.finished,
            state,
        };
        Ok(())
    }

    /// The file being sent, if any.
    pub fn current_file(&self) -> (r: Option<&UploadFile>)
        ensures
            r == (if self@.current_index < self@.files.len() { Some(&self@.files[self@.current_index as int]) } else { None }),
    {
        if self.current_index < self.files.len() {
            Some(&self.files[self.current_index])
        } else {
            None
        }
    }

    /// The size of the files already sent in full.
    pub fn completed_bytes_before_current_file(&self) -> (r: u64)
        ensures
            r == size_before(self@.files, self@.current_index as int),
    {
        proof { use_type_invariant(self); }
        let n = if self.current_index < self.files.len() { self.current_index } else { self.files.len() };
        let mut total: u64 = 0;
        let mut i: usize = 0;
        while i < n
            invariant
                n <= self.files@.len(),
                i <= n,
                total == total_size(self.files@.take(i as int)),
                self.total_bytes == total_size(self.files@),
            decreases n - i,
        {
            proof { lemma_total_size_take(self.files@, i as int); }
            total = total + self.files[i].size_bytes;
            i = i + 1;
        }
        total
    }

    /// Shows the running upload with `status`.
    pub fn sync_running_state(&mut self, status: UploadStatus)
        ensures
            upload_running(final(self)@.state, old(self)@.state, old(self)@, upload_status_text(status)),
            final(self)@ == (UploadView { state: final(self)@.state, ..old(self)@ }),
    {
        proof { use_type_invariant(&*self); }
        let (name, detail) = if self.current_index < self.files.len() {
            let name = self.files[self.current_index].display_name.clone();
            if name.as_str().unicode_len() == 0 {
                (name, String::new())
            } else {
                let shown = if self.current_index < usize::MAX { self.current_index + 1 } else { self.current_index };
                let a = dec_string(shown as u64);
                let b = dec_string(self.files.len() as u64);
                let head = cat("File ", a.as_str());
                let mid = cat(head.as_str(), " of ");
                (name, cat(mid.as_str(), b.as_str()))
            }
        } else {
            (String::new(), String::new())
        };
        let status_text = match status {
            UploadStatus::Preparing => "Preparing upload",
            UploadStatus::Uploading => "Uploading",
            UploadStatus::Finalizing => "Finalizing upload",
        };
        let completed = if self.current_index < self.files.len() { self.current_index } else { self.files.len() };
        let shown_bytes = if self.bytes_transferred < self.total_bytes { self.bytes_transferred } else { self.total_bytes };
        self.state.phase = ZmodemTransferPhase::Running;
        self.state.title = String::from_str("ZMODEM Upload");
        self.state.headline = String::from_str("Uploading files");
        self.state.status_text = String::from_str(status_text);
        self.state.detail_text = detail;
        self.state.error_text = String::new();
        self.state.current_file_name = name;
        self.state.files_completed = completed;
        self.state.files_total = Some(self.files.len());
        self.state.bytes_transferred = shown_bytes;
        self.state.bytes_total = Some(self.total_bytes);
    }

    /// `read` bytes of the current file, from `offset` on, went to the
    /// engine: what is counted is the earlier files and as much of this one
    /// as has been read (never more than its size).
    pub fn note_file_read(&mut self, offset: u64, read: u64)
        requires
            offset + read <= u64::MAX,
        ensures
            ({
                let v = old(self)@;
                let size: nat = if v.current_index < v.files.len() { v.files[v.current_index as int].size_bytes as nat } else { 0 };
                let end: nat = (offset + read) as nat;
                let counted = size_before(v.files, v.current_index as int) + (if end < size { end } else { size });
                let mid = UploadView { bytes_transferred: counted, ..v };
                &&& upload_running(final(self)@.state, v.state, mid, "Uploading"@)
                &&& final(self)@ == (UploadView { state: final(self)@.state, ..mid })
            }),
    {
        proof { use_type_invariant(&*self); }
        let before = self.completed_bytes_before_current_file();
        let size: u64 = if self.current_index < self.files.len() { self.files[self.current_index].size_bytes } else { 0 };
        let end = offset + read;
        proof {
            if self.current_index < self.files@.len() {
                lemma_total_size_take(self.files@, self.current_index as int);
            }
        }
        self.bytes_transferred = before + if end < size { end } else { size };
        self.sync_running_state(UploadStatus::Uploading);
    }

    /// The engine finished the current file. Moves on to the next one and
    /// says whether there is one (else the engine is to be told to finish).
    pub fn file_completed(&mut self) -> (more: bool)
        ensures
            ({
                let v = old(self)@;
                let next: nat = if v.current_index < usize::MAX { v.current_index + 1 } else { v.current_index };
                &&& final(self)@ == (UploadView { current_index: next, bytes_transferred: size_before(v.files, next as int), ..v })
                &&& more == (next < v.files.len())
            }),
    {
        proof { use_type_invariant(&*self); }
        self.current_index = if self.current_index < usize::MAX { self.current_index + 1 } else { self.current_index };
        self.bytes_transferred = self.completed_bytes_before_current_file();
        self.current_index < self.files.len()
    }

    /// The engine reported the end of the session; it is marked complete
    /// once the engine goes idle.
    pub fn session_completed(&mut self)
        ensures
            final(self)@ == (UploadView { session_complete_pending: true, ..old(self)@ }),
    {
        proof { use_type_invariant(&*self); }
        self.session_complete_pending = true;
    }

    /// The remote side aborted the transfer.
    pub fn aborted(&mut self)
        ensures
            upload_aborted(final(self)@.state, old(self)@.state),
            final(self)@ == (UploadView { finished: true, state: final(self)@.state, ..old(self)@ }),
    {
        proof { use_type_invariant(&*self); }
        self.finished = true;
        self.state.phase = ZmodemTransferPhase::Cancelled;
        self.state.headline = String::from_str("Upload cancelled");
        self.state.status_text = String::from_str("The remote shell aborted the transfer or the transfer was cancelled.");
        self.state.detail_text = String::from_str("No more files will be sent.");
        self.state.error_text = String::new();
    }

    /// The engine has nothing to do. A session whose end was reported is
    /// now complete; says whether the upload is finished.
    pub fn went_idle(&mut self) -> (finished: bool)
        ensures
            old(self)@.session_complete_pending ==> {
                &&& upload_completed(final(self)@.state, old(self)@.state, old(self)@)
                &&& final(self)@ == (UploadView {
                    session_complete_pending: false,
                    finished: true,
                    state: final(self)@.state,
                    ..old(self)@
                })
            },
            !old(self)@.session_complete_pending ==> final(self)@ == old(self)@,
            finished == final(self)@.finished,
    {
        proof { use_type_invariant(&*self); }
        if self.session_complete_pending {
            self.session_complete_pending = false;
            let count = dec_string(self.files.len() as u64);
            let head = cat("Transferred ", count.as_str());
            self.state.phase = ZmodemTransferPhase::Completed;
            self.state.headline = String::from_str("Upload complete");
            self.state.status_text = cat(head.as_str(), " file(s) with ZMODEM.");
            self.state.detail_text = String::from_str("The remote shell can continue using the received files.");
            self.state.error_text = String::new();
            self.state.current_file_name = String::new();
            self.state.files_completed = self.files.len();
            self.state.files_total = Some(self.files.len());
            self.state.bytes_transferred = self.total_bytes;
            self.state.bytes_total = Some(self.total_bytes);
            self.finished = true;
        }
        self.finished
    }

    /// The user cancelled: the session ends here, and the dialog says how
    /// far it got.
    pub fn cancel(&mut self)
        ensures
            upload_cancelled(final(self)@.state, old(self)@.state, old(self)@),
            final(self)@ == (UploadView {
                session_complete_pending: false,
                finished: true,
                state: final(self)@.state,
                ..old(self)@
            }),
    {
        proof { use_type_invariant(&*self); }
        self.session_complete_pending = false;
        self.finished = true;
        let completed = if self.current_index < self.files.len() { self.current_index } else { self.files.len() };
        let shown_bytes = if self.bytes_transferred < self.total_bytes { self.bytes_transferred } else { self.total_bytes };
        self.state.phase = ZmodemTransferPhase::Cancelled;
        self.state.headline = String::from_str("Upload cancelled");
        self.state.status_text = String::from_str("The transfer was cancelled before all files were sent.");
        self.state.detail_text = String::from_str("The remote shell was told to abort the ZMODEM session.");
        self.state.error_text = String::new();
        self.state.current_file_name = String::new();
        self.state.files_completed = completed;
        self.state.files_total = if self.files.len() > 0 { Some(self.files.len()) } else { None };
        self.state.bytes_transferred = shown_bytes;
        self.state.bytes_total = if self.total_bytes > 0 { Some(self.total_bytes) } else { None };
        self.state.local_file_path = None;
        self.state.local_reveal_path = None;
    }
}

// ---------------------------------------------------------------------------
// Download
// ---------------------------------------------------------------------------

/// The remote side announced a file: its name as sent, and its size when
/// the sender gave one.
#[derive(Debug, Clone, PartialEq, Eq)]
pub struct FileStart {
    pub name: Vec<u8>,
    pub size: Option<u64>,
}

/// What the download dialog says while files arrive.
#[derive(Debug, Clone, Copy, PartialEq, Eq, Structural)]
pub enum DownloadStatus {
    WaitingForFiles,
    Receiving,
    WaitingForNextFile,
}

pub open spec fn download_status_text(status: DownloadStatus) -> Seq<char> {
    match status {
        DownloadStatus::WaitingForFiles => "Waiting for remote files"@,
        DownloadStatus::Receiving => "Receiving files"@,
        DownloadStatus::WaitingForNextFile => "Waiting for next file"@,
    }
}

/// A step of the remote side that the download cannot follow.
#[derive(Debug, Clone, Copy, PartialEq, Eq, Structural)]
pub enum DownloadEventError {
    NewFileBeforeCompletion,
    NoTargetDirectory,
}

impl DownloadEventError {
    pub open spec fn message_spec(self) -> Seq<char> {
        match self {
            DownloadEventError::NewFileBeforeCompletion =>
                "zmodem receiver reported a new file before the previous file completed"@,
            DownloadEventError::NoTargetDirectory => "download target directory is not selected"@,
        }
    }

    pub fn message(self) -> (r: &'static str)
        ensures
            r@ == self.message_spec(),
    {
        match self {
            DownloadEventError::NewFileBeforeCompletion =>
                "zmodem receiver reported a new file before the previous file completed",
            DownloadEventError::NoTargetDirectory => "download target directory is not selected",
        }
    }
}

/// What to do with an announced file.
#[derive(Debug, Clone, PartialEq, Eq)]
pub enum FileStartDecision {
    /// The same file was announced again: nothing changes.
    IgnoreDuplicate,
    /// Create the file in this folder.
    Open { target_dir: String },
}

/// What the download does before it asks the engine for more.
#[derive(Debug, Clone, PartialEq, Eq)]
pub enum DownloadStep {
    /// Nothing to do until the user picks a folder, or ever again.
    Idle,
    /// Handle this file announcement, held back until a folder was picked.
    Deferred(FileStart),
    /// Ask the engine what comes next.
    Poll,
}

/// Where an announcement that came while no folder is picked goes.
#[derive(Debug, Clone, PartialEq, Eq)]
pub enum FileStartRoute {
    /// The user cancelled: the announcement is dropped.
    Drop,
    /// It waits for the folder.
    Deferred,
    /// A folder is picked: handle it now.
    Handle(FileStart),
}

/// Where a received file goes.
#[derive(Debug, Clone, PartialEq, Eq)]
pub enum ReceiverTarget {
    /// Write to this path.
    Write(String),
    /// A file is at this path and is kept: write beside it under a new name.
    RenameBeside(String),
}

/// The receiving side of a transfer (the remote shell ran `sz`).
#[derive(Debug)]
pub struct DownloadProgress {
    pub target_dir: Option<String>,
    pub conflict_policy: ZmodemDownloadConflictPolicy,
    pub cancel_requested: bool,
    pub deferred_file_start: Option<FileStart>,
    pub file_open: bool,
    pub current_target_path: Option<String>,
    pub current_file_wire_name: Option<Vec<u8>>,
    pub last_completed_file_wire_name: Option<Vec<u8>>,
    pub last_completed_file_size: Option<u64>,
    pub current_file_name: String,
    pub current_file_size: Option<u64>,
    pub completed_local_paths: Vec<String>,
    pub files_started: usize,
    pub files_completed: usize,
    pub bytes_transferred: u64,
    pub bytes_total: u64,
    pub session_complete_pending: bool,
    pub finished: bool,
    pub state: ZmodemTransferState,
}

pub open spec fn sat_inc(n: usize) -> usize {
    if n < usize::MAX { (n + 1) as usize } else { n }
}

pub open spec fn sat_add(a: u64, b: u64) -> u64 {
    if a + b <= u64::MAX { (a + b) as u64 } else { u64::MAX }
}

/// The detail line of the running download `p`.
pub open spec fn download_detail(p: DownloadProgress) -> Seq<char> {
    if p.files_started == 0 {
        "Waiting for the remote sender to begin streaming data."@
    } else if p.current_file_name@.len() == 0 {
        dec_digits(p.files_completed as nat) + " file(s) received so far."@
    } else {
        "Receiving file "@ + dec_digits(sat_inc(p.files_completed) as nat) + " of at least "@
            + dec_digits(p.files_started as nat)
    }
}

/// `s` is `before` showing the running download `p` with `status`.
pub open spec fn download_running(s: ZmodemTransferState, before: ZmodemTransferState, p: DownloadProgress, status: Seq<char>) -> bool {
    &&& s.direction == before.direction
    &&& s.phase == ZmodemTransferPhase::Running
    &&& s.title@ == "ZMODEM Download"@
    &&& s.headline@ == "Receiving files"@
    &&& s.status_text@ == status
    &&& s.detail_text@ == download_detail(p)
    &&& s.error_text@.len() == 0
    &&& s.current_file_name@ == p.current_file_name@
    &&& s.files_completed == p.files_completed
    &&& s.files_total == (if p.files_started > 0 { Some(p.files_started) } else { None })
    &&& s.bytes_transferred == p.bytes_transferred
    &&& s.bytes_total == (if p.bytes_total > 0 { Some(p.bytes_total) } else { None })
    &&& s.local_file_path == before.local_file_path
    &&& s.local_reveal_path == before.local_reveal_path
}

/// `s` is `before` after the remote side aborted a download.
pub open spec fn download_aborted(s: ZmodemTransferState, before: ZmodemTransferState) -> bool {
    &&& s.phase == ZmodemTransferPhase::Cancelled
    &&& s.headline@ == "Download cancelled"@
    &&& s.status_text@ == "The remote shell aborted the transfer or the transfer was cancelled."@
    &&& s.detail_text@ == "No more files will be received."@
    &&& s.error_text@.len() == 0
    &&& s == (ZmodemTransferState {
        phase: s.phase,
        headline: s.headline,
        status_text: s.status_text,
        detail_text: s.detail_text,
        error_text: s.error_text,
        ..before
    })
}

/// `s` is `before` after the user cancelled the download `p`.
pub open spec fn download_cancelled(s: ZmodemTransferState, before: ZmodemTransferState, p: DownloadProgress) -> bool {
    &&& s.direction == before.direction
    &&& s.title == before.title
    &&& s.phase == ZmodemTransferPhase::Cancelled
    &&& s.headline@ == "Download cancelled"@
    &&& s.status_text@ == "The transfer was cancelled before all files were received."@
    &&& s.detail_text@ == "The remote shell was told to abort the ZMODEM session."@
    &&& s.error_text@.len() == 0
    &&& s.current_file_name@.len() == 0
    &&& s.files_completed == p.files_completed
    &&& s.files_total == (if p.files_started > 0 { Some(p.files_started) } else { None })
    &&& s.bytes_transferred == p.bytes_transferred
    &&& s.bytes_total == (if p.bytes_total > 0 { Some(p.bytes_total) } else { None })
    &&& s.local_file_path.is_none()
    &&& s.local_reveal_path.is_none()
}

/// `s` is `before` once the session of `p` ended: the one file received is
/// offered to open, and the first file (or else the folder) to reveal.
pub open spec fn download_completed(s: ZmodemTransferState, before: ZmodemTransferState, p: DownloadProgress) -> bool {
    let paths = p.completed_local_paths@;
    &&& s.direction == before.direction
    &&& s.title == before.title
    &&& s.phase == ZmodemTransferPhase::Completed
    &&& s.headline@ == "Download complete"@
    &&& s.status_text@ == "Received "@ + dec_digits(p.files_completed as nat) + " file(s) with ZMODEM."@
    &&& s.detail_text@ == "The downloaded files are available in the folder you selected."@
    &&& s.error_text@.len() == 0
    &&& s.current_file_name@.len() == 0
    &&& s.files_completed == p.files_completed
    &&& s.files_total == Some(p.files_completed)
    &&& s.bytes_transferred == p.bytes_transferred
    &&& s.bytes_total == (if p.bytes_total > 0 { Some(p.bytes_total) } else { None })
    &&& s.local_file_path == (if paths.len() == 1 { Some(paths[0]) } else { None })
    &&& s.local_reveal_path == (if paths.len() > 0 { Some(paths[0]) } else { p.target_dir })
}

/// The same announcement as `name` and `size`.
pub open spec fn same_start(name: Option<Vec<u8>>, size: Option<u64>, start: FileStart) -> bool {
    name is Some && name->0@ == start.name@ && size == start.size
}

/// The path a received file named `raw_name` by the sender gets in `target_dir`.
pub fn receiver_candidate_path(target_dir: &str, raw_name: &[u8]) -> (r: String)
    ensures
        r@ == local_join_spec(target_dir@, safe_file_name(utf8_lossy_text(raw_name@))),
{
    let name = sanitize_zmodem_file_name(raw_name);
    local_join(target_dir, name.as_str())
}

/// Where a received file goes, given whether a file is at its candidate
/// path already: a free path is used, an occupied one is overwritten or
/// kept, as the policy says.
pub fn resolve_receiver_target(candidate: String, exists: bool, policy: ZmodemDownloadConflictPolicy) -> (r: ReceiverTarget)
    ensures
        r == (if exists && policy == ZmodemDownloadConflictPolicy::AutoRename {
            ReceiverTarget::RenameBeside(candidate)
        } else {
            ReceiverTarget::Write(candidate)
        }),
{
    if exists && policy == ZmodemDownloadConflictPolicy::AutoRename {
        ReceiverTarget::RenameBeside(candidate)
    } else {
        ReceiverTarget::Write(candidate)
    }
}

impl DownloadProgress {
    /// Waiting for the user to pick a folder; a file already there is kept
    /// unless the user says otherwise.
    pub fn new() -> (r: Self)
        ensures
            r.target_dir is None,
            r.conflict_policy == ZmodemDownloadConflictPolicy::AutoRename,
            !r.cancel_requested,
            r.deferred_file_start is None,
            !r.file_open,
            r.current_target_path is None,
            r.current_file_wire_name is None,
            r.last_completed_file_wire_name is None,
            r.last_completed_file_size is None,
            r.current_file_name@.len() == 0,
            r.current_file_size is None,
            r.completed_local_paths@.len() == 0,
            r.files_started == 0,
            r.files_completed == 0,
            r.bytes_transferred == 0,
            r.bytes_total == 0,
            !r.session_complete_pending,
            !r.finished,
            is_initial_state(r.state, ZmodemTransferDirection::Download),
    {
        DownloadProgress {
            target_dir: None,
            conflict_policy: ZmodemDownloadConflictPolicy::AutoRename,
            cancel_requested: false,
            deferred_file_start: None,
            file_open: false,
            current_target_path: None,
            current_file_wire_name: None,
            last_completed_file_wire_name: None,
            last_completed_file_size: None,
            current_file_name: String::new(),
            current_file_size: None,
            completed_local_paths: Vec::new(),
            files_started: 0,
            files_completed: 0,
            bytes_transferred: 0,
            bytes_total: 0,
            session_complete_pending: false,
            finished: false,
            state: initial_transfer_state(ZmodemTransferDirection::Download),
        }
    }

    /// Shows the running download with `status`.
    pub fn sync_running_state(&mut self, status: DownloadStatus)
        ensures
            download_running(final(self).state, old(self).state, *old(self), download_status_text(status)),
            *final(self) == (DownloadProgress { state: final(self).state, ..*old(self) }),
    {
        let detail = if self.files_started == 0 {
            String::from_str("Waiting for the remote sender to begin streaming data.")
        } else if self.current_file_name.as_str().unicode_len() == 0 {
            let n = dec_string(self.files_completed as u64);
            cat(n.as_str(), " file(s) received so far.")
        } else {
            let shown = if self.files_completed < usize::MAX { self.files_completed + 1 } else { self.files_completed };
            let a = dec_string(shown as u64);
            let b = dec_string(self.files_started as u64);
            let head = cat("Receiving file ", a.as_str());
            let mid = cat(head.as_str(), " of at least ");
            cat(mid.as_str(), b.as_str())
        };
        let status_text = match status {
            DownloadStatus::WaitingForFiles => "Waiting for remote files",
            DownloadStatus::Receiving => "Receiving files",
            DownloadStatus::WaitingForNextFile => "Waiting for next file",
        };
        self.state.phase = ZmodemTransferPhase::Running;
        self.state.title = String::from_str("ZMODEM Download");
        self.state.headline = String::from_str("Receiving files");
        self.state.status_text = String::from_str(status_text);
        self.state.detail_text = detail;
        self.state.error_text = String::new();
        self.state.current_file_name = self.current_file_name.clone();
        self.state.files_completed = self.files_completed;
        self.state.files_total = if self.files_started > 0 { Some(self.files_started) } else { None };
        self.state.bytes_transferred = self.bytes_transferred;
        self.state.bytes_total = if self.bytes_total > 0 { Some(self.bytes_total) } else { None };
    }

    /// The user picked `local_dir` (which now exists) and a policy for
    /// files already there.
    pub fn start(&mut self, local_dir: String, policy: ZmodemDownloadConflictPolicy)
        ensures
            ({
                let mid = DownloadProgress {
                    target_dir: Some(local_dir),
                    conflict_policy: policy,
                    cancel_requested: false,
                    ..*old(self)
                };
                &&& download_running(final(self).state, old(self).state, mid, "Waiting for remote files"@)
                &&& *final(self) == (DownloadProgress { state: final(self).state, ..mid })
            }),
    {
        self.target_dir = Some(local_dir);
        self.conflict_policy = policy;
        self.cancel_requested = false;
        self.sync_running_state(DownloadStatus::WaitingForFiles);
    }

    /// What to do before asking the engine for more: nothing once finished
    /// or while an announcement waits for a folder; else the waiting
    /// announcement first.
    pub fn before_poll(&mut self) -> (r: DownloadStep)
        ensures
            old(self).finished ==> r == DownloadStep::Idle && *final(self) == *old(self),
            !old(self).finished && old(self).target_dir is None && !old(self).cancel_requested
                && old(self).deferred_file_start is Some ==> r == DownloadStep::Idle && *final(self) == *old(self),
            !old(self).finished && !(old(self).target_dir is None && !old(self).cancel_requested)
                && old(self).deferred_file_start is Some ==> r == DownloadStep::Deferred(old(self).deferred_file_start->0)
                && *final(self) == (DownloadProgress { deferred_file_start: None, ..*old(self) }),
            !old(self).finished && old(self).deferred_file_start is None ==> r == DownloadStep::Poll && *final(self) == *old(self),
    {
        if self.finished {
            return DownloadStep::Idle;
        }
        if self.target_dir.is_none() && !self.cancel_requested && self.deferred_file_start.is_some() {
            return DownloadStep::Idle;
        }
        match self.deferred_file_start.take() {
            Some(start) => DownloadStep::Deferred(start),
            None => DownloadStep::Poll,
        }
    }

    /// Where an announcement from the engine goes: with no folder picked it
    /// waits for one, or is dropped after a cancel.
    pub fn route_file_start(&mut self, start: FileStart) -> (r: FileStartRoute)
        ensures
            old(self).target_dir is None && old(self).cancel_requested ==> r == FileStartRoute::Drop && *final(self) == *old(self),
            old(self).target_dir is None && !old(self).cancel_requested ==> r == FileStartRoute::Deferred
                && *final(self) == (DownloadProgress { deferred_file_start: Some(start), ..*old(self) }),
            old(self).target_dir is Some ==> r == FileStartRoute::Handle(start) && *final(self) == *old(self),
    {
        if self.target_dir.is_none() {
            if self.cancel_requested {
                return FileStartRoute::Drop;
            }
            self.deferred_file_start = Some(start);
            return FileStartRoute::Deferred;
        }
        FileStartRoute::Handle(start)
    }

    /// Decides on an announced file: a repeat of the file being received,
    /// or of the last one received when nothing else has started, is
    /// ignored; another file while one is open is an error; else the file is
    /// created in the picked folder.
    pub fn classify_file_start(&self, start: &FileStart) -> (r: Result<FileStartDecision, DownloadEventError>)
        ensures
            self.file_open && same_start(self.current_file_wire_name, self.current_file_size, *start)
                ==> r == Ok::<FileStartDecision, DownloadEventError>(FileStartDecision::IgnoreDuplicate),
            self.file_open && !same_start(self.current_file_wire_name, self.current_file_size, *start)
                ==> r == Err::<FileStartDecision, DownloadEventError>(DownloadEventError::NewFileBeforeCompletion),
            !self.file_open && same_start(self.last_completed_file_wire_name, self.last_completed_file_size, *start)
                && self.files_completed == self.files_started
                ==> r == Ok::<FileStartDecision, DownloadEventError>(FileStartDecision::IgnoreDuplicate),
            !self.file_open && !(same_start(self.last_completed_file_wire_name, self.last_completed_file_size, *start)
                && self.files_completed == self.files_started) && self.target_dir is None
                ==> r == Err::<FileStartDecision, DownloadEventError>(DownloadEventError::NoTargetDirectory),
            !self.file_open && !(same_start(self.last_completed_file_wire_name, self.last_completed_file_size, *start)
                && self.files_completed == self.files_started) && self.target_dir is Some
                ==> r == Ok::<FileStartDecision, DownloadEventError>(FileStartDecision::Open { target_dir: self.target_dir->0 }),
    {
        if self.file_open {
            let same = match &self.current_file_wire_name {
                Some(name) => same_bytes(name, &start.name) && self.current_file_size == start.size,
                None => false,
            };
            if same {
                return Ok(FileStartDecision::IgnoreDuplicate);
            }
            return Err(DownloadEventError::NewFileBeforeCompletion);
        }
        let repeat = match &self.last_completed_file_wire_name {
            Some(name) => same_bytes(name, &start.name) && self.last_completed_file_size == start.size,
            None => false,
        };
        if repeat && self.files_completed == self.files_started {
            return Ok(FileStartDecision::IgnoreDuplicate);
        }
        match &self.target_dir {
            Some(dir) => Ok(FileStartDecision::Open { target_dir: dir.clone() }),
            None => Err(DownloadEventError::NoTargetDirectory),
        }
    }

    /// The announced file was created at `target_path`, whose last component
    /// is `file_name`: it is the file being received now.
    pub fn record_file_opened(&mut self, start: FileStart, target_path: String, file_name: Option<String>)
        ensures
            final(self).current_file_name@ == (if file_name is Some && file_name->0@.len() > 0 {
                file_name->0@
            } else {
                "download"@
            }),
            ({
                let mid = DownloadProgress {
                    file_open: true,
                    current_target_path: Some(target_path),
                    current_file_wire_name: Some(start.name),
                    current_file_name: final(self).current_file_name,
                    current_file_size: start.size,
                    files_started: sat_inc(old(self).files_started),
                    bytes_total: if start.size is Some { sat_add(old(self).bytes_total, start.size->0) } else { old(self).bytes_total },
                    ..*old(self)
                };
                &&& download_running(final(self).state, old(self).state, mid, "Receiving files"@)
                &&& *final(self) == (DownloadProgress { state: final(self).state, ..mid })
            }),
    {
        let display = match file_name {
            Some(name) => if name.as_str().unicode_len() > 0 { name } else { String::from_str("download") },
            None => String::from_str("download"),
        };
        proof { reveal_strlit("download"); }
        self.file_open = true;
        self.current_target_path = Some(target_path);
        self.current_file_wire_name = Some(start.name);
        self.current_file_name = display;
        self.current_file_size = start.size;
        self.files_started = if self.files_started < usize::MAX { self.files_started + 1 } else { self.files_started };
        match start.size {
            Some(size) => {
                self.bytes_total = if self.bytes_total as u128 + size as u128 <= u64::MAX as u128 {
                    self.bytes_total + size
                } else {
                    u64::MAX
                };
            },
            None => {},
        }
        self.sync_running_state(DownloadStatus::Receiving);
    }

    /// `written` bytes of the current file reached the disk.
    pub fn note_written(&mut self, written: u64)
        ensures
            ({
                let mid = DownloadProgress { bytes_transferred: sat_add(old(self).bytes_transferred, written), ..*old(self) };
                &&& download_running(final(self).state, old(self).state, mid, "Receiving files"@)
                &&& *final(self) == (DownloadProgress { state: final(self).state, ..mid })
            }),
    {
        self.bytes_transferred = if self.bytes_transferred as u128 + written as u128 <= u64::MAX as u128 {
            self.bytes_transferred + written
        } else {
            u64::MAX
        };
        self.sync_running_state(DownloadStatus::Receiving);
    }

    /// The current file is complete: its path joins the received ones and
    /// it is remembered as the last file.
    pub fn file_completed(&mut self)
        ensures
            final(self).completed_local_paths@ == (match old(self).current_target_path {
                Some(p) => old(self).completed_local_paths@.push(p),
                None => old(self).completed_local_paths@,
            }),
            final(self).current_file_name@.len() == 0,
            ({
                let mid = DownloadProgress {
                    file_open: false,
                    current_target_path: None,
                    completed_local_paths: final(self).completed_local_paths,
                    last_completed_file_wire_name: old(self).current_file_wire_name,
                    current_file_wire_name: None,
                    last_completed_file_size: old(self).current_file_size,
                    current_file_name: final(self).current_file_name,
                    current_file_size: None,
                    files_completed: sat_inc(old(self).files_completed),
                    ..*old(self)
                };
                &&& download_running(final(self).state, old(self).state, mid, "Waiting for next file"@)
                &&& *final(self) == (DownloadProgress { state: final(self).state, ..mid })
            }),
    {
        self.file_open = false;
        match self.current_target_path.take() {
            Some(path) => self.completed_local_paths.push(path),
            None => {},
        }
        self.last_completed_file_wire_name = self.current_file_wire_name.take();
        self.last_completed_file_size = self.current_file_size;
        self.current_file_name = String::new();
        self.current_file_size = None;
        self.files_completed = if self.files_completed < usize::MAX { self.files_completed + 1 } else { self.files_completed };
        self.sync_running_state(DownloadStatus::WaitingForNextFile);
    }

    /// The engine reported the end of the session; it is marked complete
    /// once the engine goes idle.
    pub fn session_completed(&mut self)
        ensures
            *final(self) == (DownloadProgress { cancel_requested: false, session_complete_pending: true, ..*old(self) }),
    {
        self.cancel_requested = false;
        self.session_complete_pending = true;
    }

    /// The remote side aborted the transfer.
    pub fn aborted(&mut self)
        ensures
            download_aborted(final(self).state, old(self).state),
            *final(self) == (DownloadProgress { cancel_requested: false, finished: true, state: final(self).state, ..*old(self) }),
    {
        self.cancel_requested = false;
        self.finished = true;
        self.state.phase = ZmodemTransferPhase::Cancelled;
        self.state.headline = String::from_str("Download cancelled");
        self.state.status_text = String::from_str("The remote shell aborted the transfer or the transfer was cancelled.");
        self.state.detail_text = String::from_str("No more files will be received.");
        self.state.error_text = String::new();
    }

    /// The engine has nothing to do. A session whose end was reported is
    /// now complete; says whether the download is finished.
    pub fn went_idle(&mut self) -> (finished: bool)
        ensures
            old(self).session_complete_pending ==> {
                &&& download_completed(final(self).state, old(self).state, *old(self))
                &&& *final(self) == (DownloadProgress {
                    session_complete_pending: false,
                    finished: true,
                    state: final(self).state,
                    ..*old(self)
                })
            },
            !old(self).session_complete_pending ==> *final(self) == *old(self),
            finished == final(self).finished,
    {
        if self.session_complete_pending {
            self.session_complete_pending = false;
            let count = dec_string(self.files_completed as u64);
            let head = cat("Received ", count.as_str());
            let open_path = if self.completed_local_paths.len() == 1 { Some(self.completed_local_paths[0].clone()) } else { None };
            let reveal_path = if self.completed_local_paths.len() > 0 {
                Some(self.completed_local_paths[0].clone())
            } else {
                copy_opt_string(&self.target_dir)
            };
            self.state.phase = ZmodemTransferPhase::Completed;
            self.state.headline = String::from_str("Download complete");
            self.state.status_text = cat(head.as_str(), " file(s) with ZMODEM.");
            self.state.detail_text = String::from_str("The downloaded files are available in the folder you selected.");
            self.state.error_text = String::new();
            self.state.current_file_name = String::new();
            self.state.files_completed = self.files_completed;
            self.state.files_total = Some(self.files_completed);
            self.state.bytes_transferred = self.bytes_transferred;
            self.state.bytes_total = if self.bytes_total > 0 { Some(self.bytes_total) } else { None };
            self.state.local_file_path = open_path;
            self.state.local_reveal_path = reveal_path;
            self.finished = true;
        }
        self.finished
    }

    /// The user cancelled: the session ends here, what was in progress is
    /// forgotten, and the dialog says how far it got.
    pub fn cancel(&mut self)
        ensures
            download_cancelled(final(self).state, old(self).state, *old(self)),
            final(self).current_file_name@.len() == 0,
            *final(self) == (DownloadProgress {
                cancel_requested: true,
                deferred_file_start: None,
                file_open: false,
                current_target_path: None,
                current_file_wire_name: None,
                last_completed_file_wire_name: None,
                last_completed_file_size: None,
                current_file_name: final(self).current_file_name,
                current_file_size: None,
                session_complete_pending: false,
                finished: true,
                state: final(self).state,
                ..*old(self)
            }),
    {
        self.cancel_requested = true;
        self.deferred_file_start = None;
        self.file_open = false;
        self.current_target_path = None;
        self.current_file_wire_name = None;
        self.last_completed_file_wire_name = None;
        self.last_completed_file_size = None;
        self.current_file_name = String::new();
        self.current_file_size = None;
        self.session_complete_pending = false;
        self.finished = true;
        self.state.phase = ZmodemTransferPhase::Cancelled;
        self.state.headline = String::from_str("Download cancelled");
        self.state.status_text = String::from_str("The transfer was cancelled before all files were received.");
        self.state.detail_text = String::from_str("The remote shell was told to abort the ZMODEM session.");
        self.state.error_text = String::new();
        self.state.current_file_name = String::new();
        self.state.files_completed = self.files_completed;
        self.state.files_total = if self.files_started > 0 { Some(self.files_started) } else { None };
        self.state.bytes_transferred = self.bytes_transferred;
        self.state.bytes_total = if self.bytes_total > 0 { Some(self.bytes_total) } else { None };
        self.state.local_file_path = None;
        self.state.local_reveal_path = None;
    }
}

fn copy_opt_string(s: &Option<String>) -> (r: Option<String>)
    ensures
        r == *s,
{
    match s {
        Some(t) => Some(t.clone()),
        None => None,
    }
}

fn same_bytes(a: &Vec<u8>, b: &Vec<u8>) -> (r: bool)
    ensures
        r == (a@ == b@),
{
    if a.len() != b.len() {
        return false;
    }
    let mut i: usize = 0;
    while i < a.len()
        invariant
            i <= a.len(),
            a.len() == b.len(),
            forall|j: int| 0 <= j < i ==> a@[j] == b@[j],
        decreases a.len() - i,
    {
        if a[i] != b[i] {
            return false;
        }
        i = i + 1;
    }
    assert(a@ =~= b@);
    true
}

// ---------------------------------------------------------------------------
// Either direction
// ---------------------------------------------------------------------------

/// A ZMODEM abort header (`**` CAN `B07`, zero position, its CRC, line end)
/// followed by XON: what is sent to the remote side when the user cancels.
pub open spec fn abort_wire() -> Seq<u8> {
    seq![0x2au8, 0x2a, 0x18, 0x42, 0x30, 0x37, 0x30, 0x30, 0x30, 0x30, 0x30, 0x30, 0x30, 0x30,
        0x36, 0x37, 0x64, 0x34, 0x0d, 0x0a, 0x11]
}

pub fn abort_wire_bytes() -> (r: Vec<u8>)
    ensures
        r@ == abort_wire(),
{
    let r: Vec<u8> = vec![0x2au8, 0x2a, 0x18, 0x42, 0x30, 0x37, 0x30, 0x30, 0x30, 0x30, 0x30, 0x30, 0x30, 0x30,
        0x36, 0x37, 0x64, 0x34, 0x0d, 0x0a, 0x11];
    assert(r@ =~= abort_wire());
    r
}

/// `s` is `before` marked as failed with `error_text`.
pub open spec fn failed_state(s: ZmodemTransferState, before: ZmodemTransferState, error_text: Seq<char>) -> bool {
    &&& s.phase == ZmodemTransferPhase::Failed
    &&& s.headline@ == (match before.direction {
        ZmodemTransferDirection::Upload => "Upload failed"@,
        ZmodemTransferDirection::Download => "Download failed"@,
    })
    &&& s.error_text@ == error_text
    &&& s == (ZmodemTransferState { phase: s.phase, headline: s.headline, error_text: s.error_text, ..before })
}

/// What the dialog shows of a transfer that failed with `error_text`.
pub fn fail_state(state: ZmodemTransferState, error_text: String) -> (r: ZmodemTransferState)
    ensures
        failed_state(r, state, error_text@),
{
    let mut state = state;
    state.phase = ZmodemTransferPhase::Failed;
    state.headline = match state.direction {
        ZmodemTransferDirection::Upload => String::from_str("Upload failed"),
        ZmodemTransferDirection::Download => String::from_str("Download failed"),
    };
    state.error_text = error_text;
    state
}

/// A transfer counts as under way while its session runs, or while the
/// dialog waits for the user or shows it running.
pub fn transfer_was_active(session_running: bool, shown: &Option<ZmodemTransferState>) -> (r: bool)
    ensures
        r == (session_running || (shown is Some && (shown->0.phase == ZmodemTransferPhase::AwaitingUploadSelection
            || shown->0.phase == ZmodemTransferPhase::AwaitingDownloadDirectory
            || shown->0.phase == ZmodemTransferPhase::Running))),
{
    if session_running {
        return true;
    }
    match shown {
        Some(state) => match state.phase {
            ZmodemTransferPhase::AwaitingUploadSelection
            | ZmodemTransferPhase::AwaitingDownloadDirectory
            | ZmodemTransferPhase::Running => true,
            _ => false,
        },
        None => false,
    }
}

} // verus!
