//! Reading the answers of the small commands run on the remote host on a
//! channel of their own: whether a command exists there, and which folder the
//! interactive shell is in.

use vstd::prelude::*;
use crate::bytes::{extend_range, utf8_lossy, utf8_lossy_text};
use crate::format::push_char;
use crate::output_pump::{
    message_output_bytes, ChannelMessage,
    command_probe_text, is_safe_remote_command_name, remote_command_probe_command, require_remote_exec_exit_status,
    safe_command_name, RemoteExecError,
};
use crate::text::{cat3, chars_of, trim, trim_str};

verus! {

/// `t` names a folder from the root.
pub open spec fn is_absolute(t: Seq<char>) -> bool {
    t.len() > 0 && t[0] == '/'
}

/// The first line of `text` that, with surrounding white space removed,
/// starts with `/` (so trimmed); `cur` is what was read of the current line.
/// Lines end at `\n`; a `\r` before it is white space.
pub open spec fn first_absolute_line_from(text: Seq<char>, cur: Seq<char>) -> Option<Seq<char>>
    decreases text.len(),
{
    if text.len() == 0 {
        if is_absolute(trim(cur)) { Some(trim(cur)) } else { None }
    } else if text[0] == '\n' {
        if is_absolute(trim(cur)) {
            Some(trim(cur))
        } else {
            first_absolute_line_from(text.drop_first(), Seq::empty())
        }
    } else {
        first_absolute_line_from(text.drop_first(), cur.push(text[0]))
    }
}

pub open spec fn first_absolute_line(text: Seq<char>) -> Option<Seq<char>> {
    first_absolute_line_from(text, Seq::empty())
}

pub open spec fn opt_text(s: Option<String>) -> Option<Seq<char>> {
    match s {
        Some(t) => Some(t@),
        None => None,
    }
}

fn trimmed_if_absolute(cur: &String) -> (r: Option<String>)
    ensures
        opt_text(r) == (if is_absolute(trim(cur@)) { Some(trim(cur@)) } else { None::<Seq<char>> }),
{
    let t = trim_str(cur.as_str());
    if t.as_str().unicode_len() > 0 && t.as_str().get_char(0) == '/' {
        Some(t)
    } else {
        None
    }
}

/// The first line of `text` that, trimmed, starts with `/`.
pub fn first_absolute_line_of(text: &str) -> (r: Option<String>)
    ensures
        opt_text(r) == first_absolute_line(text@),
{
    let v = chars_of(text);
    let mut cur = String::new();
    let mut i: usize = 0;
    assert(v@.skip(0) =~= v@);
    assert(cur@ =~= Seq::<char>::empty());
    while i < v.len()
        invariant
            i <= v.len(),
            v@ == text@,
            first_absolute_line_from(v@.skip(i as int), cur@) == first_absolute_line(v@),
        decreases v.len() - i,
    {
        let ghost rest = v@.skip(i as int);
        assert(rest[0] == v@[i as int]);
        assert(rest.drop_first() =~= v@.skip(i + 1));
        if v[i] == '\n' {
            let found = trimmed_if_absolute(&cur);
            if found.is_some() {
                assert(first_absolute_line_from(rest, cur@) == Some(trim(cur@)));
                return found;
            }
            cur = String::new();
            assert(cur@ =~= Seq::<char>::empty());
        } else {
            push_char(&mut cur, v[i]);
        }
        i = i + 1;
    }
    assert(v@.skip(v.len() as int) =~= Seq::<char>::empty());
    assert(first_absolute_line_from(Seq::<char>::empty(), cur@) == first_absolute_line(text@));
    trimmed_if_absolute(&cur)
}

/// The folder the shell is in, from the answer of the folder probe: none
/// when the probe failed or printed no absolute path; an error when the
/// channel closed without the probe's exit status.
pub fn remote_cwd_from_probe(exit_status: Option<u32>, stdout: &[u8]) -> (r: Result<Option<String>, RemoteExecError>)
    ensures
        exit_status is None ==> (r matches Err(RemoteExecError::MissingExitStatus { request_label: l })
            && l@ == "remote cwd probe"@),
        exit_status matches Some(s) && s != 0 ==> r == Ok::<Option<String>, RemoteExecError>(None),
        exit_status == Some(0u32) ==> (r matches Ok(found) && opt_text(found) == first_absolute_line(utf8_lossy_text(stdout@))),
{
    let status = match require_remote_exec_exit_status(exit_status, "remote cwd probe") {
        Ok(s) => s,
        Err(e) => return Err(e),
    };
    if status != 0 {
        return Ok(None);
    }
    let text = utf8_lossy(stdout);
    Ok(first_absolute_line_of(text.as_str()))
}

/// The command that probes for `command_name`, when the name is safe to
/// put into it.
pub fn command_probe_for(command_name: &str) -> (r: Option<String>)
    ensures
        safe_command_name(command_name@) ==> (r matches Some(c) && c@ == command_probe_text(command_name@)),
        !safe_command_name(command_name@) ==> r is None,
{
    if is_safe_remote_command_name(command_name) {
        Some(remote_command_probe_command(command_name))
    } else {
        None
    }
}

/// Whether the probed command exists: the probe exits with status 0; an
/// error when the channel closed without the probe's exit status.
pub fn command_exists_from_probe(exit_status: Option<u32>) -> (r: Result<bool, RemoteExecError>)
    ensures
        exit_status is None ==> (r matches Err(RemoteExecError::MissingExitStatus { request_label: l })
            && l@ == "remote command probe"@),
        exit_status matches Some(s) ==> r == Ok::<bool, RemoteExecError>(s == 0),
{
    match require_remote_exec_exit_status(exit_status, "remote command probe") {
        Ok(s) => Ok(s == 0),
        Err(e) => Err(e),
    }
}

// ---------------------------------------------------------------------------
// Waiting for a channel request to be granted
// ---------------------------------------------------------------------------

/// Why a request on the shell channel (a terminal, a shell, a variable) did
/// not go through.
#[derive(Debug, Clone, PartialEq, Eq)]
pub enum ChannelRequestError {
    /// The channel ended before the server answered.
    ClosedBefore { request_label: String },
    /// The server refused the request.
    Rejected { request_label: String },
    /// The server closed the channel (or ended its output) instead of
    /// answering.
    ClosedDuring { request_label: String },
}

impl ChannelRequestError {
    pub open spec fn message_spec(&self) -> Seq<char> {
        match self {
            ChannelRequestError::ClosedBefore { request_label } =>
                "SSH channel closed before `"@ + request_label@ + "` completed"@,
            ChannelRequestError::Rejected { request_label } =>
                "SSH channel rejected `"@ + request_label@ + "` request"@,
            ChannelRequestError::ClosedDuring { request_label } =>
                "SSH channel closed during `"@ + request_label@ + "` request"@,
        }
    }

    pub fn message(&self) -> (r: String)
        ensures
            r@ == self.message_spec(),
    {
        match self {
            ChannelRequestError::ClosedBefore { request_label } =>
                cat3("SSH channel closed before `", request_label.as_str(), "` completed"),
            ChannelRequestError::Rejected { request_label } =>
                cat3("SSH channel rejected `", request_label.as_str(), "` request"),
            ChannelRequestError::ClosedDuring { request_label } =>
                cat3("SSH channel closed during `", request_label.as_str(), "` request"),
        }
    }
}

/// One message (none when the channel ended) while a request waits for its
/// answer: `None` to keep waiting, else how the request ended. Output that
/// arrives meanwhile is kept in `pending_output` for the terminal.
pub fn channel_request_step(message: Option<ChannelMessage>, request_label: &str, pending_output: &mut Vec<u8>)
    -> (r: Option<Result<(), ChannelRequestError>>)
    ensures
        final(pending_output)@ == old(pending_output)@ + (match message {
            Some(m) => message_output_bytes(m),
            None => Seq::empty(),
        }),
        match message {
            None => r matches Some(Err(ChannelRequestError::ClosedBefore { request_label: l })) && l@ == request_label@,
            Some(ChannelMessage::Success) => r == Some(Ok::<(), ChannelRequestError>(())),
            Some(ChannelMessage::Failure) => r matches Some(Err(ChannelRequestError::Rejected { request_label: l }))
                && l@ == request_label@,
            Some(ChannelMessage::Close) => r matches Some(Err(ChannelRequestError::ClosedDuring { request_label: l }))
                && l@ == request_label@,
            Some(ChannelMessage::Eof) => r matches Some(Err(ChannelRequestError::ClosedDuring { request_label: l }))
                && l@ == request_label@,
            Some(_) => r is None,
        },
{
    match message {
        None => Some(Err(ChannelRequestError::ClosedBefore { request_label: String::from_str(request_label) })),
        Some(ChannelMessage::Success) => {
            assert(pending_output@ =~= old(pending_output)@ + Seq::<u8>::empty());
            Some(Ok(()))
        },
        Some(ChannelMessage::Failure) => Some(Err(ChannelRequestError::Rejected { request_label: String::from_str(request_label) })),
        Some(ChannelMessage::Data { data }) => {
            extend_range(pending_output, data.as_slice(), 0, data.len());
            assert(data@.subrange(0, data@.len() as int) =~= data@);
            None
        },
        Some(ChannelMessage::ExtendedData { data, .. }) => {
            extend_range(pending_output, data.as_slice(), 0, data.len());
            assert(data@.subrange(0, data@.len() as int) =~= data@);
            None
        },
        Some(ChannelMessage::Close) | Some(ChannelMessage::Eof) =>
            Some(Err(ChannelRequestError::ClosedDuring { request_label: String::from_str(request_label) })),
        Some(_) => {
            assert(pending_output@ =~= old(pending_output)@ + Seq::<u8>::empty());
            None
        },
    }
}

} // verus!
