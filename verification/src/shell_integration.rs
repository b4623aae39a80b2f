//! Shell detection, the OSC sequences that an integrated shell emits, and the
//! bootstrap scripts that make bash, zsh and fish emit them.
//!
//! The parsers work on the raw bytes of terminal output. An OSC sequence is
//! `ESC ]`, a payload, and a terminator (`BEL` or `ESC \`); a payload is read
//! as UTF-8 with invalid sequences replaced, as `String::from_utf8_lossy` does.

use vstd::prelude::*;
use vstd::utf8::{decode_utf8, valid_utf8};
use crate::numbers::{parse_i32, parse_i32_spec};
use crate::remote_paths::last_segment;
use crate::text::{
    chars_of, find_char_from, first_index_of, is_prefix, same_text, strip_prefix, substring, trim,
    trim_str,
};
use crate::bytes::{utf8_lossy, utf8_lossy_text};

verus! {

pub const BOOTSTRAP_ACK_ACCEPTED: &'static str = "__MICA_TERM_BOOTSTRAP_OK__";
pub const BOOTSTRAP_ACK_REJECTED: &'static str = "__MICA_TERM_BOOTSTRAP_REJECT__";

#[derive(Debug, Clone, PartialEq, Eq)]
pub enum ShellKind {
    Bash,
    Zsh,
    Fish,
    Unsupported(String),
}

#[derive(Debug, Clone, PartialEq, Eq)]
pub enum MicaPrivateAction {
    OpenPath(String),
    EditPath(String),
    DownloadPath(String),
}

#[derive(Debug, Clone, PartialEq, Eq)]
pub enum ShellIntegrationEvent {
    CurrentDirectory(String),
    PromptStart,
    PromptEnd,
    CommandStart,
    CommandFinished(Option<i32>),
    PrivateAction(MicaPrivateAction),
}

/// A private action with its target as text.
pub enum PrivateActionView {
    OpenPath(Seq<char>),
    EditPath(Seq<char>),
    DownloadPath(Seq<char>),
}

/// A shell integration event with its texts as character sequences.
pub enum ShellEventView {
    CurrentDirectory(Seq<char>),
    PromptStart,
    PromptEnd,
    CommandStart,
    CommandFinished(Option<i32>),
    PrivateAction(PrivateActionView),
}

impl View for MicaPrivateAction {
    type V = PrivateActionView;

    open spec fn view(&self) -> PrivateActionView {
        match self {
            MicaPrivateAction::OpenPath(p) => PrivateActionView::OpenPath(p@),
            MicaPrivateAction::EditPath(p) => PrivateActionView::EditPath(p@),
            MicaPrivateAction::DownloadPath(p) => PrivateActionView::DownloadPath(p@),
        }
    }
}

impl View for ShellIntegrationEvent {
    type V = ShellEventView;

    open spec fn view(&self) -> ShellEventView {
        match self {
            ShellIntegrationEvent::CurrentDirectory(p) => ShellEventView::CurrentDirectory(p@),
            ShellIntegrationEvent::PromptStart => ShellEventView::PromptStart,
            ShellIntegrationEvent::PromptEnd => ShellEventView::PromptEnd,
            ShellIntegrationEvent::CommandStart => ShellEventView::CommandStart,
            ShellIntegrationEvent::CommandFinished(c) => ShellEventView::CommandFinished(*c),
            ShellIntegrationEvent::PrivateAction(a) => ShellEventView::PrivateAction(a@),
        }
    }
}

pub open spec fn event_option_view(e: Option<ShellIntegrationEvent>) -> Option<ShellEventView> {
    match e {
        Some(x) => Some(x@),
        None => None,
    }
}

#[derive(Debug, Clone, PartialEq, Eq)]
pub struct BootstrapOptions {
    pub term_program: String,
    pub enhanced_flag: String,
    pub private_channel_tag: String,
    pub private_actions_enabled: bool,
}

impl Default for BootstrapOptions {
    fn default() -> (r: Self)
        ensures
            r.term_program@ == "mica-term"@,
            r.enhanced_flag@ == "MICA_TERM_ENHANCED"@,
            r.private_channel_tag@ == "mterm"@,
            r.private_actions_enabled,
    {
        BootstrapOptions {
            term_program: String::from_str("mica-term"),
            enhanced_flag: String::from_str("MICA_TERM_ENHANCED"),
            private_channel_tag: String::from_str("mterm"),
            private_actions_enabled: true,
        }
    }
}

/// What a run of terminal output said about the shell, and the output with the
/// recognised sequences taken out.
#[derive(Debug, Clone, PartialEq, Eq)]
pub struct RuntimeShellEvents {
    pub cwd: Option<String>,
    pub prompt_started: bool,
    pub prompt_ended: bool,
    pub command_started: bool,
    pub command_finished: bool,
    pub command_finish_exit_code: Option<i32>,
    pub sanitized_bytes: Vec<u8>,
}

pub struct RuntimeShellEventsView {
    pub cwd: Option<Seq<char>>,
    pub prompt_started: bool,
    pub prompt_ended: bool,
    pub command_started: bool,
    pub command_finished: bool,
    pub command_finish_exit_code: Option<i32>,
    pub sanitized_bytes: Seq<u8>,
}

impl View for RuntimeShellEvents {
    type V = RuntimeShellEventsView;

    open spec fn view(&self) -> RuntimeShellEventsView {
        RuntimeShellEventsView {
            cwd: match self.cwd {
                Some(c) => Some(c@),
                None => None,
            },
            prompt_started: self.prompt_started,
            prompt_ended: self.prompt_ended,
            command_started: self.command_started,
            command_finished: self.command_finished,
            command_finish_exit_code: self.command_finish_exit_code,
            sanitized_bytes: self.sanitized_bytes@,
        }
    }
}

impl Default for RuntimeShellEvents {
    fn default() -> (r: Self)
        ensures
            r@ == empty_runtime_events(),
    {
        RuntimeShellEvents {
            cwd: None,
            prompt_started: false,
            prompt_ended: false,
            command_started: false,
            command_finished: false,
            command_finish_exit_code: None,
            sanitized_bytes: Vec::new(),
        }
    }
}

pub open spec fn empty_runtime_events() -> RuntimeShellEventsView {
    RuntimeShellEventsView {
        cwd: None,
        prompt_started: false,
        prompt_ended: false,
        command_started: false,
        command_finished: false,
        command_finish_exit_code: None,
        sanitized_bytes: Seq::empty(),
    }
}

// ---------------------------------------------------------------------------
// Shell detection
// ---------------------------------------------------------------------------

pub fn shell_probe_command() -> (r: &'static str)
    ensures
        r@ == "printf '%s\\n' \"${SHELL:-}\" "@,
{
    "printf '%s\\n' \"${SHELL:-}\" "
}

/// The shell name in the probe's output: the last `/`-separated segment of
/// the trimmed output, trimmed again.
pub open spec fn detected_shell_name(output: Seq<char>) -> Seq<char> {
    trim(last_segment(trim(output)))
}

/// `kind` is what the shell named `name` is taken for.
pub open spec fn shell_kind_named(name: Seq<char>, kind: ShellKind) -> bool {
    if name == "bash"@ {
        kind == ShellKind::Bash
    } else if name == "zsh"@ {
        kind == ShellKind::Zsh
    } else if name == "fish"@ {
        kind == ShellKind::Fish
    } else {
        kind matches ShellKind::Unsupported(n) && n@ == (if name.len() == 0 { "unknown"@ } else { name })
    }
}

/// Classifies the shell from the probe's output, already decoded.
pub fn shell_kind_from_output(output: &str) -> (r: ShellKind)
    ensures
        shell_kind_named(detected_shell_name(output@), r),
{
    let trimmed = trim_str(output);
    let segment = crate::remote_paths::last_segment_of(trimmed.as_str());
    let name = trim_str(segment.as_str());
    if same_text(name.as_str(), "bash") {
        ShellKind::Bash
    } else if same_text(name.as_str(), "zsh") {
        ShellKind::Zsh
    } else if same_text(name.as_str(), "fish") {
        ShellKind::Fish
    } else if name.as_str().unicode_len() == 0 {
        ShellKind::Unsupported(String::from_str("unknown"))
    } else {
        ShellKind::Unsupported(name)
    }
}

/// Classifies the shell from the raw bytes that the probe printed.
pub fn parse_detected_shell(bytes: &[u8]) -> (r: ShellKind)
    ensures
        shell_kind_named(detected_shell_name(utf8_lossy_text(bytes@)), r),
        valid_utf8(bytes@) ==> shell_kind_named(detected_shell_name(decode_utf8(bytes@)), r),
{
    let output = utf8_lossy(bytes);
    shell_kind_from_output(output.as_str())
}

pub open spec fn supports_integration(shell: ShellKind) -> bool {
    shell is Bash || shell is Zsh || shell is Fish
}

pub fn shell_supports_integration(shell: &ShellKind) -> (r: bool)
    ensures
        r == supports_integration(*shell),
{
    match shell {
        ShellKind::Bash | ShellKind::Zsh | ShellKind::Fish => true,
        ShellKind::Unsupported(_) => false,
    }
}

// ---------------------------------------------------------------------------
// OSC payloads
// ---------------------------------------------------------------------------

/// The directory of an OSC 7 payload after `7;`: `file://host/path` gives `/path`.
pub open spec fn osc7_directory(x: Seq<char>) -> Option<Seq<char>> {
    if is_prefix("file://"@, x) {
        let location = x.skip("file://"@.len() as int);
        let i = first_index_of(location, '/');
        if i < 0 {
            None
        } else {
            Some(location.skip(i))
        }
    } else {
        None
    }
}

/// The event of an OSC 133 payload after `133;`.
pub open spec fn osc133_event(x: Seq<char>) -> Option<ShellEventView> {
    if x == "A"@ {
        Some(ShellEventView::PromptStart)
    } else if x == "B"@ {
        Some(ShellEventView::PromptEnd)
    } else if x == "C"@ {
        Some(ShellEventView::CommandStart)
    } else if x == "D"@ {
        Some(ShellEventView::CommandFinished(None))
    } else if is_prefix("D;"@, x) {
        match parse_i32_spec(x.skip("D;"@.len() as int)) {
            Some(code) => Some(ShellEventView::CommandFinished(Some(code))),
            None => None,
        }
    } else {
        None
    }
}

/// A private payload after `9001;` split as `channel;action;target`, where
/// the target is everything after the second `;`.
pub open spec fn private_payload_parts(x: Seq<char>) -> Option<(Seq<char>, Seq<char>, Seq<char>)> {
    let i1 = first_index_of(x, ';');
    if i1 < 0 {
        None
    } else {
        let rest = x.skip(i1 + 1);
        let i2 = first_index_of(rest, ';');
        if i2 < 0 {
            None
        } else {
            Some((x.take(i1), rest.take(i2), rest.skip(i2 + 1)))
        }
    }
}

/// The action named by a private payload's parts: only the `mterm` channel
/// and a non-empty target count.
pub open spec fn private_action_for(channel: Seq<char>, action: Seq<char>, target: Seq<char>) -> Option<PrivateActionView> {
    if channel != "mterm"@ || target.len() == 0 {
        None
    } else if action == "open"@ {
        Some(PrivateActionView::OpenPath(target))
    } else if action == "edit"@ {
        Some(PrivateActionView::EditPath(target))
    } else if action == "download"@ {
        Some(PrivateActionView::DownloadPath(target))
    } else {
        None
    }
}

/// The action of a private payload after `9001;`.
pub open spec fn private_action_of(x: Seq<char>) -> Option<PrivateActionView> {
    match private_payload_parts(x) {
        Some((channel, action, target)) => private_action_for(channel, action, target),
        None => None,
    }
}

/// The event that an OSC payload stands for, if any.
pub open spec fn osc_payload_event(p: Seq<char>) -> Option<ShellEventView> {
    if is_prefix("7;"@, p) && osc7_directory(p.skip("7;"@.len() as int)) is Some {
        Some(ShellEventView::CurrentDirectory(osc7_directory(p.skip("7;"@.len() as int))->0))
    } else if is_prefix("133;"@, p) && osc133_event(p.skip("133;"@.len() as int)) is Some {
        osc133_event(p.skip("133;"@.len() as int))
    } else if is_prefix("1337;CurrentDir="@, p) {
        Some(ShellEventView::CurrentDirectory(p.skip("1337;CurrentDir="@.len() as int)))
    } else if is_prefix("9001;"@, p) {
        match private_action_of(p.skip("9001;"@.len() as int)) {
            Some(a) => Some(ShellEventView::PrivateAction(a)),
            None => None,
        }
    } else {
        None
    }
}

/// Index of the first `c` in `s`, as `first_index_of` gives it.
fn first_index(v: &Vec<char>, c: char) -> (r: Option<usize>)
    ensures
        match r {
            Some(i) => i == first_index_of(v@, c) && i < v@.len(),
            None => first_index_of(v@, c) == -1,
        },
{
    assert(v@.skip(0) =~= v@);
    find_char_from(v, 0, c)
}

pub fn parse_osc7_current_directory(payload: &str) -> (r: Option<String>)
    ensures
        match r {
            Some(d) => osc7_directory(payload@) == Some(d@),
            None => osc7_directory(payload@) is None,
        },
{
    let location = strip_prefix(payload, "file://")?;
    let v = chars_of(location.as_str());
    match first_index(&v, '/') {
        Some(i) => Some(substring(location.as_str(), i, v.len())),
        None => None,
    }
}

pub fn parse_osc133_event(payload: &str) -> (r: Option<ShellIntegrationEvent>)
    ensures
        event_option_view(r) == osc133_event(payload@),
{
    if same_text(payload, "A") {
        Some(ShellIntegrationEvent::PromptStart)
    } else if same_text(payload, "B") {
        Some(ShellIntegrationEvent::PromptEnd)
    } else if same_text(payload, "C") {
        Some(ShellIntegrationEvent::CommandStart)
    } else if same_text(payload, "D") {
        Some(ShellIntegrationEvent::CommandFinished(None))
    } else {
        match strip_prefix(payload, "D;") {
            Some(value) => match parse_i32(value.as_str()) {
                Some(code) => Some(ShellIntegrationEvent::CommandFinished(Some(code))),
                None => None,
            },
            None => None,
        }
    }
}

pub open spec fn private_action_option_view(a: Option<MicaPrivateAction>) -> Option<PrivateActionView> {
    match a {
        Some(x) => Some(x@),
        None => None,
    }
}

fn split_private_payload(payload: &str) -> (r: Option<(String, String, String)>)
    ensures
        match r {
            Some((c, a, t)) => private_payload_parts(payload@) == Some((c@, a@, t@)),
            None => private_payload_parts(payload@) is None,
        },
{
    let v = chars_of(payload);
    let n = v.len();
    let i1 = match first_index(&v, ';') {
        Some(i) => i,
        None => return None,
    };
    let channel = substring(payload, 0, i1);
    let rest = substring(payload, i1 + 1, n);
    let ghost x = payload@;
    assert(channel@ =~= x.take(i1 as int));
    assert(rest@ =~= x.skip(i1 + 1));
    let (action, target) = split_at_first(rest.as_str(), ';')?;
    Some((channel, action, target))
}

/// `s` split around its first `c`.
fn split_at_first(s: &str, c: char) -> (r: Option<(String, String)>)
    ensures
        match r {
            Some((a, t)) => first_index_of(s@, c) >= 0 && a@ == s@.take(first_index_of(s@, c))
                && t@ == s@.skip(first_index_of(s@, c) + 1),
            None => first_index_of(s@, c) < 0,
        },
{
    let w = chars_of(s);
    let n = w.len();
    match first_index(&w, c) {
        Some(i) => {
            let a = substring(s, 0, i);
            let t = substring(s, i + 1, n);
            assert(a@ =~= s@.take(i as int));
            assert(t@ =~= s@.skip(i + 1));
            Some((a, t))
        },
        None => None,
    }
}

/// `mterm;WORD;TARGET`, where WORD holds no `;`, splits into those parts.
#[verifier::spinoff_prover]
#[verifier::rlimit(60)]
proof fn lemma_private_parts(word: Seq<char>, target: Seq<char>)
    requires
        !word.contains(';'),
    ensures
        private_payload_parts("mterm;"@ + word + ";"@ + target) == Some(("mterm"@, word, target)),
{
    let head = "mterm;"@;
    let sep = ";"@;
    assert(head =~= seq!['m', 't', 'e', 'r', 'm', ';']) by {
        reveal_strlit("mterm;");
    }
    assert(sep =~= seq![';']) by {
        reveal_strlit(";");
    }
    assert("mterm"@ =~= seq!['m', 't', 'e', 'r', 'm']) by {
        reveal_strlit("mterm");
    }
    let rest = word + sep + target;
    let x = head + rest;
    assert(x == "mterm;"@ + word + ";"@ + target) by {
        assert(x =~= "mterm;"@ + word + ";"@ + target);
    }
    assert forall|j: int| 0 <= j < 5 implies #[trigger] x[j] != ';' by {
        assert(x[j] == head[j]);
    }
    assert(x[5] == ';');
    crate::text::lemma_first_index_is(x, ';', 5);
    assert(x.take(5) =~= "mterm"@);
    assert(x.skip(6) =~= rest);
    assert forall|j: int| 0 <= j < word.len() implies #[trigger] rest[j] != ';' by {
        assert(rest[j] == word[j]);
        assert(!word.contains(';'));
        if word[j] == ';' {
            assert(word.contains(';'));
        }
    }
    assert(rest[word.len() as int] == ';');
    crate::text::lemma_first_index_is(rest, ';', word.len() as int);
    assert(rest.take(word.len() as int) =~= word);
    assert(rest.skip(word.len() as int + 1) =~= target);
    assert(private_payload_parts(x) == Some(("mterm"@, word, target)));
}

/// A payload `HEAD TARGET`, HEAD being `mterm;WORD;`, asks for what the
/// action word WORD names.
proof fn lemma_private_action_word(word: Seq<char>, head: Seq<char>, target: Seq<char>)
    requires
        !word.contains(';'),
        head == "mterm;"@ + word + ";"@,
    ensures
        private_action_of(head + target) == private_action_for("mterm"@, word, target),
{
    lemma_private_parts(word, target);
    assert(head + target =~= "mterm;"@ + word + ";"@ + target);
}

proof fn lemma_no_semicolon(word: Seq<char>)
    requires
        forall|j: int| 0 <= j < word.len() ==> word[j] != ';',
    ensures
        !word.contains(';'),
{
}

/// `mterm;open;TARGET` with a non-empty target asks to open TARGET.
#[verifier::spinoff_prover]
pub proof fn lemma_private_open(target: Seq<char>)
    requires
        target.len() > 0,
    ensures
        private_action_of("mterm;open;"@ + target) == Some(PrivateActionView::OpenPath(target)),
{
    assert("open"@ =~= seq!['o', 'p', 'e', 'n']) by { reveal_strlit("open"); }
    assert("mterm;open;"@ =~= "mterm;"@ + "open"@ + ";"@) by {
        reveal_strlit("mterm;open;");
        reveal_strlit("mterm;");
        reveal_strlit(";");
    }
    lemma_no_semicolon("open"@);
    lemma_private_action_word("open"@, "mterm;open;"@, target);
}

/// `mterm;edit;TARGET` with a non-empty target asks to edit TARGET.
#[verifier::spinoff_prover]
#[verifier::rlimit(100)]
pub proof fn lemma_private_edit(target: Seq<char>)
    requires
        target.len() > 0,
    ensures
        private_action_of("mterm;edit;"@ + target) == Some(PrivateActionView::EditPath(target)),
{
    let edit = "edit"@;
    assert(edit =~= seq!['e', 'd', 'i', 't']) by { reveal_strlit("edit"); }
    assert(edit != "open"@) by {
        reveal_strlit("open");
        assert("open"@[0] == 'o');
    }
    assert("mterm;edit;"@ =~= "mterm;"@ + edit + ";"@) by {
        reveal_strlit("mterm;edit;");
        reveal_strlit("mterm;");
        reveal_strlit(";");
    }
    assert forall|j: int| 0 <= j < edit.len() implies edit[j] != ';' by {}
    lemma_no_semicolon(edit);
    lemma_private_action_word(edit, "mterm;edit;"@, target);
    assert(private_action_for("mterm"@, edit, target) == Some(PrivateActionView::EditPath(target)));
}

/// `mterm;download;TARGET` with a non-empty target asks to download TARGET.
#[verifier::spinoff_prover]
pub proof fn lemma_private_download(target: Seq<char>)
    requires
        target.len() > 0,
    ensures
        private_action_of("mterm;download;"@ + target) == Some(PrivateActionView::DownloadPath(target)),
{
    assert("download"@ =~= seq!['d', 'o', 'w', 'n', 'l', 'o', 'a', 'd']) by { reveal_strlit("download"); }
    assert("open"@ =~= seq!['o', 'p', 'e', 'n']) by { reveal_strlit("open"); }
    assert("edit"@ =~= seq!['e', 'd', 'i', 't']) by { reveal_strlit("edit"); }
    assert("mterm;download;"@ =~= "mterm;"@ + "download"@ + ";"@) by {
        reveal_strlit("mterm;download;");
        reveal_strlit("mterm;");
        reveal_strlit(";");
    }
    lemma_no_semicolon("download"@);
    lemma_private_action_word("download"@, "mterm;download;"@, target);
    assert("download"@.len() != "open"@.len());
    assert("download"@.len() != "edit"@.len());
}

/// A private payload `mterm;ACTION;TARGET` with a non-empty target asks
/// for what ACTION says: `open` opens TARGET, `edit` edits it, `download`
/// downloads it; three different requests.
pub proof fn lemma_private_action_words(target: Seq<char>)
    requires
        target.len() > 0,
    ensures
        private_action_of("mterm;open;"@ + target) == Some(PrivateActionView::OpenPath(target)),
        private_action_of("mterm;edit;"@ + target) == Some(PrivateActionView::EditPath(target)),
        private_action_of("mterm;download;"@ + target) == Some(PrivateActionView::DownloadPath(target)),
{
    lemma_private_open(target);
    lemma_private_edit(target);
    lemma_private_download(target);
}

/// The same three requests, read off a payload that starts with
/// `mterm;ACTION;` and goes on.
#[verifier::spinoff_prover]
pub proof fn lemma_private_prefixes(x: Seq<char>)
    ensures
        x.len() > 11 && x.take(11) == "mterm;open;"@ ==> private_action_of(x) == Some(PrivateActionView::OpenPath(x.skip(11))),
        x.len() > 11 && x.take(11) == "mterm;edit;"@ ==> private_action_of(x) == Some(PrivateActionView::EditPath(x.skip(11))),
        x.len() > 15 && x.take(15) == "mterm;download;"@
            ==> private_action_of(x) == Some(PrivateActionView::DownloadPath(x.skip(15))),
{
    if x.len() > 11 {
        assert(x =~= x.take(11) + x.skip(11));
        if x.take(11) == "mterm;open;"@ {
            lemma_private_open(x.skip(11));
        }
        if x.take(11) == "mterm;edit;"@ {
            lemma_private_edit(x.skip(11));
        }
    }
    if x.len() > 15 {
        assert(x =~= x.take(15) + x.skip(15));
        if x.take(15) == "mterm;download;"@ {
            lemma_private_download(x.skip(15));
        }
    }
}

pub fn parse_private_action(payload: &str) -> (r: Option<MicaPrivateAction>)
    ensures
        private_action_option_view(r) == private_action_of(payload@),
        payload@.len() > 11 && payload@.take(11) == "mterm;open;"@
            ==> private_action_option_view(r) == Some(PrivateActionView::OpenPath(payload@.skip(11))),
        payload@.len() > 11 && payload@.take(11) == "mterm;edit;"@
            ==> private_action_option_view(r) == Some(PrivateActionView::EditPath(payload@.skip(11))),
        payload@.len() > 15 && payload@.take(15) == "mterm;download;"@
            ==> private_action_option_view(r) == Some(PrivateActionView::DownloadPath(payload@.skip(15))),
{
    proof {
        lemma_private_prefixes(payload@);
    }
    let (channel, action, target) = split_private_payload(payload)?;
    if !same_text(channel.as_str(), "mterm") || target.as_str().unicode_len() == 0 {
        return None;
    }
    if same_text(action.as_str(), "open") {
        Some(MicaPrivateAction::OpenPath(target))
    } else if same_text(action.as_str(), "edit") {
        Some(MicaPrivateAction::EditPath(target))
    } else if same_text(action.as_str(), "download") {
        Some(MicaPrivateAction::DownloadPath(target))
    } else {
        None
    }
}

/// Reads one OSC payload (the text between `ESC ]` and the terminator).
pub fn parse_osc_payload(payload: &str) -> (r: Option<ShellIntegrationEvent>)
    ensures
        event_option_view(r) == osc_payload_event(payload@),
{
    if let Some(rest) = strip_prefix(payload, "7;") {
        if let Some(cwd) = parse_osc7_current_directory(rest.as_str()) {
            return Some(ShellIntegrationEvent::CurrentDirectory(cwd));
        }
    }
    if let Some(rest) = strip_prefix(payload, "133;") {
        if let Some(event) = parse_osc133_event(rest.as_str()) {
            return Some(event);
        }
    }
    if let Some(cwd) = strip_prefix(payload, "1337;CurrentDir=") {
        return Some(ShellIntegrationEvent::CurrentDirectory(cwd));
    }
    match strip_prefix(payload, "9001;") {
        Some(rest) => match parse_private_action(rest.as_str()) {
            Some(action) => Some(ShellIntegrationEvent::PrivateAction(action)),
            None => None,
        },
        None => None,
    }
}

// ---------------------------------------------------------------------------
// Scanning terminal output
// ---------------------------------------------------------------------------

/// The first OSC terminator at or after `p`: its position and its length
/// (`BEL` is one byte, `ESC \` two).
pub open spec fn osc_terminator(b: Seq<u8>, p: int) -> Option<(int, int)>
    decreases b.len() - p,
{
    if p < 0 || p >= b.len() {
        None
    } else if b[p] == 0x07 {
        Some((p, 1))
    } else if b[p] == 0x1b && p + 1 < b.len() && b[p + 1] == 0x5c {
        Some((p, 2))
    } else {
        osc_terminator(b, p + 1)
    }
}

pub proof fn lemma_osc_terminator(b: Seq<u8>, p: int)
    ensures
        match osc_terminator(b, p) {
            Some((e, t)) => 0 <= p <= e && (t == 1 || t == 2) && e + t <= b.len(),
            None => true,
        },
    decreases b.len() - p,
{
    if p < 0 || p >= b.len() {
    } else if b[p] == 0x07 {
    } else if b[p] == 0x1b && p + 1 < b.len() && b[p + 1] == 0x5c {
    } else {
        lemma_osc_terminator(b, p + 1);
    }
}

/// `b[c..]` starts an OSC sequence.
pub open spec fn osc_starts_at(b: Seq<u8>, c: int) -> bool {
    0 <= c && c + 1 < b.len() && b[c] == 0x1b && b[c + 1] == 0x5d
}

/// The events of the complete OSC sequences in `b[c..]`, in order. Scanning
/// stops at a sequence that has no terminator yet.
pub open spec fn osc_events_from(b: Seq<u8>, c: int) -> Seq<ShellEventView>
    decreases b.len() - c,
{
    if c < 0 || c + 1 >= b.len() {
        Seq::empty()
    } else if !osc_starts_at(b, c) {
        osc_events_from(b, c + 1)
    } else {
        match osc_terminator(b, c + 2) {
            None => Seq::empty(),
            Some((e, t)) => {
                proof {
                    lemma_osc_terminator(b, c + 2);
                }
                let rest = osc_events_from(b, e + t);
                match osc_payload_event(utf8_lossy_text(b.subrange(c + 2, e))) {
                    Some(ev) => seq![ev] + rest,
                    None => rest,
                }
            },
        }
    }
}

/// `acc` after one event.
pub open spec fn apply_event_view(acc: RuntimeShellEventsView, ev: ShellEventView) -> RuntimeShellEventsView {
    match ev {
        ShellEventView::CurrentDirectory(p) => RuntimeShellEventsView { cwd: Some(p), ..acc },
        ShellEventView::PromptStart => RuntimeShellEventsView { prompt_started: true, ..acc },
        ShellEventView::PromptEnd => RuntimeShellEventsView { prompt_ended: true, ..acc },
        ShellEventView::CommandStart => RuntimeShellEventsView { command_started: true, ..acc },
        ShellEventView::CommandFinished(code) => RuntimeShellEventsView {
            command_finished: true,
            command_finish_exit_code: code,
            ..acc
        },
        ShellEventView::PrivateAction(_) => acc,
    }
}

pub open spec fn with_sanitized(acc: RuntimeShellEventsView, more: Seq<u8>) -> RuntimeShellEventsView {
    RuntimeShellEventsView { sanitized_bytes: acc.sanitized_bytes + more, ..acc }
}

/// `acc` after reading `b[c..]`: a recognised OSC sequence updates the
/// events and is taken out; every other byte, an unrecognised sequence
/// included, passes into `sanitized_bytes`, and so does an unterminated tail.
pub open spec fn runtime_events_from(b: Seq<u8>, c: int, acc: RuntimeShellEventsView) -> RuntimeShellEventsView
    decreases b.len() - c,
{
    if c < 0 || c >= b.len() {
        acc
    } else if !osc_starts_at(b, c) {
        runtime_events_from(b, c + 1, with_sanitized(acc, seq![b[c]]))
    } else {
        match osc_terminator(b, c + 2) {
            None => with_sanitized(acc, b.skip(c)),
            Some((e, t)) => {
                proof {
                    lemma_osc_terminator(b, c + 2);
                }
                match osc_payload_event(utf8_lossy_text(b.subrange(c + 2, e))) {
                    Some(ev) => runtime_events_from(b, e + t, apply_event_view(acc, ev)),
                    None => runtime_events_from(b, e + t, with_sanitized(acc, b.subrange(c, e + t))),
                }
            },
        }
    }
}

pub open spec fn runtime_events_of(b: Seq<u8>) -> RuntimeShellEventsView {
    runtime_events_from(b, 0, empty_runtime_events())
}

proof fn lemma_plain_bytes_from(b: Seq<u8>, c: int, acc: RuntimeShellEventsView)
    requires
        0 <= c <= b.len(),
        forall|j: int| c <= j < b.len() ==> b[j] != 0x1b,
    ensures
        runtime_events_from(b, c, acc) == with_sanitized(acc, b.skip(c)),
        osc_events_from(b, c) == Seq::<ShellEventView>::empty(),
    decreases b.len() - c,
{
    if c >= b.len() {
        assert(acc.sanitized_bytes + b.skip(c) =~= acc.sanitized_bytes);
        assert(with_sanitized(acc, b.skip(c)) =~= acc);
    } else {
        lemma_plain_bytes_from(b, c + 1, with_sanitized(acc, seq![b[c]]));
        assert(seq![b[c]] + b.skip(c + 1) =~= b.skip(c));
        assert(acc.sanitized_bytes + seq![b[c]] + b.skip(c + 1) =~= acc.sanitized_bytes + b.skip(c));
    }
}

/// Output that holds no escape character carries no shell events and reaches
/// the terminal exactly as it came.
pub proof fn lemma_plain_output_passes_through(b: Seq<u8>)
    requires
        forall|j: int| 0 <= j < b.len() ==> b[j] != 0x1b,
    ensures
        runtime_events_of(b) == with_sanitized(empty_runtime_events(), b),
        runtime_events_of(b).sanitized_bytes == b,
        osc_events_from(b, 0) == Seq::<ShellEventView>::empty(),
{
    lemma_plain_bytes_from(b, 0, empty_runtime_events());
    assert(b.skip(0) =~= b);
    assert(Seq::<u8>::empty() + b =~= b);
}

/// Finds the first OSC terminator at or after `start`.
pub fn find_osc_terminator(bytes: &[u8], start: usize) -> (r: Option<(usize, usize)>)
    ensures
        match r {
            Some((e, t)) => osc_terminator(bytes@, start as int) == Some((e as int, t as int)),
            None => osc_terminator(bytes@, start as int) is None,
        },
{
    let n = bytes.len();
    let mut p = start;
    while p < n
        invariant
            n == bytes@.len(),
            start <= p,
            osc_terminator(bytes@, start as int) == osc_terminator(bytes@, p as int),
        decreases n - p,
    {
        if bytes[p] == 0x07 {
            return Some((p, 1));
        }
        if bytes[p] == 0x1b && p + 1 < n && bytes[p + 1] == 0x5c {
            return Some((p, 2));
        }
        p = p + 1;
    }
    None
}

fn starts_osc(bytes: &[u8], c: usize) -> (r: bool)
    requires
        c < bytes@.len(),
    ensures
        r == osc_starts_at(bytes@, c as int),
{
    bytes.len() - c > 1 && bytes[c] == 0x1b && bytes[c + 1] == 0x5d
}

pub open spec fn events_view(v: Seq<ShellIntegrationEvent>) -> Seq<ShellEventView> {
    v.map_values(|e: ShellIntegrationEvent| e@)
}

/// The shell integration events in a run of terminal output, in order.
pub fn parse_shell_integration_events(bytes: &[u8]) -> (r: Vec<ShellIntegrationEvent>)
    ensures
        events_view(r@) == osc_events_from(bytes@, 0),
{
    let n = bytes.len();
    let mut events: Vec<ShellIntegrationEvent> = Vec::new();
    let mut cursor: usize = 0;
    while n > 1 && cursor < n - 1
        invariant
            n == bytes@.len(),
            events_view(events@) + osc_events_from(bytes@, cursor as int) == osc_events_from(bytes@, 0),
        decreases n - cursor,
    {
        if !starts_osc(bytes, cursor) {
            cursor = cursor + 1;
            continue;
        }
        let payload_start = cursor + 2;
        match find_osc_terminator(bytes, payload_start) {
            None => {
                proof {
                    assert(osc_events_from(bytes@, cursor as int) =~= Seq::<ShellEventView>::empty());
                    assert(events_view(events@) + Seq::<ShellEventView>::empty() =~= events_view(events@));
                }
                return events;
            },
            Some((payload_end, terminator_len)) => {
                proof { lemma_osc_terminator(bytes@, payload_start as int); }
                let payload = utf8_lossy(vstd::slice::slice_subrange(bytes, payload_start, payload_end));
                let ghost old_events = events@;
                let ghost rest = osc_events_from(bytes@, payload_end + terminator_len);
                match parse_osc_payload(payload.as_str()) {
                    Some(event) => {
                        events.push(event);
                        proof {
                            assert(events_view(events@) =~= events_view(old_events).push(event@));
                            assert(events_view(events@) + rest =~= events_view(old_events) + (seq![event@] + rest));
                        }
                    },
                    None => {},
                }
                cursor = payload_end + terminator_len;
            },
        }
    }
    proof {
        assert(osc_events_from(bytes@, cursor as int) =~= Seq::<ShellEventView>::empty());
        assert(events_view(events@) + Seq::<ShellEventView>::empty() =~= events_view(events@));
    }
    events
}

/// Records one event in `parsed`.
pub fn apply_runtime_event(parsed: &mut RuntimeShellEvents, event: &ShellIntegrationEvent)
    ensures
        final(parsed)@ == apply_event_view(old(parsed)@, event@),
{
    match event {
        ShellIntegrationEvent::CurrentDirectory(path) => {
            parsed.cwd = Some(path.clone());
        },
        ShellIntegrationEvent::PromptStart => {
            parsed.prompt_started = true;
        },
        ShellIntegrationEvent::PromptEnd => {
            parsed.prompt_ended = true;
        },
        ShellIntegrationEvent::CommandStart => {
            parsed.command_started = true;
        },
        ShellIntegrationEvent::CommandFinished(code) => {
            parsed.command_finished = true;
            parsed.command_finish_exit_code = *code;
        },
        ShellIntegrationEvent::PrivateAction(_) => {},
    }
}

/// Reads a run of terminal output: the shell events it reports, and the
/// output with the recognised sequences removed.
pub fn runtime_shell_events(bytes: &[u8]) -> (r: RuntimeShellEvents)
    ensures
        r@ == runtime_events_of(bytes@),
{
    let n = bytes.len();
    let mut parsed = RuntimeShellEvents::default();
    let mut cursor: usize = 0;
    while cursor < n
        invariant
            n == bytes@.len(),
            runtime_events_from(bytes@, cursor as int, parsed@) == runtime_events_of(bytes@),
        decreases n - cursor,
    {
        if !starts_osc(bytes, cursor) {
            let ghost before = parsed@;
            parsed.sanitized_bytes.push(bytes[cursor]);
            assert(parsed.sanitized_bytes@ =~= before.sanitized_bytes + seq![bytes@[cursor as int]]);
            assert(parsed@ == with_sanitized(before, seq![bytes@[cursor as int]]));
            cursor = cursor + 1;
            continue;
        }
        let payload_start = cursor + 2;
        match find_osc_terminator(bytes, payload_start) {
            None => {
                let ghost before = parsed@;
                crate::bytes::extend_range(&mut parsed.sanitized_bytes, bytes, cursor, n);
                assert(bytes@.subrange(cursor as int, n as int) =~= bytes@.skip(cursor as int));
                assert(parsed@ == with_sanitized(before, bytes@.skip(cursor as int)));
                return parsed;
            },
            Some((payload_end, terminator_len)) => {
                proof { lemma_osc_terminator(bytes@, payload_start as int); }
                let payload = utf8_lossy(vstd::slice::slice_subrange(bytes, payload_start, payload_end));
                let ghost before = parsed@;
                match parse_osc_payload(payload.as_str()) {
                    Some(event) => {
                        apply_runtime_event(&mut parsed, &event);
                    },
                    None => {
                        crate::bytes::extend_range(&mut parsed.sanitized_bytes, bytes, cursor, payload_end + terminator_len);
                        assert(parsed@ == with_sanitized(before, bytes@.subrange(cursor as int, payload_end + terminator_len)));
                    },
                }
                cursor = payload_end + terminator_len;
            },
        }
    }
    parsed
}

// ---------------------------------------------------------------------------
// Bootstrap scripts
// ---------------------------------------------------------------------------

pub const BASH_BOOTSTRAP_HEAD: &'static str = r#"export TERM_PROGRAM="#;

pub const BASH_BOOTSTRAP_MID: &'static str = r#"
export "#;

pub const BASH_BOOTSTRAP_BODY: &'static str = r#"=1
__mica_term_emit_prompt_start() { printf '\033]133;A\007'; }
__mica_term_emit_prompt_end() { printf '\033]133;B\007'; }
__mica_term_emit_command_start() { printf '\033]133;C\007'; }
__mica_term_emit_command_finished() { printf '\033]133;D;%s\007' "${1:-0}"; }
__mica_term_emit_cwd() { printf '\033]7;file://%s%s\007' "${HOSTNAME:-remote}" "$PWD"; }
"#;

pub const BASH_BOOTSTRAP_TAIL: &'static str = r#"
if [[ $- == *i* ]]; then
__mica_term_bash_command_running=0
__mica_term_bash_prompt_end_marker=$'\[\033]133;B\007\]'
__mica_term_bash_emit_command_start=1
__mica_term_bash_prompt_command_is_array() {
    case "$(declare -p PROMPT_COMMAND 2>/dev/null)" in
        declare\ -a*) return 0 ;;
        *) return 1 ;;
    esac
}
__mica_term_wrap_bash_prompts() {
    case "$PS1" in
        *$'\033]133;B\007'*) ;;
        *) PS1="${PS1}${__mica_term_bash_prompt_end_marker}" ;;
    esac
    case "$PS2" in
        ''|*$'\033]133;B\007'*) ;;
        *) PS2="${PS2}${__mica_term_bash_prompt_end_marker}" ;;
    esac
}
__mica_term_prompt_command() {
    local status="$?"
    if [[ "${__mica_term_bash_command_running:-0}" == "1" ]]; then
        __mica_term_emit_command_finished "$status"
        __mica_term_bash_command_running=0
    fi
    __mica_term_emit_prompt_start
    __mica_term_emit_cwd
    __mica_term_bash_interactive_ready=1
}
__mica_term_before_command() {
    __mica_term_bash_interactive_ready=0
    __mica_term_bash_command_running=1
    if [[ "${__mica_term_bash_emit_command_start:-1}" == "1" ]]; then
        __mica_term_emit_command_start
    fi
}
__mica_term_prompt_command_installed() {
    if __mica_term_bash_prompt_command_is_array; then
        local command
        for command in "${PROMPT_COMMAND[@]}"; do
            [[ "$command" == "__mica_term_prompt_command" ]] && return 0
        done
        return 1
    fi
    case "${PROMPT_COMMAND:-}" in
        *"__mica_term_prompt_command"*) return 0 ;;
        *) return 1 ;;
    esac
}
__mica_term_install_prompt_command() {
    if __mica_term_prompt_command_installed; then
        return
    fi
    if __mica_term_bash_prompt_command_is_array; then
        local existing_commands=("${PROMPT_COMMAND[@]}")
        local command
        PROMPT_COMMAND=(__mica_term_prompt_command)
        for command in "${existing_commands[@]}"; do
            [[ "$command" == "__mica_term_prompt_command" ]] && continue
            PROMPT_COMMAND+=("$command")
        done
        return
    fi
    if [[ -n "${PROMPT_COMMAND:-}" ]]; then
        PROMPT_COMMAND=$'__mica_term_prompt_command\n'"${PROMPT_COMMAND}"
    else
        PROMPT_COMMAND="__mica_term_prompt_command"
    fi
}
__mica_term_bash_prompt_command_contains() {
    if __mica_term_bash_prompt_command_is_array; then
        local command
        for command in "${PROMPT_COMMAND[@]}"; do
            [[ "$command" == "${BASH_COMMAND:-}" ]] && return 0
        done
        return 1
    fi
    case "${PROMPT_COMMAND:-}" in
        *"${BASH_COMMAND:-}"*) return 0 ;;
        *) return 1 ;;
    esac
}
__mica_term_debug_trap() {
    [[ -n "${COMP_LINE:-}" ]] && return
    [[ "${__mica_term_bash_interactive_ready:-0}" != "1" ]] && return
    case "${BASH_COMMAND:-}" in
        __mica_term_*|history*|builtin\ history*) return ;;
    esac
    if __mica_term_bash_prompt_command_contains; then
        return
    fi
    __mica_term_before_command
}
if (( BASH_VERSINFO[0] > 4 || (BASH_VERSINFO[0] == 4 && BASH_VERSINFO[1] >= 4) )); then
    PS0=$'\033]133;C\007'
    __mica_term_bash_emit_command_start=0
fi
trap '__mica_term_debug_trap' DEBUG
__mica_term_wrap_bash_prompts
__mica_term_install_prompt_command
fi"#;

pub const ZSH_BOOTSTRAP_HEAD: &'static str = r#"export TERM_PROGRAM="#;

pub const ZSH_BOOTSTRAP_MID: &'static str = r#"
export "#;

pub const ZSH_BOOTSTRAP_BODY: &'static str = r#"=1
function __mica_term_emit_prompt_start() { printf '\033]133;A\007'; }
function __mica_term_emit_prompt_end() { printf '\033]133;B\007'; }
function __mica_term_emit_command_start() { printf '\033]133;C\007'; }
function __mica_term_emit_command_finished() { printf '\033]133;D;%s\007' "${1:-0}"; }
function __mica_term_emit_cwd() { printf '\033]7;file://%s%s\007' "${HOST:-remote}" "$PWD"; }
"#;

pub const ZSH_BOOTSTRAP_TAIL: &'static str = r#"
if [[ -o interactive ]]; then
typeset -gi __mica_term_zsh_command_running=0
__mica_term_zsh_prompt_end_marker=$'%{\e]133;B\a%}'
__mica_term_wrap_zsh_prompts() {
    if [[ -n "${RPROMPT:-}" ]]; then
        case "$RPROMPT" in
            *$'\e]133;B\a'*) ;;
            *) RPROMPT="${RPROMPT}${__mica_term_zsh_prompt_end_marker}" ;;
        esac
    elif [[ -n "${RPS1:-}" ]]; then
        case "$RPS1" in
            *$'\e]133;B\a'*) ;;
            *) RPS1="${RPS1}${__mica_term_zsh_prompt_end_marker}" ;;
        esac
    else
        case "$PROMPT" in
            *$'\e]133;B\a'*) ;;
            *) PROMPT="${PROMPT}${__mica_term_zsh_prompt_end_marker}" ;;
        esac
    fi
    case "${PROMPT2:-}" in
        ''|*$'\e]133;B\a'*) ;;
        *) PROMPT2="${PROMPT2}${__mica_term_zsh_prompt_end_marker}" ;;
    esac
}
function __mica_term_zsh_precmd() {
    local status="$?"
    if (( __mica_term_zsh_command_running )); then
        __mica_term_emit_command_finished "$status"
        __mica_term_zsh_command_running=0
    fi
    __mica_term_emit_prompt_start
    __mica_term_emit_cwd
}
function __mica_term_zsh_preexec() {
    __mica_term_zsh_command_running=1
    __mica_term_emit_command_start
}
__mica_term_wrap_zsh_prompts
autoload -Uz add-zsh-hook 2>/dev/null || true
if typeset -f add-zsh-hook >/dev/null 2>&1; then
    add-zsh-hook precmd __mica_term_zsh_precmd
    add-zsh-hook preexec __mica_term_zsh_preexec
else
    typeset -ga precmd_functions
    typeset -ga preexec_functions
    [[ "${precmd_functions[(Ie)__mica_term_zsh_precmd]}" -eq 0 ]] && precmd_functions+=(__mica_term_zsh_precmd)
    [[ "${preexec_functions[(Ie)__mica_term_zsh_preexec]}" -eq 0 ]] && preexec_functions+=(__mica_term_zsh_preexec)
fi
fi"#;

pub const FISH_BOOTSTRAP_HEAD: &'static str = r#"set -gx TERM_PROGRAM "#;

pub const FISH_BOOTSTRAP_MID: &'static str = r#"
set -gx "#;

pub const FISH_BOOTSTRAP_BODY: &'static str = r#" 1
function __mica_term_emit_prompt_start
    printf '\033]133;A\007'
end
function __mica_term_emit_prompt_end
    printf '\033]133;B\007'
end
function __mica_term_emit_command_start
    printf '\033]133;C\007'
end
function __mica_term_emit_command_finished
    printf '\033]133;D;%s\007' "$argv[1]"
end
function __mica_term_emit_cwd
    printf '\033]7;file://%s%s\007' (hostname) "$PWD"
end
"#;

pub const FISH_BOOTSTRAP_TAIL: &'static str = r#"
if status --is-interactive
    function __mica_term_fish_has_native_markers
        set -l version (status fish-version)
        set -l parts (string split . -- $version)
        set -l major 0
        set -l minor 0
        if test (count $parts) -ge 1
            set major $parts[1]
        end
        if test (count $parts) -ge 2
            set minor $parts[2]
        end
        if test "$major" -gt 4
            return 0
        end
        if test "$major" -eq 4 -a "$minor" -ge 6
            return 0
        end
        return 1
    end
    if not __mica_term_fish_has_native_markers
        if not functions -q __mica_term_original_fish_prompt
            if functions -q fish_prompt
                functions -c fish_prompt __mica_term_original_fish_prompt
            else
                function __mica_term_original_fish_prompt
                end
            end
            function fish_prompt
                __mica_term_original_fish_prompt
                __mica_term_emit_prompt_end
            end
        end
        function __mica_term_fish_prompt_event --on-event fish_prompt
            __mica_term_emit_prompt_start
            __mica_term_emit_cwd
        end
        function __mica_term_fish_preexec_event --on-event fish_preexec
            set -g __mica_term_fish_command_running 1
            __mica_term_emit_command_start
        end
        function __mica_term_fish_postexec_event --on-event fish_postexec
            if set -q __mica_term_fish_command_running
                __mica_term_emit_command_finished $status
                set -e __mica_term_fish_command_running
            end
        end
    end
end"#;

pub const POSIX_PRIVATE_HELPER_HEAD: &'static str = r#"__mica_term_private_action() { printf '\033]9001;"#;

pub const POSIX_PRIVATE_HELPER_TAIL: &'static str = r#";%s;%s\007' "$1" "$2"; }"#;

pub const FISH_PRIVATE_HELPER_HEAD: &'static str = r#"function __mica_term_private_action
    printf '\033]9001;"#;

pub const FISH_PRIVATE_HELPER_TAIL: &'static str = r#";%s;%s\007' "$argv[1]" "$argv[2]"
end"#;

/// The helper that lets scripts send private actions, empty when they are off.
pub open spec fn private_helper_text(head: &str, tail: &str, options: BootstrapOptions) -> Seq<char> {
    if options.private_actions_enabled {
        head@ + options.private_channel_tag@ + tail@
    } else {
        Seq::empty()
    }
}

/// A bootstrap script: its fixed parts around the terminal program's name,
/// the enhanced-mode flag and the private helper.
pub open spec fn bootstrap_text(
    head: &str,
    mid: &str,
    body: &str,
    tail: &str,
    options: BootstrapOptions,
    helper: Seq<char>,
) -> Seq<char> {
    head@ + options.term_program@ + mid@ + options.enhanced_flag@ + body@ + helper + tail@
}

/// The bootstrap script for `shell`; none for an unsupported shell.
pub open spec fn shell_bootstrap_text(shell: ShellKind, options: BootstrapOptions) -> Seq<char> {
    match shell {
        ShellKind::Bash => bootstrap_text(
            BASH_BOOTSTRAP_HEAD, BASH_BOOTSTRAP_MID, BASH_BOOTSTRAP_BODY, BASH_BOOTSTRAP_TAIL, options,
            private_helper_text(POSIX_PRIVATE_HELPER_HEAD, POSIX_PRIVATE_HELPER_TAIL, options),
        ),
        ShellKind::Zsh => bootstrap_text(
            ZSH_BOOTSTRAP_HEAD, ZSH_BOOTSTRAP_MID, ZSH_BOOTSTRAP_BODY, ZSH_BOOTSTRAP_TAIL, options,
            private_helper_text(POSIX_PRIVATE_HELPER_HEAD, POSIX_PRIVATE_HELPER_TAIL, options),
        ),
        ShellKind::Fish => bootstrap_text(
            FISH_BOOTSTRAP_HEAD, FISH_BOOTSTRAP_MID, FISH_BOOTSTRAP_BODY, FISH_BOOTSTRAP_TAIL, options,
            private_helper_text(FISH_PRIVATE_HELPER_HEAD, FISH_PRIVATE_HELPER_TAIL, options),
        ),
        ShellKind::Unsupported(_) => Seq::empty(),
    }
}

fn private_helper(head: &str, tail: &str, options: &BootstrapOptions) -> (r: String)
    ensures
        r@ == private_helper_text(head, tail, *options),
{
    if !options.private_actions_enabled {
        return String::new();
    }
    let mut r = String::from_str(head);
    r.append(options.private_channel_tag.as_str());
    r.append(tail);
    r
}

fn assemble_bootstrap(head: &str, mid: &str, body: &str, tail: &str, options: &BootstrapOptions, helper: &str) -> (r: String)
    ensures
        r@ == bootstrap_text(head, mid, body, tail, *options, helper@),
{
    let mut r = String::from_str(head);
    r.append(options.term_program.as_str());
    r.append(mid);
    r.append(options.enhanced_flag.as_str());
    r.append(body);
    r.append(helper);
    r.append(tail);
    r
}

pub fn build_posix_private_helper(options: &BootstrapOptions) -> (r: String)
    ensures
        r@ == private_helper_text(POSIX_PRIVATE_HELPER_HEAD, POSIX_PRIVATE_HELPER_TAIL, *options),
{
    private_helper(POSIX_PRIVATE_HELPER_HEAD, POSIX_PRIVATE_HELPER_TAIL, options)
}

pub fn build_fish_private_helper(options: &BootstrapOptions) -> (r: String)
    ensures
        r@ == private_helper_text(FISH_PRIVATE_HELPER_HEAD, FISH_PRIVATE_HELPER_TAIL, *options),
{
    private_helper(FISH_PRIVATE_HELPER_HEAD, FISH_PRIVATE_HELPER_TAIL, options)
}

pub fn build_bash_bootstrap(options: &BootstrapOptions) -> (r: String)
    ensures
        r@ == shell_bootstrap_text(ShellKind::Bash, *options),
{
    let helper = build_posix_private_helper(options);
    assemble_bootstrap(BASH_BOOTSTRAP_HEAD, BASH_BOOTSTRAP_MID, BASH_BOOTSTRAP_BODY, BASH_BOOTSTRAP_TAIL, options, helper.as_str())
}

pub fn build_zsh_bootstrap(options: &BootstrapOptions) -> (r: String)
    ensures
        r@ == shell_bootstrap_text(ShellKind::Zsh, *options),
{
    let helper = build_posix_private_helper(options);
    assemble_bootstrap(ZSH_BOOTSTRAP_HEAD, ZSH_BOOTSTRAP_MID, ZSH_BOOTSTRAP_BODY, ZSH_BOOTSTRAP_TAIL, options, helper.as_str())
}

pub fn build_fish_bootstrap(options: &BootstrapOptions) -> (r: String)
    ensures
        r@ == shell_bootstrap_text(ShellKind::Fish, *options),
{
    let helper = build_fish_private_helper(options);
    assemble_bootstrap(FISH_BOOTSTRAP_HEAD, FISH_BOOTSTRAP_MID, FISH_BOOTSTRAP_BODY, FISH_BOOTSTRAP_TAIL, options, helper.as_str())
}

/// The script that makes `shell` report prompts, commands and its directory.
pub fn build_shell_bootstrap(shell: ShellKind, options: BootstrapOptions) -> (r: String)
    ensures
        r@ == shell_bootstrap_text(shell, options),
{
    match shell {
        ShellKind::Bash => build_bash_bootstrap(&options),
        ShellKind::Zsh => build_zsh_bootstrap(&options),
        ShellKind::Fish => build_fish_bootstrap(&options),
        ShellKind::Unsupported(_) => String::new(),
    }
}

} // verus!
