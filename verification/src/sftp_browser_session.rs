//! File-browser session identities shared by the quick browser and workspace tabs.

use vstd::prelude::*;
use crate::format::{dec_digits, dec_string};
use crate::text::cat;

verus! {

#[derive(Debug, Clone, PartialEq, Eq)]
pub struct HostProfileRef {
    pub asset_id: String,
    pub label: String,
}

impl HostProfileRef {
    /// A reference labelled with its own asset id.
    pub fn new(asset_id: &str) -> (r: Self)
        ensures
            r.asset_id@ == asset_id@,
            r.label@ == asset_id@,
    {
        HostProfileRef { label: String::from_str(asset_id), asset_id: String::from_str(asset_id) }
    }

    pub fn with_label(asset_id: &str, label: &str) -> (r: Self)
        ensures
            r.asset_id@ == asset_id@,
            r.label@ == label@,
    {
        HostProfileRef { asset_id: String::from_str(asset_id), label: String::from_str(label) }
    }
}

#[derive(Debug, Clone, PartialEq, Eq)]
pub struct FileBrowserSession {
    pub file_browser_session_id: String,
    pub host_profile_ref: HostProfileRef,
    pub current_path: String,
    pub linked_terminal_session_id: Option<String>,
    pub selected_entry_ids: Vec<String>,
}

/// The identifier of the `sequence`-th browser session of the process.
pub open spec fn browser_session_id_text(sequence: u64) -> Seq<char> {
    "browser-session-"@ + dec_digits(sequence as nat)
}

pub fn file_browser_session_id(sequence: u64) -> (r: String)
    ensures
        r@ == browser_session_id_text(sequence),
{
    let n = dec_string(sequence);
    cat("browser-session-", n.as_str())
}

impl FileBrowserSession {
    /// A new quick-browser session; `sequence` is the next value of the
    /// process-wide browser-session counter.
    pub fn quick_browser(host_profile_ref: HostProfileRef, current_path: &str, sequence: u64) -> (r: Self)
        ensures
            r.file_browser_session_id@ == browser_session_id_text(sequence),
            r.host_profile_ref == host_profile_ref,
            r.current_path@ == current_path@,
            r.linked_terminal_session_id.is_none(),
            r.selected_entry_ids@.len() == 0,
    {
        FileBrowserSession {
            file_browser_session_id: file_browser_session_id(sequence),
            host_profile_ref,
            current_path: String::from_str(current_path),
            linked_terminal_session_id: None,
            selected_entry_ids: Vec::new(),
        }
    }

    /// A copy for a workspace tab: new identity, same host and path, no selection.
    pub fn clone_for_workspace(&self, sequence: u64) -> (r: Self)
        ensures
            r.file_browser_session_id@ == browser_session_id_text(sequence),
            r.host_profile_ref.asset_id@ == self.host_profile_ref.asset_id@,
            r.host_profile_ref.label@ == self.host_profile_ref.label@,
            r.current_path@ == self.current_path@,
            r.linked_terminal_session_id == self.linked_terminal_session_id,
            r.selected_entry_ids@.len() == 0,
    {
        FileBrowserSession {
            file_browser_session_id: file_browser_session_id(sequence),
            host_profile_ref: HostProfileRef {
                asset_id: self.host_profile_ref.asset_id.clone(),
                label: self.host_profile_ref.label.clone(),
            },
            current_path: self.current_path.clone(),
            linked_terminal_session_id: self.linked_terminal_session_id.clone(),
            selected_entry_ids: Vec::new(),
        }
    }
}

/// Different numbers have different decimal texts.
pub proof fn lemma_dec_digits_injective(a: nat, b: nat)
    requires
        dec_digits(a) == dec_digits(b),
    ensures
        a == b,
    decreases a,
{
    lemma_dec_digits_nonempty(a);
    lemma_dec_digits_nonempty(b);
    if a < 10 && b < 10 {
        assert(dec_digits(a) == seq![(48 + a) as char]);
        assert(dec_digits(b) == seq![(48 + b) as char]);
        assert(dec_digits(a)[0] == (48 + a) as char);
        assert(dec_digits(b)[0] == (48 + b) as char);
        assert(((48 + a) as char) as int == 48 + a);
        assert(((48 + b) as char) as int == 48 + b);
        assert(a == b);
    } else if a < 10 {
        lemma_dec_digits_nonempty(b / 10);
        assert(dec_digits(b).len() >= 2);
    } else if b < 10 {
        lemma_dec_digits_nonempty(a / 10);
        assert(dec_digits(a).len() >= 2);
    } else {
        let da = dec_digits(a);
        let db = dec_digits(b);
        assert(da.last() == db.last());
        assert(((48 + a % 10) as char) as int == 48 + a % 10);
        assert(((48 + b % 10) as char) as int == 48 + b % 10);
        assert(da.drop_last() =~= dec_digits(a / 10));
        assert(db.drop_last() =~= dec_digits(b / 10));
        assert(a % 10 == b % 10);
        lemma_dec_digits_injective(a / 10, b / 10);
        vstd::arithmetic::div_mod::lemma_fundamental_div_mod(a as int, 10);
        vstd::arithmetic::div_mod::lemma_fundamental_div_mod(b as int, 10);
    }
}

proof fn lemma_dec_digits_nonempty(n: nat)
    ensures
        dec_digits(n).len() >= 1,
    decreases n,
{
    if n >= 10 {
        lemma_dec_digits_nonempty(n / 10);
    }
}

/// The process-wide counter of browser sessions: each session gets the next
/// number, so no two sessions of the process share an identifier.
pub struct BrowserSessionIds {
    next: u64,
}

impl BrowserSessionIds {
    /// The number the next session gets.
    pub closed spec fn next_spec(&self) -> u64 {
        self.next
    }

    /// Numbering starts at 1.
    pub fn new() -> (r: Self)
        ensures
            r.next_spec() == 1,
    {
        BrowserSessionIds { next: 1 }
    }

    /// The number the next session gets.
    pub fn peek(&self) -> (r: u64)
        ensures
            r == self.next_spec(),
    {
        self.next
    }

    /// Hands out the next number.
    pub fn next(&mut self) -> (r: u64)
        requires
            old(self).next_spec() < u64::MAX,
        ensures
            r == old(self).next_spec(),
            final(self).next_spec() == old(self).next_spec() + 1,
    {
        let r = self.next;
        self.next = self.next + 1;
        r
    }
}

/// Two sessions numbered differently have different identifiers; numbers
/// handed out one after another by `BrowserSessionIds::next` differ.
pub proof fn lemma_browser_session_ids_differ(a: u64, b: u64)
    requires
        a != b,
    ensures
        browser_session_id_text(a) != browser_session_id_text(b),
{
    if browser_session_id_text(a) == browser_session_id_text(b) {
        let p = "browser-session-"@;
        assert(browser_session_id_text(a).skip(p.len() as int) =~= dec_digits(a as nat));
        assert(browser_session_id_text(b).skip(p.len() as int) =~= dec_digits(b as nat));
        lemma_dec_digits_injective(a as nat, b as nat);
    }
}

impl FileBrowserSession {
    /// A new quick-browser session with the next number from `ids`.
    pub fn new_quick_browser(host_profile_ref: HostProfileRef, current_path: &str, ids: &mut BrowserSessionIds) -> (r: Self)
        requires
            old(ids).next_spec() < u64::MAX,
        ensures
            r.file_browser_session_id@ == browser_session_id_text(old(ids).next_spec()),
            forall|k: u64| k < old(ids).next_spec() ==> r.file_browser_session_id@ != #[trigger] browser_session_id_text(k),
            final(ids).next_spec() == old(ids).next_spec() + 1,
            r.host_profile_ref == host_profile_ref,
            r.current_path@ == current_path@,
            r.linked_terminal_session_id.is_none(),
            r.selected_entry_ids@.len() == 0,
    {
        let sequence = ids.next();
        proof {
            assert forall|k: u64| k < sequence implies browser_session_id_text(sequence) != #[trigger] browser_session_id_text(k) by {
                lemma_browser_session_ids_differ(sequence, k);
            }
        }
        FileBrowserSession::quick_browser(host_profile_ref, current_path, sequence)
    }

    /// A copy for a workspace tab with the next number from `ids`: a new
    /// identity, unlike any numbered below the counter (every one it handed
    /// out before), same host and path, no selection.
    pub fn clone_for_workspace_with(&self, ids: &mut BrowserSessionIds) -> (r: Self)
        requires
            old(ids).next_spec() < u64::MAX,
        ensures
            r.file_browser_session_id@ == browser_session_id_text(old(ids).next_spec()),
            forall|k: u64| k < old(ids).next_spec() ==> r.file_browser_session_id@ != #[trigger] browser_session_id_text(k),
            final(ids).next_spec() == old(ids).next_spec() + 1,
            r.host_profile_ref.asset_id@ == self.host_profile_ref.asset_id@,
            r.host_profile_ref.label@ == self.host_profile_ref.label@,
            r.current_path@ == self.current_path@,
            r.linked_terminal_session_id == self.linked_terminal_session_id,
            r.selected_entry_ids@.len() == 0,
    {
        let sequence = ids.next();
        proof {
            assert forall|k: u64| k < sequence implies browser_session_id_text(sequence) != #[trigger] browser_session_id_text(k) by {
                lemma_browser_session_ids_differ(sequence, k);
            }
        }
        self.clone_for_workspace(sequence)
    }
}

} // verus!
