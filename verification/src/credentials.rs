//! Saved SSH secrets: where they are stored, which of them a connection
//! dialog keeps, and the decisions around loading and restoring them. The
//! stores themselves (files, the system keyring) and the JSON encoding of a
//! bundle stay with the caller; the functions here decide what to store,
//! delete or report.

use vstd::prelude::*;
use crate::ssh_assets::AssetSshConnectionDraft;
use crate::text::{cat, cat3, same_text, trim, trim_str};

verus! {

pub const CREDENTIAL_SERVICE_NAME: &'static str = "mica-term";

#[derive(Debug, Clone, Copy, PartialEq, Eq, Structural)]
pub enum SshCredentialKind {
    SavedSecrets,
}

pub open spec fn credential_ref_text(asset_id: Seq<char>, kind: SshCredentialKind) -> Seq<char> {
    match kind {
        SshCredentialKind::SavedSecrets => "ssh/saved-secrets/"@ + asset_id,
    }
}

/// The key under which the secrets of a saved asset are stored.
pub fn ssh_credential_ref(asset_id: &str, kind: SshCredentialKind) -> (r: String)
    ensures
        r@ == credential_ref_text(asset_id@, kind),
{
    match kind {
        SshCredentialKind::SavedSecrets => cat("ssh/saved-secrets/", asset_id),
    }
}

/// The secrets saved for one SSH asset.
#[derive(Debug, Clone, PartialEq, Eq, Default)]
pub struct StoredSshSecretBundle {
    pub password: Option<String>,
    pub private_key_content: Option<String>,
    pub passphrase: Option<String>,
    pub proxy_socks5_password: Option<String>,
}

/// A secret that is absent or blank.
pub open spec fn blank_secret(s: Option<String>) -> bool {
    match s {
        Some(v) => trim(v@).len() == 0,
        None => true,
    }
}

impl StoredSshSecretBundle {
    pub open spec fn is_empty_spec(&self) -> bool {
        blank_secret(self.password) && blank_secret(self.private_key_content) && blank_secret(self.passphrase)
            && blank_secret(self.proxy_socks5_password)
    }

    pub fn empty() -> (r: Self)
        ensures
            r.password is None,
            r.private_key_content is None,
            r.passphrase is None,
            r.proxy_socks5_password is None,
    {
        StoredSshSecretBundle { password: None, private_key_content: None, passphrase: None, proxy_socks5_password: None }
    }

    /// No secret in the bundle holds more than whitespace.
    pub fn is_empty(&self) -> (r: bool)
        ensures
            r == self.is_empty_spec(),
    {
        is_blank_secret(&self.password) && is_blank_secret(&self.private_key_content)
            && is_blank_secret(&self.passphrase) && is_blank_secret(&self.proxy_socks5_password)
    }
}

fn is_blank_secret(s: &Option<String>) -> (r: bool)
    ensures
        r == blank_secret(*s),
{
    match s {
        Some(v) => trim_str(v.as_str()).as_str().unicode_len() == 0,
        None => true,
    }
}

/// `value`, unless it is blank.
pub open spec fn non_blank(value: Seq<char>) -> Option<Seq<char>> {
    if trim(value).len() == 0 { None } else { Some(value) }
}

pub open spec fn opt_text(o: Option<String>) -> Option<Seq<char>> {
    match o {
        Some(s) => Some(s@),
        None => None,
    }
}

pub fn non_empty_secret(value: &str) -> (r: Option<String>)
    ensures
        opt_text(r) == non_blank(value@),
{
    if trim_str(value).as_str().unicode_len() == 0 {
        None
    } else {
        Some(String::from_str(value))
    }
}

#[derive(Debug, Clone, PartialEq, Eq)]
pub enum StoredSecretLookupError {
    MissingCredentialRef,
    MissingEntry { credential_ref: String },
    ReadFailed { credential_ref: String, message: String },
    EmptyBundleField { credential_ref: String, field: String },
}

impl StoredSecretLookupError {
    pub open spec fn message_spec(&self) -> Seq<char> {
        match self {
            StoredSecretLookupError::MissingCredentialRef => "missing SSH credential reference"@,
            StoredSecretLookupError::MissingEntry { credential_ref } =>
                "missing saved SSH secret entry `"@ + credential_ref@ + "`"@,
            StoredSecretLookupError::ReadFailed { credential_ref, message } =>
                "failed to read saved SSH secret entry `"@ + credential_ref@ + "`: "@ + message@,
            StoredSecretLookupError::EmptyBundleField { credential_ref, field } =>
                "saved SSH secret entry `"@ + credential_ref@ + "` is missing field `"@ + field@ + "`"@,
        }
    }

    /// The text shown for the error.
    pub fn message(&self) -> (r: String)
        ensures
            r@ == self.message_spec(),
    {
        match self {
            StoredSecretLookupError::MissingCredentialRef => String::from_str("missing SSH credential reference"),
            StoredSecretLookupError::MissingEntry { credential_ref } =>
                cat3("missing saved SSH secret entry `", credential_ref.as_str(), "`"),
            StoredSecretLookupError::ReadFailed { credential_ref, message } => {
                let head = cat3("failed to read saved SSH secret entry `", credential_ref.as_str(), "`: ");
                cat(head.as_str(), message.as_str())
            },
            StoredSecretLookupError::EmptyBundleField { credential_ref, field } => {
                let head = cat3("saved SSH secret entry `", credential_ref.as_str(), "` is missing field `");
                cat3(head.as_str(), field.as_str(), "`")
            },
        }
    }
}

/// The bundle field called `field`, if there is one by that name.
pub open spec fn bundle_field(bundle: StoredSshSecretBundle, field: Seq<char>) -> Option<String> {
    if field == "password"@ {
        bundle.password
    } else if field == "private_key_content"@ {
        bundle.private_key_content
    } else if field == "passphrase"@ {
        bundle.passphrase
    } else if field == "proxy_socks5_password"@ {
        bundle.proxy_socks5_password
    } else {
        None
    }
}

/// The value of a bundle field that the connection needs.
pub fn required_secret_bundle_field(bundle: &StoredSshSecretBundle, credential_ref: &str, field: &str)
    -> (r: Result<String, StoredSecretLookupError>)
    ensures
        match bundle_field(*bundle, field@) {
            Some(v) if trim(v@).len() > 0 => r matches Ok(s) && s@ == v@,
            _ => r matches Err(StoredSecretLookupError::EmptyBundleField { credential_ref: c, field: f })
                && c@ == credential_ref@ && f@ == field@,
        },
{
    let value = if same_text(field, "password") {
        &bundle.password
    } else if same_text(field, "private_key_content") {
        &bundle.private_key_content
    } else if same_text(field, "passphrase") {
        &bundle.passphrase
    } else if same_text(field, "proxy_socks5_password") {
        &bundle.proxy_socks5_password
    } else {
        return Err(StoredSecretLookupError::EmptyBundleField {
            credential_ref: String::from_str(credential_ref),
            field: String::from_str(field),
        });
    };
    match value {
        Some(v) => {
            if trim_str(v.as_str()).as_str().unicode_len() > 0 {
                return Ok(v.clone());
            }
        },
        None => {},
    }
    Err(StoredSecretLookupError::EmptyBundleField {
        credential_ref: String::from_str(credential_ref),
        field: String::from_str(field),
    })
}

/// The secrets that an edited connection dialog keeps: only those of its
/// authentication method and, for a SOCKS5 proxy, the proxy password; blank
/// ones are dropped.
pub open spec fn edited_bundle(draft: AssetSshConnectionDraft) -> (Option<Seq<char>>, Option<Seq<char>>, Option<Seq<char>>, Option<Seq<char>>) {
    let proxy = if draft.proxy_type@ == "socks5"@ { non_blank(draft.proxy_socks5_password@) } else { None };
    if draft.auth_method@ == "password"@ {
        (non_blank(draft.password@), None, None, proxy)
    } else if draft.auth_method@ == "private-key"@ && draft.private_key_source@ == "content"@ {
        (None, non_blank(draft.private_key_content@), non_blank(draft.passphrase@), proxy)
    } else if draft.auth_method@ == "private-key"@ && draft.private_key_source@ == "path"@ {
        (None, None, non_blank(draft.passphrase@), proxy)
    } else {
        (None, None, None, proxy)
    }
}

pub open spec fn bundle_texts(b: StoredSshSecretBundle) -> (Option<Seq<char>>, Option<Seq<char>>, Option<Seq<char>>, Option<Seq<char>>) {
    (opt_text(b.password), opt_text(b.private_key_content), opt_text(b.passphrase), opt_text(b.proxy_socks5_password))
}

/// A secret entered for the chosen method is kept exactly when it is not
/// blank, and a secret that the chosen method does not use is never kept:
/// a password only for "password", key content only for "private-key" from
/// "content", a passphrase for "private-key" from either source, a proxy
/// password only for a "socks5" proxy.
pub proof fn lemma_edit_bundle_keeps_entered_secrets(draft: AssetSshConnectionDraft)
    ensures
        ({
            let (password, key, passphrase, proxy) = edited_bundle(draft);
            let method = draft.auth_method@;
            let source = draft.private_key_source@;
            let key_method = method == "private-key"@ && (source == "content"@ || source == "path"@);
            &&& method == "password"@ && trim(draft.password@).len() > 0 ==> password == Some(draft.password@)
            &&& method != "password"@ || trim(draft.password@).len() == 0 ==> password is None
            &&& method == "private-key"@ && source == "content"@ && trim(draft.private_key_content@).len() > 0
                ==> key == Some(draft.private_key_content@)
            &&& !(method == "private-key"@ && source == "content"@) || trim(draft.private_key_content@).len() == 0
                ==> key is None
            &&& key_method && trim(draft.passphrase@).len() > 0 ==> passphrase == Some(draft.passphrase@)
            &&& !key_method || trim(draft.passphrase@).len() == 0 ==> passphrase is None
            &&& draft.proxy_type@ == "socks5"@ && trim(draft.proxy_socks5_password@).len() > 0
                ==> proxy == Some(draft.proxy_socks5_password@)
            &&& draft.proxy_type@ != "socks5"@ || trim(draft.proxy_socks5_password@).len() == 0 ==> proxy is None
        }),
{
    reveal_strlit("password");
    reveal_strlit("private-key");
    reveal_strlit("content");
    reveal_strlit("path");
    assert("content"@ != "path"@) by {
        assert("content"@.len() != "path"@.len());
    }
    assert("password"@ != "private-key"@) by {
        assert("password"@.len() != "private-key"@.len());
    }
}

/// The bundle to save for an edited connection; what was saved before is replaced.
pub fn merge_edit_bundle(existing: StoredSshSecretBundle, draft: &AssetSshConnectionDraft) -> (r: StoredSshSecretBundle)
    ensures
        bundle_texts(r) == edited_bundle(*draft),
        draft.auth_method@ == "private-key"@ && (draft.private_key_source@ == "content"@ || draft.private_key_source@ == "path"@)
            && trim(draft.passphrase@).len() > 0 ==> (r.passphrase matches Some(p) && p@ == draft.passphrase@),
        draft.auth_method@ == "password"@ && trim(draft.password@).len() > 0
            ==> (r.password matches Some(p) && p@ == draft.password@),
        draft.auth_method@ == "private-key"@ && draft.private_key_source@ == "content"@
            && trim(draft.private_key_content@).len() > 0
            ==> (r.private_key_content matches Some(k) && k@ == draft.private_key_content@),
        draft.proxy_type@ == "socks5"@ && trim(draft.proxy_socks5_password@).len() > 0
            ==> (r.proxy_socks5_password matches Some(p) && p@ == draft.proxy_socks5_password@),
        draft.auth_method@ != "password"@ ==> r.password is None,
        draft.auth_method@ == "password"@ ==> r.private_key_content is None && r.passphrase is None,
        draft.private_key_source@ != "content"@ ==> r.private_key_content is None,
        draft.proxy_type@ != "socks5"@ ==> r.proxy_socks5_password is None,
{
    proof {
        lemma_edit_bundle_keeps_entered_secrets(*draft);
    }
    let mut bundle = if same_text(draft.auth_method.as_str(), "password") {
        StoredSshSecretBundle {
            password: non_empty_secret(draft.password.as_str()),
            private_key_content: None,
            passphrase: None,
            proxy_socks5_password: None,
        }
    } else if same_text(draft.auth_method.as_str(), "private-key") && same_text(draft.private_key_source.as_str(), "content") {
        StoredSshSecretBundle {
            password: None,
            private_key_content: non_empty_secret(draft.private_key_content.as_str()),
            passphrase: non_empty_secret(draft.passphrase.as_str()),
            proxy_socks5_password: None,
        }
    } else if same_text(draft.auth_method.as_str(), "private-key") && same_text(draft.private_key_source.as_str(), "path") {
        StoredSshSecretBundle {
            password: None,
            private_key_content: None,
            passphrase: non_empty_secret(draft.passphrase.as_str()),
            proxy_socks5_password: None,
        }
    } else {
        StoredSshSecretBundle::empty()
    };
    bundle.proxy_socks5_password = if same_text(draft.proxy_type.as_str(), "socks5") {
        non_empty_secret(draft.proxy_socks5_password.as_str())
    } else {
        None
    };
    bundle
}

// ---------------------------------------------------------------------------
// Loading and restoring
// ---------------------------------------------------------------------------

/// The bundle stored as `raw`: its decoding when `raw` was a bundle
/// (`decoded`), else `raw` taken as a bare password, as older versions stored it.
pub fn bundle_from_stored_text(raw: String, decoded: Option<StoredSshSecretBundle>) -> (r: StoredSshSecretBundle)
    ensures
        match decoded {
            Some(b) => r == b,
            None => opt_text(r.password) == Some(raw@) && r.private_key_content is None && r.passphrase is None
                && r.proxy_socks5_password is None,
        },
{
    match decoded {
        Some(b) => b,
        None => StoredSshSecretBundle { password: Some(raw), private_key_content: None, passphrase: None, proxy_socks5_password: None },
    }
}

fn copy_secret(s: &Option<String>) -> (r: Option<String>)
    ensures
        r == *s,
{
    match s {
        Some(v) => Some(v.clone()),
        None => None,
    }
}

/// A copy of `b`.
pub fn copy_bundle(b: &StoredSshSecretBundle) -> (r: StoredSshSecretBundle)
    ensures
        r == *b,
{
    StoredSshSecretBundle {
        password: copy_secret(&b.password),
        private_key_content: copy_secret(&b.private_key_content),
        passphrase: copy_secret(&b.passphrase),
        proxy_socks5_password: copy_secret(&b.proxy_socks5_password),
    }
}

/// What a snapshot keeps of the loaded bundle: nothing without a reference
/// or when every secret is blank.
pub fn snapshot_of_loaded_bundle(credential_ref: Option<&str>, loaded: StoredSshSecretBundle)
    -> (r: Option<StoredSshSecretBundle>)
    ensures
        r == snapshot_spec(match credential_ref { Some(c) => Some(c@), None => None }, loaded),
{
    match credential_ref {
        None => None,
        Some(_) => if loaded.is_empty() { None } else { Some(loaded) },
    }
}

/// What restoring a snapshot does to the store.
#[derive(Debug, Clone, PartialEq, Eq)]
pub enum SecretStoreAction {
    Nothing,
    Persist { credential_ref: String, bundle: StoredSshSecretBundle },
    Delete { credential_ref: String },
}

/// `a` is what restoring `bundle` for `credential_ref` does: a non-empty
/// bundle is put back, otherwise the entry is removed; without a reference
/// there is nothing to do.
pub open spec fn restore_action_fits(credential_ref: Option<Seq<char>>, bundle: Option<StoredSshSecretBundle>, a: SecretStoreAction) -> bool {
    match credential_ref {
        None => a is Nothing,
        Some(c) => match bundle {
            Some(b) if !b.is_empty_spec() => a matches SecretStoreAction::Persist { credential_ref: k, bundle: x }
                && k@ == c && x == b,
            _ => a matches SecretStoreAction::Delete { credential_ref: k } && k@ == c,
        },
    }
}

/// Restoring puts back a non-empty bundle and otherwise removes the entry;
/// without a reference there is nothing to do.
pub fn restore_snapshot_action(credential_ref: Option<&str>, bundle: Option<&StoredSshSecretBundle>)
    -> (r: SecretStoreAction)
    ensures
        restore_action_fits(
            match credential_ref { Some(c) => Some(c@), None => None },
            match bundle { Some(b) => Some(*b), None => None },
            r,
        ),
{
    match credential_ref {
        None => SecretStoreAction::Nothing,
        Some(c) => match bundle {
            Some(b) => if !b.is_empty() {
                SecretStoreAction::Persist { credential_ref: String::from_str(c), bundle: copy_bundle(b) }
            } else {
                SecretStoreAction::Delete { credential_ref: String::from_str(c) }
            },
            None => SecretStoreAction::Delete { credential_ref: String::from_str(c) },
        },
    }
}

/// Persisting a bundle writes it, unless it is empty, in which case the entry is removed.
pub fn persist_action(credential_ref: &str, bundle: &StoredSshSecretBundle) -> (r: SecretStoreAction)
    ensures
        if bundle.is_empty_spec() {
            r matches SecretStoreAction::Delete { credential_ref: k } && k@ == credential_ref@
        } else {
            r matches SecretStoreAction::Persist { credential_ref: k, bundle: x } && k@ == credential_ref@ && x == *bundle
        },
{
    if bundle.is_empty() {
        SecretStoreAction::Delete { credential_ref: String::from_str(credential_ref) }
    } else {
        SecretStoreAction::Persist { credential_ref: String::from_str(credential_ref), bundle: copy_bundle(bundle) }
    }
}

/// The outcome of loading the secrets of `credential_ref` for a connection:
/// `read` is what the store returned (or why it failed), `decoded` the
/// bundle that the stored text decodes to, if it does.
pub fn lookup_outcome(
    credential_ref: Option<&str>,
    read: Result<Option<String>, String>,
    decoded: Option<StoredSshSecretBundle>,
) -> (r: Result<StoredSshSecretBundle, StoredSecretLookupError>)
    ensures
        match credential_ref {
            None => r == Err::<StoredSshSecretBundle, StoredSecretLookupError>(StoredSecretLookupError::MissingCredentialRef),
            Some(c) => match read {
                Err(m) => r matches Err(StoredSecretLookupError::ReadFailed { credential_ref: k, message: x })
                    && k@ == c@ && x@ == m@,
                Ok(None) => r matches Err(StoredSecretLookupError::MissingEntry { credential_ref: k }) && k@ == c@,
                Ok(Some(raw)) => match decoded {
                    Some(b) => r == Ok::<StoredSshSecretBundle, StoredSecretLookupError>(b),
                    None => r matches Ok(b) && opt_text(b.password) == Some(raw@) && b.private_key_content is None
                        && b.passphrase is None && b.proxy_socks5_password is None,
                },
            },
        },
{
    let c = match credential_ref {
        None => return Err(StoredSecretLookupError::MissingCredentialRef),
        Some(c) => c,
    };
    match read {
        Err(message) => Err(StoredSecretLookupError::ReadFailed { credential_ref: String::from_str(c), message }),
        Ok(None) => Err(StoredSecretLookupError::MissingEntry { credential_ref: String::from_str(c) }),
        Ok(Some(raw)) => Ok(bundle_from_stored_text(raw, decoded)),
    }
}

// ---------------------------------------------------------------------------
// Snapshots through a store
// ---------------------------------------------------------------------------

/// A credential store seen as the bundle kept under each reference.
pub open spec fn store_after(store: Map<Seq<char>, StoredSshSecretBundle>, a: SecretStoreAction) -> Map<Seq<char>, StoredSshSecretBundle> {
    match a {
        SecretStoreAction::Nothing => store,
        SecretStoreAction::Persist { credential_ref, bundle } => store.insert(credential_ref@, bundle),
        SecretStoreAction::Delete { credential_ref } => store.remove(credential_ref@),
    }
}

pub open spec fn empty_bundle() -> StoredSshSecretBundle {
    StoredSshSecretBundle { password: None, private_key_content: None, passphrase: None, proxy_socks5_password: None }
}

/// What loading `credential_ref` from `store` gives: the bundle kept there,
/// or the empty bundle.
pub open spec fn loaded_from(store: Map<Seq<char>, StoredSshSecretBundle>, credential_ref: Seq<char>) -> StoredSshSecretBundle {
    if store.dom().contains(credential_ref) { store[credential_ref] } else { empty_bundle() }
}

/// The snapshot `snapshot_of_loaded_bundle` takes of a loaded bundle.
pub open spec fn snapshot_spec(credential_ref: Option<Seq<char>>, loaded: StoredSshSecretBundle) -> Option<StoredSshSecretBundle> {
    if credential_ref is Some && !loaded.is_empty_spec() { Some(loaded) } else { None }
}

/// A snapshot taken of a reference's secrets (`snapshot_of_loaded_bundle` of
/// what the store gives), restored with `restore_snapshot_action` after the
/// store was changed in any way, gives back what was loaded (the empty bundle when the
/// snapshot is empty), and a new snapshot is the same as the first.
pub proof fn lemma_snapshot_restore_round_trip(
    store: Map<Seq<char>, StoredSshSecretBundle>,
    changed: Map<Seq<char>, StoredSshSecretBundle>,
    credential_ref: Seq<char>,
    action: SecretStoreAction,
)
    requires
        restore_action_fits(Some(credential_ref), snapshot_spec(Some(credential_ref), loaded_from(store, credential_ref)), action),
    ensures
        ({
            let snap = snapshot_spec(Some(credential_ref), loaded_from(store, credential_ref));
            let after = store_after(changed, action);
            &&& loaded_from(after, credential_ref) == (match snap { Some(b) => b, None => empty_bundle() })
            &&& snapshot_spec(Some(credential_ref), loaded_from(after, credential_ref)) == snap
        }),
{
    let snap = snapshot_spec(Some(credential_ref), loaded_from(store, credential_ref));
    let after = store_after(changed, action);
    match snap {
        Some(b) => {
            assert(after.dom().contains(credential_ref));
        },
        None => {
            assert(!after.dom().contains(credential_ref));
            assert(empty_bundle().is_empty_spec());
        },
    }
}

// ---------------------------------------------------------------------------
// A store in front of another
// ---------------------------------------------------------------------------

/// The secret a primary store's answer settles, or nothing when the other
/// store is to be asked: only a secret found settles a read; an absent one
/// or a failure does not.
pub fn primary_read_settles(primary: Result<Option<String>, String>) -> (r: Option<String>)
    ensures
        r == (match primary {
            Ok(Some(secret)) => Some(secret),
            _ => None,
        }),
{
    match primary {
        Ok(Some(secret)) => Some(secret),
        _ => None,
    }
}

/// What is said when the primary store could not keep `key` and the other
/// store was used.
pub fn primary_write_failure_context(key: &str, primary_error: &str) -> (r: String)
    ensures
        r@ == "primary credential store failed for key `"@ + key@ + "`: "@ + primary_error@,
{
    let mut r = cat3("primary credential store failed for key `", key, "`: ");
    r.append(primary_error);
    r
}

/// A delete from both stores fails only when both fail; then this is said
/// of the primary store's failure.
pub fn primary_delete_failure_context(key: &str, primary_error: &str) -> (r: String)
    ensures
        r@ == "primary credential store failed to delete key `"@ + key@ + "`: "@ + primary_error@,
{
    let mut r = cat3("primary credential store failed to delete key `", key, "`: ");
    r.append(primary_error);
    r
}

} // verus!
