//! The secrets an SSH login uses: which saved secrets must be read for a
//! profile, what a failed lookup is reported as, and the password or key
//! that is finally presented. Reading the store and talking to the server
//! stay with the caller.

use vstd::prelude::*;
use crate::credentials::{
    blank_secret, bundle_field, lookup_outcome, opt_text, required_secret_bundle_field,
    StoredSecretLookupError, StoredSshSecretBundle,
};
use crate::ssh_profile::{ConnectionProfile, SshAuthMethod};
use crate::text::{cat, cat3, trim_str};

verus! {

/// What a failed lookup of the secret called `label` for the profile named
/// `name` is reported as.
pub open spec fn lookup_message_spec(name: Seq<char>, label: Seq<char>, error: StoredSecretLookupError) -> Seq<char> {
    match error {
        StoredSecretLookupError::MissingCredentialRef => missing_binding_message(name, label),
        StoredSecretLookupError::MissingEntry { credential_ref } =>
            "missing saved entry `"@ + credential_ref@ + "` for "@ + label + " on `"@ + name + "`"@,
        StoredSecretLookupError::ReadFailed { credential_ref, message } =>
            "failed to read saved entry `"@ + credential_ref@ + "` for "@ + label + " on `"@ + name + "`: "@ + message@,
        StoredSecretLookupError::EmptyBundleField { credential_ref, field } =>
            empty_field_message(name, label, credential_ref@, field@),
    }
}

pub open spec fn empty_field_message(name: Seq<char>, label: Seq<char>, credential_ref: Seq<char>, field: Seq<char>) -> Seq<char> {
    "saved entry `"@ + credential_ref + "` for `"@ + name + "` is missing field `"@ + field + "` required by "@ + label
}

pub open spec fn missing_binding_message(name: Seq<char>, label: Seq<char>) -> Seq<char> {
    "missing credential binding for "@ + label + " on `"@ + name + "`"@
}

pub fn stored_secret_lookup_message(profile: &ConnectionProfile, secret_label: &str, error: &StoredSecretLookupError)
    -> (r: String)
    ensures
        r@ == lookup_message_spec(profile.name@, secret_label@, *error),
{
    let name = profile.name.as_str();
    match error {
        StoredSecretLookupError::MissingCredentialRef => {
            let head = cat3("missing credential binding for ", secret_label, " on `");
            cat3(head.as_str(), name, "`")
        },
        StoredSecretLookupError::MissingEntry { credential_ref } => {
            let a = cat3("missing saved entry `", credential_ref.as_str(), "` for ");
            let b = cat3(a.as_str(), secret_label, " on `");
            cat3(b.as_str(), name, "`")
        },
        StoredSecretLookupError::ReadFailed { credential_ref, message } => {
            let a = cat3("failed to read saved entry `", credential_ref.as_str(), "` for ");
            let b = cat3(a.as_str(), secret_label, " on `");
            let c = cat3(b.as_str(), name, "`: ");
            cat(c.as_str(), message.as_str())
        },
        StoredSecretLookupError::EmptyBundleField { credential_ref, field } => {
            let a = cat3("saved entry `", credential_ref.as_str(), "` for `");
            let b = cat3(a.as_str(), name, "` is missing field `");
            let c = cat3(b.as_str(), field.as_str(), "` required by ");
            cat(c.as_str(), secret_label)
        },
    }
}

/// A saved bundle as a login of `method` reads it: an inline-key login whose
/// bundle holds no key content takes the saved password as the key (the
/// form older versions saved it in), with the passphrase and nothing else.
pub open spec fn bundle_for_method(method: SshAuthMethod, b: StoredSshSecretBundle) -> StoredSshSecretBundle {
    if method == SshAuthMethod::PrivateKeyContent && blank_secret(b.private_key_content) {
        StoredSshSecretBundle {
            password: None,
            private_key_content: b.password,
            passphrase: b.passphrase,
            proxy_socks5_password: None,
        }
    } else {
        b
    }
}

fn is_blank(s: &Option<String>) -> (r: bool)
    ensures
        r == blank_secret(*s),
{
    match s {
        Some(v) => trim_str(v.as_str()).as_str().unicode_len() == 0,
        None => true,
    }
}

/// The saved secrets of `profile` once the store answered: nothing when the
/// profile has no reference to them, else the bundle that `lookup_outcome`
/// makes of the answer, as the login method reads it.
pub fn stored_bundle_for_profile(
    profile: &ConnectionProfile,
    read: Result<Option<String>, String>,
    decoded: Option<StoredSshSecretBundle>,
) -> (r: Result<Option<(String, StoredSshSecretBundle)>, StoredSecretLookupError>)
    ensures
        match profile.credential_ref {
            None => r matches Ok(None),
            Some(c) => match r {
                Ok(Some((k, b))) => k@ == c@ && exists|x: StoredSshSecretBundle|
                    #![trigger bundle_for_method(profile.auth_method, x)]
                    b == bundle_for_method(profile.auth_method, x) && lookup_outcome_ok(c@, read, decoded, x),
                Ok(None) => false,
                Err(e) => lookup_outcome_err(c@, read, e),
            },
        },
{
    let credential_ref = match &profile.credential_ref {
        None => return Ok(None),
        Some(c) => c,
    };
    match lookup_outcome(Some(credential_ref.as_str()), read, decoded) {
        Err(e) => Err(e),
        Ok(bundle) => {
            let ghost x = bundle;
            let adapted = if profile.auth_method == SshAuthMethod::PrivateKeyContent && is_blank(&bundle.private_key_content) {
                StoredSshSecretBundle {
                    password: None,
                    private_key_content: bundle.password,
                    passphrase: bundle.passphrase,
                    proxy_socks5_password: None,
                }
            } else {
                bundle
            };
            assert(adapted == bundle_for_method(profile.auth_method, x));
            Ok(Some((credential_ref.clone(), adapted)))
        },
    }
}

/// The store answered `read` (and `decoded`) for `c` with the bundle `x`.
pub open spec fn lookup_outcome_ok(c: Seq<char>, read: Result<Option<String>, String>, decoded: Option<StoredSshSecretBundle>, x: StoredSshSecretBundle) -> bool {
    match read {
        Ok(Some(raw)) => match decoded {
            Some(b) => x == b,
            None => opt_text(x.password) == Some(raw@) && x.private_key_content is None && x.passphrase is None
                && x.proxy_socks5_password is None,
        },
        _ => false,
    }
}

/// The store's answer `read` for `c` is the failure `e`.
pub open spec fn lookup_outcome_err(c: Seq<char>, read: Result<Option<String>, String>, e: StoredSecretLookupError) -> bool {
    match read {
        Err(m) => e matches StoredSecretLookupError::ReadFailed { credential_ref: k, message: x } && k@ == c && x@ == m@,
        Ok(None) => e matches StoredSecretLookupError::MissingEntry { credential_ref: k } && k@ == c,
        Ok(Some(_)) => false,
    }
}

// ---------------------------------------------------------------------------
// What a login presents
// ---------------------------------------------------------------------------

/// The password or key a login presents.
#[derive(Debug, Clone, PartialEq, Eq)]
pub enum AuthMaterial {
    Password { password: String },
    PrivateKeyPath { path: String, passphrase: Option<String> },
    PrivateKeyContent { content: String, passphrase: Option<String> },
}

pub enum MaterialView {
    Password(Seq<char>),
    PrivateKeyPath(Seq<char>, Option<Seq<char>>),
    PrivateKeyContent(Seq<char>, Option<Seq<char>>),
}

pub open spec fn material_view(m: AuthMaterial) -> MaterialView {
    match m {
        AuthMaterial::Password { password } => MaterialView::Password(password@),
        AuthMaterial::PrivateKeyPath { path, passphrase } => MaterialView::PrivateKeyPath(path@, opt_text(passphrase)),
        AuthMaterial::PrivateKeyContent { content, passphrase } => MaterialView::PrivateKeyContent(content@, opt_text(passphrase)),
    }
}

#[derive(Debug, Clone, PartialEq, Eq)]
pub enum AuthPlanError {
    /// A key-file login whose profile names no key file.
    MissingPrivateKeyPath { profile_name: String },
    /// A saved secret the login needs could not be had.
    SecretLookup { message: String },
}

impl AuthPlanError {
    pub open spec fn message_spec(&self) -> Seq<char> {
        match self {
            AuthPlanError::MissingPrivateKeyPath { profile_name } => "missing private key path for `"@ + profile_name@ + "`"@,
            AuthPlanError::SecretLookup { message } => message@,
        }
    }

    pub fn message(&self) -> (r: String)
        ensures
            r@ == self.message_spec(),
    {
        match self {
            AuthPlanError::MissingPrivateKeyPath { profile_name } =>
                cat3("missing private key path for `", profile_name.as_str(), "`"),
            AuthPlanError::SecretLookup { message } => message.clone(),
        }
    }
}

/// How a login of `method` calls the saved secret it may need.
pub open spec fn secret_label_spec(method: SshAuthMethod) -> Seq<char> {
    match method {
        SshAuthMethod::Password => "SSH password secret"@,
        SshAuthMethod::PrivateKeyPath => "SSH passphrase secret"@,
        SshAuthMethod::PrivateKeyContent => "SSH inline private key secret"@,
    }
}

pub fn secret_label(method: SshAuthMethod) -> (r: &'static str)
    ensures
        r@ == secret_label_spec(method),
{
    match method {
        SshAuthMethod::Password => "SSH password secret",
        SshAuthMethod::PrivateKeyPath => "SSH passphrase secret",
        SshAuthMethod::PrivateKeyContent => "SSH inline private key secret",
    }
}

/// Whether the saved secrets must be read before logging in: a password
/// login without a password at hand, a key-file login without a passphrase
/// at hand, and every inline-key login. A key-file login without a key file
/// is refused first.
pub fn needs_stored_secrets(profile: &ConnectionProfile) -> (r: Result<bool, AuthPlanError>)
    ensures
        match profile.auth_method {
            SshAuthMethod::Password => r == Ok::<bool, AuthPlanError>(blank_secret(profile.password)),
            SshAuthMethod::PrivateKeyPath => if blank_secret(profile.private_key_path) {
                r matches Err(AuthPlanError::MissingPrivateKeyPath { profile_name: n }) && n@ == profile.name@
            } else {
                r == Ok::<bool, AuthPlanError>(blank_secret(profile.passphrase))
            },
            SshAuthMethod::PrivateKeyContent => r == Ok::<bool, AuthPlanError>(true),
        },
{
    match profile.auth_method {
        SshAuthMethod::Password => Ok(is_blank(&profile.password)),
        SshAuthMethod::PrivateKeyPath => {
            if is_blank(&profile.private_key_path) {
                Err(AuthPlanError::MissingPrivateKeyPath { profile_name: profile.name.clone() })
            } else {
                Ok(is_blank(&profile.passphrase))
            }
        },
        SshAuthMethod::PrivateKeyContent => Ok(true),
    }
}

pub type StoredLookup = Result<Option<(String, StoredSshSecretBundle)>, StoredSecretLookupError>;

/// The passphrase of a key: the profile's own when it is not blank, else the
/// saved one when that is not blank.
pub open spec fn passphrase_spec(profile: ConnectionProfile, stored: Option<(String, StoredSshSecretBundle)>) -> Option<Seq<char>> {
    if !blank_secret(profile.passphrase) {
        opt_text(profile.passphrase)
    } else {
        match stored {
            Some((_, b)) => if blank_secret(b.passphrase) { None } else { opt_text(b.passphrase) },
            None => None,
        }
    }
}

/// A saved field the login cannot do without: its value, or the message
/// for its absence.
pub open spec fn required_field_spec(
    name: Seq<char>,
    label: Seq<char>,
    stored: Option<(String, StoredSshSecretBundle)>,
    field: Seq<char>,
) -> Result<Seq<char>, Seq<char>> {
    match stored {
        None => Err(missing_binding_message(name, label)),
        Some((k, b)) => match bundle_field(b, field) {
            Some(v) => if crate::text::trim(v@).len() > 0 { Ok(v@) } else { Err(empty_field_message(name, label, k@, field)) },
            None => Err(empty_field_message(name, label, k@, field)),
        },
    }
}

/// The password or key that a login with `profile` presents, given what
/// reading its saved secrets gave (ignored where they are not needed).
pub open spec fn material_spec(profile: ConnectionProfile, loaded: StoredLookup) -> Result<MaterialView, Seq<char>> {
    let label = secret_label_spec(profile.auth_method);
    let name = profile.name@;
    match profile.auth_method {
        SshAuthMethod::Password => if !blank_secret(profile.password) {
            Ok(MaterialView::Password(profile.password->0@))
        } else {
            match loaded {
                Err(e) => Err(lookup_message_spec(name, label, e)),
                Ok(stored) => match required_field_spec(name, label, stored, "password"@) {
                    Ok(v) => Ok(MaterialView::Password(v)),
                    Err(m) => Err(m),
                },
            }
        },
        SshAuthMethod::PrivateKeyPath => if blank_secret(profile.private_key_path) {
            Err("missing private key path for `"@ + name + "`"@)
        } else if !blank_secret(profile.passphrase) {
            Ok(MaterialView::PrivateKeyPath(profile.private_key_path->0@, opt_text(profile.passphrase)))
        } else {
            match loaded {
                Err(e) => Err(lookup_message_spec(name, label, e)),
                Ok(stored) => Ok(MaterialView::PrivateKeyPath(profile.private_key_path->0@, passphrase_spec(profile, stored))),
            }
        },
        SshAuthMethod::PrivateKeyContent => match loaded {
            Err(e) => Err(lookup_message_spec(name, label, e)),
            Ok(stored) => {
                let content = if !blank_secret(profile.private_key_content) {
                    Ok(profile.private_key_content->0@)
                } else {
                    required_field_spec(name, label, stored, "private_key_content"@)
                };
                match content {
                    Ok(c) => Ok(MaterialView::PrivateKeyContent(c, passphrase_spec(profile, stored))),
                    Err(m) => Err(m),
                }
            },
        },
    }
}

pub open spec fn material_result_view(r: Result<AuthMaterial, AuthPlanError>) -> Result<MaterialView, Seq<char>> {
    match r {
        Ok(m) => Ok(material_view(m)),
        Err(e) => Err(e.message_spec()),
    }
}

fn copy_opt(s: &Option<String>) -> (r: Option<String>)
    ensures
        r == *s,
{
    match s {
        Some(v) => Some(v.clone()),
        None => None,
    }
}

fn stored_passphrase(profile: &ConnectionProfile, stored: &Option<(String, StoredSshSecretBundle)>) -> (r: Option<String>)
    ensures
        opt_text(r) == passphrase_spec(*profile, *stored),
{
    if !is_blank(&profile.passphrase) {
        return copy_opt(&profile.passphrase);
    }
    match stored {
        Some((_, b)) => if is_blank(&b.passphrase) { None } else { copy_opt(&b.passphrase) },
        None => None,
    }
}

fn required_field(
    profile: &ConnectionProfile,
    label: &str,
    stored: &Option<(String, StoredSshSecretBundle)>,
    field: &str,
) -> (r: Result<String, AuthPlanError>)
    ensures
        match required_field_spec(profile.name@, label@, *stored, field@) {
            Ok(v) => r matches Ok(x) && x@ == v,
            Err(m) => r matches Err(e) && e.message_spec() == m,
        },
{
    match stored {
        None => Err(AuthPlanError::SecretLookup {
            message: stored_secret_lookup_message(profile, label, &StoredSecretLookupError::MissingCredentialRef),
        }),
        Some((k, b)) => match required_secret_bundle_field(b, k.as_str(), field) {
            Ok(v) => Ok(v),
            Err(e) => Err(AuthPlanError::SecretLookup { message: stored_secret_lookup_message(profile, label, &e) }),
        },
    }
}

/// The password or key to present; see `material_spec`.
pub fn resolve_auth_material(profile: &ConnectionProfile, loaded: StoredLookup) -> (r: Result<AuthMaterial, AuthPlanError>)
    ensures
        material_result_view(r) == material_spec(*profile, loaded),
{
    let label = secret_label(profile.auth_method);
    match profile.auth_method {
        SshAuthMethod::Password => {
            if !is_blank(&profile.password) {
                let password = match &profile.password {
                    Some(p) => p.clone(),
                    None => String::new(),
                };
                return Ok(AuthMaterial::Password { password });
            }
            match loaded {
                Err(e) => Err(AuthPlanError::SecretLookup { message: stored_secret_lookup_message(profile, label, &e) }),
                Ok(stored) => {
                    let password = required_field(profile, label, &stored, "password")?;
                    Ok(AuthMaterial::Password { password })
                },
            }
        },
        SshAuthMethod::PrivateKeyPath => {
            let path = match &profile.private_key_path {
                Some(p) => if trim_str(p.as_str()).as_str().unicode_len() == 0 {
                    return Err(AuthPlanError::MissingPrivateKeyPath { profile_name: profile.name.clone() });
                } else {
                    p.clone()
                },
                None => return Err(AuthPlanError::MissingPrivateKeyPath { profile_name: profile.name.clone() }),
            };
            if !is_blank(&profile.passphrase) {
                return Ok(AuthMaterial::PrivateKeyPath { path, passphrase: copy_opt(&profile.passphrase) });
            }
            match loaded {
                Err(e) => Err(AuthPlanError::SecretLookup { message: stored_secret_lookup_message(profile, label, &e) }),
                Ok(stored) => Ok(AuthMaterial::PrivateKeyPath { path, passphrase: stored_passphrase(profile, &stored) }),
            }
        },
        SshAuthMethod::PrivateKeyContent => match loaded {
            Err(e) => Err(AuthPlanError::SecretLookup { message: stored_secret_lookup_message(profile, label, &e) }),
            Ok(stored) => {
                let content = if !is_blank(&profile.private_key_content) {
                    match &profile.private_key_content {
                        Some(c) => c.clone(),
                        None => String::new(),
                    }
                } else {
                    required_field(profile, label, &stored, "private_key_content")?
                };
                Ok(AuthMaterial::PrivateKeyContent { content, passphrase: stored_passphrase(profile, &stored) })
            },
        },
    }
}

/// What a login the server refused is reported as.
pub fn auth_rejected_message(method: &str) -> (r: String)
    ensures
        r@ == "SSH authentication was rejected for "@ + method@,
{
    cat("SSH authentication was rejected for ", method)
}

} // verus!
