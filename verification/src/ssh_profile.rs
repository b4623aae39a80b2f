//! Connection profiles: the normalised form of a connection dialog or a saved
//! SSH host that the runtime connects with, and the chain of proxies in
//! front of a host.

use vstd::prelude::*;
use std::hash::Hasher;
use vstd::std_specs::hash::DefaultHasherAdditionalSpecFns;
use std::collections::hash_map::DefaultHasher;
use crate::credentials::{credential_ref_text, non_blank, opt_text, ssh_credential_ref, SshCredentialKind};
use crate::format::{dec_digits, dec_string, hex_digits, hex_fixed};
use crate::numbers::{parse_u16, parse_u16_spec};
use crate::ssh_assets::{lemma_node_index_range, node_index, AssetNode, AssetSshConnectionDraft, AssetSshConnectionSpec, AssetTree, ConnectionProxyProfile};
use crate::text::{cat, cat3, same_text, trim, trim_str};

verus! {

#[derive(Debug, Clone, Copy, PartialEq, Eq, Structural)]
pub enum SshAuthMethod {
    Password,
    PrivateKeyPath,
    PrivateKeyContent,
}

/// A connection profile, ready to connect with.
#[derive(Debug, Clone, PartialEq, Eq)]
pub struct ConnectionProfile {
    pub asset_id: Option<String>,
    pub name: String,
    pub host: String,
    pub user: String,
    pub port: u16,
    pub auth_method: SshAuthMethod,
    pub credential_ref: Option<String>,
    pub private_key_path: Option<String>,
    pub password: Option<String>,
    pub private_key_content: Option<String>,
    pub passphrase: Option<String>,
    pub remark: String,
    pub proxy: ConnectionProxyProfile,
    pub resolved_proxy_hops: Vec<ResolvedProxyHop>,
}

/// One hop in front of a host, outermost first.
#[derive(Debug, Clone, PartialEq, Eq)]
pub enum ResolvedProxyHop {
    Socks5 { host: String, port: u16, username: Option<String>, password: Option<String> },
    Http { host: String, port: u16, username: Option<String>, password: Option<String> },
    Ssh(Box<ProxyHostProfile>),
}

/// The profile of an SSH host that is used as a hop: a connection profile
/// without hops of its own (those are already part of the chain).
#[derive(Debug, Clone, PartialEq, Eq)]
pub struct ProxyHostProfile {
    pub asset_id: Option<String>,
    pub name: String,
    pub host: String,
    pub user: String,
    pub port: u16,
    pub auth_method: SshAuthMethod,
    pub credential_ref: Option<String>,
    pub private_key_path: Option<String>,
    pub password: Option<String>,
    pub private_key_content: Option<String>,
    pub passphrase: Option<String>,
    pub remark: String,
    pub proxy: ConnectionProxyProfile,
}

impl ProxyHostProfile {
    /// The hop as a connection profile of its own: the same fields, and no
    /// hops in front of it (they are part of the chain it belongs to).
    pub fn into_connection_profile(self) -> (r: ConnectionProfile)
        ensures
            r.fields() == self.fields(),
            r.resolved_proxy_hops@.len() == 0,
    {
        ConnectionProfile {
            asset_id: self.asset_id,
            name: self.name,
            host: self.host,
            user: self.user,
            port: self.port,
            auth_method: self.auth_method,
            credential_ref: self.credential_ref,
            private_key_path: self.private_key_path,
            password: self.password,
            private_key_content: self.private_key_content,
            passphrase: self.passphrase,
            remark: self.remark,
            proxy: self.proxy,
            resolved_proxy_hops: Vec::new(),
        }
    }

    pub open spec fn fields(&self) -> ProfileView {
        ProfileView {
            asset_id: opt_text(self.asset_id),
            name: self.name@,
            host: self.host@,
            user: self.user@,
            port: self.port,
            auth_method: self.auth_method,
            credential_ref: opt_text(self.credential_ref),
            private_key_path: opt_text(self.private_key_path),
            password: opt_text(self.password),
            private_key_content: opt_text(self.private_key_content),
            passphrase: opt_text(self.passphrase),
            remark: self.remark@,
            proxy: self.proxy,
        }
    }
}

impl ConnectionProfile {
    /// This profile as a hop in front of another host.
    pub fn into_proxy_host(self) -> (r: ProxyHostProfile)
        ensures
            r.fields() == self.fields(),
    {
        ProxyHostProfile {
            asset_id: self.asset_id,
            name: self.name,
            host: self.host,
            user: self.user,
            port: self.port,
            auth_method: self.auth_method,
            credential_ref: self.credential_ref,
            private_key_path: self.private_key_path,
            password: self.password,
            private_key_content: self.private_key_content,
            passphrase: self.passphrase,
            remark: self.remark,
            proxy: self.proxy,
        }
    }
}

/// A profile's fields as text, without its resolved hops.
pub struct ProfileView {
    pub asset_id: Option<Seq<char>>,
    pub name: Seq<char>,
    pub host: Seq<char>,
    pub user: Seq<char>,
    pub port: u16,
    pub auth_method: SshAuthMethod,
    pub credential_ref: Option<Seq<char>>,
    pub private_key_path: Option<Seq<char>>,
    pub password: Option<Seq<char>>,
    pub private_key_content: Option<Seq<char>>,
    pub passphrase: Option<Seq<char>>,
    pub remark: Seq<char>,
    pub proxy: ConnectionProxyProfile,
}

impl ConnectionProfile {
    pub open spec fn fields(&self) -> ProfileView {
        ProfileView {
            asset_id: opt_text(self.asset_id),
            name: self.name@,
            host: self.host@,
            user: self.user@,
            port: self.port,
            auth_method: self.auth_method,
            credential_ref: opt_text(self.credential_ref),
            private_key_path: opt_text(self.private_key_path),
            password: opt_text(self.password),
            private_key_content: opt_text(self.private_key_content),
            passphrase: opt_text(self.passphrase),
            remark: self.remark@,
            proxy: self.proxy,
        }
    }
}

#[derive(Debug, Clone, PartialEq, Eq)]
pub enum ProfileError {
    InvalidPort { port: String },
    NameRequired,
    HostRequired,
    UserRequired,
    PasswordRequired,
    PrivateKeyPathRequired,
    PrivateKeyContentRequired,
    UnsupportedPrivateKeySource { source: String },
    UnsupportedAuthMethod { method: String },
}

/// A profile error with its texts.
pub enum ProfileErrorView {
    InvalidPort { port: Seq<char> },
    NameRequired,
    HostRequired,
    UserRequired,
    PasswordRequired,
    PrivateKeyPathRequired,
    PrivateKeyContentRequired,
    UnsupportedPrivateKeySource { source: Seq<char> },
    UnsupportedAuthMethod { method: Seq<char> },
}

impl View for ProfileError {
    type V = ProfileErrorView;

    open spec fn view(&self) -> ProfileErrorView {
        match self {
            ProfileError::InvalidPort { port } => ProfileErrorView::InvalidPort { port: port@ },
            ProfileError::NameRequired => ProfileErrorView::NameRequired,
            ProfileError::HostRequired => ProfileErrorView::HostRequired,
            ProfileError::UserRequired => ProfileErrorView::UserRequired,
            ProfileError::PasswordRequired => ProfileErrorView::PasswordRequired,
            ProfileError::PrivateKeyPathRequired => ProfileErrorView::PrivateKeyPathRequired,
            ProfileError::PrivateKeyContentRequired => ProfileErrorView::PrivateKeyContentRequired,
            ProfileError::UnsupportedPrivateKeySource { source } => ProfileErrorView::UnsupportedPrivateKeySource { source: source@ },
            ProfileError::UnsupportedAuthMethod { method } => ProfileErrorView::UnsupportedAuthMethod { method: method@ },
        }
    }
}

impl ProfileError {
    pub open spec fn message_spec(&self) -> Seq<char> {
        match self {
            ProfileError::InvalidPort { port } => "invalid ssh port: "@ + port@,
            ProfileError::NameRequired => "ssh profile name is required"@,
            ProfileError::HostRequired => "ssh profile host is required"@,
            ProfileError::UserRequired => "ssh profile user is required"@,
            ProfileError::PasswordRequired => "password authentication requires a password"@,
            ProfileError::PrivateKeyPathRequired => "private key path authentication requires a file path"@,
            ProfileError::PrivateKeyContentRequired => "inline private key authentication requires key content"@,
            ProfileError::UnsupportedPrivateKeySource { source } => "unsupported private key source: "@ + source@,
            ProfileError::UnsupportedAuthMethod { method } => "unsupported ssh auth method: "@ + method@,
        }
    }

    pub fn message(&self) -> (r: String)
        ensures
            r@ == self.message_spec(),
    {
        match self {
            ProfileError::InvalidPort { port } => cat("invalid ssh port: ", port.as_str()),
            ProfileError::NameRequired => String::from_str("ssh profile name is required"),
            ProfileError::HostRequired => String::from_str("ssh profile host is required"),
            ProfileError::UserRequired => String::from_str("ssh profile user is required"),
            ProfileError::PasswordRequired => String::from_str("password authentication requires a password"),
            ProfileError::PrivateKeyPathRequired => String::from_str("private key path authentication requires a file path"),
            ProfileError::PrivateKeyContentRequired => String::from_str("inline private key authentication requires key content"),
            ProfileError::UnsupportedPrivateKeySource { source } => cat("unsupported private key source: ", source.as_str()),
            ProfileError::UnsupportedAuthMethod { method } => cat("unsupported ssh auth method: ", method.as_str()),
        }
    }
}

pub open spec fn profile_result_view(r: Result<ConnectionProfile, ProfileError>) -> Result<ProfileView, ProfileErrorView> {
    match r {
        Ok(p) => Ok(p.fields()),
        Err(e) => Err(e@),
    }
}

/// The port that a port field gives: 22 when blank, else the trimmed number.
pub open spec fn port_of(text: Seq<char>) -> Option<u16> {
    let p = trim(text);
    if p.len() == 0 { Some(22) } else { parse_u16_spec(p) }
}

/// The reference under which a dialog's own secret is held while connecting.
pub open spec fn draft_ref(kind: Seq<char>, user: Seq<char>, host: Seq<char>, port: u16) -> Seq<char> {
    "draft://"@ + kind + "/"@ + user + "@"@ + host + ":"@ + dec_digits(port as nat)
}

/// The authentication of a dialog: the method, the credential reference and
/// the key path. `reusable` is a saved reference that may stand in for a
/// secret the dialog left blank.
pub open spec fn draft_auth(
    d: AssetSshConnectionDraft,
    reusable: Option<Seq<char>>,
    user: Seq<char>,
    host: Seq<char>,
    port: u16,
) -> Result<(SshAuthMethod, Option<Seq<char>>, Option<Seq<char>>), ProfileErrorView> {
    if d.auth_method@ == "password"@ {
        if trim(d.password@).len() == 0 {
            match reusable {
                Some(r) => Ok((SshAuthMethod::Password, Some(r), None)),
                None => Err(ProfileErrorView::PasswordRequired),
            }
        } else {
            Ok((SshAuthMethod::Password, Some(draft_ref("ssh-password"@, user, host, port)), None))
        }
    } else if d.auth_method@ == "private-key"@ {
        if d.private_key_source@ == "path"@ {
            let p = trim(d.private_key_path@);
            if p.len() == 0 {
                Err(ProfileErrorView::PrivateKeyPathRequired)
            } else {
                Ok((SshAuthMethod::PrivateKeyPath, reusable, Some(p)))
            }
        } else if d.private_key_source@ == "content"@ {
            if trim(d.private_key_content@).len() == 0 {
                match reusable {
                    Some(r) => Ok((SshAuthMethod::PrivateKeyContent, Some(r), None)),
                    None => Err(ProfileErrorView::PrivateKeyContentRequired),
                }
            } else {
                Ok((SshAuthMethod::PrivateKeyContent, Some(draft_ref("ssh-inline-key"@, user, host, port)), None))
            }
        } else {
            Err(ProfileErrorView::UnsupportedPrivateKeySource { source: d.private_key_source@ })
        }
    } else {
        Err(ProfileErrorView::UnsupportedAuthMethod { method: d.auth_method@ })
    }
}

/// The profile a connection dialog describes, or why it describes none.
pub open spec fn draft_profile(d: AssetSshConnectionDraft, reusable: Option<Seq<char>>) -> Result<ProfileView, ProfileErrorView> {
    let name = trim(d.name@);
    let host = trim(d.host@);
    let user = trim(d.user@);
    match port_of(d.port@) {
        None => Err(ProfileErrorView::InvalidPort { port: trim(d.port@) }),
        Some(port) => if name.len() == 0 {
            Err(ProfileErrorView::NameRequired)
        } else if host.len() == 0 {
            Err(ProfileErrorView::HostRequired)
        } else if user.len() == 0 {
            Err(ProfileErrorView::UserRequired)
        } else {
            match draft_auth(d, reusable, user, host, port) {
                Err(e) => Err(e),
                Ok((method, credential_ref, private_key_path)) => Ok(ProfileView {
                    asset_id: None,
                    name,
                    host,
                    user,
                    port,
                    auth_method: method,
                    credential_ref,
                    private_key_path,
                    password: non_blank(d.password@),
                    private_key_content: non_blank(d.private_key_content@),
                    passphrase: non_blank(d.passphrase@),
                    remark: trim(d.remark@),
                    proxy: ConnectionProxyProfile::Direct,
                }),
            }
        },
    }
}

/// The profile that a saved host describes, or why it describes none.
pub open spec fn saved_profile(asset_id: Seq<char>, title: Seq<char>, spec: AssetSshConnectionSpec) -> Result<ProfileView, ProfileErrorView> {
    let host = trim(spec.host@);
    let user = trim(spec.user@);
    let name = trim(title);
    let saved_ref = match spec.credential_ref {
        Some(c) => c@,
        None => credential_ref_text(asset_id, SshCredentialKind::SavedSecrets),
    };
    let method = trim(spec.auth_method@);
    let source = if trim(spec.private_key_source@).len() == 0 { "content"@ } else { trim(spec.private_key_source@) };
    match port_of(spec.port@) {
        None => Err(ProfileErrorView::InvalidPort { port: trim(spec.port@) }),
        Some(port) => if name.len() == 0 {
            Err(ProfileErrorView::NameRequired)
        } else if host.len() == 0 {
            Err(ProfileErrorView::HostRequired)
        } else if user.len() == 0 {
            Err(ProfileErrorView::UserRequired)
        } else {
            let auth: Result<(SshAuthMethod, Option<Seq<char>>, Option<Seq<char>>), ProfileErrorView> =
                if method.len() == 0 || method == "password"@ {
                    Ok((SshAuthMethod::Password, Some(saved_ref), None))
                } else if method == "private-key"@ {
                    if source == "path"@ {
                        let p = trim(spec.private_key_path@);
                        if p.len() == 0 {
                            Err(ProfileErrorView::PrivateKeyPathRequired)
                        } else {
                            Ok((SshAuthMethod::PrivateKeyPath, opt_text(spec.credential_ref), Some(p)))
                        }
                    } else if source == "content"@ {
                        Ok((SshAuthMethod::PrivateKeyContent, Some(saved_ref), None))
                    } else {
                        Err(ProfileErrorView::UnsupportedPrivateKeySource { source })
                    }
                } else {
                    Err(ProfileErrorView::UnsupportedAuthMethod { method })
                };
            match auth {
                Err(e) => Err(e),
                Ok((m, credential_ref, private_key_path)) => Ok(ProfileView {
                    asset_id: Some(asset_id),
                    name,
                    host,
                    user,
                    port,
                    auth_method: m,
                    credential_ref,
                    private_key_path,
                    password: None,
                    private_key_content: None,
                    passphrase: None,
                    remark: trim(spec.remark@),
                    proxy: spec.proxy,
                }),
            }
        },
    }
}

/// A saved host's profile can always find its stored secrets: whenever the
/// key is not read from a file, the profile refers to the host's own secret
/// reference, or else to the saved-secrets reference derived from its
/// identifier; a key read from a file keeps only the host's own reference.
pub proof fn lemma_saved_profile_secret_reference(asset_id: Seq<char>, title: Seq<char>, spec: AssetSshConnectionSpec)
    ensures
        saved_profile(asset_id, title, spec) matches Ok(p) ==> {
            &&& p.auth_method != SshAuthMethod::PrivateKeyPath ==> p.credential_ref == Some(match spec.credential_ref {
                Some(c) => c@,
                None => credential_ref_text(asset_id, SshCredentialKind::SavedSecrets),
            })
            &&& p.auth_method == SshAuthMethod::PrivateKeyPath ==> p.credential_ref == opt_text(spec.credential_ref)
        },
{
}

fn port_from_text(text: &str) -> (r: Result<u16, ProfileError>)
    ensures
        match port_of(text@) {
            Some(p) => r == Ok::<u16, ProfileError>(p),
            None => r matches Err(e) && e@ == (ProfileErrorView::InvalidPort { port: trim(text@) }),
        },
{
    let p = trim_str(text);
    if p.as_str().unicode_len() == 0 {
        return Ok(22);
    }
    match parse_u16(p.as_str()) {
        Some(v) => Ok(v),
        None => Err(ProfileError::InvalidPort { port: p }),
    }
}

fn draft_credential_ref(kind: &str, user: &str, host: &str, port: u16) -> (r: String)
    ensures
        r@ == draft_ref(kind@, user@, host@, port),
{
    let digits = dec_string(port as u64);
    let mut r = String::from_str("draft://");
    r.append(kind);
    r.append("/");
    r.append(user);
    r.append("@");
    r.append(host);
    r.append(":");
    r.append(digits.as_str());
    r
}

fn copy_text(s: &Option<String>) -> (r: Option<String>)
    ensures
        r == *s,
{
    match s {
        Some(v) => Some(v.clone()),
        None => None,
    }
}

impl ConnectionProfile {
    /// The profile a connection dialog describes.
    pub fn from_draft(draft: &AssetSshConnectionDraft) -> (r: Result<Self, ProfileError>)
        ensures
            profile_result_view(r) == draft_profile(*draft, None),
            r matches Ok(p) ==> p.resolved_proxy_hops@.len() == 0,
    {
        ConnectionProfile::from_draft_with_saved_secret_ref(draft, None)
    }

    /// The profile a dialog editing the saved host `asset_id` describes.
    pub fn from_modal_draft(asset_id: &str, existing_spec: &AssetSshConnectionSpec, draft: &AssetSshConnectionDraft)
        -> (r: Result<Self, ProfileError>)
        ensures
            match draft_profile(*draft, None) {
                Ok(v) => r matches Ok(p) && p.fields() == (ProfileView { asset_id: Some(asset_id@), ..v })
                    && p.resolved_proxy_hops@.len() == 0,
                Err(e) => r matches Err(x) && x@ == e,
            },
    {
        let mut profile = ConnectionProfile::from_draft(draft)?;
        profile.asset_id = Some(String::from_str(asset_id));
        Ok(profile)
    }

    /// The profile a connection dialog describes; `reusable_saved_secret_ref`
    /// may stand in for a secret that the dialog left blank.
    pub fn from_draft_with_saved_secret_ref(draft: &AssetSshConnectionDraft, reusable_saved_secret_ref: Option<String>)
        -> (r: Result<Self, ProfileError>)
        ensures
            profile_result_view(r) == draft_profile(*draft, opt_text(reusable_saved_secret_ref)),
            r matches Ok(p) ==> p.resolved_proxy_hops@.len() == 0,
    {
        let name = trim_str(draft.name.as_str());
        let host = trim_str(draft.host.as_str());
        let user = trim_str(draft.user.as_str());
        let port = port_from_text(draft.port.as_str())?;
        if name.as_str().unicode_len() == 0 {
            return Err(ProfileError::NameRequired);
        }
        if host.as_str().unicode_len() == 0 {
            return Err(ProfileError::HostRequired);
        }
        if user.as_str().unicode_len() == 0 {
            return Err(ProfileError::UserRequired);
        }
        let reusable = reusable_saved_secret_ref;
        let (auth_method, credential_ref, private_key_path) = if same_text(draft.auth_method.as_str(), "password") {
            let credential_ref = if trim_str(draft.password.as_str()).as_str().unicode_len() == 0 {
                match reusable {
                    Some(r) => r,
                    None => return Err(ProfileError::PasswordRequired),
                }
            } else {
                draft_credential_ref("ssh-password", user.as_str(), host.as_str(), port)
            };
            (SshAuthMethod::Password, Some(credential_ref), None)
        } else if same_text(draft.auth_method.as_str(), "private-key") {
            if same_text(draft.private_key_source.as_str(), "path") {
                let private_key_path = trim_str(draft.private_key_path.as_str());
                if private_key_path.as_str().unicode_len() == 0 {
                    return Err(ProfileError::PrivateKeyPathRequired);
                }
                (SshAuthMethod::PrivateKeyPath, reusable, Some(private_key_path))
            } else if same_text(draft.private_key_source.as_str(), "content") {
                let credential_ref = if trim_str(draft.private_key_content.as_str()).as_str().unicode_len() == 0 {
                    match reusable {
                        Some(r) => r,
                        None => return Err(ProfileError::PrivateKeyContentRequired),
                    }
                } else {
                    draft_credential_ref("ssh-inline-key", user.as_str(), host.as_str(), port)
                };
                (SshAuthMethod::PrivateKeyContent, Some(credential_ref), None)
            } else {
                return Err(ProfileError::UnsupportedPrivateKeySource { source: draft.private_key_source.clone() });
            }
        } else {
            return Err(ProfileError::UnsupportedAuthMethod { method: draft.auth_method.clone() });
        };
        Ok(ConnectionProfile {
            asset_id: None,
            name,
            host,
            user,
            port,
            auth_method,
            credential_ref,
            private_key_path,
            password: crate::credentials::non_empty_secret(draft.password.as_str()),
            private_key_content: crate::credentials::non_empty_secret(draft.private_key_content.as_str()),
            passphrase: crate::credentials::non_empty_secret(draft.passphrase.as_str()),
            remark: trim_str(draft.remark.as_str()),
            proxy: ConnectionProxyProfile::Direct,
            resolved_proxy_hops: Vec::new(),
        })
    }

    /// The profile of the saved host `asset_id` titled `title`.
    pub fn from_saved_asset(asset_id: &str, title: &str, spec: &AssetSshConnectionSpec) -> (r: Result<Self, ProfileError>)
        ensures
            profile_result_view(r) == saved_profile(asset_id@, title@, *spec),
            r matches Ok(p) ==> p.resolved_proxy_hops@.len() == 0,
            r matches Ok(p) ==> (p.auth_method != SshAuthMethod::PrivateKeyPath ==> (p.credential_ref matches Some(c)
                && c@ == match spec.credential_ref {
                    Some(x) => x@,
                    None => credential_ref_text(asset_id@, SshCredentialKind::SavedSecrets),
                })),
    {
        proof {
            lemma_saved_profile_secret_reference(asset_id@, title@, *spec);
        }
        let host = trim_str(spec.host.as_str());
        let user = trim_str(spec.user.as_str());
        let name = trim_str(title);
        let port = port_from_text(spec.port.as_str())?;
        if name.as_str().unicode_len() == 0 {
            return Err(ProfileError::NameRequired);
        }
        if host.as_str().unicode_len() == 0 {
            return Err(ProfileError::HostRequired);
        }
        if user.as_str().unicode_len() == 0 {
            return Err(ProfileError::UserRequired);
        }
        let saved_credential_ref = saved_ssh_credential_ref(asset_id, spec);
        let method = trim_str(spec.auth_method.as_str());
        let trimmed_source = trim_str(spec.private_key_source.as_str());
        let source = if trimmed_source.as_str().unicode_len() == 0 { String::from_str("content") } else { trimmed_source };
        let (auth_method, credential_ref, private_key_path) =
            if method.as_str().unicode_len() == 0 || same_text(method.as_str(), "password") {
                (SshAuthMethod::Password, Some(saved_credential_ref), None)
            } else if same_text(method.as_str(), "private-key") {
                if same_text(source.as_str(), "path") {
                    let private_key_path = trim_str(spec.private_key_path.as_str());
                    if private_key_path.as_str().unicode_len() == 0 {
                        return Err(ProfileError::PrivateKeyPathRequired);
                    }
                    (SshAuthMethod::PrivateKeyPath, copy_text(&spec.credential_ref), Some(private_key_path))
                } else if same_text(source.as_str(), "content") {
                    (SshAuthMethod::PrivateKeyContent, Some(saved_credential_ref), None)
                } else {
                    return Err(ProfileError::UnsupportedPrivateKeySource { source });
                }
            } else {
                return Err(ProfileError::UnsupportedAuthMethod { method });
            };
        Ok(ConnectionProfile {
            asset_id: Some(String::from_str(asset_id)),
            name,
            host,
            user,
            port,
            auth_method,
            credential_ref,
            private_key_path,
            password: None,
            private_key_content: None,
            passphrase: None,
            remark: trim_str(spec.remark.as_str()),
            proxy: crate::ssh_profile::copy_proxy(&spec.proxy),
            resolved_proxy_hops: Vec::new(),
        })
    }
}

/// The saved reference of a host's secrets: its own, or the one derived from its identifier.
pub fn saved_ssh_credential_ref(asset_id: &str, spec: &AssetSshConnectionSpec) -> (r: String)
    ensures
        r@ == match spec.credential_ref {
            Some(c) => c@,
            None => credential_ref_text(asset_id@, SshCredentialKind::SavedSecrets),
        },
{
    match &spec.credential_ref {
        Some(c) => c.clone(),
        None => ssh_credential_ref(asset_id, SshCredentialKind::SavedSecrets),
    }
}

/// A copy of a proxy setting.
pub fn copy_proxy(p: &ConnectionProxyProfile) -> (r: ConnectionProxyProfile)
    ensures
        r == *p,
{
    match p {
        ConnectionProxyProfile::Direct => ConnectionProxyProfile::Direct,
        ConnectionProxyProfile::Socks5 { host, port, username, password } => ConnectionProxyProfile::Socks5 {
            host: host.clone(),
            port: *port,
            username: copy_text(username),
            password: copy_text(password),
        },
        ConnectionProxyProfile::SshAsset { asset_id } => ConnectionProxyProfile::SshAsset { asset_id: asset_id.clone() },
    }
}

// ---------------------------------------------------------------------------
// Temporary sessions
// ---------------------------------------------------------------------------

/// What distinguishes one ad-hoc session from another: the user, the host,
/// the port and how it authenticates.
pub open spec fn auth_scope(p: ProfileView) -> Seq<char> {
    match p.auth_method {
        SshAuthMethod::Password => "password"@,
        SshAuthMethod::PrivateKeyPath => "private-key-path:"@ + match p.private_key_path {
            Some(x) => x,
            None => Seq::empty(),
        },
        SshAuthMethod::PrivateKeyContent => "private-key-content"@,
    }
}

pub open spec fn session_identity(p: ProfileView) -> Seq<char> {
    trim(p.user) + "@"@ + trim(p.host) + ":"@ + dec_digits(p.port as nat) + ":"@ + auth_scope(p)
}

/// `session:` and the 16 hex digits of the standard hasher's digest of the
/// identity, hashed as a `str` is (its bytes, then `0xff`).
pub open spec fn temporary_session_id_text(p: ProfileView) -> Seq<char> {
    "session:"@ + hex_digits(
        DefaultHasher::spec_finish(seq![vstd::utf8::encode_utf8(session_identity(p)), seq![0xffu8]]) as nat,
        16,
    )
}

impl ConnectionProfile {
    /// The asset identifier of an ad-hoc session with this profile.
    pub fn temporary_session_asset_id(&self) -> (r: String)
        ensures
            r@ == temporary_session_id_text(self.fields()),
    {
        let auth_scope = match self.auth_method {
            SshAuthMethod::Password => String::from_str("password"),
            SshAuthMethod::PrivateKeyPath => match &self.private_key_path {
                Some(p) => cat("private-key-path:", p.as_str()),
                None => String::from_str("private-key-path:"),
            },
            SshAuthMethod::PrivateKeyContent => String::from_str("private-key-content"),
        };
        proof {
            reveal_strlit("");
            assert("private-key-path:"@ + Seq::<char>::empty() =~= "private-key-path:"@);
        }
        let user = trim_str(self.user.as_str());
        let host = trim_str(self.host.as_str());
        let port = dec_string(self.port as u64);
        let mut identity = cat3(user.as_str(), "@", host.as_str());
        identity.append(":");
        identity.append(port.as_str());
        identity.append(":");
        identity.append(auth_scope.as_str());
        assert(identity@ =~= session_identity(self.fields()));
        let mut hasher = DefaultHasher::new();
        let bytes = identity.as_str().as_bytes();
        assert(bytes@ == vstd::utf8::encode_utf8(session_identity(self.fields())));
        hasher.write(bytes);
        let end: [u8; 1] = [0xff];
        assert(end@ =~= seq![0xffu8]);
        hasher.write(&end);
        assert(hasher@ =~= seq![vstd::utf8::encode_utf8(session_identity(self.fields())), seq![0xffu8]]);
        let digest = hasher.finish();
        let digits = hex_fixed(digest as u128, 16);
        cat("session:", digits.as_str())
    }
}

// ---------------------------------------------------------------------------
// Proxy chains
// ---------------------------------------------------------------------------

/// A hop with its texts.
pub enum HopView {
    Socks5 { host: Seq<char>, port: u16, username: Option<Seq<char>>, password: Option<Seq<char>> },
    Http { host: Seq<char>, port: u16, username: Option<Seq<char>>, password: Option<Seq<char>> },
    Ssh(ProfileView),
}

impl View for ResolvedProxyHop {
    type V = HopView;

    open spec fn view(&self) -> HopView {
        match self {
            ResolvedProxyHop::Socks5 { host, port, username, password } =>
                HopView::Socks5 { host: host@, port: *port, username: opt_text(*username), password: opt_text(*password) },
            ResolvedProxyHop::Http { host, port, username, password } =>
                HopView::Http { host: host@, port: *port, username: opt_text(*username), password: opt_text(*password) },
            ResolvedProxyHop::Ssh(p) => HopView::Ssh(p.fields()),
        }
    }
}

pub open spec fn hops_view(v: Seq<ResolvedProxyHop>) -> Seq<HopView> {
    v.map_values(|h: ResolvedProxyHop| h@)
}

#[derive(Debug, Clone, PartialEq, Eq)]
pub enum ProxyChainError {
    /// An SSH hop leads back to a host already on the path.
    Cycle,
    /// An SSH hop names no saved SSH host.
    AssetNotFound { asset_id: String },
    /// An SSH hop's saved host does not make a profile.
    InvalidUpstream { asset_id: String, source: ProfileError },
    /// The chain has more hops than allowed.
    TooDeep,
}

pub enum ChainErrorView {
    Cycle,
    AssetNotFound { asset_id: Seq<char> },
    InvalidUpstream { asset_id: Seq<char>, source: ProfileErrorView },
    TooDeep,
}

impl View for ProxyChainError {
    type V = ChainErrorView;

    open spec fn view(&self) -> ChainErrorView {
        match self {
            ProxyChainError::Cycle => ChainErrorView::Cycle,
            ProxyChainError::AssetNotFound { asset_id } => ChainErrorView::AssetNotFound { asset_id: asset_id@ },
            ProxyChainError::InvalidUpstream { asset_id, source } =>
                ChainErrorView::InvalidUpstream { asset_id: asset_id@, source: source@ },
            ProxyChainError::TooDeep => ChainErrorView::TooDeep,
        }
    }
}

impl ProxyChainError {
    pub open spec fn message_spec(&self) -> Seq<char> {
        match self {
            ProxyChainError::Cycle => "SSH proxy chain contains a cycle"@,
            ProxyChainError::AssetNotFound { asset_id } => "upstream SSH asset `"@ + asset_id@ + "` was not found"@,
            ProxyChainError::InvalidUpstream { asset_id, source } =>
                "failed to normalize upstream SSH asset `"@ + asset_id@ + "`: "@ + source.message_spec(),
            ProxyChainError::TooDeep => "SSH proxy chain is too deep"@,
        }
    }

    pub fn message(&self) -> (r: String)
        ensures
            r@ == self.message_spec(),
    {
        match self {
            ProxyChainError::Cycle => String::from_str("SSH proxy chain contains a cycle"),
            ProxyChainError::AssetNotFound { asset_id } => cat3("upstream SSH asset `", asset_id.as_str(), "` was not found"),
            ProxyChainError::InvalidUpstream { asset_id, source } => {
                let head = cat3("failed to normalize upstream SSH asset `", asset_id.as_str(), "`: ");
                let tail = source.message();
                cat(head.as_str(), tail.as_str())
            },
            ProxyChainError::TooDeep => String::from_str("SSH proxy chain is too deep"),
        }
    }
}

/// The identifiers of the saved assets.
pub open spec fn tree_ids(tree: AssetTree) -> Set<Seq<char>> {
    tree.nodes@.map_values(|n: AssetNode| n.id@).to_set()
}

pub open spec fn texts_set(v: Seq<String>) -> Set<Seq<char>> {
    v.map_values(|s: String| s@).to_set()
}

/// A host found in the tree and not yet on the path leaves fewer hosts to visit.
pub proof fn lemma_fewer_unvisited(tree: AssetTree, visited: Set<Seq<char>>, id: Seq<char>)
    requires
        node_index(tree.nodes@, id) >= 0,
        !visited.contains(id),
    ensures
        tree_ids(tree).difference(visited.insert(id)).len() < tree_ids(tree).difference(visited).len(),
{
    broadcast use vstd::set::group_set_axioms, vstd::set_lib::group_set_properties;
    lemma_node_index_range(tree.nodes@, id);
    let i = node_index(tree.nodes@, id);
    let ids = tree.nodes@.map_values(|n: AssetNode| n.id@);
    assert(ids[i] == id);
    vstd::seq_lib::seq_to_set_is_finite(ids);
    assert(ids.contains(id));
    assert(ids.to_set().contains(id));
    let a = tree_ids(tree).difference(visited);
    let b = tree_ids(tree).difference(visited.insert(id));
    assert(b =~= a.remove(id));
    assert(a.contains(id));
}

/// The hops in front of `proxy`, appended to `hops`: `visited` holds the SSH
/// hosts on the path so far, and at most `max_depth` hops are allowed.
/// An SSH hop's own chain comes before it.
pub open spec fn chain_from(
    tree: AssetTree,
    proxy: ConnectionProxyProfile,
    max_depth: nat,
    visited: Set<Seq<char>>,
    hops: Seq<HopView>,
) -> Result<Seq<HopView>, ChainErrorView>
    decreases tree_ids(tree).difference(visited).len(),
{
    match proxy {
        ConnectionProxyProfile::Direct => Ok(hops),
        ConnectionProxyProfile::Socks5 { host, port, username, password } => if hops.len() >= max_depth {
            Err(ChainErrorView::TooDeep)
        } else {
            Ok(hops.push(HopView::Socks5 { host: host@, port, username: opt_text(username), password: opt_text(password) }))
        },
        ConnectionProxyProfile::SshAsset { asset_id } => {
            let id = asset_id@;
            if visited.contains(id) {
                Err(ChainErrorView::Cycle)
            } else {
                match tree.node_spec(id) {
                    None => Err(ChainErrorView::AssetNotFound { asset_id: id }),
                    Some(node) => match node.ssh {
                        None => Err(ChainErrorView::AssetNotFound { asset_id: id }),
                        Some(spec) => match saved_profile(id, node.title@, spec) {
                            Err(e) => Err(ChainErrorView::InvalidUpstream { asset_id: id, source: e }),
                            Ok(upstream) => {
                                proof {
                                    lemma_fewer_unvisited(tree, visited, id);
                                }
                                match chain_from(tree, upstream.proxy, max_depth, visited.insert(id), hops) {
                                    Err(e) => Err(e),
                                    Ok(h) => if h.len() >= max_depth {
                                        Err(ChainErrorView::TooDeep)
                                    } else {
                                        Ok(h.push(HopView::Ssh(upstream)))
                                    },
                                }
                            },
                        },
                    },
                }
            }
        },
    }
}

/// A resolved chain only adds hops behind the ones it started from, and never
/// holds more than `max_depth` hops unless it added none.
pub proof fn lemma_chain_depth_is_bounded(
    tree: AssetTree,
    proxy: ConnectionProxyProfile,
    max_depth: nat,
    visited: Set<Seq<char>>,
    hops: Seq<HopView>,
)
    ensures
        chain_from(tree, proxy, max_depth, visited, hops) matches Ok(h) ==> {
            &&& h.len() >= hops.len()
            &&& h.take(hops.len() as int) == hops
            &&& (h.len() == hops.len() || h.len() <= max_depth)
        },
    decreases tree_ids(tree).difference(visited).len(),
{
    match proxy {
        ConnectionProxyProfile::Direct => {
            assert(hops.take(hops.len() as int) =~= hops);
        },
        ConnectionProxyProfile::Socks5 { host, port, username, password } => {
            let h = hops.push(HopView::Socks5 { host: host@, port, username: opt_text(username), password: opt_text(password) });
            assert(h.take(hops.len() as int) =~= hops);
        },
        ConnectionProxyProfile::SshAsset { asset_id } => {
            let id = asset_id@;
            if !visited.contains(id) {
                match tree.node_spec(id) {
                    None => {},
                    Some(node) => match node.ssh {
                        None => {},
                        Some(spec) => match saved_profile(id, node.title@, spec) {
                            Err(e) => {},
                            Ok(upstream) => {
                                lemma_fewer_unvisited(tree, visited, id);
                                lemma_chain_depth_is_bounded(tree, upstream.proxy, max_depth, visited.insert(id), hops);
                                match chain_from(tree, upstream.proxy, max_depth, visited.insert(id), hops) {
                                    Err(e) => {},
                                    Ok(h) => {
                                        let h2 = h.push(HopView::Ssh(upstream));
                                        assert(h2.take(hops.len() as int) =~= h.take(hops.len() as int));
                                    },
                                }
                            },
                        },
                    },
                }
            }
        },
    }
}

fn contains_text(v: &Vec<String>, s: &str) -> (r: bool)
    ensures
        r == texts_set(v@).contains(s@),
{
    let mut i: usize = 0;
    while i < v.len()
        invariant
            i <= v@.len(),
            forall|j: int| 0 <= j < i ==> v@[j]@ != s@,
        decreases v.len() - i,
    {
        if same_text(v[i].as_str(), s) {
            assert(v@.map_values(|t: String| t@)[i as int] == s@);
            return true;
        }
        i = i + 1;
    }
    proof {
        if texts_set(v@).contains(s@) {
            let m = v@.map_values(|t: String| t@);
            assert(m.contains(s@));
            let k = choose|k: int| 0 <= k < m.len() && #[trigger] m[k] == s@;
            assert(v@[k]@ == s@);
        }
    }
    false
}

fn resolve_proxy_profile(
    tree: &AssetTree,
    proxy: &ConnectionProxyProfile,
    max_depth: usize,
    visited: &mut Vec<String>,
    hops: &mut Vec<ResolvedProxyHop>,
) -> (r: Result<(), ProxyChainError>)
    ensures
        final(visited)@ == old(visited)@,
        match chain_from(*tree, *proxy, max_depth as nat, texts_set(old(visited)@), hops_view(old(hops)@)) {
            Ok(h) => r is Ok && hops_view(final(hops)@) == h,
            Err(e) => r matches Err(x) && x@ == e,
        },
    decreases tree_ids(*tree).difference(texts_set(old(visited)@)).len(),
{
    match proxy {
        ConnectionProxyProfile::Direct => Ok(()),
        ConnectionProxyProfile::Socks5 { host, port, username, password } => {
            if hops.len() >= max_depth {
                return Err(ProxyChainError::TooDeep);
            }
            let ghost before = hops@;
            hops.push(ResolvedProxyHop::Socks5 {
                host: host.clone(),
                port: *port,
                username: copy_text(username),
                password: copy_text(password),
            });
            assert(hops_view(hops@) =~= hops_view(before).push(hops@.last()@));
            Ok(())
        },
        ConnectionProxyProfile::SshAsset { asset_id } => {
            if contains_text(visited, asset_id.as_str()) {
                return Err(ProxyChainError::Cycle);
            }
            let node = match tree.node(asset_id.as_str()) {
                Some(n) => n,
                None => return Err(ProxyChainError::AssetNotFound { asset_id: asset_id.clone() }),
            };
            let spec = match tree.ssh_connection_spec(asset_id.as_str()) {
                Some(s) => s,
                None => return Err(ProxyChainError::AssetNotFound { asset_id: asset_id.clone() }),
            };
            let upstream = match ConnectionProfile::from_saved_asset(asset_id.as_str(), node.title.as_str(), spec) {
                Ok(p) => p,
                Err(e) => return Err(ProxyChainError::InvalidUpstream { asset_id: asset_id.clone(), source: e }),
            };
            let ghost old_visited = visited@;
            visited.push(asset_id.clone());
            proof {
                assert(texts_set(visited@) =~= texts_set(old_visited).insert(asset_id@)) by {
                    assert(visited@.map_values(|t: String| t@) =~= old_visited.map_values(|t: String| t@).push(asset_id@));
                    old_visited.map_values(|t: String| t@).lemma_push_to_set_commute(asset_id@);
                }
                lemma_fewer_unvisited(*tree, texts_set(old_visited), asset_id@);
            }
            let inner = resolve_proxy_profile(tree, &upstream.proxy, max_depth, visited, hops);
            visited.pop();
            assert(visited@ =~= old_visited);
            match inner {
                Err(e) => Err(e),
                Ok(()) => {
                    if hops.len() >= max_depth {
                        return Err(ProxyChainError::TooDeep);
                    }
                    let ghost before = hops@;
                    hops.push(ResolvedProxyHop::Ssh(Box::new(upstream.into_proxy_host())));
                    assert(hops_view(hops@) =~= hops_view(before).push(hops@.last()@));
                    Ok(())
                },
            }
        },
    }
}

/// The hops in front of `profile`'s host, outermost first, at most `max_depth` of them.
pub fn resolve_proxy_chain(tree: &AssetTree, profile: &ConnectionProfile, max_depth: usize)
    -> (r: Result<Vec<ResolvedProxyHop>, ProxyChainError>)
    ensures
        ({
            let start = match profile.asset_id {
                Some(a) => Set::<Seq<char>>::empty().insert(a@),
                None => Set::<Seq<char>>::empty(),
            };
            match chain_from(*tree, profile.proxy, max_depth as nat, start, Seq::empty()) {
                Ok(h) => r matches Ok(v) && hops_view(v@) == h,
                Err(e) => r matches Err(x) && x@ == e,
            }
        }),
        r matches Ok(v) ==> v@.len() <= max_depth,
{
    proof {
        let start = if profile.asset_id is Some {
            Set::<Seq<char>>::empty().insert(profile.asset_id->0@)
        } else {
            Set::<Seq<char>>::empty()
        };
        lemma_chain_depth_is_bounded(*tree, profile.proxy, max_depth as nat, start, Seq::empty());
    }
    let mut visited: Vec<String> = Vec::new();
    match &profile.asset_id {
        Some(a) => visited.push(a.clone()),
        None => {},
    }
    proof {
        if profile.asset_id is Some {
            let a = profile.asset_id->0;
            assert(visited@.map_values(|t: String| t@) =~= seq![a@]);
            assert(texts_set(visited@) =~= Set::<Seq<char>>::empty().insert(a@)) by {
                Seq::<Seq<char>>::empty().lemma_push_to_set_commute(a@);
                assert(Seq::<Seq<char>>::empty().push(a@) =~= seq![a@]);
                assert(Seq::<Seq<char>>::empty().to_set() =~= Set::<Seq<char>>::empty());
            }
        } else {
            assert(visited@.map_values(|t: String| t@) =~= Seq::<Seq<char>>::empty());
            assert(texts_set(visited@) =~= Set::<Seq<char>>::empty());
        }
    }
    let mut hops: Vec<ResolvedProxyHop> = Vec::new();
    assert(hops_view(hops@) =~= Seq::<HopView>::empty());
    match resolve_proxy_profile(tree, &profile.proxy, max_depth, &mut visited, &mut hops) {
        Ok(()) => Ok(hops),
        Err(e) => Err(e),
    }
}

/// Where the hop after `hop_index` connects to: the next SSH hop, or the
/// profile's own host after the last hop. A SOCKS5 or HTTP proxy can only
/// be the outermost hop.
pub fn next_chain_target(profile: &ConnectionProfile, hop_index: usize) -> (r: Option<(String, u16)>)
    requires
        hop_index < usize::MAX,
    ensures
        hop_index + 1 < profile.resolved_proxy_hops@.len() ==> match profile.resolved_proxy_hops@[hop_index + 1] {
            ResolvedProxyHop::Ssh(p) => (r matches Some((h, port)) && h@ == p.host@ && port == p.port),
            _ => r is None,
        },
        hop_index + 1 >= profile.resolved_proxy_hops@.len() ==>
            (r matches Some((h, port)) && h@ == profile.host@ && port == profile.port),
{
    if hop_index + 1 < profile.resolved_proxy_hops.len() {
        match &profile.resolved_proxy_hops[hop_index + 1] {
            ResolvedProxyHop::Ssh(p) => Some((p.host.clone(), p.port)),
            _ => None,
        }
    } else {
        Some((profile.host.clone(), profile.port))
    }
}

// ---------------------------------------------------------------------------
// Client settings
// ---------------------------------------------------------------------------

/// How the SSH client keeps a connection: never dropped for being idle, a
/// keepalive every `keepalive_interval_secs` seconds, given up after
/// `keepalive_max` unanswered ones, and no delay on small writes.
#[derive(Debug, Clone, Copy, PartialEq, Eq)]
pub struct SshClientSettings {
    pub inactivity_timeout_secs: Option<u64>,
    pub keepalive_interval_secs: Option<u64>,
    pub keepalive_max: usize,
    pub nodelay: bool,
}

pub const SSH_KEEPALIVE_INTERVAL_SECS: u64 = 15;
pub const SSH_KEEPALIVE_MAX_MISSES: usize = 3;

/// The settings every connection uses.
pub fn ssh_client_config() -> (r: SshClientSettings)
    ensures
        r.inactivity_timeout_secs is None,
        r.keepalive_interval_secs == Some(SSH_KEEPALIVE_INTERVAL_SECS),
        r.keepalive_max == SSH_KEEPALIVE_MAX_MISSES,
        r.nodelay,
{
    SshClientSettings {
        inactivity_timeout_secs: None,
        keepalive_interval_secs: Some(SSH_KEEPALIVE_INTERVAL_SECS),
        keepalive_max: SSH_KEEPALIVE_MAX_MISSES,
        nodelay: true,
    }
}

} // verus!
