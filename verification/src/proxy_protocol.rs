//! The messages exchanged with a proxy before the SSH connection runs
//! through it: SOCKS5 (greeting, username and password, CONNECT) and HTTP
//! `CONNECT`. The bytes to send are built here, and each reply read is
//! judged here; the socket is driven from outside.

use vstd::prelude::*;
use vstd::utf8::encode_utf8;
use crate::format::{dec_digits, dec_string, hex_digits, hex_fixed, push_char};
use crate::numbers::{parse_u16, parse_u16_spec};
use crate::ssh_profile::{ConnectionProfile, ResolvedProxyHop};
use crate::text::{
    cat, cat3, char_is_ws, chars_of, first_index_of, is_prefix, is_ws, lead, lead_count, lemma_lead_bound,
    lemma_lead_is, starts_with, substring, ws_pred,
};

verus! {

/// Why talking to the proxy failed.
#[derive(Debug, Clone, PartialEq, Eq)]
pub enum ProxyError {
    SocksCredentialsIncomplete,
    SocksGreetingVersion(u8),
    SocksAllMethodsRejected,
    SocksUnsupportedMethod(u8),
    SocksUsernameTooLong,
    SocksPasswordTooLong,
    SocksAuthVersion(u8),
    SocksAuthRejected,
    SocksHostTooLong,
    SocksReplyVersion(u8),
    SocksReplyReserved(u8),
    SocksReplyAddressType(u8),
    SocksConnectFailed(u8),
    HttpCredentialsIncomplete,
    HttpResponseTooLarge,
    HttpEmptyResponse,
    HttpMissingProtocol,
    HttpUnexpectedProtocol(String),
    HttpMissingStatus,
    HttpInvalidStatus(String),
    HttpStatusFailed(u16),
}

/// `{:#04x}`: `0x` and two lower-case hexadecimal digits.
pub open spec fn byte_hex(b: u8) -> Seq<char> {
    "0x"@ + hex_digits(b as nat, 2)
}

fn byte_hex_text(b: u8) -> (r: String)
    ensures
        r@ == byte_hex(b),
{
    let digits = hex_fixed(b as u128, 2);
    cat("0x", digits.as_str())
}

impl ProxyError {
    pub open spec fn message_spec(&self) -> Seq<char> {
        match self {
            ProxyError::SocksCredentialsIncomplete => "SOCKS5 username/password auth requires both username and password"@,
            ProxyError::SocksGreetingVersion(v) => "unexpected SOCKS5 greeting response version: "@ + byte_hex(*v),
            ProxyError::SocksAllMethodsRejected => "SOCKS5 proxy rejected all advertised authentication methods"@,
            ProxyError::SocksUnsupportedMethod(m) => "SOCKS5 proxy selected unsupported auth method: "@ + byte_hex(*m),
            ProxyError::SocksUsernameTooLong => "SOCKS5 username exceeds the protocol length limit"@,
            ProxyError::SocksPasswordTooLong => "SOCKS5 password exceeds the protocol length limit"@,
            ProxyError::SocksAuthVersion(v) => "unexpected SOCKS5 username/password auth version: "@ + byte_hex(*v),
            ProxyError::SocksAuthRejected => "SOCKS5 username/password authentication was rejected"@,
            ProxyError::SocksHostTooLong => "SOCKS5 target host exceeds the protocol length limit"@,
            ProxyError::SocksReplyVersion(v) => "unexpected SOCKS5 CONNECT reply version: "@ + byte_hex(*v),
            ProxyError::SocksReplyReserved(v) => "unexpected SOCKS5 CONNECT reserved byte: "@ + byte_hex(*v),
            ProxyError::SocksReplyAddressType(v) => "unexpected SOCKS5 CONNECT address type: "@ + byte_hex(*v),
            ProxyError::SocksConnectFailed(v) => "SOCKS5 CONNECT request failed with status: "@ + byte_hex(*v),
            ProxyError::HttpCredentialsIncomplete => "HTTP proxy basic auth requires both username and password"@,
            ProxyError::HttpResponseTooLarge => "HTTP CONNECT response headers exceeded the maximum supported size"@,
            ProxyError::HttpEmptyResponse => "HTTP CONNECT response was empty"@,
            ProxyError::HttpMissingProtocol => "HTTP CONNECT response is missing its protocol version"@,
            ProxyError::HttpUnexpectedProtocol(p) => "unexpected HTTP CONNECT response protocol: "@ + p@,
            ProxyError::HttpMissingStatus => "HTTP CONNECT response is missing its status code"@,
            ProxyError::HttpInvalidStatus(s) => "invalid HTTP CONNECT status code: "@ + s@,
            ProxyError::HttpStatusFailed(s) => "HTTP CONNECT request failed with status: "@ + dec_digits(*s as nat),
        }
    }

    pub fn message(&self) -> (r: String)
        ensures
            r@ == self.message_spec(),
    {
        match self {
            ProxyError::SocksCredentialsIncomplete =>
                String::from_str("SOCKS5 username/password auth requires both username and password"),
            ProxyError::SocksGreetingVersion(v) => {
                let h = byte_hex_text(*v);
                cat("unexpected SOCKS5 greeting response version: ", h.as_str())
            },
            ProxyError::SocksAllMethodsRejected =>
                String::from_str("SOCKS5 proxy rejected all advertised authentication methods"),
            ProxyError::SocksUnsupportedMethod(m) => {
                let h = byte_hex_text(*m);
                cat("SOCKS5 proxy selected unsupported auth method: ", h.as_str())
            },
            ProxyError::SocksUsernameTooLong => String::from_str("SOCKS5 username exceeds the protocol length limit"),
            ProxyError::SocksPasswordTooLong => String::from_str("SOCKS5 password exceeds the protocol length limit"),
            ProxyError::SocksAuthVersion(v) => {
                let h = byte_hex_text(*v);
                cat("unexpected SOCKS5 username/password auth version: ", h.as_str())
            },
            ProxyError::SocksAuthRejected => String::from_str("SOCKS5 username/password authentication was rejected"),
            ProxyError::SocksHostTooLong => String::from_str("SOCKS5 target host exceeds the protocol length limit"),
            ProxyError::SocksReplyVersion(v) => {
                let h = byte_hex_text(*v);
                cat("unexpected SOCKS5 CONNECT reply version: ", h.as_str())
            },
            ProxyError::SocksReplyReserved(v) => {
                let h = byte_hex_text(*v);
                cat("unexpected SOCKS5 CONNECT reserved byte: ", h.as_str())
            },
            ProxyError::SocksReplyAddressType(v) => {
                let h = byte_hex_text(*v);
                cat("unexpected SOCKS5 CONNECT address type: ", h.as_str())
            },
            ProxyError::SocksConnectFailed(v) => {
                let h = byte_hex_text(*v);
                cat("SOCKS5 CONNECT request failed with status: ", h.as_str())
            },
            ProxyError::HttpCredentialsIncomplete =>
                String::from_str("HTTP proxy basic auth requires both username and password"),
            ProxyError::HttpResponseTooLarge =>
                String::from_str("HTTP CONNECT response headers exceeded the maximum supported size"),
            ProxyError::HttpEmptyResponse => String::from_str("HTTP CONNECT response was empty"),
            ProxyError::HttpMissingProtocol => String::from_str("HTTP CONNECT response is missing its protocol version"),
            ProxyError::HttpUnexpectedProtocol(p) => cat("unexpected HTTP CONNECT response protocol: ", p.as_str()),
            ProxyError::HttpMissingStatus => String::from_str("HTTP CONNECT response is missing its status code"),
            ProxyError::HttpInvalidStatus(s) => cat("invalid HTTP CONNECT status code: ", s.as_str()),
            ProxyError::HttpStatusFailed(s) => {
                let d = dec_string(*s as u64);
                cat("HTTP CONNECT request failed with status: ", d.as_str())
            },
        }
    }
}

// ---------------------------------------------------------------------------
// SOCKS5
// ---------------------------------------------------------------------------

/// The greeting: version 5 and the methods offered, "no authentication"
/// always and "username and password" when credentials are given (both must
/// be, or neither).
pub fn socks5_greeting(has_username: bool, has_password: bool) -> (r: Result<Vec<u8>, ProxyError>)
    ensures
        has_username != has_password ==> r == Err::<Vec<u8>, ProxyError>(ProxyError::SocksCredentialsIncomplete),
        has_username && has_password ==> (r matches Ok(b) && b@ == seq![0x05u8, 0x02, 0x00, 0x02]),
        !has_username && !has_password ==> (r matches Ok(b) && b@ == seq![0x05u8, 0x01, 0x00]),
{
    if has_username != has_password {
        return Err(ProxyError::SocksCredentialsIncomplete);
    }
    let r: Vec<u8> = if has_username { vec![0x05u8, 0x02, 0x00, 0x02] } else { vec![0x05u8, 0x01, 0x00] };
    assert(r@ =~= (if has_username { seq![0x05u8, 0x02, 0x00, 0x02] } else { seq![0x05u8, 0x01, 0x00] }));
    Ok(r)
}

/// How the proxy wants the client to authenticate.
#[derive(Debug, Clone, Copy, PartialEq, Eq, Structural)]
pub enum Socks5Auth {
    NoAuthentication,
    UsernamePassword,
}

/// Judges the proxy's answer to the greeting: its version, then the method
/// it chose. Username and password are chosen only when they were offered.
pub fn socks5_method_verdict(reply_version: u8, selected_method: u8) -> (r: Result<Socks5Auth, ProxyError>)
    ensures
        r == (if reply_version != 0x05 {
            Err(ProxyError::SocksGreetingVersion(reply_version))
        } else if selected_method == 0x00 {
            Ok(Socks5Auth::NoAuthentication)
        } else if selected_method == 0x02 {
            Ok(Socks5Auth::UsernamePassword)
        } else if selected_method == 0xff {
            Err(ProxyError::SocksAllMethodsRejected)
        } else {
            Err(ProxyError::SocksUnsupportedMethod(selected_method))
        }),
{
    if reply_version != 0x05 {
        Err(ProxyError::SocksGreetingVersion(reply_version))
    } else if selected_method == 0x00 {
        Ok(Socks5Auth::NoAuthentication)
    } else if selected_method == 0x02 {
        Ok(Socks5Auth::UsernamePassword)
    } else if selected_method == 0xff {
        Err(ProxyError::SocksAllMethodsRejected)
    } else {
        Err(ProxyError::SocksUnsupportedMethod(selected_method))
    }
}

fn push_bytes(out: &mut Vec<u8>, bytes: &[u8])
    ensures
        final(out)@ == old(out)@ + bytes@,
{
    let mut i: usize = 0;
    let ghost start = out@;
    while i < bytes.len()
        invariant
            i <= bytes.len(),
            out@ == start + bytes@.take(i as int),
        decreases bytes.len() - i,
    {
        out.push(bytes[i]);
        assert(bytes@.take(i + 1) =~= bytes@.take(i as int).push(bytes[i as int]));
        i = i + 1;
    }
    assert(bytes@.take(bytes.len() as int) =~= bytes@);
}

/// The username and password sub-negotiation request: version 1, then each
/// of the two as a length byte and its UTF-8 bytes (at most 255 of them).
pub fn socks5_password_request(username: &str, password: &str) -> (r: Result<Vec<u8>, ProxyError>)
    ensures
        encode_utf8(username@).len() > 255 ==> r == Err::<Vec<u8>, ProxyError>(ProxyError::SocksUsernameTooLong),
        encode_utf8(username@).len() <= 255 && encode_utf8(password@).len() > 255
            ==> r == Err::<Vec<u8>, ProxyError>(ProxyError::SocksPasswordTooLong),
        encode_utf8(username@).len() <= 255 && encode_utf8(password@).len() <= 255 ==> (r matches Ok(b)
            && b@ == seq![0x01u8, encode_utf8(username@).len() as u8] + encode_utf8(username@)
                + seq![encode_utf8(password@).len() as u8] + encode_utf8(password@)),
{
    let user = username.as_bytes();
    let pass = password.as_bytes();
    if user.len() > 255 {
        return Err(ProxyError::SocksUsernameTooLong);
    }
    if pass.len() > 255 {
        return Err(ProxyError::SocksPasswordTooLong);
    }
    let mut r: Vec<u8> = vec![0x01u8, user.len() as u8];
    push_bytes(&mut r, user);
    r.push(pass.len() as u8);
    push_bytes(&mut r, pass);
    assert(r@ =~= seq![0x01u8, user@.len() as u8] + user@ + seq![pass@.len() as u8] + pass@);
    Ok(r)
}

/// Judges the answer to the username and password: version 1, status 0.
pub fn socks5_password_verdict(reply_version: u8, status: u8) -> (r: Result<(), ProxyError>)
    ensures
        r == (if reply_version != 0x01 {
            Err(ProxyError::SocksAuthVersion(reply_version))
        } else if status != 0x00 {
            Err(ProxyError::SocksAuthRejected)
        } else {
            Ok(())
        }),
{
    if reply_version != 0x01 {
        Err(ProxyError::SocksAuthVersion(reply_version))
    } else if status != 0x00 {
        Err(ProxyError::SocksAuthRejected)
    } else {
        Ok(())
    }
}

/// Where the proxy is to connect: an IPv4 or IPv6 address when the target
/// host reads as one, else the host name.
#[derive(Debug, Clone, PartialEq, Eq)]
pub enum ProxyTarget {
    Ipv4([u8; 4]),
    Ipv6([u8; 16]),
    Domain(String),
}

pub open spec fn port_bytes(port: u16) -> Seq<u8> {
    seq![(port / 256) as u8, (port % 256) as u8]
}

/// The CONNECT request: version 5, command 1, a reserved zero, the address
/// (type 1 and four bytes, type 4 and sixteen, or type 3, a length byte and
/// the name's UTF-8 bytes, at most 255), and the port, high byte first.
pub fn socks5_connect_request(target: &ProxyTarget, port: u16) -> (r: Result<Vec<u8>, ProxyError>)
    ensures
        match target {
            ProxyTarget::Ipv4(a) => r matches Ok(b) && b@ == seq![0x05u8, 0x01, 0x00, 0x01] + a@ + port_bytes(port),
            ProxyTarget::Ipv6(a) => r matches Ok(b) && b@ == seq![0x05u8, 0x01, 0x00, 0x04] + a@ + port_bytes(port),
            ProxyTarget::Domain(host) => if encode_utf8(host@).len() > 255 {
                r == Err::<Vec<u8>, ProxyError>(ProxyError::SocksHostTooLong)
            } else {
                r matches Ok(b) && b@ == seq![0x05u8, 0x01, 0x00, 0x03, encode_utf8(host@).len() as u8]
                    + encode_utf8(host@) + port_bytes(port)
            },
        },
{
    let mut r: Vec<u8> = vec![0x05u8, 0x01, 0x00];
    let ghost head = r@;
    match target {
        ProxyTarget::Ipv4(a) => {
            r.push(0x01);
            push_bytes(&mut r, a.as_slice());
        },
        ProxyTarget::Ipv6(a) => {
            r.push(0x04);
            push_bytes(&mut r, a.as_slice());
        },
        ProxyTarget::Domain(host) => {
            let bytes = host.as_str().as_bytes();
            if bytes.len() > 255 {
                return Err(ProxyError::SocksHostTooLong);
            }
            r.push(0x03);
            r.push(bytes.len() as u8);
            push_bytes(&mut r, bytes);
        },
    }
    r.push((port / 256) as u8);
    r.push((port % 256) as u8);
    proof {
        match target {
            ProxyTarget::Ipv4(a) => {
                assert(r@ =~= seq![0x05u8, 0x01, 0x00, 0x01] + a@ + port_bytes(port));
            },
            ProxyTarget::Ipv6(a) => {
                assert(r@ =~= seq![0x05u8, 0x01, 0x00, 0x04] + a@ + port_bytes(port));
            },
            ProxyTarget::Domain(host) => {
                assert(r@ =~= seq![0x05u8, 0x01, 0x00, 0x03, encode_utf8(host@).len() as u8] + encode_utf8(host@)
                    + port_bytes(port));
            },
        }
    }
    Ok(r)
}

/// How long the bound address in the CONNECT reply is.
#[derive(Debug, Clone, Copy, PartialEq, Eq, Structural)]
pub enum Socks5BoundAddress {
    /// Four bytes.
    Ipv4,
    /// A length byte, then that many bytes.
    Domain,
    /// Sixteen bytes.
    Ipv6,
}

/// Judges the first four bytes of the CONNECT reply: version 5, a zero
/// reserved byte, a known address type. The reply code is judged once the
/// whole reply has been read (see `socks5_connect_verdict`).
pub fn socks5_reply_header(reply_version: u8, reserved: u8, address_type: u8) -> (r: Result<Socks5BoundAddress, ProxyError>)
    ensures
        r == (if reply_version != 0x05 {
            Err(ProxyError::SocksReplyVersion(reply_version))
        } else if reserved != 0x00 {
            Err(ProxyError::SocksReplyReserved(reserved))
        } else if address_type == 0x01 {
            Ok(Socks5BoundAddress::Ipv4)
        } else if address_type == 0x03 {
            Ok(Socks5BoundAddress::Domain)
        } else if address_type == 0x04 {
            Ok(Socks5BoundAddress::Ipv6)
        } else {
            Err(ProxyError::SocksReplyAddressType(address_type))
        }),
{
    if reply_version != 0x05 {
        Err(ProxyError::SocksReplyVersion(reply_version))
    } else if reserved != 0x00 {
        Err(ProxyError::SocksReplyReserved(reserved))
    } else if address_type == 0x01 {
        Ok(Socks5BoundAddress::Ipv4)
    } else if address_type == 0x03 {
        Ok(Socks5BoundAddress::Domain)
    } else if address_type == 0x04 {
        Ok(Socks5BoundAddress::Ipv6)
    } else {
        Err(ProxyError::SocksReplyAddressType(address_type))
    }
}

/// The CONNECT succeeded when its reply code is 0.
pub fn socks5_connect_verdict(reply_code: u8) -> (r: Result<(), ProxyError>)
    ensures
        r == (if reply_code == 0x00 { Ok(()) } else { Err(ProxyError::SocksConnectFailed(reply_code)) }),
{
    if reply_code == 0x00 {
        Ok(())
    } else {
        Err(ProxyError::SocksConnectFailed(reply_code))
    }
}

// ---------------------------------------------------------------------------
// HTTP CONNECT
// ---------------------------------------------------------------------------

/// `host:port`, the host in brackets when it is an IPv6 address.
pub open spec fn proxy_authority(host: Seq<char>, port: u16, host_is_ipv6: bool) -> Seq<char> {
    if host_is_ipv6 {
        "["@ + host + "]:"@ + dec_digits(port as nat)
    } else {
        host + ":"@ + dec_digits(port as nat)
    }
}

pub fn format_proxy_authority(target_host: &str, target_port: u16, host_is_ipv6: bool) -> (r: String)
    ensures
        r@ == proxy_authority(target_host@, target_port, host_is_ipv6),
{
    let port = dec_string(target_port as u64);
    if host_is_ipv6 {
        let head = cat3("[", target_host, "]:");
        cat(head.as_str(), port.as_str())
    } else {
        cat3(target_host, ":", port.as_str())
    }
}

/// The base64 alphabet.
pub open spec fn b64_char(i: int) -> char {
    if i < 26 {
        (65 + i) as char
    } else if i < 52 {
        (97 + i - 26) as char
    } else if i < 62 {
        (48 + i - 52) as char
    } else if i == 62 {
        '+'
    } else {
        '/'
    }
}

/// Standard base64 with `=` padding.
pub open spec fn base64(b: Seq<u8>) -> Seq<char>
    decreases b.len(),
{
    if b.len() == 0 {
        Seq::empty()
    } else {
        let first = b[0] as int;
        let second: int = if b.len() > 1 { b[1] as int } else { 0 };
        let third: int = if b.len() > 2 { b[2] as int } else { 0 };
        seq![
            b64_char(first / 4),
            b64_char((first % 4) * 16 + second / 16),
            if b.len() > 1 { b64_char((second % 16) * 4 + third / 64) } else { '=' },
            if b.len() > 2 { b64_char(third % 64) } else { '=' },
        ] + base64(if b.len() > 3 { b.skip(3) } else { Seq::empty() })
    }
}

fn b64_char_exec(i: u8) -> (c: char)
    requires
        i < 64,
    ensures
        c == b64_char(i as int),
{
    if i < 26 {
        (65u8 + i) as char
    } else if i < 52 {
        (97u8 + i - 26) as char
    } else if i < 62 {
        (48u8 + i - 52) as char
    } else if i == 62 {
        '+'
    } else {
        '/'
    }
}

fn base64_of(b: &[u8]) -> (r: String)
    ensures
        r@ == base64(b@),
{
    let mut r = String::new();
    let mut i: usize = 0;
    assert(b@.skip(0) =~= b@);
    while i < b.len()
        invariant
            i <= b.len(),
            r@ + base64(b@.skip(i as int)) == base64(b@),
        decreases b.len() - i,
    {
        let ghost rest = b@.skip(i as int);
        let first = b[i];
        let has_second = b.len() - i > 1;
        let has_third = b.len() - i > 2;
        let second: u8 = if has_second { b[i + 1] } else { 0 };
        let third: u8 = if has_third { b[i + 2] } else { 0 };
        assert(rest[0] == first);
        assert(has_second ==> rest[1] == second);
        assert(has_third ==> rest[2] == third);
        let ghost before = r@;
        push_char(&mut r, b64_char_exec(first / 4));
        push_char(&mut r, b64_char_exec((first % 4) * 16 + second / 16));
        if has_second {
            push_char(&mut r, b64_char_exec((second % 16) * 4 + third / 64));
        } else {
            push_char(&mut r, '=');
        }
        if has_third {
            push_char(&mut r, b64_char_exec(third % 64));
        } else {
            push_char(&mut r, '=');
        }
        let next = if b.len() - i <= 3 { b.len() } else { i + 3 };
        proof {
            let tail = if rest.len() > 3 { rest.skip(3) } else { Seq::<u8>::empty() };
            assert(tail =~= b@.skip(next as int));
            assert(r@ =~= before + (base64(rest).take(4)));
            assert(base64(rest) =~= base64(rest).take(4) + base64(tail));
        }
        i = next;
    }
    assert(b@.skip(i as int) =~= Seq::<u8>::empty());
    r
}

/// The `Proxy-Authorization: Basic` value: base64 of the UTF-8 bytes of
/// `username:password`.
pub fn encode_basic_auth_header(username: &str, password: &str) -> (r: String)
    ensures
        r@ == base64(encode_utf8(username@ + ":"@ + password@)),
{
    let raw = cat3(username, ":", password);
    base64_of(raw.as_str().as_bytes())
}

/// The CONNECT request for `authority`, with basic credentials when given
/// (both, or neither).
pub open spec fn http_connect_text(authority: Seq<char>, credentials: Option<(Seq<char>, Seq<char>)>) -> Seq<char> {
    "CONNECT "@ + authority + " HTTP/1.1\r\nHost: "@ + authority + "\r\n"@ + match credentials {
        Some((u, p)) => "Proxy-Authorization: Basic "@ + base64(encode_utf8(u + ":"@ + p)) + "\r\n"@,
        None => Seq::empty(),
    } + "\r\n"@
}

pub fn http_connect_request(authority: &str, username: Option<&str>, password: Option<&str>) -> (r: Result<String, ProxyError>)
    ensures
        username.is_some() != password.is_some() ==> r == Err::<String, ProxyError>(ProxyError::HttpCredentialsIncomplete),
        username.is_none() && password.is_none() ==> (r matches Ok(t) && t@ == http_connect_text(authority@, None)),
        username.is_some() && password.is_some() ==> (r matches Ok(t)
            && t@ == http_connect_text(authority@, Some((username->0@, password->0@)))),
{
    let head = cat3("CONNECT ", authority, " HTTP/1.1\r\nHost: ");
    let mut request = cat3(head.as_str(), authority, "\r\n");
    match (username, password) {
        (Some(u), Some(p)) => {
            let encoded = encode_basic_auth_header(u, p);
            let line = cat3("Proxy-Authorization: Basic ", encoded.as_str(), "\r\n");
            request = cat(request.as_str(), line.as_str());
        },
        (None, None) => {},
        _ => return Err(ProxyError::HttpCredentialsIncomplete),
    }
    let r = cat(request.as_str(), "\r\n");
    Ok(r)
}

/// The most response bytes read while waiting for the end of the headers.
pub const MAX_HTTP_CONNECT_RESPONSE_BYTES: usize = 16384;

/// Whether the response read so far is complete (it ends with an empty
/// line); too long an incomplete response is an error.
pub fn http_response_progress(response: &[u8]) -> (r: Result<bool, ProxyError>)
    ensures
        ({
            let n = response@.len();
            let ends = n >= 4 && response@.skip(n - 4) == seq![0x0du8, 0x0a, 0x0d, 0x0a];
            r == (if ends {
                Ok(true)
            } else if n >= MAX_HTTP_CONNECT_RESPONSE_BYTES {
                Err(ProxyError::HttpResponseTooLarge)
            } else {
                Ok(false)
            })
        }),
{
    let n = response.len();
    let ends = n >= 4 && response[n - 4] == 0x0d && response[n - 3] == 0x0a && response[n - 2] == 0x0d
        && response[n - 1] == 0x0a;
    proof {
        if n >= 4 {
            let tail = response@.skip(n - 4);
            if ends {
                assert(tail =~= seq![0x0du8, 0x0a, 0x0d, 0x0a]);
            } else {
                if tail == seq![0x0du8, 0x0a, 0x0d, 0x0a] {
                    assert(tail[0] == response@[n - 4]);
                    assert(tail[1] == response@[n - 3]);
                    assert(tail[2] == response@[n - 2]);
                    assert(tail[3] == response@[n - 1]);
                }
            }
        }
    }
    if ends {
        Ok(true)
    } else if n >= MAX_HTTP_CONNECT_RESPONSE_BYTES {
        Err(ProxyError::HttpResponseTooLarge)
    } else {
        Ok(false)
    }
}

/// The first line as `str::lines` gives it: up to the first `\n`, without
/// a `\r` right before it; none for empty text.
pub open spec fn first_line(t: Seq<char>) -> Option<Seq<char>> {
    if t.len() == 0 {
        None
    } else if t.contains('\n') {
        let l = t.take(first_index_of(t, '\n'));
        Some(if l.len() > 0 && l.last() == '\r' { l.drop_last() } else { l })
    } else {
        Some(t)
    }
}

pub open spec fn non_ws_pred() -> spec_fn(char) -> bool {
    |c: char| !is_ws(c)
}

pub open spec fn skip_ws(s: Seq<char>) -> Seq<char> {
    s.skip(lead(s, ws_pred()) as int)
}

/// The first whitespace-separated word of `s`, empty when there is none.
pub open spec fn first_word(s: Seq<char>) -> Seq<char> {
    skip_ws(s).take(lead(skip_ws(s), non_ws_pred()) as int)
}

/// What follows the first word of `s`.
pub open spec fn after_first_word(s: Seq<char>) -> Seq<char> {
    skip_ws(s).skip(lead(skip_ws(s), non_ws_pred()) as int)
}

fn lead_non_ws(v: &Vec<char>, start: usize) -> (k: usize)
    requires
        start <= v.len(),
    ensures
        k == lead(v@.skip(start as int), non_ws_pred()),
        start + k <= v.len(),
{
    let ghost s = v@.skip(start as int);
    let mut i: usize = start;
    while i < v.len()
        invariant
            start <= i <= v.len(),
            s == v@.skip(start as int),
            forall|j: int| 0 <= j < i - start ==> non_ws_pred()(#[trigger] s[j]),
        decreases v.len() - i,
    {
        if char_is_ws(v[i]) {
            assert(s[i - start] == v@[i as int]);
            proof { lemma_lead_is(s, non_ws_pred(), i - start); }
            return i - start;
        }
        assert(s[i - start] == v@[i as int]);
        i = i + 1;
    }
    proof { lemma_lead_is(s, non_ws_pred(), i - start); }
    i - start
}

fn split_first_word(s: &str) -> (r: (String, String))
    ensures
        r.0@ == first_word(s@),
        r.1@ == after_first_word(s@),
{
    let v = chars_of(s);
    let a = lead_count(&v, true, ' ');
    proof { lemma_lead_bound(v@, ws_pred()); }
    let k = lead_non_ws(&v, a);
    assert(skip_ws(s@) =~= v@.skip(a as int));
    let word = substring(s, a, a + k);
    let rest = substring(s, a + k, v.len());
    assert(word@ =~= skip_ws(s@).take(k as int));
    assert(rest@ =~= skip_ws(s@).skip(k as int));
    (word, rest)
}

fn first_line_of(t: &str) -> (r: Option<String>)
    ensures
        match r {
            Some(l) => first_line(t@) == Some(l@),
            None => first_line(t@) is None,
        },
{
    let v = chars_of(t);
    if v.len() == 0 {
        return None;
    }
    let mut k: usize = 0;
    while k < v.len()
        invariant
            k <= v.len(),
            v@ == t@,
            forall|j: int| 0 <= j < k ==> #[trigger] v@[j] != '\n',
        decreases v.len() - k,
    {
        if v[k] == '\n' {
            proof { crate::text::lemma_first_index_is(t@, '\n', k as int); }
            assert(t@.contains('\n')) by {
                assert(t@[k as int] == '\n');
            }
            if k > 0 && v[k - 1] == '\r' {
                let l = substring(t, 0, k - 1);
                assert(l@ =~= t@.take(k as int).drop_last());
                return Some(l);
            } else {
                let l = substring(t, 0, k);
                assert(l@ =~= t@.take(k as int));
                return Some(l);
            }
        }
        k = k + 1;
    }
    assert(!t@.contains('\n'));
    Some(String::from_str(t))
}

/// Reads the status code of a CONNECT response: the second word of its
/// first line, the first word being the protocol (`HTTP/...`).
pub fn parse_http_connect_status(response: &str) -> (r: Result<u16, ProxyError>)
    ensures
        match first_line(response@) {
            None => r == Err::<u16, ProxyError>(ProxyError::HttpEmptyResponse),
            Some(line) => {
                let protocol = first_word(line);
                let status = first_word(after_first_word(line));
                if protocol.len() == 0 {
                    r == Err::<u16, ProxyError>(ProxyError::HttpMissingProtocol)
                } else if !is_prefix("HTTP/"@, protocol) {
                    r matches Err(ProxyError::HttpUnexpectedProtocol(p)) && p@ == protocol
                } else if status.len() == 0 {
                    r == Err::<u16, ProxyError>(ProxyError::HttpMissingStatus)
                } else {
                    match parse_u16_spec(status) {
                        Some(v) => r == Ok::<u16, ProxyError>(v),
                        None => r matches Err(ProxyError::HttpInvalidStatus(x)) && x@ == status,
                    }
                }
            },
        },
{
    let line = match first_line_of(response) {
        Some(l) => l,
        None => return Err(ProxyError::HttpEmptyResponse),
    };
    let (protocol, rest) = split_first_word(line.as_str());
    if protocol.as_str().unicode_len() == 0 {
        return Err(ProxyError::HttpMissingProtocol);
    }
    if !starts_with(protocol.as_str(), "HTTP/") {
        return Err(ProxyError::HttpUnexpectedProtocol(protocol));
    }
    let (status, _) = split_first_word(rest.as_str());
    if status.as_str().unicode_len() == 0 {
        return Err(ProxyError::HttpMissingStatus);
    }
    match parse_u16(status.as_str()) {
        Some(v) => Ok(v),
        None => Err(ProxyError::HttpInvalidStatus(status)),
    }
}

/// The tunnel is open when the status is a success (200 to 299).
pub fn http_connect_verdict(status: u16) -> (r: Result<(), ProxyError>)
    ensures
        r == (if 200 <= status < 300 { Ok(()) } else { Err(ProxyError::HttpStatusFailed(status)) }),
{
    if 200 <= status && status < 300 {
        Ok(())
    } else {
        Err(ProxyError::HttpStatusFailed(status))
    }
}

// ---------------------------------------------------------------------------
// The chain of hops
// ---------------------------------------------------------------------------

/// The hop after `hop_index` is not an SSH host: HTTP and SOCKS5 proxies can
/// only be the first hop.
#[derive(Debug, Clone, Copy, PartialEq, Eq, Structural)]
pub struct MisplacedProxyHop;

impl MisplacedProxyHop {
    pub open spec fn message_spec(self) -> Seq<char> {
        "HTTP and SOCKS5 hops must be the outermost transport in resolved SSH proxy chains"@
    }

    pub fn message(self) -> (r: &'static str)
        ensures
            r@ == self.message_spec(),
    {
        "HTTP and SOCKS5 hops must be the outermost transport in resolved SSH proxy chains"
    }
}

/// Where the hop at `hop_index` is to forward to: the next SSH hop, or the
/// target host after the last hop.
pub fn next_chain_target(profile: &ConnectionProfile, hop_index: usize) -> (r: Result<(String, u16), MisplacedProxyHop>)
    ensures
        ({
            let hops = profile.resolved_proxy_hops@;
            let next = hop_index + 1;
            if next >= hops.len() {
                r matches Ok((h, p)) && h == profile.host && p == profile.port
            } else {
                match hops[next] {
                    ResolvedProxyHop::Ssh(upstream) => r matches Ok((h, p)) && h == upstream.host && p == upstream.port,
                    _ => r == Err::<(String, u16), MisplacedProxyHop>(MisplacedProxyHop),
                }
            }
        }),
{
    let hops = &profile.resolved_proxy_hops;
    if hop_index >= hops.len() || hops.len() - hop_index <= 1 {
        return Ok((profile.host.clone(), profile.port));
    }
    match &hops[hop_index + 1] {
        ResolvedProxyHop::Ssh(upstream) => Ok((upstream.host.clone(), upstream.port)),
        _ => Err(MisplacedProxyHop),
    }
}

} // verus!
