//! Checks on user-supplied names, URLs and file sizes.
use crate::text::{chars_of, str_eq};
use vstd::prelude::*;

verus! {

/// Longest accepted virtual device name.
pub const MAX_DEVICE_NAME_LEN: usize = 64;

/// Largest accepted configuration file, in bytes.
pub const MAX_CONFIG_FILE_SIZE: u64 = 1_048_576;

/// Characters allowed in a PulseAudio sink name chosen by the user.
pub open spec fn is_device_name_char(c: char) -> bool {
    ||| 'a' <= c <= 'z'
    ||| 'A' <= c <= 'Z'
    ||| '0' <= c <= '9'
    ||| c == '_'
    ||| c == '-'
}

/// A device name is non-empty, at most 64 characters long, and made of ASCII letters,
/// digits, `_` and `-` (so its length in bytes equals its length in characters).
pub open spec fn valid_device_name(s: Seq<char>) -> bool {
    &&& 0 < s.len() <= MAX_DEVICE_NAME_LEN
    &&& forall|i: int| 0 <= i < s.len() ==> is_device_name_char(#[trigger] s[i])
}

/// The name used for the virtual device when the configured one is not acceptable.
pub open spec fn default_device_name() -> Seq<char> {
    seq!['Z', 'u', 'n', 'd', 'a', 'm', 'o', 'n', 'V', 'R', 'C']
}

/// The default VOICEVOX endpoint.
pub open spec fn default_voicevox_url() -> Seq<char> {
    seq!['h', 't', 't', 'p', ':', '/', '/', '1', '2', '7', '.', '0', '.', '0', '.', '1', ':', '5', '0', '0', '2', '1']
}

/// `"ZundamonVRC"`.
pub fn default_device_name_str() -> (s: &'static str)
    ensures
        s@ == default_device_name(),
{
    let s = "ZundamonVRC";
    proof {
        reveal_strlit("ZundamonVRC");
        assert(s@ =~= default_device_name());
    }
    s
}

/// `"http://127.0.0.1:50021"`.
pub fn default_voicevox_url_str() -> (s: &'static str)
    ensures
        s@ == default_voicevox_url(),
{
    let s = "http://127.0.0.1:50021";
    proof {
        reveal_strlit("http://127.0.0.1:50021");
        assert(s@ =~= default_voicevox_url());
    }
    s
}

fn is_device_name_char_exec(c: char) -> (b: bool)
    ensures
        b == is_device_name_char(c),
{
    ('a' <= c && c <= 'z') || ('A' <= c && c <= 'Z') || ('0' <= c && c <= '9') || c == '_' || c
        == '-'
}

/// Whether `name` is acceptable as a virtual device (sink) name.
pub fn is_valid_device_name(name: &str) -> (b: bool)
    ensures
        b == valid_device_name(name@),
{
    let cs = chars_of(name);
    if cs.len() == 0 || cs.len() > MAX_DEVICE_NAME_LEN {
        return false;
    }
    let mut i: usize = 0;
    while i < cs.len()
        invariant
            cs@ == name@,
            i <= cs@.len(),
            forall|j: int| 0 <= j < i ==> is_device_name_char(#[trigger] cs@[j]),
        decreases cs@.len() - i,
    {
        if !is_device_name_char_exec(cs[i]) {
            return false;
        }
        i = i + 1;
    }
    true
}

/// The default device name is itself valid.
pub proof fn lemma_default_device_name_valid()
    ensures
        valid_device_name(default_device_name()),
{
    let d = default_device_name();
    assert forall|i: int| 0 <= i < d.len() implies is_device_name_char(#[trigger] d[i]) by {
        assert(d[0] == 'Z' && d[1] == 'u' && d[2] == 'n' && d[3] == 'd' && d[4] == 'a' && d[5]
            == 'm' && d[6] == 'o' && d[7] == 'n' && d[8] == 'V' && d[9] == 'R' && d[10] == 'C');
    }
}

/// `name` when it is a valid device name, else the default device name.
pub fn sanitize_device_name(name: &str) -> (r: &str)
    ensures
        r@ == (if valid_device_name(name@) {
            name@
        } else {
            default_device_name()
        }),
        valid_device_name(r@),
{
    proof {
        lemma_default_device_name_valid();
    }
    if is_valid_device_name(name) {
        name
    } else {
        default_device_name_str()
    }
}

/// Why a configuration file was refused.
#[derive(Debug, Clone, Copy, PartialEq, Eq)]
pub enum ConfigFileError {
    /// The file is larger than `MAX_CONFIG_FILE_SIZE` bytes; the field is its size.
    TooLarge(u64),
}

/// Accepts a configuration file of `file_len` bytes when it is at most
/// `MAX_CONFIG_FILE_SIZE` bytes long.
pub fn check_config_file_size(file_len: u64) -> (r: Result<(), ConfigFileError>)
    ensures
        r is Ok <==> file_len <= MAX_CONFIG_FILE_SIZE,
        r is Err ==> r == Err::<(), ConfigFileError>(ConfigFileError::TooLarge(file_len)),
{
    if file_len > MAX_CONFIG_FILE_SIZE {
        Err(ConfigFileError::TooLarge(file_len))
    } else {
        Ok(())
    }
}

#[verifier::external_type_specification]
#[verifier::external_body]
pub struct ExUrlParseError(url::ParseError);

/// For a URL string, `Some((scheme, host))` when `url::Url::parse` accepts it, with the
/// parsed URL's `scheme()` and `host_str()`; `None` when it refuses it.
pub uninterp spec fn url_scheme_and_host(input: Seq<char>) -> Option<(Seq<char>, Option<Seq<char>>)>;

/// The view of an optional string.
pub open spec fn opt_view(o: Option<String>) -> Option<Seq<char>> {
    match o {
        Some(s) => Some(s@),
        None => None,
    }
}

/// Calls `url::Url::parse(input)` and reads `scheme()` and `host_str()` from the result.
/// The contract ties the outcome to the name `url_scheme_and_host` and says no more of it.
#[verifier::external_body]
fn parse_url_scheme_and_host(input: &str) -> (r: Result<(String, Option<String>), url::ParseError>)
    ensures
        match r {
            Ok((scheme, host)) => url_scheme_and_host(input@) == Some((scheme@, opt_view(host))),
            Err(_) => url_scheme_and_host(input@) is None,
        },
{
    url::Url::parse(input).map(|u| (u.scheme().to_string(), u.host_str().map(|h| h.to_string())))
}

/// Renders a `url::ParseError` with its `Display` implementation.
#[verifier::external_body]
fn url_parse_error_text(e: &url::ParseError) -> String {
    format!("{}", e)
}

/// Why a VOICEVOX URL was refused.
#[derive(Debug)]
pub enum VoicevoxUrlError {
    /// The text is not a URL.
    InvalidUrl(url::ParseError),
    /// The scheme is not `http`; the field is the scheme.
    SchemeNotHttp(String),
    /// The host is not the local machine; the field is the host.
    HostNotLocal(String),
    /// The URL has no host.
    NoHost,
}

/// The hosts that address the local machine.
pub open spec fn is_local_host(h: Seq<char>) -> bool {
    ||| h == seq!['1', '2', '7', '.', '0', '.', '0', '.', '1']
    ||| h == seq!['l', 'o', 'c', 'a', 'l', 'h', 'o', 's', 't']
    ||| h == seq!['[', ':', ':', '1', ']']
}

/// What the URL check answers for a URL whose scheme and host are given.
pub open spec fn url_parts_verdict(
    r: Result<(), VoicevoxUrlError>,
    scheme: Seq<char>,
    host: Option<Seq<char>>,
) -> bool {
    if scheme != seq!['h', 't', 't', 'p'] {
        r matches Err(VoicevoxUrlError::SchemeNotHttp(s)) && s@ == scheme
    } else {
        match host {
            Some(h) => if is_local_host(h) {
                r is Ok
            } else {
                r matches Err(VoicevoxUrlError::HostNotLocal(x)) && x@ == h
            },
            None => r matches Err(VoicevoxUrlError::NoHost),
        }
    }
}

/// Accepts an `http` URL on `127.0.0.1`, `localhost` or `[::1]`, given the parsed
/// scheme and host.
pub fn check_voicevox_url_parts(scheme: &str, host: Option<&str>) -> (r: Result<(), VoicevoxUrlError>)
    ensures
        url_parts_verdict(r, scheme@, match host {
            Some(h) => Some(h@),
            None => None,
        }),
{
    let http = "http";
    proof {
        reveal_strlit("http");
        assert(http@ =~= seq!['h', 't', 't', 'p']);
    }
    if !str_eq(scheme, http) {
        return Err(VoicevoxUrlError::SchemeNotHttp(scheme.to_owned()));
    }
    match host {
        Some(h) => {
            let a = "127.0.0.1";
            let b = "localhost";
            let c = "[::1]";
            proof {
                reveal_strlit("127.0.0.1");
                reveal_strlit("localhost");
                reveal_strlit("[::1]");
                assert(a@ =~= seq!['1', '2', '7', '.', '0', '.', '0', '.', '1']);
                assert(b@ =~= seq!['l', 'o', 'c', 'a', 'l', 'h', 'o', 's', 't']);
                assert(c@ =~= seq!['[', ':', ':', '1', ']']);
            }
            if str_eq(h, a) || str_eq(h, b) || str_eq(h, c) {
                Ok(())
            } else {
                Err(VoicevoxUrlError::HostNotLocal(h.to_owned()))
            }
        },
        None => Err(VoicevoxUrlError::NoHost),
    }
}

/// Accepts a VOICEVOX URL only when it parses, uses `http` and points at the local machine.
pub fn is_valid_voicevox_url(url_str: &str) -> (r: Result<(), VoicevoxUrlError>)
    ensures
        match url_scheme_and_host(url_str@) {
            None => r matches Err(VoicevoxUrlError::InvalidUrl(_)),
            Some((scheme, host)) => url_parts_verdict(r, scheme, host),
        },
{
    match parse_url_scheme_and_host(url_str) {
        Err(e) => Err(VoicevoxUrlError::InvalidUrl(e)),
        Ok((scheme, host)) => {
            match host {
                Some(h) => check_voicevox_url_parts(scheme.as_str(), Some(h.as_str())),
                None => check_voicevox_url_parts(scheme.as_str(), None),
            }
        },
    }
}

impl VoicevoxUrlError {
    /// The message the application shows for this error.
    pub fn message(&self) -> (m: String)
        ensures
            match self {
                VoicevoxUrlError::SchemeNotHttp(s) => m@ == "VOICEVOX URL must use http scheme, got: "@ + s@,
                VoicevoxUrlError::HostNotLocal(h) => m@ == "VOICEVOX URL must point to localhost, got: "@ + h@,
                VoicevoxUrlError::NoHost => m@ == "VOICEVOX URL has no host"@,
                VoicevoxUrlError::InvalidUrl(_) => m@.len() >= 13 && m@.take(13) == "Invalid URL: "@,
            },
    {
        match self {
            VoicevoxUrlError::InvalidUrl(e) => {
                let t = url_parse_error_text(e);
                proof {
                    reveal_strlit("Invalid URL: ");
                }
                let m = crate::text::concat_str("Invalid URL: ", t.as_str());
                proof {
                    assert(m@.take(13) =~= "Invalid URL: "@);
                }
                m
            },
            VoicevoxUrlError::SchemeNotHttp(s) => crate::text::concat_str(
                "VOICEVOX URL must use http scheme, got: ",
                s.as_str(),
            ),
            VoicevoxUrlError::HostNotLocal(h) => crate::text::concat_str(
                "VOICEVOX URL must point to localhost, got: ",
                h.as_str(),
            ),
            VoicevoxUrlError::NoHost => "VOICEVOX URL has no host".to_owned(),
        }
    }
}

impl ConfigFileError {
    /// The message the application shows for this error.
    pub fn message(&self) -> (m: String)
        ensures
            match self {
                ConfigFileError::TooLarge(n) => m@ == "Config file too large: "@ + crate::text::decimal(
                    *n as nat,
                ) + " bytes (max 1048576 bytes)"@,
            },
    {
        match self {
            ConfigFileError::TooLarge(n) => {
                let head = crate::text::concat_str("Config file too large: ", crate::text::u64_to_decimal(*n).as_str());
                crate::text::concat_str(head.as_str(), " bytes (max 1048576 bytes)")
            },
        }
    }
}

} // verus!
