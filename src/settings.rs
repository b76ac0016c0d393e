//! Loading the process configuration from its raw settings.

use crate::discovery::ServiceConfig;
use crate::grant::SignerCredentials;
use vstd::prelude::*;
use vstd::string::StrSliceExecFns;

verus! {

/// Why the configuration could not be loaded.
#[derive(Debug, Clone, Copy, PartialEq, Eq, Structural)]
pub enum ConfigError {
    /// No listening port is set.
    MissingPort,
    /// The listening port is not a decimal number from 0 to 65535.
    InvalidPort,
}

pub open spec fn is_digit(c: char) -> bool {
    '0' <= c && c <= '9'
}

/// The number that a run of decimal digits writes.
pub open spec fn digits_value(s: Seq<char>) -> int
    decreases s.len(),
{
    if s.len() == 0 {
        0
    } else {
        digits_value(s.drop_last()) * 10 + (s.last() as int - '0' as int)
    }
}

/// The digits of a port, after an optional leading `+`.
pub open spec fn port_digits(s: Seq<char>) -> Seq<char> {
    if s.len() > 0 && s[0] == '+' {
        s.drop_first()
    } else {
        s
    }
}

/// The port that a text writes in decimal, if it writes one.
pub open spec fn port_value(s: Seq<char>) -> Option<u16> {
    let d = port_digits(s);
    if d.len() > 0 && (forall|i: int| 0 <= i < d.len() ==> is_digit(#[trigger] d[i])) && digits_value(d) <= 65535 {
        Some(digits_value(d) as u16)
    } else {
        None
    }
}

/// A character with the Unicode `White_Space` property.
pub open spec fn is_whitespace(c: char) -> bool {
    ('\u{9}' <= c && c <= '\u{d}') || c == ' ' || c == '\u{85}' || c == '\u{a0}' || c == '\u{1680}'
        || ('\u{2000}' <= c && c <= '\u{200a}') || c == '\u{2028}' || c == '\u{2029}' || c == '\u{202f}'
        || c == '\u{205f}' || c == '\u{3000}'
}

/// `s` without its leading whitespace.
pub open spec fn trim_start(s: Seq<char>) -> Seq<char>
    decreases s.len(),
{
    if s.len() > 0 && is_whitespace(s[0]) {
        trim_start(s.drop_first())
    } else {
        s
    }
}

/// `s` without its trailing whitespace.
pub open spec fn trim_end(s: Seq<char>) -> Seq<char>
    decreases s.len(),
{
    if s.len() > 0 && is_whitespace(s.last()) {
        trim_end(s.drop_last())
    } else {
        s
    }
}

/// `s` with its leading and trailing whitespace removed.
pub open spec fn trimmed(s: Seq<char>) -> Seq<char> {
    trim_end(trim_start(s))
}

/// Relies on `str::trim`, which removes the leading and trailing characters
/// that have the Unicode `White_Space` property.
#[verifier::external_body]
fn trim_text(s: &str) -> (r: &str)
    ensures
        r@ == trimmed(s@),
{
    s.trim()
}

proof fn lemma_digits_value_nonneg(s: Seq<char>)
    requires
        forall|i: int| 0 <= i < s.len() ==> is_digit(#[trigger] s[i]),
    ensures
        digits_value(s) >= 0,
    decreases s.len(),
{
    if s.len() > 0 {
        lemma_digits_value_nonneg(s.drop_last());
    }
}

proof fn lemma_prefix_bound(s: Seq<char>, k: int)
    requires
        0 <= k <= s.len(),
        forall|i: int| 0 <= i < s.len() ==> is_digit(#[trigger] s[i]),
    ensures
        digits_value(s.subrange(0, k)) <= digits_value(s),
    decreases s.len(),
{
    if k < s.len() {
        let init = s.drop_last();
        assert(init.subrange(0, k) =~= s.subrange(0, k));
        lemma_prefix_bound(init, k);
        lemma_digits_value_nonneg(init);
    } else {
        assert(s.subrange(0, k) =~= s);
    }
}

/// Reads a port written in decimal, with an optional leading `+`.
pub fn parse_port(text: &str) -> (r: Option<u16>)
    ensures
        r == port_value(text@),
{
    let n = text.unicode_len();
    let mut start: usize = 0;
    if n > 0 && text.get_char(0) == '+' {
        start = 1;
    }
    let ghost d = port_digits(text@);
    assert(d =~= text@.subrange(start as int, n as int));
    if start == n {
        return None;
    }
    let mut value: u32 = 0;
    let mut i: usize = start;
    while i < n
        invariant
            start <= i <= n,
            n == text@.len(),
            d == text@.subrange(start as int, n as int),
            d == port_digits(text@),
            forall|k: int| 0 <= k < i - start ==> is_digit(#[trigger] d[k]),
            value as int == digits_value(d.subrange(0, i - start)),
            value <= 65535,
        decreases n - i,
    {
        let c = text.get_char(i);
        assert(d.subrange(0, i - start + 1).drop_last() =~= d.subrange(0, i - start));
        assert(d[i - start] == c);
        if c < '0' || c > '9' {
            assert(!is_digit(d[i - start]));
            return None;
        }
        let digit: u32 = (c as u32) - ('0' as u32);
        let next: u32 = value * 10 + digit;
        assert(d.subrange(0, i - start + 1).last() == c);
        assert(next as int == digits_value(d.subrange(0, i - start + 1)));
        if next > 65535 {
            proof {
                if forall|k: int| 0 <= k < d.len() ==> is_digit(#[trigger] d[k]) {
                    lemma_prefix_bound(d, i - start + 1);
                }
            }
            return None;
        }
        value = next;
        i = i + 1;
    }
    assert(d.subrange(0, n - start) =~= d);
    Some(value as u16)
}

/// Reads the listening port from its raw setting, ignoring surrounding whitespace.
pub fn port_from_text(raw: &str) -> (r: Option<u16>)
    ensures
        r == port_value(trimmed(raw@)),
{
    parse_port(trim_text(raw))
}

/// The value of an optional setting, empty where it is not set.
pub open spec fn or_empty(setting: Option<String>) -> Seq<char> {
    match setting {
        Some(v) => v@,
        None => Seq::empty(),
    }
}

fn text_or_empty(setting: Option<String>) -> (r: String)
    ensures
        r@ == or_empty(setting),
{
    match setting {
        Some(v) => v,
        None => String::new(),
    }
}

/// Builds the configuration from the raw settings. The port is required and
/// must be a decimal number; an address or a key that is not set stands as an
/// empty text, which leaves discovery answering with it and issuance failing.
pub fn load_config(
    fishnet_address: Option<String>,
    livekit_address: Option<String>,
    api_key: Option<String>,
    api_secret: Option<String>,
    port: Option<String>,
) -> (r: Result<ServiceConfig, ConfigError>)
    ensures
        match port {
            None => r is Err && r->Err_0 == ConfigError::MissingPort,
            Some(p) => match port_value(trimmed(p@)) {
                None => r is Err && r->Err_0 == ConfigError::InvalidPort,
                Some(n) => r matches Ok(c) && c.port == n
                    && c.fishnet_server_address@ == or_empty(fishnet_address)
                    && c.livekit_server_address@ == or_empty(livekit_address)
                    && c.credentials.api_key@ == or_empty(api_key)
                    && c.credentials.api_secret@ == or_empty(api_secret),
            },
        },
{
    let port = match port {
        None => return Err(ConfigError::MissingPort),
        Some(text) => match port_from_text(text.as_str()) {
            None => return Err(ConfigError::InvalidPort),
            Some(n) => n,
        },
    };
    let credentials = SignerCredentials::new(text_or_empty(api_key), text_or_empty(api_secret));
    Ok(ServiceConfig {
        fishnet_server_address: text_or_empty(fishnet_address),
        livekit_server_address: text_or_empty(livekit_address),
        credentials,
        port,
    })
}

} // verus!
