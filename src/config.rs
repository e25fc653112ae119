//! Process configuration, read once at startup.
use vstd::prelude::*;

use crate::text::{chars_of, is_white_space, white_space};

verus! {

pub const DEFAULT_HOST: &'static str = "0.0.0.0";

pub const DEFAULT_PORT: u16 = 8080;

pub const DEFAULT_MODEL_DIR: &'static str = "ai_model";

pub struct Config {
    pub server_host: String,
    pub server_port: u16,
    pub model_dir: String,
    pub proxy_url: Option<String>,
    pub static_dir: String,
}

/// `s` holds a character other than white space, i.e. it is not empty once trimmed.
pub open spec fn has_visible(s: Seq<char>) -> bool {
    exists|i: int| 0 <= i < s.len() && !is_white_space(s[i])
}

pub fn non_blank(s: &str) -> (r: bool)
    ensures
        r == has_visible(s@),
{
    let cs = chars_of(s);
    let mut i: usize = 0;
    while i < cs.len()
        invariant
            i <= cs@.len(),
            cs@ == s@,
            forall|j: int| 0 <= j < i ==> is_white_space(#[trigger] cs@[j]),
        decreases cs@.len() - i,
    {
        if !white_space(cs[i]) {
            return true;
        }
        i += 1;
    }
    false
}

/// Value of a non-empty string of ASCII digits.
pub open spec fn digits_value(d: Seq<char>) -> int
    decreases d.len(),
{
    if d.len() == 0 {
        0
    } else {
        digits_value(d.drop_last()) * 10 + (d.last() as int - '0' as int)
    }
}

pub open spec fn all_digits(d: Seq<char>) -> bool {
    forall|i: int| 0 <= i < d.len() ==> '0' <= #[trigger] d[i] && d[i] <= '9'
}

/// A `u16` written in decimal, with an optional leading `+`.
pub open spec fn parsed_u16(s: Seq<char>) -> Option<u16> {
    let d = if s.len() > 0 && s[0] == '+' {
        s.drop_first()
    } else {
        s
    };
    if d.len() > 0 && all_digits(d) && digits_value(d) < 0x10000 {
        Some(digits_value(d) as u16)
    } else {
        None
    }
}

/// Relies on `<u16 as FromStr>::from_str`: an optional `+`, then decimal
/// digits whose value fits in `u16`; anything else is an error.
#[verifier::external_body]
fn parse_u16(s: &str) -> (r: Option<u16>)
    ensures
        r == parsed_u16(s@),
{
    s.parse::<u16>().ok()
}

/// The configured proxy URL when it is not blank.
pub open spec fn proxy_setting(v: Option<String>) -> Option<Seq<char>> {
    match v {
        Some(s) => if has_visible(s@) {
            Some(s@)
        } else {
            None
        },
        None => None,
    }
}

impl Config {
    /// Builds the configuration from the raw settings: a missing host or an
    /// unreadable port takes its default, a blank proxy URL counts as none.
    pub fn from_values(
        server_host: Option<String>,
        server_port: Option<String>,
        model_dir: String,
        proxy_url: Option<String>,
        static_dir: String,
    ) -> (r: Config)
        ensures
            r.server_host@ == (match server_host {
                Some(h) => h@,
                None => DEFAULT_HOST@,
            }),
            r.server_port == (match server_port {
                Some(p) => match parsed_u16(p@) {
                    Some(n) => n,
                    None => DEFAULT_PORT,
                },
                None => DEFAULT_PORT,
            }),
            r.model_dir@ == model_dir@,
            r.static_dir@ == static_dir@,
            match (r.proxy_url, proxy_setting(proxy_url)) {
                (Some(u), Some(v)) => u@ == v,
                (None, None) => true,
                _ => false,
            },
    {
        let server_host = match server_host {
            Some(h) => h,
            None => DEFAULT_HOST.to_owned(),
        };
        let server_port = match server_port {
            Some(p) => match parse_u16(p.as_str()) {
                Some(n) => n,
                None => DEFAULT_PORT,
            },
            None => DEFAULT_PORT,
        };
        let proxy_url = match proxy_url {
            Some(u) => if non_blank(u.as_str()) {
                Some(u)
            } else {
                None
            },
            None => None,
        };
        Config { server_host, server_port, model_dir, proxy_url, static_dir }
    }
}

} // verus!
