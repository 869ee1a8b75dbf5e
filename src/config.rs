//! The configuration values that the handlers read.
use vstd::prelude::*;
use vstd::string::*;

verus! {

/// The scheme under which this server is reached.
#[derive(Clone, Copy, Debug, PartialEq, Eq, Structural)]
pub enum MagnetarNetworkingProtocol {
    Http,
    Https,
}

/// `c` with ASCII upper case letters made lower case.
pub open spec fn ascii_lower_spec(c: char) -> char {
    if 'A' as u32 <= c as u32 <= 'Z' as u32 {
        ((c as u32) + 32) as char
    } else {
        c
    }
}

/// `a` and `b` are equal up to the case of ASCII letters.
pub open spec fn eq_ignore_ascii_case_spec(a: Seq<char>, b: Seq<char>) -> bool {
    a.len() == b.len() && forall|i: int| 0 <= i < a.len() ==> ascii_lower_spec(#[trigger] a[i]) == ascii_lower_spec(b[i])
}

fn eq_ignore_ascii_case(a: &str, b: &str) -> (r: bool)
    ensures
        r == eq_ignore_ascii_case_spec(a@, b@),
{
    let n = a.unicode_len();
    if n != b.unicode_len() {
        return false;
    }
    let mut i: usize = 0;
    while i < n
        invariant
            n == a@.len(),
            n == b@.len(),
            i <= n,
            forall|j: int| 0 <= j < i ==> ascii_lower_spec(#[trigger] a@[j]) == ascii_lower_spec(b@[j]),
        decreases n - i,
    {
        let x = a.get_char(i) as u32;
        let y = b.get_char(i) as u32;
        let lx = if 65 <= x && x <= 90 { x + 32 } else { x };
        let ly = if 65 <= y && y <= 90 { y + 32 } else { y };
        if lx != ly {
            assert(ascii_lower_spec(a@[i as int]) as u32 == lx);
            assert(ascii_lower_spec(b@[i as int]) as u32 == ly);
            return false;
        }
        assert(ascii_lower_spec(a@[i as int]) as u32 == lx);
        assert(ascii_lower_spec(b@[i as int]) as u32 == ly);
        i = i + 1;
    }
    true
}

impl MagnetarNetworkingProtocol {
    /// The scheme's name.
    pub open spec fn text(&self) -> Seq<char> {
        match self {
            MagnetarNetworkingProtocol::Http => "http"@,
            MagnetarNetworkingProtocol::Https => "https"@,
        }
    }

    /// The scheme's name, `http` or `https`.
    pub fn as_str(&self) -> (r: &'static str)
        ensures
            r@ == self.text(),
    {
        match self {
            MagnetarNetworkingProtocol::Http => "http",
            MagnetarNetworkingProtocol::Https => "https",
        }
    }

    /// Reads a scheme's name in any case of letters.
    pub fn from_name(name: &str) -> (r: Option<MagnetarNetworkingProtocol>)
        ensures
            r == Some(MagnetarNetworkingProtocol::Http) <==> eq_ignore_ascii_case_spec(name@, "http"@),
            r == Some(MagnetarNetworkingProtocol::Https) <==> eq_ignore_ascii_case_spec(name@, "https"@),
            r is None <==> !eq_ignore_ascii_case_spec(name@, "http"@) && !eq_ignore_ascii_case_spec(name@, "https"@),
    {
        proof {
            reveal_strlit("http");
            reveal_strlit("https");
        }
        if eq_ignore_ascii_case(name, "http") {
            Some(MagnetarNetworkingProtocol::Http)
        } else if eq_ignore_ascii_case(name, "https") {
            Some(MagnetarNetworkingProtocol::Https)
        } else {
            None
        }
    }
}

/// Where this server is reached.
#[derive(Clone, Debug)]
pub struct MagnetarNetworking {
    /// The host name under which local accounts are known.
    pub host: String,
    pub port: u16,
    pub protocol: MagnetarNetworkingProtocol,
}

/// How the server software presents itself.
#[derive(Clone, Debug)]
pub struct MagnetarBranding {
    pub name: String,
    pub version: String,
    pub homepage: String,
    pub repository: String,
}

/// Where the account data is kept.
#[derive(Clone, Debug)]
pub struct MagnetarData {
    pub database_url: String,
}

/// How to reach the account database.
#[derive(Clone, Debug)]
pub struct ConnectorConfig {
    pub url: String,
}

/// The whole configuration.
#[derive(Clone, Debug)]
pub struct MagnetarConfig {
    pub networking: MagnetarNetworking,
    pub branding: MagnetarBranding,
    pub data: MagnetarData,
}

} // verus!
