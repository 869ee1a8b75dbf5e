//! Fediverse tags: a local name and an optional host, read from `name@host`,
//! `@name@host` or `name`.
use vstd::prelude::*;
use vstd::string::*;
use crate::acct::{parse_spec, Acct};
use crate::text::{chars_of, concat, find_char, is_first_index, lemma_first_index_exists, lemma_first_index_unique, opt_view, string_from, string_of};

verus! {

/// What the percent-decoding of `s` gives: `None` where the decoded bytes
/// are not UTF-8.
pub uninterp spec fn percent_decoded(s: Seq<char>) -> Option<Seq<char>>;

/// Relies on `percent_encoding::percent_decode_str` followed by
/// `PercentDecode::decode_utf8`: the result depends on the characters alone,
/// and a string without `%` is returned as it is.
#[verifier::external_body]
fn percent_decode(s: &str) -> (r: Option<String>)
    ensures
        opt_view(r) == percent_decoded(s@),
        !s@.contains('%') ==> opt_view(r) == Some(s@),
{
    match percent_encoding::percent_decode_str(s).decode_utf8() {
        Ok(d) => Some(d.into_owned()),
        Err(_) => None,
    }
}

/// Why a tag was refused.
#[derive(Clone, Debug, PartialEq, Eq)]
pub enum TagError {
    /// The name, held here, is empty or holds a character other than an
    /// ASCII letter, a digit, `-` or `.`.
    InvalidName(String),
    /// The host, held here, holds a control character, whitespace, `/` or
    /// `#`.
    InvalidHost(String),
    /// A part does not percent-decode to UTF-8.
    InvalidEncoding,
}

/// The view of a refusal: the text it names.
pub enum TagErrorView {
    InvalidName(Seq<char>),
    InvalidHost(Seq<char>),
    InvalidEncoding,
}

impl View for TagError {
    type V = TagErrorView;

    open spec fn view(&self) -> TagErrorView {
        match self {
            TagError::InvalidName(n) => TagErrorView::InvalidName(n@),
            TagError::InvalidHost(h) => TagErrorView::InvalidHost(h@),
            TagError::InvalidEncoding => TagErrorView::InvalidEncoding,
        }
    }
}

/// A name allows ASCII letters and digits, `-` and `.`.
pub open spec fn is_name_char_spec(c: char) -> bool {
    ('a' as u32 <= c as u32 <= 'z' as u32) || ('A' as u32 <= c as u32 <= 'Z' as u32) || ('0' as u32
        <= c as u32 <= '9' as u32) || c == '-' || c == '.'
}

/// Unicode general category Cc.
pub open spec fn is_control_spec(c: char) -> bool {
    c as u32 <= 0x1f || (0x7f <= c as u32 <= 0x9f)
}

/// The Unicode White_Space property.
pub open spec fn is_whitespace_spec(c: char) -> bool {
    let u = c as u32;
    (0x9 <= u <= 0xd) || u == 0x20 || u == 0x85 || u == 0xa0 || u == 0x1680 || (0x2000 <= u
        <= 0x200a) || u == 0x2028 || u == 0x2029 || u == 0x202f || u == 0x205f || u == 0x3000
}

/// A host refuses control characters, whitespace, `/` and `#`.
pub open spec fn is_host_forbidden_spec(c: char) -> bool {
    is_control_spec(c) || is_whitespace_spec(c) || c == '/' || c == '#'
}

pub open spec fn valid_name(n: Seq<char>) -> bool {
    n.len() > 0 && forall|i: int| 0 <= i < n.len() ==> is_name_char_spec(#[trigger] n[i])
}

pub open spec fn valid_host(h: Seq<char>) -> bool {
    forall|i: int| 0 <= i < h.len() ==> !is_host_forbidden_spec(#[trigger] h[i])
}

/// The verdict on a name and an optional host.
pub open spec fn validate_spec(n: Seq<char>, h: Option<Seq<char>>) -> Result<(), TagErrorView> {
    if !valid_name(n) {
        Err(TagErrorView::InvalidName(n))
    } else {
        match h {
            Some(x) => if !valid_host(x) {
                Err(TagErrorView::InvalidHost(x))
            } else {
                Ok(())
            },
            None => Ok(()),
        }
    }
}

/// `t` without one leading `@`.
pub open spec fn strip_at_spec(t: Seq<char>) -> Seq<char> {
    if t.len() > 0 && t[0] == '@' {
        t.skip(1)
    } else {
        t
    }
}

/// The name and host of a raw tag: one leading `@` is dropped, and the rest
/// is cut at its first `@`. Where nothing stands before that `@`, what
/// follows it is the name, and there is no host.
pub open spec fn split_spec(t: Seq<char>) -> (Seq<char>, Option<Seq<char>>) {
    let u = strip_at_spec(t);
    if u.contains('@') {
        let i = choose|i: int| is_first_index(u, '@', i);
        if i == 0 {
            (u.skip(1), None)
        } else {
            (u.subrange(0, i), Some(u.skip(i + 1)))
        }
    } else {
        (u, None)
    }
}

/// The tag that a name and host make once they are checked.
pub open spec fn checked_spec(n: Seq<char>, h: Option<Seq<char>>) -> Result<
    (Seq<char>, Option<Seq<char>>),
    TagErrorView,
> {
    match validate_spec(n, h) {
        Ok(_) => Ok((n, h)),
        Err(e) => Err(e),
    }
}

/// The tag that a raw string reads as, without decoding.
pub open spec fn parse_tag_spec(t: Seq<char>) -> Result<(Seq<char>, Option<Seq<char>>), TagErrorView> {
    checked_spec(split_spec(t).0, split_spec(t).1)
}

/// The tag that a raw string reads as once each part is percent-decoded.
pub open spec fn parse_tag_decoded_spec(t: Seq<char>) -> Result<
    (Seq<char>, Option<Seq<char>>),
    TagErrorView,
> {
    let (n, h) = split_spec(t);
    match percent_decoded(n) {
        None => Err(TagErrorView::InvalidEncoding),
        Some(dn) => match h {
            None => checked_spec(dn, None),
            Some(x) => match percent_decoded(x) {
                None => Err(TagErrorView::InvalidEncoding),
                Some(dh) => checked_spec(dn, Some(dh)),
            },
        },
    }
}

/// The text of a tag: `name@host`, or `name` where there is no host.
pub open spec fn tag_text_spec(v: (Seq<char>, Option<Seq<char>>)) -> Seq<char> {
    match v.1 {
        Some(h) => v.0 + seq!['@'] + h,
        None => v.0,
    }
}

/// A parsed tag.
#[derive(Clone, Debug, PartialEq, Eq)]
pub struct FediverseTag {
    pub name: String,
    pub host: Option<String>,
}

impl View for FediverseTag {
    type V = (Seq<char>, Option<Seq<char>>);

    open spec fn view(&self) -> (Seq<char>, Option<Seq<char>>) {
        (self.name@, opt_view(self.host))
    }
}

/// The view of a parse result.
pub open spec fn tag_result_view(r: Result<FediverseTag, TagError>) -> Result<
    (Seq<char>, Option<Seq<char>>),
    TagErrorView,
> {
    match r {
        Ok(t) => Ok(t@),
        Err(e) => Err(e@),
    }
}

pub fn is_name_char(c: char) -> (r: bool)
    ensures
        r == is_name_char_spec(c),
{
    let u = c as u32;
    ('a' as u32 <= u && u <= 'z' as u32) || ('A' as u32 <= u && u <= 'Z' as u32) || ('0' as u32
        <= u && u <= '9' as u32) || c == '-' || c == '.'
}

pub fn is_host_forbidden(c: char) -> (r: bool)
    ensures
        r == is_host_forbidden_spec(c),
{
    let u = c as u32;
    let control = u <= 0x1f || (0x7f <= u && u <= 0x9f);
    let space = (0x9 <= u && u <= 0xd) || u == 0x20 || u == 0x85 || u == 0xa0 || u == 0x1680 || (
    0x2000 <= u && u <= 0x200a) || u == 0x2028 || u == 0x2029 || u == 0x202f || u == 0x205f || u
        == 0x3000;
    control || space || c == '/' || c == '#'
}

fn name_is_valid(n: &str) -> (r: bool)
    ensures
        r == valid_name(n@),
{
    let v = chars_of(n);
    if v.len() == 0 {
        return false;
    }
    let mut i: usize = 0;
    while i < v.len()
        invariant
            v@ == n@,
            i <= v@.len(),
            forall|j: int| 0 <= j < i ==> is_name_char_spec(#[trigger] v@[j]),
        decreases v@.len() - i,
    {
        if !is_name_char(v[i]) {
            return false;
        }
        i = i + 1;
    }
    true
}

fn host_is_valid(h: &str) -> (r: bool)
    ensures
        r == valid_host(h@),
{
    let v = chars_of(h);
    let mut i: usize = 0;
    while i < v.len()
        invariant
            v@ == h@,
            i <= v@.len(),
            forall|j: int| 0 <= j < i ==> !is_host_forbidden_spec(#[trigger] v@[j]),
        decreases v@.len() - i,
    {
        if is_host_forbidden(v[i]) {
            return false;
        }
        i = i + 1;
    }
    true
}

/// Each part of a split tag is made of characters of the tag.
pub proof fn lemma_split_parts_lack(t: Seq<char>, c: char)
    requires
        !t.contains(c),
    ensures
        !split_spec(t).0.contains(c),
        split_spec(t).1 matches Some(h) ==> !h.contains(c),
{
    let u = strip_at_spec(t);
    assert(!u.contains(c)) by {
        if u.contains(c) {
            let k = choose|k: int| 0 <= k < u.len() && u[k] == c;
            if t.len() > 0 && t[0] == '@' {
                assert(t[k + 1] == c);
            } else {
                assert(t[k] == c);
            }
        }
    }
    if u.contains('@') {
        let w = choose|w: int| 0 <= w < u.len() && u[w] == '@';
        lemma_first_index_exists(u, '@', w);
        let i = choose|i: int| is_first_index(u, '@', i);
        let (n, h) = split_spec(t);
        if n.contains(c) {
            let k = choose|k: int| 0 <= k < n.len() && n[k] == c;
            if i == 0 {
                assert(u[k + 1] == c);
            } else {
                assert(u[k] == c);
            }
        }
        if let Some(x) = h {
            if x.contains(c) {
                let k = choose|k: int| 0 <= k < x.len() && x[k] == c;
                assert(u[k + i + 1] == c);
            }
        }
    }
}

/// Splits a raw tag into its name and optional host.
pub fn split_tag_inner(tag: &str) -> (r: (String, Option<String>))
    ensures
        (r.0@, opt_view(r.1)) == split_spec(tag@),
{
    let n = tag.unicode_len();
    let u: &str = if n > 0 && tag.get_char(0) == '@' {
        tag.substring_char(1, n)
    } else {
        tag
    };
    assert(u@ == strip_at_spec(tag@));
    let v = chars_of(u);
    let len = v.len();
    match find_char(&v, '@') {
        None => {
            assert(!u@.contains('@'));
            (string_of(&v, 0, len), None)
        },
        Some(i) => {
            assert(u@.contains('@')) by {
                assert(u@[i as int] == '@');
            }
            proof {
                let k = choose|k: int| is_first_index(u@, '@', k);
                lemma_first_index_unique(u@, '@', i as int, k);
            }
            assert(v@.subrange(0, len as int) =~= v@);
            if i == 0 {
                assert(v@.subrange(1, len as int) =~= u@.skip(1));
                (string_of(&v, 1, len), None)
            } else {
                assert(v@.subrange(i + 1, len as int) =~= u@.skip(i + 1));
                (string_of(&v, 0, i), Some(string_of(&v, i + 1, len)))
            }
        },
    }
}

/// Checks a name and an optional host.
pub fn validate_tag_inner(parts: (&str, Option<&str>)) -> (r: Result<(), TagError>)
    ensures
        match r {
            Ok(_) => validate_spec(parts.0@, opt_view(parts.1)) is Ok,
            Err(e) => validate_spec(parts.0@, opt_view(parts.1)) == Err::<(), TagErrorView>(e@),
        },
{
    let (name, host) = parts;
    if !name_is_valid(name) {
        return Err(TagError::InvalidName(string_from(name)));
    }
    if let Some(h) = host {
        if !host_is_valid(h) {
            return Err(TagError::InvalidHost(string_from(h)));
        }
    }
    Ok(())
}

/// Checks a name and an optional host, and makes them a tag.
pub fn tag_from_parts(name: String, host: Option<String>) -> (r: Result<FediverseTag, TagError>)
    ensures
        tag_result_view(r) == checked_spec(name@, opt_view(host)),
{
    let checked = match &host {
        Some(h) => validate_tag_inner((name.as_str(), Some(h.as_str()))),
        None => validate_tag_inner((name.as_str(), None)),
    };
    match checked {
        Ok(_) => Ok(FediverseTag { name, host }),
        Err(e) => Err(e),
    }
}

/// Reads a raw tag as it is, without decoding.
pub fn lenient_parse_tag(tag: &str) -> (r: Result<FediverseTag, TagError>)
    ensures
        tag_result_view(r) == parse_tag_spec(tag@),
{
    let (name, host) = split_tag_inner(tag);
    tag_from_parts(name, host)
}

/// Reads a raw tag, percent-decoding its name and host before they are
/// checked.
pub fn lenient_parse_tag_decode(tag: &str) -> (r: Result<FediverseTag, TagError>)
    ensures
        tag_result_view(r) == parse_tag_decoded_spec(tag@),
        !tag@.contains('%') ==> tag_result_view(r) == parse_tag_spec(tag@),
{
    let (name, host) = split_tag_inner(tag);
    proof {
        if !tag@.contains('%') {
            lemma_split_parts_lack(tag@, '%');
        }
    }
    let name_decoded = match percent_decode(name.as_str()) {
        Some(d) => d,
        None => return Err(TagError::InvalidEncoding),
    };
    let host_decoded = match &host {
        Some(h) => match percent_decode(h.as_str()) {
            Some(d) => Some(d),
            None => return Err(TagError::InvalidEncoding),
        },
        None => None,
    };
    tag_from_parts(name_decoded, host_decoded)
}

/// Reads the identifier of an account as a tag, without decoding.
pub fn lenient_parse_acct(acct: &Acct) -> (r: Result<FediverseTag, TagError>)
    ensures
        tag_result_view(r) == parse_tag_spec(acct@),
{
    lenient_parse_tag(acct.as_str())
}

/// Reads the identifier of an account as a tag, percent-decoding its parts.
pub fn lenient_parse_acct_decode(acct: &Acct) -> (r: Result<FediverseTag, TagError>)
    ensures
        tag_result_view(r) == parse_tag_decoded_spec(acct@),
        !acct@.contains('%') ==> tag_result_view(r) == parse_tag_spec(acct@),
{
    lenient_parse_tag_decode(acct.as_str())
}

impl FediverseTag {
    /// A tag made of the given parts, unchecked.
    pub fn from_parts(name: &str, host: Option<&str>) -> (r: FediverseTag)
        ensures
            r@ == (name@, opt_view(host)),
    {
        FediverseTag {
            name: string_from(name),
            host: match host {
                Some(h) => Some(string_from(h)),
                None => None,
            },
        }
    }

    /// `name@host`, or `name` where there is no host.
    pub fn to_string(&self) -> (r: String)
        ensures
            r@ == tag_text_spec(self@),
    {
        match &self.host {
            Some(h) => {
                let with_at = concat(self.name.as_str(), "@");
                proof {
                    reveal_strlit("@");
                    assert("@"@ =~= seq!['@']);
                }
                concat(with_at.as_str(), h.as_str())
            },
            None => self.name.clone(),
        }
    }

    /// The account identifier of this tag.
    pub fn to_acct(&self) -> (r: Acct)
        ensures
            r@ == parse_spec(tag_text_spec(self@)),
    {
        let s = self.to_string();
        Acct::parse(s.as_str())
    }
}

/// A name that holds `/` or whitespace is refused, whatever the host.
pub proof fn lemma_name_with_slash_or_space_rejected(n: Seq<char>, h: Option<Seq<char>>, i: int)
    requires
        0 <= i < n.len(),
        n[i] == '/' || is_whitespace_spec(n[i]),
    ensures
        validate_spec(n, h) == Err::<(), TagErrorView>(TagErrorView::InvalidName(n)),
{
    assert(!is_name_char_spec(n[i]));
}

/// With a valid name, a host that holds `#` is refused.
pub proof fn lemma_host_with_hash_rejected(n: Seq<char>, h: Seq<char>, j: int)
    requires
        valid_name(n),
        0 <= j < h.len(),
        h[j] == '#',
    ensures
        validate_spec(n, Some(h)) == Err::<(), TagErrorView>(TagErrorView::InvalidHost(h)),
{
    assert(is_host_forbidden_spec(h[j]));
}

} // verus!
