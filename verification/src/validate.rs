//! Validation of target directory names and repository references.

use vstd::prelude::*;
use vstd::string::StrSliceExecFns;

use crate::error::ActionError;
use crate::text::{contains_char, ends_with_str, starts_with_str};

verus! {

/// ASCII lowercase of one character; every other character is kept.
pub open spec fn lower_char(c: char) -> char {
    match c {
        'A' => 'a',
        'B' => 'b',
        'C' => 'c',
        'D' => 'd',
        'E' => 'e',
        'F' => 'f',
        'G' => 'g',
        'H' => 'h',
        'I' => 'i',
        'J' => 'j',
        'K' => 'k',
        'L' => 'l',
        'M' => 'm',
        'N' => 'n',
        'O' => 'o',
        'P' => 'p',
        'Q' => 'q',
        'R' => 'r',
        'S' => 's',
        'T' => 't',
        'U' => 'u',
        'V' => 'v',
        'W' => 'w',
        'X' => 'x',
        'Y' => 'y',
        'Z' => 'z',
        _ => c,
    }
}

/// ASCII lowercase of a character sequence.
pub open spec fn to_lower(s: Seq<char>) -> Seq<char> {
    s.map_values(|c: char| lower_char(c))
}

/// ASCII lowercase of one character, as executable code.
pub fn to_lower_char(c: char) -> (r: char)
    ensures
        r == lower_char(c),
{
    match c {
        'A' => 'a',
        'B' => 'b',
        'C' => 'c',
        'D' => 'd',
        'E' => 'e',
        'F' => 'f',
        'G' => 'g',
        'H' => 'h',
        'I' => 'i',
        'J' => 'j',
        'K' => 'k',
        'L' => 'l',
        'M' => 'm',
        'N' => 'n',
        'O' => 'o',
        'P' => 'p',
        'Q' => 'q',
        'R' => 'r',
        'S' => 's',
        'T' => 't',
        'U' => 'u',
        'V' => 'v',
        'W' => 'w',
        'X' => 'x',
        'Y' => 'y',
        'Z' => 'z',
        _ => c,
    }
}

/// Whether `s` reads as `t` once ASCII case is folded away; `t` is
/// expected lowercase.
pub fn eq_ignore_case(s: &str, t: &str) -> (r: bool)
    ensures
        r == (to_lower(s@) == t@),
{
    let slen = s.unicode_len();
    let tlen = t.unicode_len();
    if slen != tlen {
        proof {
            assert(to_lower(s@).len() == s@.len());
        }
        return false;
    }
    for i in 0..slen
        invariant
            slen == s@.len(),
            tlen == t@.len(),
            slen == tlen,
            forall|j: int| 0 <= j < i ==> to_lower(s@)[j] == t@[j],
    {
        if to_lower_char(s.get_char(i)) != t.get_char(i) {
            proof {
                assert(to_lower(s@)[i as int] == lower_char(s@[i as int]));
            }
            return false;
        }
        proof {
            assert(to_lower(s@)[i as int] == lower_char(s@[i as int]));
        }
    }
    proof {
        assert(to_lower(s@) =~= t@);
    }
    true
}

/// The filesystem characters a directory name may not hold.
pub open spec fn is_forbidden_char(c: char) -> bool {
    c == '<' || c == '>' || c == ':' || c == '"' || c == '|' || c == '?' || c == '*' || c
        == '\\' || c == '/'
}

/// Whether one character is forbidden in a directory name.
pub fn exec_is_forbidden_char(c: char) -> (r: bool)
    ensures
        r == is_forbidden_char(c),
{
    c == '<' || c == '>' || c == ':' || c == '"' || c == '|' || c == '?' || c == '*' || c
        == '\\' || c == '/'
}

/// Whether the name, case folded, is one of the reserved device names.
pub open spec fn is_reserved(s: Seq<char>) -> bool {
    let l = to_lower(s);
    ||| l == "con"@
    ||| l == "prn"@
    ||| l == "aux"@
    ||| l == "nul"@
    ||| l == "com1"@
    ||| l == "com2"@
    ||| l == "com3"@
    ||| l == "com4"@
    ||| l == "com5"@
    ||| l == "com6"@
    ||| l == "com7"@
    ||| l == "com8"@
    ||| l == "com9"@
    ||| l == "lpt1"@
    ||| l == "lpt2"@
    ||| l == "lpt3"@
    ||| l == "lpt4"@
    ||| l == "lpt5"@
    ||| l == "lpt6"@
    ||| l == "lpt7"@
    ||| l == "lpt8"@
    ||| l == "lpt9"@
}

/// Whether the name, case folded, is one of the reserved device names.
fn exec_is_reserved(name: &str) -> (r: bool)
    ensures
        r == is_reserved(name@),
{
    eq_ignore_case(name, "con") || eq_ignore_case(name, "prn") || eq_ignore_case(name, "aux")
        || eq_ignore_case(name, "nul") || eq_ignore_case(name, "com1") || eq_ignore_case(
        name,
        "com2",
    ) || eq_ignore_case(name, "com3") || eq_ignore_case(name, "com4") || eq_ignore_case(
        name,
        "com5",
    ) || eq_ignore_case(name, "com6") || eq_ignore_case(name, "com7") || eq_ignore_case(
        name,
        "com8",
    ) || eq_ignore_case(name, "com9") || eq_ignore_case(name, "lpt1") || eq_ignore_case(
        name,
        "lpt2",
    ) || eq_ignore_case(name, "lpt3") || eq_ignore_case(name, "lpt4") || eq_ignore_case(
        name,
        "lpt5",
    ) || eq_ignore_case(name, "lpt6") || eq_ignore_case(name, "lpt7") || eq_ignore_case(
        name,
        "lpt8",
    ) || eq_ignore_case(name, "lpt9")
}

/// The first rule a candidate directory name breaks, if any. The rules,
/// in order: the name must not be empty, must hold at most 255
/// characters, must hold no reserved filesystem character, and must not
/// be a reserved device name.
pub open spec fn check_name_spec(s: Seq<char>) -> Option<ActionError> {
    if s.len() == 0 {
        Some(ActionError::EmptyName)
    } else if s.len() > 255 {
        Some(ActionError::NameTooLong)
    } else if exists|i: int| 0 <= i < s.len() && is_forbidden_char(s[i]) {
        Some(ActionError::NameHasInvalidChar)
    } else if is_reserved(s) {
        Some(ActionError::NameReserved)
    } else {
        None
    }
}

/// Validates a target directory name; the first broken rule wins.
pub fn check_name(name: &str) -> (r: Result<(), ActionError>)
    ensures
        match r {
            Ok(()) => check_name_spec(name@) is None,
            Err(e) => check_name_spec(name@) == Some(e),
        },
{
    let len = name.unicode_len();
    if len == 0 {
        return Err(ActionError::EmptyName);
    }
    if len > 255 {
        return Err(ActionError::NameTooLong);
    }
    for i in 0..len
        invariant
            len == name@.len(),
            0 < len <= 255,
            forall|j: int| 0 <= j < i ==> !is_forbidden_char(#[trigger] name@[j]),
    {
        if exec_is_forbidden_char(name.get_char(i)) {
            assert(is_forbidden_char(name@[i as int]));
            return Err(ActionError::NameHasInvalidChar);
        }
    }
    if exec_is_reserved(name) {
        return Err(ActionError::NameReserved);
    }
    Ok(())
}

/// A character the `owner/name` shorthand allows inside a segment: word
/// characters, dot and hyphen.
pub open spec fn is_word_char(c: char) -> bool {
    ('a' <= c && c <= 'z') || ('A' <= c && c <= 'Z') || ('0' <= c && c <= '9') || c == '_'
        || c == '.' || c == '-'
}

/// Whether one character may stand inside a shorthand segment.
pub fn exec_is_word_char(c: char) -> (r: bool)
    ensures
        r == is_word_char(c),
{
    ('a' <= c && c <= 'z') || ('A' <= c && c <= 'Z') || ('0' <= c && c <= '9') || c == '_'
        || c == '.' || c == '-'
}

/// A non-empty run of shorthand segment characters.
pub open spec fn seg_ok(s: Seq<char>) -> bool {
    s.len() > 0 && forall|i: int| 0 <= i < s.len() ==> is_word_char(#[trigger] s[i])
}

/// Whether `s` splits as shorthand exactly at position `i`: a slash
/// there, and a well-formed segment on either side.
pub open spec fn shorthand_at(s: Seq<char>, i: int) -> bool {
    &&& 0 <= i < s.len()
    &&& s[i] == '/'
    &&& seg_ok(s.subrange(0, i))
    &&& seg_ok(s.subrange(i + 1, s.len() as int))
}

/// Whether `s` is an `owner/name` shorthand reference.
pub open spec fn is_shorthand(s: Seq<char>) -> bool {
    exists|i: int| shorthand_at(s, i)
}

/// A shorthand splits at one position only: each segment excludes the
/// slash, so two split points would each break the other's segment.
pub proof fn lemma_shorthand_split_unique(s: Seq<char>, i: int, j: int)
    requires
        shorthand_at(s, i),
        shorthand_at(s, j),
    ensures
        i == j,
{
    if i < j {
        assert(s.subrange(0, j)[i] == s[i]);
        assert(!is_word_char('/'));
    } else if j < i {
        assert(s.subrange(0, i)[j] == s[j]);
        assert(!is_word_char('/'));
    }
}

/// The split position of a shorthand reference.
pub open spec fn shorthand_split(s: Seq<char>) -> int {
    choose|i: int| shorthand_at(s, i)
}

/// The fetchable URL a shorthand `owner/name` stands for.
pub open spec fn shorthand_url(owner: Seq<char>, name: Seq<char>) -> Seq<char> {
    "https://github.com/"@ + owner + "/"@ + name + ".git"@
}

/// The host of `s` as the URL parser reads it, when `s` parses as a URL
/// with a host. The host of a URL string depends on the string alone.
pub uninterp spec fn url_host_of(s: Seq<char>) -> Option<Seq<char>>;

/// Relies on `url::Url::parse` followed by `url::Url::host_str`: parsing
/// is deterministic, so the host — absent when the string does not parse
/// or the URL has no host — is a function of the string alone.
#[verifier::external_body]
fn parse_url_host(s: &str) -> (r: Option<String>)
    ensures
        match r {
            Some(h) => url_host_of(s@) == Some(h@),
            None => url_host_of(s@) is None,
        },
{
    match url::Url::parse(s) {
        Ok(u) => u.host_str().map(|h| h.to_string()),
        Err(_) => None,
    }
}

/// Whether a parsed host names GitHub.
pub fn host_is_github(h: &Option<String>) -> (r: bool)
    ensures
        r == match h {
            Some(x) => x@ == "github.com"@,
            None => false,
        },
{
    match h {
        Some(x) => crate::text::str_eq(x.as_str(), "github.com"),
        None => false,
    }
}

/// The normalized form of a repository reference: shorthand becomes the
/// GitHub URL it stands for; a URL hosted at `github.com` passes through
/// unchanged; everything else is rejected.
pub open spec fn normalize_spec(s: Seq<char>) -> Option<Seq<char>> {
    if is_shorthand(s) {
        let i = shorthand_split(s);
        Some(shorthand_url(s.subrange(0, i), s.subrange(i + 1, s.len() as int)))
    } else if url_host_of(s) == Some("github.com"@) {
        Some(s)
    } else {
        None
    }
}

/// Any `owner/name` shorthand normalizes to exactly
/// `https://github.com/owner/name.git`.
pub proof fn lemma_normalize_shorthand(owner: Seq<char>, name: Seq<char>)
    requires
        seg_ok(owner),
        seg_ok(name),
    ensures
        normalize_spec(owner + "/"@ + name) == Some(shorthand_url(owner, name)),
{
    reveal_strlit("/");
    let s = owner + "/"@ + name;
    let i = owner.len() as int;
    assert(s[i] == '/');
    assert(s.subrange(0, i) =~= owner);
    assert(s.subrange(i + 1, s.len() as int) =~= name);
    assert(shorthand_at(s, i));
    lemma_shorthand_split_unique(s, shorthand_split(s), i);
}

/// The split position of `repo` when it is shorthand, and nothing when it
/// is not.
fn find_shorthand_split(repo: &str) -> (r: Option<usize>)
    ensures
        match r {
            Some(i) => shorthand_at(repo@, i as int),
            None => !is_shorthand(repo@),
        },
{
    let ghost s = repo@;
    let len = repo.unicode_len();

    // Locate the first slash, if any.
    let mut slash = len;
    for i in 0..len
        invariant
            len == s.len(),
            s == repo@,
            slash <= len,
            slash == len ==> forall|j: int| 0 <= j < i ==> s[j] != '/',
            slash < len ==> slash < i && s[slash as int] == '/' && (forall|j: int|
                0 <= j < slash ==> s[j] != '/'),
    {
        if slash == len && repo.get_char(i) == '/' {
            slash = i;
        }
    }

    if slash == len {
        proof {
            assert forall|i: int| !shorthand_at(s, i) by {
                if 0 <= i < s.len() {
                    assert(s[i] != '/');
                }
            }
        }
        return None;
    }

    let bounds_ok = 0 < slash && slash + 1 < len;
    let mut ok = bounds_ok;
    for i in 0..slash
        invariant
            len == s.len(),
            s == repo@,
            slash < len,
            ok == (bounds_ok && forall|j: int| 0 <= j < i ==> is_word_char(#[trigger] s[j])),
    {
        if !exec_is_word_char(repo.get_char(i)) {
            ok = false;
        }
    }
    let start = slash + 1;
    for i in start..len
        invariant
            len == s.len(),
            s == repo@,
            slash < len,
            start == slash + 1,
            ok == (bounds_ok && (forall|j: int|
                0 <= j < slash ==> is_word_char(#[trigger] s[j])) && (forall|j: int|
                start <= j < i ==> is_word_char(#[trigger] s[j]))),
    {
        if !exec_is_word_char(repo.get_char(i)) {
            ok = false;
        }
    }

    if ok {
        proof {
            assert(forall|j: int|
                0 <= j < slash ==> #[trigger] s.subrange(0, slash as int)[j] == s[j]);
            assert(forall|j: int|
                0 <= j < len - slash - 1 ==> #[trigger] s.subrange(slash + 1, len as int)[j]
                    == s[slash + 1 + j]);
            assert(shorthand_at(s, slash as int));
        }
        Some(slash)
    } else {
        proof {
            // The first slash is the only candidate split point, and it
            // fails one of the shorthand rules.
            assert forall|i: int| !shorthand_at(s, i) by {
                if shorthand_at(s, i) {
                    if i < slash {
                        assert(s[i] == '/');
                    } else if i > slash {
                        assert(s.subrange(0, i)[slash as int] == s[slash as int]);
                        assert(!is_word_char('/'));
                    } else if bounds_ok {
                        if !(forall|j: int|
                            0 <= j < slash ==> is_word_char(#[trigger] s[j])) {
                            let b = choose|j: int|
                                0 <= j < slash && !is_word_char(#[trigger] s[j]);
                            assert(s.subrange(0, i)[b] == s[b]);
                        } else {
                            let b = choose|j: int|
                                start <= j < len && !is_word_char(#[trigger] s[j]);
                            assert(s.subrange(i + 1, len as int)[b - slash - 1] == s[b]);
                        }
                    } else if slash == 0 {
                        assert(s.subrange(0, i).len() == 0);
                    } else {
                        assert(s.subrange(i + 1, len as int).len() == 0);
                    }
                }
            }
        }
        None
    }
}

/// Normalizes a repository reference. An `owner/name` shorthand becomes
/// `https://github.com/owner/name.git`; a URL whose host is `github.com`
/// comes back unchanged; anything else is rejected as an invalid GitHub
/// URL.
pub fn normalize_gh_url(repo: &str) -> (r: Result<String, ActionError>)
    ensures
        match r {
            Ok(u) => normalize_spec(repo@) == Some(u@),
            Err(e) => normalize_spec(repo@) is None && e == ActionError::InvalidGithubUrl,
        },
{
    let ghost s = repo@;
    let len = repo.unicode_len();
    match find_shorthand_split(repo) {
        Some(slash) => {
            let owner = repo.substring_char(0, slash);
            let name = repo.substring_char(slash + 1, len);
            let mut u = String::new();
            u.append("https://github.com/");
            u.append(owner);
            u.append("/");
            u.append(name);
            u.append(".git");
            proof {
                assert(is_shorthand(s));
                lemma_shorthand_split_unique(s, shorthand_split(s), slash as int);
                assert(u@ =~= shorthand_url(
                    s.subrange(0, slash as int),
                    s.subrange(slash + 1, len as int),
                ));
            }
            Ok(u)
        },
        None => {
            let h = parse_url_host(repo);
            if host_is_github(&h) {
                Ok(repo.to_owned())
            } else {
                Err(ActionError::InvalidGithubUrl)
            }
        },
    }
}

/// Whether the URL starts with the `https://` scheme prefix.
pub open spec fn starts_https(s: Seq<char>) -> bool {
    s.len() >= 8 && s.subrange(0, 8) == "https://"@
}

/// Whether the URL already ends in `.git`.
pub open spec fn ends_git(s: Seq<char>) -> bool {
    s.len() >= 4 && s.subrange(s.len() - 4, s.len() as int) == ".git"@
}

/// The URL with a `.git` suffix, appended when missing.
pub open spec fn with_git_suffix(s: Seq<char>) -> Seq<char> {
    if ends_git(s) {
        s
    } else {
        s + ".git"@
    }
}

/// The URL with the token injected as userinfo after the scheme, and a
/// `.git` suffix ensured.
pub open spec fn authed_url(url: Seq<char>, token: Seq<char>) -> Seq<char> {
    with_git_suffix("https://"@ + token + "@"@ + url.subrange(8, url.len() as int))
}

/// Injects an auth token into a resolved URL. Without a token the URL
/// comes back unchanged. With one, the URL must carry no userinfo (no
/// `@`) and must start with `https://`; the token is then inserted after
/// the scheme and a `.git` suffix is ensured. A URL that already carries
/// an `@`, or one of another scheme, is refused rather than rewritten.
pub fn add_gh_auth(url: &str, token: Option<&str>) -> (r: Result<String, ActionError>)
    ensures
        match token {
            None => r matches Ok(u) && u@ == url@,
            Some(t) => if !url@.contains('@') && starts_https(url@) {
                r matches Ok(u) && u@ == authed_url(url@, t@)
            } else {
                r matches Err(e) && e == ActionError::UrlHasCredentials
            },
        },
{
    match token {
        None => Ok(url.to_owned()),
        Some(t) => {
            proof {
                reveal_strlit("https://");
            }
            if contains_char(url, '@') || !starts_with_str(url, "https://") {
                Err(ActionError::UrlHasCredentials)
            } else {
                let len = url.unicode_len();
                let rest = url.substring_char(8, len);
                let ghost base = "https://"@ + t@ + "@"@ + url@.subrange(8, url@.len() as int);
                let mut a = String::new();
                a.append("https://");
                a.append(t);
                a.append("@");
                a.append(rest);
                proof {
                    reveal_strlit(".git");
                    assert(a@ =~= base);
                }
                if !ends_with_str(a.as_str(), ".git") {
                    a.append(".git");
                }
                proof {
                    assert(a@ == with_git_suffix(base));
                }
                Ok(a)
            }
        },
    }
}

} // verus!
