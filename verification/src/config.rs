//! Names of configuration profiles.
//!
//! A profile is stored under its name, so a name must not be able to lead
//! anywhere else in the file system.

use crate::text::{join2, same_text};
use vstd::prelude::*;
use vstd::string::*;

verus! {

/// Whether `c` is a letter or a digit, as Unicode has it.
pub uninterp spec fn alphanumeric(c: char) -> bool;

/// Whether `c` is white space, as Unicode has it.
pub uninterp spec fn whitespace(c: char) -> bool;

/// `char::is_alphanumeric`: whether the character is a letter or a digit by
/// its Unicode properties.
#[verifier::external_body]
fn is_alphanumeric(c: char) -> (yes: bool)
    ensures
        yes == alphanumeric(c),
{
    c.is_alphanumeric()
}

/// `char::is_whitespace`: whether the character has the Unicode property
/// White_Space.
#[verifier::external_body]
fn is_whitespace(c: char) -> (yes: bool)
    ensures
        yes == whitespace(c),
{
    c.is_whitespace()
}

/// Number of white-space characters at the front of `s`.
pub open spec fn leading_space(s: Seq<char>) -> nat
    decreases s.len(),
{
    if s.len() > 0 && whitespace(s[0]) {
        1 + leading_space(s.drop_first())
    } else {
        0
    }
}

/// Number of white-space characters at the end of `s`.
pub open spec fn trailing_space(s: Seq<char>) -> nat
    decreases s.len(),
{
    if s.len() > 0 && whitespace(s.last()) {
        1 + trailing_space(s.drop_last())
    } else {
        0
    }
}

/// `s` without the white space at its front and at its end.
pub open spec fn trimmed(s: Seq<char>) -> Seq<char> {
    let front = leading_space(s);
    if front == s.len() {
        Seq::empty()
    } else {
        s.subrange(front as int, s.len() - trailing_space(s))
    }
}

/// Whether `c` may stand in a profile name: letters, digits, space, hyphen and
/// underscore.
pub open spec fn name_char(c: char) -> bool {
    alphanumeric(c) || c == ' ' || c == '-' || c == '_'
}

/// Whether `s` could lead out of the directory of profiles: it holds a path
/// separator or two dots in a row.
pub open spec fn leads_away(s: Seq<char>) -> bool {
    ||| exists|i: int| 0 <= i < s.len() && (s[i] == '/' || s[i] == '\\')
    ||| exists|i: int| 0 <= i && i + 1 < s.len() && s[i] == '.' && #[trigger] s[i + 1] == '.'
}

/// The profile name that `name` stands for, or why it stands for none.
pub open spec fn sanitized(name: Seq<char>) -> Result<Seq<char>, Seq<char>> {
    let inner = trimmed(name);
    if inner.len() == 0 {
        Err("Configuration name cannot be empty"@)
    } else if leads_away(inner) {
        Err("Invalid configuration name"@)
    } else if !(forall|i: int| 0 <= i < inner.len() ==> name_char(#[trigger] inner[i])) {
        Err("Configuration name contains invalid characters"@)
    } else {
        Ok(inner)
    }
}

/// The characters of a string.
fn chars_of(s: &str) -> (chars: Vec<char>)
    ensures
        chars@ == s@,
{
    let mut chars: Vec<char> = Vec::new();
    for c in it: s.chars()
        invariant
            it.seq() == s@,
            chars@ == s@.take(it.index() as int),
    {
        chars.push(c);
        assert(chars@ =~= s@.take(it.index() + 1));
    }
    assert(s@.take(s@.len() as int) =~= s@);
    chars
}

/// Counting white space from the front stops at the first character that is
/// none.
proof fn lemma_leading_space(s: Seq<char>, n: nat)
    requires
        n <= s.len(),
        forall|i: int| 0 <= i < n ==> whitespace(#[trigger] s[i]),
        n < s.len() ==> !whitespace(s[n as int]),
    ensures
        leading_space(s) == n,
    decreases n,
{
    if n > 0 {
        let rest = s.drop_first();
        assert forall|i: int| 0 <= i < n - 1 implies whitespace(#[trigger] rest[i]) by {
            assert(rest[i] == s[i + 1]);
        }
        if n < s.len() {
            assert(rest[n - 1] == s[n as int]);
        }
        lemma_leading_space(rest, (n - 1) as nat);
    }
}

/// Counting white space from the end stops at the last character that is none.
proof fn lemma_trailing_space(s: Seq<char>, n: nat)
    requires
        n <= s.len(),
        forall|i: int| s.len() - n <= i < s.len() ==> whitespace(#[trigger] s[i]),
        n < s.len() ==> !whitespace(s[s.len() - n - 1]),
    ensures
        trailing_space(s) == n,
    decreases n,
{
    if n > 0 {
        let rest = s.drop_last();
        assert forall|i: int| rest.len() - (n - 1) <= i < rest.len() implies whitespace(
            #[trigger] rest[i],
        ) by {
            assert(rest[i] == s[i]);
        }
        if n < s.len() {
            assert(rest[rest.len() - (n - 1) - 1] == s[s.len() - n - 1]);
        }
        lemma_trailing_space(rest, (n - 1) as nat);
    }
}

/// Checks the name of a configuration profile and returns it without the
/// white space around it.
///
/// A name that is empty or all white space is refused, then one that holds a
/// path separator or two dots in a row, then one that holds anything but
/// letters, digits, spaces, hyphens and underscores.
pub fn sanitize_name(name: &str) -> (result: Result<String, String>)
    ensures
        match result {
            Ok(clean) => sanitized(name@) == Ok::<Seq<char>, Seq<char>>(clean@),
            Err(why) => sanitized(name@) == Err::<Seq<char>, Seq<char>>(why@),
        },
{
    let chars = chars_of(name);
    let len: usize = chars.len();
    let mut start: usize = 0;
    while start < len && is_whitespace(chars[start])
        invariant
            start <= len,
            len == chars@.len(),
            forall|i: int| 0 <= i < start ==> whitespace(#[trigger] chars@[i]),
        decreases len - start,
    {
        start += 1;
    }
    proof {
        lemma_leading_space(chars@, start as nat);
    }
    if start == len {
        return Err(String::from_str("Configuration name cannot be empty"));
    }
    let mut end: usize = len;
    while end > start && is_whitespace(chars[end - 1])
        invariant
            start <= end <= len,
            start < len,
            len == chars@.len(),
            !whitespace(chars@[start as int]),
            forall|i: int| end <= i < len ==> whitespace(#[trigger] chars@[i]),
        decreases end,
    {
        end -= 1;
    }
    proof {
        lemma_trailing_space(chars@, (len - end) as nat);
    }
    let ghost inner = chars@.subrange(start as int, end as int);
    assert(inner == trimmed(name@));
    let mut away = false;
    let mut all_allowed = true;
    let mut i: usize = start;
    while i < end
        invariant
            start <= i <= end <= len,
            len == chars@.len(),
            inner == chars@.subrange(start as int, end as int),
            away == leads_away(inner.take(i - start)),
            all_allowed == (forall|k: int| 0 <= k < i - start ==> name_char(#[trigger] inner[k])),
        decreases end - i,
    {
        let c = chars[i];
        let ghost seen = inner.take(i - start);
        let ghost more = inner.take(i - start + 1);
        proof {
            assert(more[i - start] == c);
            assert forall|k: int| 0 <= k < seen.len() implies seen[k] == more[k] by {}
        }
        let separator = c == '/' || c == '\\';
        let dots = c == '.' && i > start && chars[i - 1] == '.';
        proof {
            if away {
                if exists|k: int| 0 <= k < seen.len() && (seen[k] == '/' || seen[k] == '\\') {
                    let k = choose|k: int| 0 <= k < seen.len() && (seen[k] == '/' || seen[k] == '\\');
                    assert(more[k] == '/' || more[k] == '\\');
                } else {
                    let k = choose|k: int|
                        0 <= k && k + 1 < seen.len() && seen[k] == '.' && #[trigger] seen[k + 1]
                            == '.';
                    assert(more[k] == '.' && more[k + 1] == '.');
                }
            }
            if separator {
                assert(more[i - start] == '/' || more[i - start] == '\\');
            }
            if dots {
                assert(more[i - start - 1] == '.' && more[i - start - 1 + 1] == '.');
            }
            if leads_away(more) && !away && !separator {
                if exists|k: int| 0 <= k < more.len() && (more[k] == '/' || more[k] == '\\') {
                    let k = choose|k: int| 0 <= k < more.len() && (more[k] == '/' || more[k] == '\\');
                    assert(k < seen.len());
                    assert(seen[k] == '/' || seen[k] == '\\');
                } else {
                    let k = choose|k: int|
                        0 <= k && k + 1 < more.len() && more[k] == '.' && #[trigger] more[k + 1]
                            == '.';
                    if k + 1 < seen.len() {
                        assert(seen[k] == '.' && seen[k + 1] == '.');
                    }
                    assert(dots);
                }
            }
        }
        if separator || dots {
            away = true;
        }
        if !(is_alphanumeric(c) || c == ' ' || c == '-' || c == '_') {
            all_allowed = false;
        }
        i += 1;
    }
    assert(inner.take(end - start) =~= inner);
    if away {
        return Err(String::from_str("Invalid configuration name"));
    }
    if !all_allowed {
        return Err(String::from_str("Configuration name contains invalid characters"));
    }
    let clean = name.substring_char(start, end);
    Ok(String::from_str(clean))
}

/// The profile that is always there and cannot be deleted.
pub const DEFAULT_PROFILE: &'static str = "Default";

/// The name of the profile to delete that `name` stands for, or why none is
/// deleted: what holds of every profile name, and the default profile stays.
pub open spec fn deletable(name: Seq<char>) -> Result<Seq<char>, Seq<char>> {
    match sanitized(name) {
        Ok(clean) => if clean == "Default"@ {
            Err("Cannot delete the Default configuration"@)
        } else {
            Ok(clean)
        },
        Err(why) => Err(why),
    }
}

/// Checks the name of a profile that is to be deleted.
pub fn deletable_name(name: &str) -> (result: Result<String, String>)
    ensures
        match result {
            Ok(clean) => deletable(name@) == Ok::<Seq<char>, Seq<char>>(clean@),
            Err(why) => deletable(name@) == Err::<Seq<char>, Seq<char>>(why@),
        },
{
    match sanitize_name(name) {
        Ok(clean) => {
            if same_text(clean.as_str(), DEFAULT_PROFILE) {
                Err(String::from_str("Cannot delete the Default configuration"))
            } else {
                Ok(clean)
            }
        },
        Err(why) => Err(why),
    }
}

/// The name of the file that holds the profile `clean`.
pub fn profile_file_name(clean: &str) -> (file: String)
    ensures
        file@ == clean@ + ".json"@,
{
    join2(clean, ".json")
}

} // verus!
