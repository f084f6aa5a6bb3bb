//! Parsing of the provider's JSON error body.
//!
//! On most failures the provider answers with a flat JSON object carrying a
//! `"message"` member, e.g. `{"message": "domain not found"}`.  The relay
//! surfaces that message to its caller.  The accepted input is a flat JSON
//! object: members are string keys mapped to string values or to unquoted
//! scalar tokens (numbers, `true`, `false`, `null`); nested objects and
//! arrays, and `\u` escapes, are not accepted.  Strings know the simple
//! escapes (`\"` `\\` `\/` `\n` `\t` `\r` `\b` `\f`).  A `"message"` member
//! must have a string value; the first one's content is the result.  A body
//! of any other shape, or one without a `"message"` member, yields no
//! message, and the relay reports a generic data-format error instead.
//!
//! The grammar is stated by the `spec` functions below; the executable
//! parser is proved to return exactly what they define.

use vstd::prelude::*;
use vstd::string::StrSliceExecFns;

verus! {

/// Relies on `String::push` of std: it appends exactly the given character.
pub assume_specification[ String::push ](s: &mut String, c: char)
    ensures
        final (s)@ == old(s)@.push(c),
;

/// JSON insignificant whitespace.
pub open spec fn is_json_ws(c: char) -> bool {
    c == ' ' || c == '\t' || c == '\n' || c == '\r'
}

/// The first position at or after `i` holding a non-whitespace character
/// (or the end of the input).
pub open spec fn skip_ws(s: Seq<char>, i: int) -> int
    decreases s.len() - i,
{
    if 0 <= i < s.len() && is_json_ws(s[i]) {
        skip_ws(s, i + 1)
    } else {
        i
    }
}

/// What a simple escape (the character after a backslash) stands for; `None`
/// for an escape the grammar does not accept.
pub open spec fn unescape(c: char) -> Option<char> {
    if c == '"' {
        Some('"')
    } else if c == '\\' {
        Some('\\')
    } else if c == '/' {
        Some('/')
    } else if c == 'n' {
        Some('\n')
    } else if c == 't' {
        Some('\t')
    } else if c == 'r' {
        Some('\r')
    } else if c == 'b' {
        Some('\u{0008}')
    } else if c == 'f' {
        Some('\u{000C}')
    } else {
        None
    }
}

/// Scans a string body from `i` (just after the opening quote), unescaping
/// as it goes; yields the content and the position after the closing quote.
pub open spec fn scan_string(s: Seq<char>, i: int, acc: Seq<char>) -> Option<(Seq<char>, int)>
    decreases s.len() - i,
{
    if !(0 <= i < s.len()) {
        None
    } else if s[i] == '"' {
        Some((acc, i + 1))
    } else if s[i] == '\\' {
        if i + 1 < s.len() {
            match unescape(s[i + 1]) {
                Some(c) => scan_string(s, i + 2, acc.push(c)),
                None => None,
            }
        } else {
            None
        }
    } else {
        scan_string(s, i + 1, acc.push(s[i]))
    }
}

/// A character that may stand in an unquoted scalar token.
pub open spec fn is_scalar_char(c: char) -> bool {
    !is_json_ws(c) && c != ',' && c != '}' && c != '{' && c != '"' && c != ':' && c != '['
        && c != ']' && c != '\\'
}

/// The end of the scalar token starting at `i` (equal to `i` when none
/// starts there).
pub open spec fn scan_scalar(s: Seq<char>, i: int) -> int
    decreases s.len() - i,
{
    if 0 <= i < s.len() && is_scalar_char(s[i]) {
        scan_scalar(s, i + 1)
    } else {
        i
    }
}

/// Parses one member value at `i`: a string (content kept) or a scalar token
/// (content discarded); yields the position after the value.
pub open spec fn parse_value(s: Seq<char>, i: int) -> Option<(Option<Seq<char>>, int)> {
    if 0 <= i < s.len() && s[i] == '"' {
        match scan_string(s, i + 1, Seq::<char>::empty()) {
            Some((content, j)) => Some((Some(content), j)),
            None => None,
        }
    } else {
        let j = scan_scalar(s, i);
        if j > i {
            Some((None, j))
        } else {
            None
        }
    }
}

/// The member key the relay is after.
pub open spec fn message_key() -> Seq<char> {
    "message"@
}

/// Parses the members of a flat object from `i` (at the opening quote of a
/// key) up to and past the closing brace.  `found` carries the first
/// `"message"` content seen so far.  Every `"message"` member must have a
/// string value.
pub open spec fn parse_members(s: Seq<char>, i: int, found: Option<Seq<char>>) -> Option<
    (Option<Seq<char>>, int),
>
    decreases s.len() - i,
{
    if !(0 <= i < s.len() && s[i] == '"') {
        None
    } else {
        match scan_string(s, i + 1, Seq::<char>::empty()) {
            None => None,
            Some((key, j)) => {
                let k = skip_ws(s, j);
                if !(k < s.len() && s[k] == ':') {
                    None
                } else {
                    match parse_value(s, skip_ws(s, k + 1)) {
                        None => None,
                        Some((value, w)) => {
                            if key == message_key() && value is None {
                                None
                            } else {
                                let found2 = if found is None && key == message_key() {
                                    value
                                } else {
                                    found
                                };
                                let t = skip_ws(s, w);
                                if t < s.len() && s[t] == ',' {
                                    let m = skip_ws(s, t + 1);
                                    if i < m <= s.len() {
                                        parse_members(s, m, found2)
                                    } else {
                                        None
                                    }
                                } else if t < s.len() && s[t] == '}' {
                                    Some((found2, t + 1))
                                } else {
                                    None
                                }
                            }
                        },
                    }
                }
            },
        }
    }
}

/// The `"message"` content of a provider error body, when the whole input is
/// one flat object of the accepted shape carrying a string-valued
/// `"message"` member; `None` for input of any other shape.
pub open spec fn spec_error_message(s: Seq<char>) -> Option<Seq<char>> {
    let i = skip_ws(s, 0);
    if !(i < s.len() && s[i] == '{') {
        None
    } else {
        let j = skip_ws(s, i + 1);
        if j < s.len() && s[j] == '}' {
            None  // an empty object has no message member
        } else {
            match parse_members(s, j, None) {
                None => None,
                Some((found, w)) => {
                    if skip_ws(s, w) == s.len() {
                        found
                    } else {
                        None
                    }
                },
            }
        }
    }
}

/// The view of an optional owned message.
pub open spec fn opt_view(o: Option<String>) -> Option<Seq<char>> {
    match o {
        Some(m) => Some(m@),
        None => None,
    }
}

fn is_ws_exec(c: char) -> (r: bool)
    ensures
        r == is_json_ws(c),
{
    c == ' ' || c == '\t' || c == '\n' || c == '\r'
}

fn is_scalar_char_exec(c: char) -> (r: bool)
    ensures
        r == is_scalar_char(c),
{
    !(c == ' ' || c == '\t' || c == '\n' || c == '\r') && c != ',' && c != '}' && c != '{' && c
        != '"' && c != ':' && c != '[' && c != ']' && c != '\\'
}

fn unescape_exec(c: char) -> (r: Option<char>)
    ensures
        r == unescape(c),
{
    if c == '"' {
        Some('"')
    } else if c == '\\' {
        Some('\\')
    } else if c == '/' {
        Some('/')
    } else if c == 'n' {
        Some('\n')
    } else if c == 't' {
        Some('\t')
    } else if c == 'r' {
        Some('\r')
    } else if c == 'b' {
        Some('\u{0008}')
    } else if c == 'f' {
        Some('\u{000C}')
    } else {
        None
    }
}

fn skip_ws_exec(s: &str, start: usize) -> (r: usize)
    requires
        start <= s@.len(),
    ensures
        r as int == skip_ws(s@, start as int),
        start <= r <= s@.len(),
{
    let n = s.unicode_len();
    let mut i = start;
    while i < n && is_ws_exec(s.get_char(i))
        invariant
            start <= i <= n,
            n == s@.len(),
            skip_ws(s@, start as int) == skip_ws(s@, i as int),
        decreases n - i,
    {
        i = i + 1;
    }
    i
}

fn scan_scalar_exec(s: &str, start: usize) -> (r: usize)
    requires
        start <= s@.len(),
    ensures
        r as int == scan_scalar(s@, start as int),
        start <= r <= s@.len(),
{
    let n = s.unicode_len();
    let mut i = start;
    while i < n && is_scalar_char_exec(s.get_char(i))
        invariant
            start <= i <= n,
            n == s@.len(),
            scan_scalar(s@, start as int) == scan_scalar(s@, i as int),
        decreases n - i,
    {
        i = i + 1;
    }
    i
}

fn scan_string_exec(s: &str, start: usize) -> (r: Option<(String, usize)>)
    requires
        start <= s@.len(),
    ensures
        r matches Some((m, j)) ==> scan_string(s@, start as int, Seq::<char>::empty()) == Some(
            (m@, j as int),
        ) && start < j <= s@.len(),
        r is None ==> scan_string(s@, start as int, Seq::<char>::empty()) is None,
{
    let n = s.unicode_len();
    let mut i = start;
    let mut acc = String::new();
    loop
        invariant
            start <= i <= n,
            n == s@.len(),
            scan_string(s@, start as int, Seq::<char>::empty()) == scan_string(
                s@,
                i as int,
                acc@,
            ),
        decreases n - i,
    {
        if i >= n {
            return None;
        }
        let c = s.get_char(i);
        if c == '"' {
            return Some((acc, i + 1));
        } else if c == '\\' {
            if i + 1 >= n {
                return None;
            }
            let c2 = s.get_char(i + 1);
            match unescape_exec(c2) {
                Some(u) => {
                    acc.push(u);
                    i = i + 2;
                },
                None => {
                    return None;
                },
            }
        } else {
            acc.push(c);
            i = i + 1;
        }
    }
}

fn parse_value_exec(s: &str, start: usize) -> (r: Option<(Option<String>, usize)>)
    requires
        start <= s@.len(),
    ensures
        r matches Some((v, j)) ==> parse_value(s@, start as int) == Some((opt_view(v), j as int))
            && start < j <= s@.len(),
        r is None ==> parse_value(s@, start as int) is None,
{
    let n = s.unicode_len();
    if start < n && s.get_char(start) == '"' {
        match scan_string_exec(s, start + 1) {
            Some((content, j)) => Some((Some(content), j)),
            None => None,
        }
    } else {
        let j = scan_scalar_exec(s, start);
        if j > start {
            Some((None, j))
        } else {
            None
        }
    }
}

fn parse_members_exec(s: &str, start: usize) -> (r: Option<(Option<String>, usize)>)
    requires
        start <= s@.len(),
    ensures
        r matches Some((v, w)) ==> parse_members(s@, start as int, None) == Some(
            (opt_view(v), w as int),
        ) && w <= s@.len(),
        r is None ==> parse_members(s@, start as int, None) is None,
{
    let n = s.unicode_len();
    let message = String::from_str("message");
    proof {
        reveal_strlit("message");
    }
    let mut i = start;
    let mut found: Option<String> = None;
    loop
        invariant
            start <= i <= n,
            n == s@.len(),
            message@ == message_key(),
            parse_members(s@, start as int, None) == parse_members(s@, i as int, opt_view(found)),
        decreases n - i,
    {
        if i >= n {
            return None;
        }
        if s.get_char(i) != '"' {
            return None;
        }
        let (key, j) = match scan_string_exec(s, i + 1) {
            Some(p) => p,
            None => {
                return None;
            },
        };
        let k = skip_ws_exec(s, j);
        if k >= n {
            return None;
        }
        if s.get_char(k) != ':' {
            return None;
        }
        let v = skip_ws_exec(s, k + 1);
        let (value, w) = match parse_value_exec(s, v) {
            Some(p) => p,
            None => {
                return None;
            },
        };
        let is_message = key == message;
        if is_message && value.is_none() {
            return None;
        }
        let found2 = if found.is_none() && is_message {
            value
        } else {
            found
        };
        let t = skip_ws_exec(s, w);
        if t >= n {
            return None;
        }
        let c = s.get_char(t);
        if c == ',' {
            let m = skip_ws_exec(s, t + 1);
            if m > i {
                found = found2;
                i = m;
            } else {
                return None;
            }
        } else if c == '}' {
            return Some((found2, t + 1));
        } else {
            return None;
        }
    }
}

/// Extracts the provider's error message from a response body: the
/// `"message"` content when the body is one flat JSON object of the accepted
/// shape, `None` for a body of any other shape.
pub fn parse_error_message(body: &str) -> (r: Option<String>)
    ensures
        r matches Some(m) ==> spec_error_message(body@) == Some(m@),
        r is None ==> spec_error_message(body@) is None,
{
    let n = body.unicode_len();
    let i = skip_ws_exec(body, 0);
    if i >= n {
        return None;
    }
    if body.get_char(i) != '{' {
        return None;
    }
    let j = skip_ws_exec(body, i + 1);
    if j < n && body.get_char(j) == '}' {
        return None;
    }
    match parse_members_exec(body, j) {
        None => None,
        Some((found, w)) => {
            let t = skip_ws_exec(body, w);
            if t == n {
                found
            } else {
                None
            }
        },
    }
}

} // verus!
