//! Structural decoding of event bodies into the [`Envelope`] shape.
//!
//! The grammar the decoder accepts is stated here as spec functions over
//! the body's characters, and the executable parser is proved to return
//! exactly what the grammar says. Unknown fields are skipped (forward
//! compatibility with schema evolution of the source host); absent fields
//! decode to `None`; a field present with an incompatible type is the one
//! error path. Escaped code points (`\uXXXX`) must name Basic Multilingual
//! Plane scalars: surrogate values, paired or lone, are rejected.
//!
//! Each parsing function takes a position `i` and, on success, returns the
//! position after what it consumed, which always lies in `(i, n]`. The
//! helper [`adv`] makes that bound evident to the termination checker at
//! the recursive calls without changing the language parsed.

use vstd::prelude::*;
use vstd::utf8::{decode_utf8, encode_scalar, encode_utf8};
use vstd::utf8::encode_utf8_decode_utf8;
use crate::envelope::{Envelope, EnvelopeView, User, UserView, Repository, RepositoryView,
    PullRequest, Issue, ItemView, DecodeError};
use crate::hexstr::hex_digit_value;

verus! {

/// How deeply values the decoder only skips over may nest.
pub const MAX_SKIP_DEPTH: u32 = 100;

/// The whitespace characters the grammar allows between tokens.
pub open spec fn is_ws(c: char) -> bool {
    c == ' ' || c == '\n' || c == '\r' || c == '\t'
}

/// The first position at or after `i` holding no whitespace.
pub open spec fn skip_ws(s: Seq<char>, i: int) -> int
    decreases s.len() - i,
{
    if 0 <= i < s.len() && is_ws(s[i]) {
        skip_ws(s, i + 1)
    } else {
        i
    }
}

/// Clamps a successor position into `(i, n]` for the termination measure;
/// the identity on every position a sub-parser actually returns.
pub open spec fn adv(i: int, j: int, n: int) -> int {
    if i < j && j <= n {
        j
    } else {
        i + 1
    }
}

/// Clamps a position into `[i, n]`; the identity on every position
/// `skip_ws` actually returns.
pub open spec fn adv0(i: int, j: int, n: int) -> int {
    if i <= j && j <= n {
        j
    } else {
        i
    }
}

/// A decimal digit.
pub open spec fn is_digit(c: char) -> bool {
    '0' <= c && c <= '9'
}

/// The numeric value of a decimal digit.
pub open spec fn digit_value(c: char) -> int
    recommends
        is_digit(c),
{
    c as u8 - '0' as u8
}

/// The first position at or after `i` holding no decimal digit.
pub open spec fn digits_end(s: Seq<char>, i: int) -> int
    decreases s.len() - i,
{
    if 0 <= i < s.len() && is_digit(s[i]) {
        digits_end(s, i + 1)
    } else {
        i
    }
}

/// The value of the digit run `s[i .. end]`, most significant first.
pub open spec fn digits_value(s: Seq<char>, i: int, end: int) -> int
    decreases end - i,
{
    if i >= end {
        0
    } else {
        digits_value(s, i, end - 1) * 10 + digit_value(s[end - 1])
    }
}

/// The value of four hex digits at `i`, as in a `\uXXXX` escape.
pub open spec fn hex4_value(s: Seq<char>, i: int) -> Option<u32> {
    if 0 <= i && i + 4 <= s.len() {
        match (hex_digit_value(s[i]), hex_digit_value(s[i + 1]), hex_digit_value(s[i + 2]),
        hex_digit_value(s[i + 3])) {
            (Some(a), Some(b), Some(c), Some(d)) => Some(
                ((a as int) * 0x1000 + (b as int) * 0x100 + (c as int) * 0x10 + (d as int)) as u32,
            ),
            _ => None,
        }
    } else {
        None
    }
}

/// The character with the given Unicode scalar value.
pub open spec fn char_of_scalar(v: u32) -> char {
    decode_utf8(encode_scalar(v))[0]
}

/// Law: every character is the character of its own scalar value.
pub proof fn lemma_char_of_scalar(c: char)
    ensures
        char_of_scalar(c as u32) == c,
{
    encode_utf8_decode_utf8(seq![c]);
    let single = seq![c];
    assert(single.len() == 1 && single[0] == c);
    assert(single.drop_first() =~= Seq::<char>::empty());
    assert(encode_utf8(single.drop_first()) =~= Seq::<u8>::empty());
    assert(encode_utf8(single) =~= encode_scalar(c as u32) + encode_utf8(single.drop_first()));
    assert(encode_utf8(single) =~= encode_scalar(c as u32));
}

/// One escape sequence, read just after the backslash: the character it
/// denotes and the position after it. `\uXXXX` must name a scalar outside
/// the surrogate range.
pub open spec fn escape_char(s: Seq<char>, i: int) -> Option<(char, int)> {
    if i < 0 || i >= s.len() {
        None
    } else {
        let c = s[i];
        if c == '"' {
            Some(('"', i + 1))
        } else if c == '\\' {
            Some(('\\', i + 1))
        } else if c == '/' {
            Some(('/', i + 1))
        } else if c == 'b' {
            Some(('\u{0008}', i + 1))
        } else if c == 'f' {
            Some(('\u{000C}', i + 1))
        } else if c == 'n' {
            Some(('\n', i + 1))
        } else if c == 'r' {
            Some(('\r', i + 1))
        } else if c == 't' {
            Some(('\t', i + 1))
        } else if c == 'u' {
            match hex4_value(s, i + 1) {
                Some(v) => if 0xD800 <= v && v < 0xE000 {
                    None
                } else {
                    Some((char_of_scalar(v), i + 5))
                },
                None => None,
            }
        } else {
            None
        }
    }
}

/// The content of a string, read just after the opening quote: the decoded
/// characters and the position after the closing quote. Unescaped control
/// characters are rejected.
pub open spec fn spec_string_body(s: Seq<char>, i: int) -> Option<(Seq<char>, int)>
    decreases s.len() - i,
{
    if i < 0 || i >= s.len() {
        None
    } else {
        let c = s[i];
        if c == '"' {
            Some((Seq::empty(), i + 1))
        } else if c == '\\' {
            match escape_char(s, i + 1) {
                None => None,
                Some((ch, j)) => match spec_string_body(s, adv(i, j, s.len() as int)) {
                    None => None,
                    Some((rest, end)) => Some((seq![ch] + rest, end)),
                },
            }
        } else if (c as u32) < 0x20 {
            None
        } else {
            match spec_string_body(s, i + 1) {
                None => None,
                Some((rest, end)) => Some((seq![c] + rest, end)),
            }
        }
    }
}

/// A whole number for a `u64` field: digits only, no leading zero, no
/// minus sign, and no fraction or exponent following — an integer field
/// given a float or a negative is a type error, as is a value above
/// `u64::MAX`.
pub open spec fn spec_number_u64(s: Seq<char>, i: int) -> Option<(u64, int)> {
    let e = digits_end(s, i);
    if e == i {
        None
    } else if s[i] == '0' && e > i + 1 {
        None
    } else if e < s.len() && (s[e] == '.' || s[e] == 'e' || s[e] == 'E') {
        None
    } else if digits_value(s, i, e) > u64::MAX {
        None
    } else {
        Some((digits_value(s, i, e) as u64, e))
    }
}

/// The optional fraction part of a skipped number.
pub open spec fn skip_frac(s: Seq<char>, i: int) -> Option<int> {
    if 0 <= i < s.len() && s[i] == '.' {
        let e = digits_end(s, i + 1);
        if e == i + 1 {
            None
        } else {
            Some(e)
        }
    } else {
        Some(i)
    }
}

/// The optional exponent part of a skipped number.
pub open spec fn skip_exp(s: Seq<char>, i: int) -> Option<int> {
    if 0 <= i < s.len() && (s[i] == 'e' || s[i] == 'E') {
        let j = if i + 1 < s.len() && (s[i + 1] == '+' || s[i + 1] == '-') {
            i + 2
        } else {
            i + 1
        };
        let e = digits_end(s, j);
        if e == j {
            None
        } else {
            Some(e)
        }
    } else {
        Some(i)
    }
}

/// A skipped number: full grammar — optional minus, integer part without
/// a leading zero, optional fraction, optional exponent.
pub open spec fn spec_skip_number(s: Seq<char>, i: int) -> Option<int> {
    let j = if 0 <= i < s.len() && s[i] == '-' {
        i + 1
    } else {
        i
    };
    let e = digits_end(s, j);
    if e == j {
        None
    } else if s[j] == '0' && e > j + 1 {
        None
    } else {
        match skip_frac(s, e) {
            None => None,
            Some(g) => skip_exp(s, g),
        }
    }
}

/// The position after any skipped value starting at `i`, or `None` when
/// none starts there. Objects and arrays may nest at most `d` levels.
pub open spec fn spec_skip_value(s: Seq<char>, i: int, d: nat) -> Option<int>
    decreases s.len() - i, 0int,
{
    let n = s.len() as int;
    if i < 0 || i >= n {
        None
    } else {
        let c = s[i];
        if c == '{' {
            if d == 0 {
                None
            } else {
                spec_skip_members(s, i + 1, (d - 1) as nat, true)
            }
        } else if c == '[' {
            if d == 0 {
                None
            } else {
                spec_skip_elems(s, i + 1, (d - 1) as nat, true)
            }
        } else if c == '"' {
            match spec_string_body(s, i + 1) {
                Some((content, e)) => Some(e),
                None => None,
            }
        } else if c == 't' {
            if i + 4 <= n && s[i + 1] == 'r' && s[i + 2] == 'u' && s[i + 3] == 'e' {
                Some(i + 4)
            } else {
                None
            }
        } else if c == 'f' {
            if i + 5 <= n && s[i + 1] == 'a' && s[i + 2] == 'l' && s[i + 3] == 's' && s[i + 4]
                == 'e' {
                Some(i + 5)
            } else {
                None
            }
        } else if c == 'n' {
            if i + 4 <= n && s[i + 1] == 'u' && s[i + 2] == 'l' && s[i + 3] == 'l' {
                Some(i + 4)
            } else {
                None
            }
        } else {
            spec_skip_number(s, i)
        }
    }
}

/// The members of a skipped object, read just after `{` or a comma; a
/// closing brace is allowed at once only before the first member.
pub open spec fn spec_skip_members(s: Seq<char>, i: int, d: nat, first: bool) -> Option<int>
    decreases s.len() - i, 1int,
{
    let n = s.len() as int;
    let j = skip_ws(s, i);
    if j >= n || j < i {
        None
    } else if s[j] == '}' && first {
        Some(j + 1)
    } else if s[j] != '"' {
        None
    } else {
        match spec_string_body(s, j + 1) {
            None => None,
            Some((key, k)) => {
                let m = skip_ws(s, k);
                if m < 0 || m >= n || s[m] != ':' {
                    None
                } else {
                    let v = skip_ws(s, m + 1);
                    match spec_skip_value(s, adv(i, v, n), d) {
                        None => None,
                        Some(e) => {
                            let w = skip_ws(s, e);
                            if w < 0 || w >= n {
                                None
                            } else if s[w] == ',' {
                                spec_skip_members(s, adv(i, w + 1, n), d, false)
                            } else if s[w] == '}' {
                                Some(w + 1)
                            } else {
                                None
                            }
                        },
                    }
                }
            },
        }
    }
}

/// The elements of a skipped array, read just after `[` or a comma; a
/// closing bracket is allowed at once only before the first element.
pub open spec fn spec_skip_elems(s: Seq<char>, i: int, d: nat, first: bool) -> Option<int>
    decreases s.len() - i, 1int,
{
    let n = s.len() as int;
    let j = skip_ws(s, i);
    if j >= n || j < i {
        None
    } else if s[j] == ']' && first {
        Some(j + 1)
    } else {
        match spec_skip_value(s, adv0(i, j, n), d) {
            None => None,
            Some(e) => {
                let w = skip_ws(s, e);
                if w < 0 || w >= n {
                    None
                } else if s[w] == ',' {
                    spec_skip_elems(s, adv(i, w + 1, n), d, false)
                } else if s[w] == ']' {
                    Some(w + 1)
                } else {
                    None
                }
            },
        }
    }
}

/// A required string value: only a quoted string is accepted.
pub open spec fn spec_req_string(s: Seq<char>, i: int) -> Option<(Seq<char>, int)> {
    if 0 <= i < s.len() && s[i] == '"' {
        spec_string_body(s, i + 1)
    } else {
        None
    }
}

/// An optional string value: a quoted string or `null`.
pub open spec fn spec_opt_string(s: Seq<char>, i: int) -> Option<(Option<Seq<char>>, int)> {
    let n = s.len() as int;
    if i < 0 || i >= n {
        None
    } else if s[i] == '"' {
        match spec_string_body(s, i + 1) {
            Some((content, e)) => Some((Some(content), e)),
            None => None,
        }
    } else if i + 4 <= n && s[i] == 'n' && s[i + 1] == 'u' && s[i + 2] == 'l' && s[i + 3] == 'l' {
        Some((None, i + 4))
    } else {
        None
    }
}

/// Whether `null` stands at `i`.
pub open spec fn spec_null_at(s: Seq<char>, i: int) -> bool {
    &&& 0 <= i
    &&& i + 4 <= s.len()
    &&& s[i] == 'n'
    &&& s[i + 1] == 'u'
    &&& s[i + 2] == 'l'
    &&& s[i + 3] == 'l'
}

/// The members of a `user` object, read just after `{` or a comma. Both
/// fields are required strings; unknown members are skipped; a repeated
/// known member is an error.
pub open spec fn spec_user_members(
    s: Seq<char>,
    i: int,
    login: Option<Seq<char>>,
    html_url: Option<Seq<char>>,
    first: bool,
) -> Option<(UserView, int)>
    decreases s.len() - i,
{
    let n = s.len() as int;
    let j = skip_ws(s, i);
    if j >= n || j < i {
        None
    } else if s[j] == '}' && first {
        match (login, html_url) {
            (Some(l), Some(u)) => Some((UserView { login: l, html_url: u }, j + 1)),
            _ => None,
        }
    } else if s[j] != '"' {
        None
    } else {
        match spec_string_body(s, j + 1) {
            None => None,
            Some((key, k)) => {
                let m = skip_ws(s, k);
                if m < 0 || m >= n || s[m] != ':' {
                    None
                } else {
                    let v = skip_ws(s, m + 1);
                    let stepped: Option<(Option<Seq<char>>, Option<Seq<char>>, int)> = if key
                        == "login"@ {
                        if login is Some {
                            None
                        } else {
                            match spec_req_string(s, v) {
                                Some((val, e)) => Some((Some(val), html_url, e)),
                                None => None,
                            }
                        }
                    } else if key == "html_url"@ {
                        if html_url is Some {
                            None
                        } else {
                            match spec_req_string(s, v) {
                                Some((val, e)) => Some((login, Some(val), e)),
                                None => None,
                            }
                        }
                    } else {
                        match spec_skip_value(s, v, MAX_SKIP_DEPTH as nat) {
                            Some(e) => Some((login, html_url, e)),
                            None => None,
                        }
                    };
                    match stepped {
                        None => None,
                        Some((login2, url2, e)) => {
                            let w = skip_ws(s, e);
                            if w < 0 || w >= n {
                                None
                            } else if s[w] == ',' {
                                spec_user_members(s, adv(i, w + 1, n), login2, url2, false)
                            } else if s[w] == '}' {
                                match (login2, url2) {
                                    (Some(l), Some(u)) => Some(
                                        (UserView { login: l, html_url: u }, w + 1),
                                    ),
                                    _ => None,
                                }
                            } else {
                                None
                            }
                        },
                    }
                }
            },
        }
    }
}

/// A required `user` object.
pub open spec fn spec_user_value(s: Seq<char>, i: int) -> Option<(UserView, int)> {
    if 0 <= i < s.len() && s[i] == '{' {
        spec_user_members(s, i + 1, None, None, true)
    } else {
        None
    }
}

/// The members of a `repository` object, read just after `{` or a comma.
/// All three fields are required strings.
pub open spec fn spec_repo_members(
    s: Seq<char>,
    i: int,
    name: Option<Seq<char>>,
    full_name: Option<Seq<char>>,
    html_url: Option<Seq<char>>,
    first: bool,
) -> Option<(RepositoryView, int)>
    decreases s.len() - i,
{
    let n = s.len() as int;
    let j = skip_ws(s, i);
    if j >= n || j < i {
        None
    } else if s[j] == '}' && first {
        match (name, full_name, html_url) {
            (Some(a), Some(b), Some(c)) => Some(
                (RepositoryView { name: a, full_name: b, html_url: c }, j + 1),
            ),
            _ => None,
        }
    } else if s[j] != '"' {
        None
    } else {
        match spec_string_body(s, j + 1) {
            None => None,
            Some((key, k)) => {
                let m = skip_ws(s, k);
                if m < 0 || m >= n || s[m] != ':' {
                    None
                } else {
                    let v = skip_ws(s, m + 1);
                    let stepped: Option<
                        (Option<Seq<char>>, Option<Seq<char>>, Option<Seq<char>>, int),
                    > = if key == "name"@ {
                        if name is Some {
                            None
                        } else {
                            match spec_req_string(s, v) {
                                Some((val, e)) => Some((Some(val), full_name, html_url, e)),
                                None => None,
                            }
                        }
                    } else if key == "full_name"@ {
                        if full_name is Some {
                            None
                        } else {
                            match spec_req_string(s, v) {
                                Some((val, e)) => Some((name, Some(val), html_url, e)),
                                None => None,
                            }
                        }
                    } else if key == "html_url"@ {
                        if html_url is Some {
                            None
                        } else {
                            match spec_req_string(s, v) {
                                Some((val, e)) => Some((name, full_name, Some(val), e)),
                                None => None,
                            }
                        }
                    } else {
                        match spec_skip_value(s, v, MAX_SKIP_DEPTH as nat) {
                            Some(e) => Some((name, full_name, html_url, e)),
                            None => None,
                        }
                    };
                    match stepped {
                        None => None,
                        Some((name2, full2, url2, e)) => {
                            let w = skip_ws(s, e);
                            if w < 0 || w >= n {
                                None
                            } else if s[w] == ',' {
                                spec_repo_members(s, adv(i, w + 1, n), name2, full2, url2, false)
                            } else if s[w] == '}' {
                                match (name2, full2, url2) {
                                    (Some(a), Some(b), Some(c)) => Some(
                                        (RepositoryView { name: a, full_name: b, html_url: c }, w
                                            + 1),
                                    ),
                                    _ => None,
                                }
                            } else {
                                None
                            }
                        },
                    }
                }
            },
        }
    }
}

/// The members of a `pull_request` or `issue` object, read just after `{`
/// or a comma. `number` is a required whole number; `title`, `html_url`
/// and `state` are required strings; `user` is a required object.
pub open spec fn spec_item_members(
    s: Seq<char>,
    i: int,
    number: Option<u64>,
    title: Option<Seq<char>>,
    html_url: Option<Seq<char>>,
    state: Option<Seq<char>>,
    user: Option<UserView>,
    first: bool,
) -> Option<(ItemView, int)>
    decreases s.len() - i,
{
    let n = s.len() as int;
    let j = skip_ws(s, i);
    if j >= n || j < i {
        None
    } else if s[j] == '}' && first {
        match (number, title, html_url, state, user) {
            (Some(nb), Some(t), Some(h), Some(st), Some(u)) => Some(
                (ItemView { number: nb, title: t, html_url: h, state: st, user: u }, j + 1),
            ),
            _ => None,
        }
    } else if s[j] != '"' {
        None
    } else {
        match spec_string_body(s, j + 1) {
            None => None,
            Some((key, k)) => {
                let m = skip_ws(s, k);
                if m < 0 || m >= n || s[m] != ':' {
                    None
                } else {
                    let v = skip_ws(s, m + 1);
                    let stepped: Option<
                        (
                            Option<u64>,
                            Option<Seq<char>>,
                            Option<Seq<char>>,
                            Option<Seq<char>>,
                            Option<UserView>,
                            int,
                        ),
                    > = if key == "number"@ {
                        if number is Some {
                            None
                        } else {
                            match spec_number_u64(s, v) {
                                Some((val, e)) => Some((Some(val), title, html_url, state, user, e)),
                                None => None,
                            }
                        }
                    } else if key == "title"@ {
                        if title is Some {
                            None
                        } else {
                            match spec_req_string(s, v) {
                                Some((val, e)) => Some(
                                    (number, Some(val), html_url, state, user, e),
                                ),
                                None => None,
                            }
                        }
                    } else if key == "html_url"@ {
                        if html_url is Some {
                            None
                        } else {
                            match spec_req_string(s, v) {
                                Some((val, e)) => Some((number, title, Some(val), state, user, e)),
                                None => None,
                            }
                        }
                    } else if key == "state"@ {
                        if state is Some {
                            None
                        } else {
                            match spec_req_string(s, v) {
                                Some((val, e)) => Some(
                                    (number, title, html_url, Some(val), user, e),
                                ),
                                None => None,
                            }
                        }
                    } else if key == "user"@ {
                        if user is Some {
                            None
                        } else {
                            match spec_user_value(s, v) {
                                Some((val, e)) => Some(
                                    (number, title, html_url, state, Some(val), e),
                                ),
                                None => None,
                            }
                        }
                    } else {
                        match spec_skip_value(s, v, MAX_SKIP_DEPTH as nat) {
                            Some(e) => Some((number, title, html_url, state, user, e)),
                            None => None,
                        }
                    };
                    match stepped {
                        None => None,
                        Some((nb2, t2, h2, st2, u2, e)) => {
                            let w = skip_ws(s, e);
                            if w < 0 || w >= n {
                                None
                            } else if s[w] == ',' {
                                spec_item_members(s, adv(i, w + 1, n), nb2, t2, h2, st2, u2, false)
                            } else if s[w] == '}' {
                                match (nb2, t2, h2, st2, u2) {
                                    (Some(nb), Some(t), Some(h), Some(st), Some(u)) => Some(
                                        (ItemView {
                                            number: nb,
                                            title: t,
                                            html_url: h,
                                            state: st,
                                            user: u,
                                        }, w + 1),
                                    ),
                                    _ => None,
                                }
                            } else {
                                None
                            }
                        },
                    }
                }
            },
        }
    }
}

/// Which of the envelope's known fields have already appeared; a repeat is
/// an error.
#[derive(Clone, Copy, PartialEq, Eq, Structural)]
pub struct FieldsSeen {
    pub action: bool,
    pub repository: bool,
    pub sender: bool,
    pub pull_request: bool,
    pub issue: bool,
}

impl FieldsSeen {
    /// No field seen yet.
    pub open spec fn spec_none() -> FieldsSeen {
        FieldsSeen {
            action: false,
            repository: false,
            sender: false,
            pull_request: false,
            issue: false,
        }
    }
}

/// The members of the envelope itself, read just after `{` or a comma.
/// Every known field is optional; each sub-object field also accepts
/// `null` for absence; unknown members are skipped.
pub open spec fn spec_envelope_members(
    s: Seq<char>,
    i: int,
    acc: EnvelopeView,
    seen: FieldsSeen,
    first: bool,
) -> Option<(EnvelopeView, int)>
    decreases s.len() - i,
{
    let n = s.len() as int;
    let j = skip_ws(s, i);
    if j >= n || j < i {
        None
    } else if s[j] == '}' && first {
        Some((acc, j + 1))
    } else if s[j] != '"' {
        None
    } else {
        match spec_string_body(s, j + 1) {
            None => None,
            Some((key, k)) => {
                let m = skip_ws(s, k);
                if m < 0 || m >= n || s[m] != ':' {
                    None
                } else {
                    let v = skip_ws(s, m + 1);
                    match spec_envelope_field(s, v, key, acc, seen) {
                        None => None,
                        Some((acc2, seen2, e)) => {
                            let w = skip_ws(s, e);
                            if w < 0 || w >= n {
                                None
                            } else if s[w] == ',' {
                                spec_envelope_members(s, adv(i, w + 1, n), acc2, seen2, false)
                            } else if s[w] == '}' {
                                Some((acc2, w + 1))
                            } else {
                                None
                            }
                        },
                    }
                }
            },
        }
    }
}

/// One envelope member: the value of the known field `key`, or any skipped
/// value for an unknown key.
pub open spec fn spec_envelope_field(
    s: Seq<char>,
    v: int,
    key: Seq<char>,
    acc: EnvelopeView,
    seen: FieldsSeen,
) -> Option<(EnvelopeView, FieldsSeen, int)> {
    if key == "action"@ {
        if seen.action {
            None
        } else {
            match spec_opt_string(s, v) {
                Some((val, e)) => Some(
                    (
                        EnvelopeView { action: val, ..acc },
                        FieldsSeen { action: true, ..seen },
                        e,
                    ),
                ),
                None => None,
            }
        }
    } else if key == "repository"@ {
        if seen.repository {
            None
        } else if spec_null_at(s, v) {
            Some(
                (
                    EnvelopeView { repository: None, ..acc },
                    FieldsSeen { repository: true, ..seen },
                    v + 4,
                ),
            )
        } else if 0 <= v < s.len() && s[v] == '{' {
            match spec_repo_members(s, v + 1, None, None, None, true) {
                Some((val, e)) => Some(
                    (
                        EnvelopeView { repository: Some(val), ..acc },
                        FieldsSeen { repository: true, ..seen },
                        e,
                    ),
                ),
                None => None,
            }
        } else {
            None
        }
    } else if key == "sender"@ {
        if seen.sender {
            None
        } else if spec_null_at(s, v) {
            Some(
                (EnvelopeView { sender: None, ..acc }, FieldsSeen { sender: true, ..seen }, v + 4),
            )
        } else if 0 <= v < s.len() && s[v] == '{' {
            match spec_user_members(s, v + 1, None, None, true) {
                Some((val, e)) => Some(
                    (
                        EnvelopeView { sender: Some(val), ..acc },
                        FieldsSeen { sender: true, ..seen },
                        e,
                    ),
                ),
                None => None,
            }
        } else {
            None
        }
    } else if key == "pull_request"@ {
        if seen.pull_request {
            None
        } else if spec_null_at(s, v) {
            Some(
                (
                    EnvelopeView { pull_request: None, ..acc },
                    FieldsSeen { pull_request: true, ..seen },
                    v + 4,
                ),
            )
        } else if 0 <= v < s.len() && s[v] == '{' {
            match spec_item_members(s, v + 1, None, None, None, None, None, true) {
                Some((val, e)) => Some(
                    (
                        EnvelopeView { pull_request: Some(val), ..acc },
                        FieldsSeen { pull_request: true, ..seen },
                        e,
                    ),
                ),
                None => None,
            }
        } else {
            None
        }
    } else if key == "issue"@ {
        if seen.issue {
            None
        } else if spec_null_at(s, v) {
            Some((EnvelopeView { issue: None, ..acc }, FieldsSeen { issue: true, ..seen }, v + 4))
        } else if 0 <= v < s.len() && s[v] == '{' {
            match spec_item_members(s, v + 1, None, None, None, None, None, true) {
                Some((val, e)) => Some(
                    (
                        EnvelopeView { issue: Some(val), ..acc },
                        FieldsSeen { issue: true, ..seen },
                        e,
                    ),
                ),
                None => None,
            }
        } else {
            None
        }
    } else {
        match spec_skip_value(s, v, MAX_SKIP_DEPTH as nat) {
            Some(e) => Some((acc, seen, e)),
            None => None,
        }
    }
}

/// Relies on std's `char::from_u32`: `Some` exactly for values outside the
/// surrogate range and at most `0x10FFFF`, and then the character with
/// that scalar value.
#[verifier::external_body]
fn char_from_u32_x(v: u32) -> (r: Option<char>)
    ensures
        r matches Some(c) ==> c as u32 == v,
        r is None <==> (0xD800 <= v < 0xE000 || v > 0x10FFFF),
{
    char::from_u32(v)
}

/// Relies on std's `FromIterator` for `String`: collecting characters in
/// order.
#[verifier::external_body]
fn string_from_chars(v: &Vec<char>) -> (r: String)
    ensures
        r@ == v@,
{
    v.iter().collect()
}

/// The characters of a str, as an indexable vector.
fn chars_of(s: &str) -> (r: Vec<char>)
    ensures
        r@ == s@,
{
    let n = s.unicode_len();
    let mut v: Vec<char> = Vec::new();
    let mut i: usize = 0;
    while i < n
        invariant
            0 <= i <= n,
            n == s@.len(),
            v@ =~= s@.subrange(0, i as int),
        decreases n - i,
    {
        v.push(s.get_char(i));
        i += 1;
    }
    proof {
        assert(v@ =~= s@);
    }
    v
}

/// Whether a vector of characters spells a given string.
fn key_is(key: &Vec<char>, w: &str) -> (r: bool)
    ensures
        r == (key@ == w@),
{
    let nw = w.unicode_len();
    if key.len() != nw {
        return false;
    }
    let mut i: usize = 0;
    while i < nw
        invariant
            0 <= i <= nw,
            nw == w@.len(),
            nw == key@.len(),
            forall|k: int| 0 <= k < i ==> key@[k] == w@[k],
        decreases nw - i,
    {
        if key[i] != w.get_char(i) {
            return false;
        }
        i += 1;
    }
    proof {
        assert(key@ =~= w@);
    }
    true
}

fn skip_ws_x(s: &Vec<char>, i: usize) -> (r: usize)
    requires
        i <= s@.len(),
    ensures
        r == skip_ws(s@, i as int),
        i <= r <= s@.len(),
{
    let n = s.len();
    let mut cur = i;
    while cur < n && (s[cur] == ' ' || s[cur] == '\n' || s[cur] == '\r' || s[cur] == '\t')
        invariant
            i <= cur <= n,
            n == s@.len(),
            skip_ws(s@, i as int) == skip_ws(s@, cur as int),
        decreases n - cur,
    {
        cur += 1;
    }
    cur
}

fn hex_digit_x(c: char) -> (r: Option<u8>)
    ensures
        r == hex_digit_value(c),
{
    let u = c as u32;
    if 48 <= u && u <= 57 {
        Some((u - 48) as u8)
    } else if 97 <= u && u <= 102 {
        Some((u - 97 + 10) as u8)
    } else if 65 <= u && u <= 70 {
        Some((u - 65 + 10) as u8)
    } else {
        None
    }
}

fn hex4_x(s: &Vec<char>, i: usize) -> (r: Option<u32>)
    requires
        i <= s@.len(),
    ensures
        r == hex4_value(s@, i as int),
{
    let n = s.len();
    if n < 4 || i > n - 4 {
        return None;
    }
    match (hex_digit_x(s[i]), hex_digit_x(s[i + 1]), hex_digit_x(s[i + 2]), hex_digit_x(
        s[i + 3],
    )) {
        (Some(a), Some(b), Some(c), Some(d)) => Some(
            (a as u32) * 0x1000 + (b as u32) * 0x100 + (c as u32) * 0x10 + (d as u32),
        ),
        _ => None,
    }
}

fn escape_char_x(s: &Vec<char>, i: usize) -> (r: Option<(char, usize)>)
    requires
        i <= s@.len(),
    ensures
        match r {
            Some((c, j)) => escape_char(s@, i as int) == Some((c, j as int)) && i < j <= s@.len(),
            None => escape_char(s@, i as int) is None,
        },
{
    let n = s.len();
    if i >= n {
        return None;
    }
    let c = s[i];
    if c == '"' {
        Some(('"', i + 1))
    } else if c == '\\' {
        Some(('\\', i + 1))
    } else if c == '/' {
        Some(('/', i + 1))
    } else if c == 'b' {
        Some(('\u{0008}', i + 1))
    } else if c == 'f' {
        Some(('\u{000C}', i + 1))
    } else if c == 'n' {
        Some(('\n', i + 1))
    } else if c == 'r' {
        Some(('\r', i + 1))
    } else if c == 't' {
        Some(('\t', i + 1))
    } else if c == 'u' {
        match hex4_x(s, i + 1) {
            Some(v) => {
                if 0xD800 <= v && v < 0xE000 {
                    None
                } else {
                    match char_from_u32_x(v) {
                        Some(ch) => {
                            proof {
                                lemma_char_of_scalar(ch);
                            }
                            Some((ch, i + 5))
                        },
                        None => {
                            proof {
                                assert(v <= 0xFFFF);
                                assert(false);
                            }
                            None
                        },
                    }
                }
            },
            None => None,
        }
    } else {
        None
    }
}

fn string_body_x(s: &Vec<char>, i: usize) -> (r: Option<(Vec<char>, usize)>)
    requires
        i <= s@.len(),
    ensures
        match r {
            Some((c, e)) => spec_string_body(s@, i as int) == Some((c@, e as int)) && i < e
                <= s@.len(),
            None => spec_string_body(s@, i as int) is None,
        },
{
    let n = s.len();
    let mut acc: Vec<char> = Vec::new();
    let mut cur = i;
    loop
        invariant
            i <= cur <= n,
            n == s@.len(),
            forall|rest: Seq<char>, e: int|
                spec_string_body(s@, cur as int) == Some::<(Seq<char>, int)>((rest, e))
                    ==> spec_string_body(s@, i as int) == Some::<(Seq<char>, int)>(
                    (acc@ + rest, e),
                ),
            spec_string_body(s@, cur as int) is None ==> spec_string_body(s@, i as int) is None,
        decreases n - cur,
    {
        if cur >= n {
            return None;
        }
        let c = s[cur];
        if c == '"' {
            proof {
                assert(spec_string_body(s@, cur as int) == Some::<(Seq<char>, int)>(
                    (Seq::<char>::empty(), cur + 1),
                ));
                assert(acc@ + Seq::<char>::empty() =~= acc@);
            }
            return Some((acc, cur + 1));
        }
        if c == '\\' {
            match escape_char_x(s, cur + 1) {
                None => {
                    return None;
                },
                Some((ch, j)) => {
                    let ghost acc_snap = acc@;
                    proof {
                        assert(adv(cur as int, j as int, n as int) == j as int);
                        assert forall|rest: Seq<char>, e: int|
                            spec_string_body(s@, j as int) == Some::<(Seq<char>, int)>(
                                (rest, e),
                            ) implies spec_string_body(s@, i as int) == Some::<(Seq<char>, int)>(
                            ((acc_snap + seq![ch]) + rest, e),
                        ) by {
                            assert(spec_string_body(s@, cur as int) == Some::<(Seq<char>, int)>(
                                (seq![ch] + rest, e),
                            ));
                            assert(acc_snap + (seq![ch] + rest) =~= (acc_snap + seq![ch]) + rest);
                        }
                    }
                    acc.push(ch);
                    proof {
                        assert(acc@ =~= acc_snap + seq![ch]);
                    }
                    cur = j;
                },
            }
        } else if (c as u32) < 0x20 {
            return None;
        } else {
            let ghost acc_snap = acc@;
            proof {
                assert forall|rest: Seq<char>, e: int|
                    spec_string_body(s@, cur + 1) == Some::<(Seq<char>, int)>(
                        (rest, e),
                    ) implies spec_string_body(s@, i as int) == Some::<(Seq<char>, int)>(
                    ((acc_snap + seq![c]) + rest, e),
                ) by {
                    assert(spec_string_body(s@, cur as int) == Some::<(Seq<char>, int)>(
                        (seq![c] + rest, e),
                    ));
                    assert(acc_snap + (seq![c] + rest) =~= (acc_snap + seq![c]) + rest);
                }
            }
            acc.push(c);
            proof {
                assert(acc@ =~= acc_snap + seq![c]);
            }
            cur += 1;
        }
    }
}

fn is_digit_x(c: char) -> (r: bool)
    ensures
        r == is_digit(c),
{
    let u = c as u32;
    48 <= u && u <= 57
}

fn digits_end_x(s: &Vec<char>, i: usize) -> (r: usize)
    requires
        i <= s@.len(),
    ensures
        r == digits_end(s@, i as int),
        i <= r <= s@.len(),
{
    let n = s.len();
    let mut cur = i;
    while cur < n && is_digit_x(s[cur])
        invariant
            i <= cur <= n,
            n == s@.len(),
            digits_end(s@, i as int) == digits_end(s@, cur as int),
        decreases n - cur,
    {
        cur += 1;
    }
    cur
}

fn number_u64_x(s: &Vec<char>, i: usize) -> (r: Option<(u64, usize)>)
    requires
        i <= s@.len(),
    ensures
        match r {
            Some((v, e)) => spec_number_u64(s@, i as int) == Some((v, e as int)) && i < e
                <= s@.len(),
            None => spec_number_u64(s@, i as int) is None,
        },
{
    let n = s.len();
    let mut cur = i;
    let mut acc: u64 = 0;
    let mut over = false;
    while cur < n && is_digit_x(s[cur])
        invariant
            i <= cur <= n,
            n == s@.len(),
            digits_end(s@, i as int) == digits_end(s@, cur as int),
            forall|k: int| i <= k < cur ==> is_digit(s@[k]),
            !over ==> acc == digits_value(s@, i as int, cur as int),
            over ==> digits_value(s@, i as int, cur as int) > u64::MAX,
        decreases n - cur,
    {
        let d = (s[cur] as u32 - 48) as u64;
        proof {
            assert(digits_value(s@, i as int, cur + 1) == digits_value(s@, i as int, cur as int)
                * 10 + digit_value(s@[cur as int]));
        }
        if over {
            proof {
                assert(digits_value(s@, i as int, cur + 1) > u64::MAX);
            }
        } else if acc > 1844674407370955161u64 || (acc == 1844674407370955161u64 && d > 5) {
            over = true;
            proof {
                assert(digits_value(s@, i as int, cur + 1) > u64::MAX);
            }
        } else {
            acc = acc * 10 + d;
        }
        cur += 1;
    }
    let e = cur;
    proof {
        assert(digits_end(s@, e as int) == e as int);
    }
    if e == i {
        return None;
    }
    if s[i] == '0' && e > i + 1 {
        return None;
    }
    if e < n && (s[e] == '.' || s[e] == 'e' || s[e] == 'E') {
        return None;
    }
    if over {
        return None;
    }
    Some((acc, e))
}

fn skip_number_x(s: &Vec<char>, i: usize) -> (r: Option<usize>)
    requires
        i <= s@.len(),
    ensures
        match r {
            Some(e) => spec_skip_number(s@, i as int) == Some(e as int) && i < e <= s@.len(),
            None => spec_skip_number(s@, i as int) is None,
        },
{
    let n = s.len();
    let j = if i < n && s[i] == '-' {
        i + 1
    } else {
        i
    };
    let e = digits_end_x(s, j);
    if e == j {
        return None;
    }
    if s[j] == '0' && e > j + 1 {
        return None;
    }
    let g = if e < n && s[e] == '.' {
        let e2 = digits_end_x(s, e + 1);
        if e2 == e + 1 {
            return None;
        }
        e2
    } else {
        e
    };
    proof {
        assert(skip_frac(s@, e as int) == Some(g as int));
    }
    if g < n && (s[g] == 'e' || s[g] == 'E') {
        let j2 = if g + 1 < n && (s[g + 1] == '+' || s[g + 1] == '-') {
            g + 2
        } else {
            g + 1
        };
        let e3 = digits_end_x(s, j2);
        if e3 == j2 {
            return None;
        }
        proof {
            assert(skip_exp(s@, g as int) == Some(e3 as int));
        }
        Some(e3)
    } else {
        proof {
            assert(skip_exp(s@, g as int) == Some(g as int));
        }
        Some(g)
    }
}

fn skip_value_x(s: &Vec<char>, i: usize, d: u32) -> (r: Option<usize>)
    requires
        i <= s@.len(),
    ensures
        match r {
            Some(e) => spec_skip_value(s@, i as int, d as nat) == Some(e as int) && i < e
                <= s@.len(),
            None => spec_skip_value(s@, i as int, d as nat) is None,
        },
    decreases s@.len() - i, 0int,
{
    let n = s.len();
    if i >= n {
        return None;
    }
    let c = s[i];
    if c == '{' {
        if d == 0 {
            None
        } else {
            skip_members_x(s, i + 1, d - 1, true)
        }
    } else if c == '[' {
        if d == 0 {
            None
        } else {
            skip_elems_x(s, i + 1, d - 1, true)
        }
    } else if c == '"' {
        match string_body_x(s, i + 1) {
            Some((_content, e)) => Some(e),
            None => None,
        }
    } else if c == 't' {
        if n - i >= 4 && s[i + 1] == 'r' && s[i + 2] == 'u' && s[i + 3] == 'e' {
            Some(i + 4)
        } else {
            None
        }
    } else if c == 'f' {
        if n - i >= 5 && s[i + 1] == 'a' && s[i + 2] == 'l' && s[i + 3] == 's' && s[i + 4] == 'e' {
            Some(i + 5)
        } else {
            None
        }
    } else if c == 'n' {
        if n - i >= 4 && s[i + 1] == 'u' && s[i + 2] == 'l' && s[i + 3] == 'l' {
            Some(i + 4)
        } else {
            None
        }
    } else {
        skip_number_x(s, i)
    }
}

fn skip_members_x(s: &Vec<char>, i: usize, d: u32, first: bool) -> (r: Option<usize>)
    requires
        i <= s@.len(),
    ensures
        match r {
            Some(e) => spec_skip_members(s@, i as int, d as nat, first) == Some(e as int) && i < e
                <= s@.len(),
            None => spec_skip_members(s@, i as int, d as nat, first) is None,
        },
    decreases s@.len() - i, 1int,
{
    let n = s.len();
    let mut cur = i;
    let mut fst = first;
    loop
        invariant
            i <= cur <= n,
            n == s@.len(),
            spec_skip_members(s@, i as int, d as nat, first) == spec_skip_members(
                s@,
                cur as int,
                d as nat,
                fst,
            ),
        decreases n - cur,
    {
        let j = skip_ws_x(s, cur);
        if j >= n {
            return None;
        }
        if s[j] == '}' && fst {
            return Some(j + 1);
        }
        if s[j] != '"' {
            return None;
        }
        match string_body_x(s, j + 1) {
            None => {
                return None;
            },
            Some((_key, k)) => {
                let m = skip_ws_x(s, k);
                if m >= n || s[m] != ':' {
                    return None;
                }
                let v = skip_ws_x(s, m + 1);
                proof {
                    assert(adv(cur as int, v as int, n as int) == v as int);
                }
                match skip_value_x(s, v, d) {
                    None => {
                        return None;
                    },
                    Some(e) => {
                        let w = skip_ws_x(s, e);
                        if w >= n {
                            return None;
                        }
                        if s[w] == ',' {
                            proof {
                                assert(adv(cur as int, w + 1, n as int) == w + 1);
                            }
                            cur = w + 1;
                            fst = false;
                        } else if s[w] == '}' {
                            return Some(w + 1);
                        } else {
                            return None;
                        }
                    },
                }
            },
        }
    }
}

fn skip_elems_x(s: &Vec<char>, i: usize, d: u32, first: bool) -> (r: Option<usize>)
    requires
        i <= s@.len(),
    ensures
        match r {
            Some(e) => spec_skip_elems(s@, i as int, d as nat, first) == Some(e as int) && i < e
                <= s@.len(),
            None => spec_skip_elems(s@, i as int, d as nat, first) is None,
        },
    decreases s@.len() - i, 1int,
{
    let n = s.len();
    let mut cur = i;
    let mut fst = first;
    loop
        invariant
            i <= cur <= n,
            n == s@.len(),
            spec_skip_elems(s@, i as int, d as nat, first) == spec_skip_elems(
                s@,
                cur as int,
                d as nat,
                fst,
            ),
        decreases n - cur,
    {
        let j = skip_ws_x(s, cur);
        if j >= n {
            return None;
        }
        if s[j] == ']' && fst {
            return Some(j + 1);
        }
        proof {
            assert(adv0(cur as int, j as int, n as int) == j as int);
        }
        match skip_value_x(s, j, d) {
            None => {
                return None;
            },
            Some(e) => {
                let w = skip_ws_x(s, e);
                if w >= n {
                    return None;
                }
                if s[w] == ',' {
                    proof {
                        assert(adv(cur as int, w + 1, n as int) == w + 1);
                    }
                    cur = w + 1;
                    fst = false;
                } else if s[w] == ']' {
                    return Some(w + 1);
                } else {
                    return None;
                }
            },
        }
    }
}

/// The view of an optional character buffer.
pub open spec fn opt_view(o: Option<Vec<char>>) -> Option<Seq<char>> {
    match o {
        Some(v) => Some(v@),
        None => None,
    }
}

/// The view of an optional user.
pub open spec fn opt_user_view(o: Option<User>) -> Option<UserView> {
    match o {
        Some(u) => Some(u@),
        None => None,
    }
}

fn req_string_x(s: &Vec<char>, i: usize) -> (r: Option<(Vec<char>, usize)>)
    requires
        i <= s@.len(),
    ensures
        match r {
            Some((c, e)) => spec_req_string(s@, i as int) == Some((c@, e as int)) && i < e
                <= s@.len(),
            None => spec_req_string(s@, i as int) is None,
        },
{
    let n = s.len();
    if i < n && s[i] == '"' {
        string_body_x(s, i + 1)
    } else {
        None
    }
}

fn null_at_x(s: &Vec<char>, i: usize) -> (r: bool)
    requires
        i <= s@.len(),
    ensures
        r == spec_null_at(s@, i as int),
{
    let n = s.len();
    n - i >= 4 && s[i] == 'n' && s[i + 1] == 'u' && s[i + 2] == 'l' && s[i + 3] == 'l'
}

fn opt_string_x(s: &Vec<char>, i: usize) -> (r: Option<(Option<Vec<char>>, usize)>)
    requires
        i <= s@.len(),
    ensures
        match r {
            Some((v, e)) => spec_opt_string(s@, i as int) == Some((opt_view(v), e as int)) && i < e
                <= s@.len(),
            None => spec_opt_string(s@, i as int) is None,
        },
{
    let n = s.len();
    if i >= n {
        return None;
    }
    if s[i] == '"' {
        match string_body_x(s, i + 1) {
            Some((c, e)) => Some((Some(c), e)),
            None => None,
        }
    } else if n - i >= 4 && s[i] == 'n' && s[i + 1] == 'u' && s[i + 2] == 'l' && s[i + 3] == 'l' {
        Some((None, i + 4))
    } else {
        None
    }
}

fn user_members_x(s: &Vec<char>, i: usize) -> (r: Option<(User, usize)>)
    requires
        i <= s@.len(),
    ensures
        match r {
            Some((u, e)) => spec_user_members(s@, i as int, None, None, true) == Some(
                (u@, e as int),
            ) && i < e <= s@.len(),
            None => spec_user_members(s@, i as int, None, None, true) is None,
        },
{
    let n = s.len();
    let mut cur = i;
    let mut fst = true;
    let mut login: Option<Vec<char>> = None;
    let mut url: Option<Vec<char>> = None;
    loop
        invariant
            i <= cur <= n,
            n == s@.len(),
            spec_user_members(s@, i as int, None, None, true) == spec_user_members(
                s@,
                cur as int,
                opt_view(login),
                opt_view(url),
                fst,
            ),
        decreases n - cur,
    {
        let j = skip_ws_x(s, cur);
        if j >= n {
            return None;
        }
        if s[j] == '}' && fst {
            match (login, url) {
                (Some(l), Some(u)) => {
                    let user = User {
                        login: string_from_chars(&l),
                        html_url: string_from_chars(&u),
                    };
                    return Some((user, j + 1));
                },
                _ => {
                    return None;
                },
            }
        }
        if s[j] != '"' {
            return None;
        }
        match string_body_x(s, j + 1) {
            None => {
                return None;
            },
            Some((key, k)) => {
                let m = skip_ws_x(s, k);
                if m >= n || s[m] != ':' {
                    return None;
                }
                let v = skip_ws_x(s, m + 1);
                let e: usize;
                if key_is(&key, "login") {
                    if login.is_some() {
                        return None;
                    }
                    match req_string_x(s, v) {
                        None => {
                            return None;
                        },
                        Some((val, e2)) => {
                            login = Some(val);
                            e = e2;
                        },
                    }
                } else if key_is(&key, "html_url") {
                    if url.is_some() {
                        return None;
                    }
                    match req_string_x(s, v) {
                        None => {
                            return None;
                        },
                        Some((val, e2)) => {
                            url = Some(val);
                            e = e2;
                        },
                    }
                } else {
                    match skip_value_x(s, v, MAX_SKIP_DEPTH) {
                        None => {
                            return None;
                        },
                        Some(e2) => {
                            e = e2;
                        },
                    }
                }
                let w = skip_ws_x(s, e);
                if w >= n {
                    return None;
                }
                if s[w] == ',' {
                    cur = w + 1;
                    fst = false;
                } else if s[w] == '}' {
                    match (login, url) {
                        (Some(l), Some(u)) => {
                            let user = User {
                                login: string_from_chars(&l),
                                html_url: string_from_chars(&u),
                            };
                            return Some((user, w + 1));
                        },
                        _ => {
                            return None;
                        },
                    }
                } else {
                    return None;
                }
            },
        }
    }
}

fn user_value_x(s: &Vec<char>, i: usize) -> (r: Option<(User, usize)>)
    requires
        i <= s@.len(),
    ensures
        match r {
            Some((u, e)) => spec_user_value(s@, i as int) == Some((u@, e as int)) && i < e
                <= s@.len(),
            None => spec_user_value(s@, i as int) is None,
        },
{
    let n = s.len();
    if i < n && s[i] == '{' {
        user_members_x(s, i + 1)
    } else {
        None
    }
}

fn repo_members_x(s: &Vec<char>, i: usize) -> (r: Option<(Repository, usize)>)
    requires
        i <= s@.len(),
    ensures
        match r {
            Some((rp, e)) => spec_repo_members(s@, i as int, None, None, None, true) == Some(
                (rp@, e as int),
            ) && i < e <= s@.len(),
            None => spec_repo_members(s@, i as int, None, None, None, true) is None,
        },
{
    let n = s.len();
    let mut cur = i;
    let mut fst = true;
    let mut name: Option<Vec<char>> = None;
    let mut full_name: Option<Vec<char>> = None;
    let mut url: Option<Vec<char>> = None;
    loop
        invariant
            i <= cur <= n,
            n == s@.len(),
            spec_repo_members(s@, i as int, None, None, None, true) == spec_repo_members(
                s@,
                cur as int,
                opt_view(name),
                opt_view(full_name),
                opt_view(url),
                fst,
            ),
        decreases n - cur,
    {
        let j = skip_ws_x(s, cur);
        if j >= n {
            return None;
        }
        if s[j] == '}' && fst {
            match (name, full_name, url) {
                (Some(a), Some(b), Some(c)) => {
                    let repo = Repository {
                        name: string_from_chars(&a),
                        full_name: string_from_chars(&b),
                        html_url: string_from_chars(&c),
                    };
                    return Some((repo, j + 1));
                },
                _ => {
                    return None;
                },
            }
        }
        if s[j] != '"' {
            return None;
        }
        match string_body_x(s, j + 1) {
            None => {
                return None;
            },
            Some((key, k)) => {
                let m = skip_ws_x(s, k);
                if m >= n || s[m] != ':' {
                    return None;
                }
                let v = skip_ws_x(s, m + 1);
                let e: usize;
                if key_is(&key, "name") {
                    if name.is_some() {
                        return None;
                    }
                    match req_string_x(s, v) {
                        None => {
                            return None;
                        },
                        Some((val, e2)) => {
                            name = Some(val);
                            e = e2;
                        },
                    }
                } else if key_is(&key, "full_name") {
                    if full_name.is_some() {
                        return None;
                    }
                    match req_string_x(s, v) {
                        None => {
                            return None;
                        },
                        Some((val, e2)) => {
                            full_name = Some(val);
                            e = e2;
                        },
                    }
                } else if key_is(&key, "html_url") {
                    if url.is_some() {
                        return None;
                    }
                    match req_string_x(s, v) {
                        None => {
                            return None;
                        },
                        Some((val, e2)) => {
                            url = Some(val);
                            e = e2;
                        },
                    }
                } else {
                    match skip_value_x(s, v, MAX_SKIP_DEPTH) {
                        None => {
                            return None;
                        },
                        Some(e2) => {
                            e = e2;
                        },
                    }
                }
                let w = skip_ws_x(s, e);
                if w >= n {
                    return None;
                }
                if s[w] == ',' {
                    cur = w + 1;
                    fst = false;
                } else if s[w] == '}' {
                    match (name, full_name, url) {
                        (Some(a), Some(b), Some(c)) => {
                            let repo = Repository {
                                name: string_from_chars(&a),
                                full_name: string_from_chars(&b),
                                html_url: string_from_chars(&c),
                            };
                            return Some((repo, w + 1));
                        },
                        _ => {
                            return None;
                        },
                    }
                } else {
                    return None;
                }
            },
        }
    }
}

fn item_members_x(s: &Vec<char>, i: usize) -> (r: Option<(PullRequest, usize)>)
    requires
        i <= s@.len(),
    ensures
        match r {
            Some((p, e)) => spec_item_members(s@, i as int, None, None, None, None, None, true)
                == Some((p@, e as int)) && i < e <= s@.len(),
            None => spec_item_members(s@, i as int, None, None, None, None, None, true) is None,
        },
{
    let n = s.len();
    let mut cur = i;
    let mut fst = true;
    let mut number: Option<u64> = None;
    let mut title: Option<Vec<char>> = None;
    let mut url: Option<Vec<char>> = None;
    let mut state: Option<Vec<char>> = None;
    let mut user: Option<User> = None;
    loop
        invariant
            i <= cur <= n,
            n == s@.len(),
            spec_item_members(s@, i as int, None, None, None, None, None, true)
                == spec_item_members(
                s@,
                cur as int,
                number,
                opt_view(title),
                opt_view(url),
                opt_view(state),
                opt_user_view(user),
                fst,
            ),
        decreases n - cur,
    {
        let j = skip_ws_x(s, cur);
        if j >= n {
            return None;
        }
        if s[j] == '}' && fst {
            match (number, title, url, state, user) {
                (Some(nb), Some(t), Some(h), Some(st), Some(u)) => {
                    let item = PullRequest {
                        number: nb,
                        title: string_from_chars(&t),
                        html_url: string_from_chars(&h),
                        state: string_from_chars(&st),
                        user: u,
                    };
                    return Some((item, j + 1));
                },
                _ => {
                    return None;
                },
            }
        }
        if s[j] != '"' {
            return None;
        }
        match string_body_x(s, j + 1) {
            None => {
                return None;
            },
            Some((key, k)) => {
                let m = skip_ws_x(s, k);
                if m >= n || s[m] != ':' {
                    return None;
                }
                let v = skip_ws_x(s, m + 1);
                let e: usize;
                if key_is(&key, "number") {
                    if number.is_some() {
                        return None;
                    }
                    match number_u64_x(s, v) {
                        None => {
                            return None;
                        },
                        Some((val, e2)) => {
                            number = Some(val);
                            e = e2;
                        },
                    }
                } else if key_is(&key, "title") {
                    if title.is_some() {
                        return None;
                    }
                    match req_string_x(s, v) {
                        None => {
                            return None;
                        },
                        Some((val, e2)) => {
                            title = Some(val);
                            e = e2;
                        },
                    }
                } else if key_is(&key, "html_url") {
                    if url.is_some() {
                        return None;
                    }
                    match req_string_x(s, v) {
                        None => {
                            return None;
                        },
                        Some((val, e2)) => {
                            url = Some(val);
                            e = e2;
                        },
                    }
                } else if key_is(&key, "state") {
                    if state.is_some() {
                        return None;
                    }
                    match req_string_x(s, v) {
                        None => {
                            return None;
                        },
                        Some((val, e2)) => {
                            state = Some(val);
                            e = e2;
                        },
                    }
                } else if key_is(&key, "user") {
                    if user.is_some() {
                        return None;
                    }
                    match user_value_x(s, v) {
                        None => {
                            return None;
                        },
                        Some((val, e2)) => {
                            user = Some(val);
                            e = e2;
                        },
                    }
                } else {
                    match skip_value_x(s, v, MAX_SKIP_DEPTH) {
                        None => {
                            return None;
                        },
                        Some(e2) => {
                            e = e2;
                        },
                    }
                }
                let w = skip_ws_x(s, e);
                if w >= n {
                    return None;
                }
                if s[w] == ',' {
                    cur = w + 1;
                    fst = false;
                } else if s[w] == '}' {
                    match (number, title, url, state, user) {
                        (Some(nb), Some(t), Some(h), Some(st), Some(u)) => {
                            let item = PullRequest {
                                number: nb,
                                title: string_from_chars(&t),
                                html_url: string_from_chars(&h),
                                state: string_from_chars(&st),
                                user: u,
                            };
                            return Some((item, w + 1));
                        },
                        _ => {
                            return None;
                        },
                    }
                } else {
                    return None;
                }
            },
        }
    }
}

#[verifier::rlimit(100)]
fn envelope_members_x(s: &Vec<char>, i: usize) -> (r: Option<(Envelope, usize)>)
    requires
        i <= s@.len(),
    ensures
        match r {
            Some((env, e)) => spec_envelope_members(
                s@,
                i as int,
                EnvelopeView::empty(),
                FieldsSeen::spec_none(),
                true,
            ) == Some((env@, e as int)) && i < e <= s@.len(),
            None => spec_envelope_members(
                s@,
                i as int,
                EnvelopeView::empty(),
                FieldsSeen::spec_none(),
                true,
            ) is None,
        },
{
    let n = s.len();
    let mut cur = i;
    let mut fst = true;
    let mut env = Envelope::empty();
    let mut seen = FieldsSeen {
        action: false,
        repository: false,
        sender: false,
        pull_request: false,
        issue: false,
    };
    loop
        invariant
            i <= cur <= n,
            n == s@.len(),
            spec_envelope_members(
                s@,
                i as int,
                EnvelopeView::empty(),
                FieldsSeen::spec_none(),
                true,
            ) == spec_envelope_members(s@, cur as int, env@, seen, fst),
        decreases n - cur,
    {
        let j = skip_ws_x(s, cur);
        if j >= n {
            return None;
        }
        if s[j] == '}' && fst {
            return Some((env, j + 1));
        }
        if s[j] != '"' {
            return None;
        }
        match string_body_x(s, j + 1) {
            None => {
                return None;
            },
            Some((key, k)) => {
                let m = skip_ws_x(s, k);
                if m >= n || s[m] != ':' {
                    return None;
                }
                let v = skip_ws_x(s, m + 1);
                let e: usize;
                if key_is(&key, "action") {
                    if seen.action {
                        return None;
                    }
                    match opt_string_x(s, v) {
                        None => {
                            return None;
                        },
                        Some((val, e2)) => {
                            env.action = match val {
                                Some(vc) => Some(string_from_chars(&vc)),
                                None => None,
                            };
                            seen.action = true;
                            e = e2;
                        },
                    }
                } else if key_is(&key, "repository") {
                    if seen.repository {
                        return None;
                    }
                    if null_at_x(s, v) {
                        env.repository = None;
                        seen.repository = true;
                        e = v + 4;
                    } else if v < n && s[v] == '{' {
                        match repo_members_x(s, v + 1) {
                            None => {
                                return None;
                            },
                            Some((repo, e2)) => {
                                env.repository = Some(repo);
                                seen.repository = true;
                                e = e2;
                            },
                        }
                    } else {
                        return None;
                    }
                } else if key_is(&key, "sender") {
                    if seen.sender {
                        return None;
                    }
                    if null_at_x(s, v) {
                        env.sender = None;
                        seen.sender = true;
                        e = v + 4;
                    } else if v < n && s[v] == '{' {
                        match user_members_x(s, v + 1) {
                            None => {
                                return None;
                            },
                            Some((u, e2)) => {
                                env.sender = Some(u);
                                seen.sender = true;
                                e = e2;
                            },
                        }
                    } else {
                        return None;
                    }
                } else if key_is(&key, "pull_request") {
                    if seen.pull_request {
                        return None;
                    }
                    if null_at_x(s, v) {
                        env.pull_request = None;
                        seen.pull_request = true;
                        e = v + 4;
                    } else if v < n && s[v] == '{' {
                        match item_members_x(s, v + 1) {
                            None => {
                                return None;
                            },
                            Some((p, e2)) => {
                                env.pull_request = Some(p);
                                seen.pull_request = true;
                                e = e2;
                            },
                        }
                    } else {
                        return None;
                    }
                } else if key_is(&key, "issue") {
                    if seen.issue {
                        return None;
                    }
                    if null_at_x(s, v) {
                        env.issue = None;
                        seen.issue = true;
                        e = v + 4;
                    } else if v < n && s[v] == '{' {
                        match item_members_x(s, v + 1) {
                            None => {
                                return None;
                            },
                            Some((p, e2)) => {
                                let ghost pv = p@;
                                let item = Issue {
                                    number: p.number,
                                    title: p.title,
                                    html_url: p.html_url,
                                    state: p.state,
                                    user: p.user,
                                };
                                proof {
                                    assert(item@ == pv);
                                }
                                env.issue = Some(item);
                                seen.issue = true;
                                e = e2;
                            },
                        }
                    } else {
                        return None;
                    }
                } else {
                    match skip_value_x(s, v, MAX_SKIP_DEPTH) {
                        None => {
                            return None;
                        },
                        Some(e2) => {
                            e = e2;
                        },
                    }
                }
                let w = skip_ws_x(s, e);
                if w >= n {
                    return None;
                }
                if s[w] == ',' {
                    cur = w + 1;
                    fst = false;
                } else if s[w] == '}' {
                    return Some((env, w + 1));
                } else {
                    return None;
                }
            },
        }
    }
}

/// Decodes a body into the envelope shape, returning exactly what the
/// grammar [`spec_decode`] assigns to it: the envelope on success, and
/// [`DecodeError`] for any body that is not one well-formed object with
/// compatible field types.
pub fn decode(s: &str) -> (r: Result<Envelope, DecodeError>)
    ensures
        match r {
            Ok(env) => spec_decode(s@) == Ok::<EnvelopeView, DecodeError>(env@),
            Err(e) => spec_decode(s@) == Err::<EnvelopeView, DecodeError>(e),
        },
{
    let v = chars_of(s);
    let n = v.len();
    let j = skip_ws_x(&v, 0);
    if j >= n || v[j] != '{' {
        return Err(DecodeError);
    }
    match envelope_members_x(&v, j + 1) {
        None => Err(DecodeError),
        Some((env, e)) => {
            let t = skip_ws_x(&v, e);
            if t == n {
                Ok(env)
            } else {
                Err(DecodeError)
            }
        },
    }
}

/// What a body decodes to: the envelope its object denotes, or an error
/// when the body is not one well-formed object with compatible field
/// types, followed only by whitespace.
pub open spec fn spec_decode(s: Seq<char>) -> Result<EnvelopeView, DecodeError> {
    let n = s.len() as int;
    let j = skip_ws(s, 0);
    if j >= n || s[j] != '{' {
        Err(DecodeError)
    } else {
        match spec_envelope_members(s, j + 1, EnvelopeView::empty(), FieldsSeen::spec_none(), true) {
            None => Err(DecodeError),
            Some((env, e)) => {
                if skip_ws(s, e) == n {
                    Ok(env)
                } else {
                    Err(DecodeError)
                }
            },
        }
    }
}

} // verus!
