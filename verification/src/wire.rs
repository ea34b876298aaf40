//! The wire codec of the target-resolution protocol.
//!
//! A request travels to the plugin as one JSON object,
//! `{"package_name": ..., "package_root": ...}`; the plugin answers with
//! exactly one of `{"Success": {"targets": [...], "warnings": [...],
//! "errors": [...]}}` or `{"Failure": {"message": ...}}`, each target being
//! `{"kind": "Bin"|"Lib", "name": ..., "src_path": ...}`.  A well-formed
//! response names the fields in the schema's order; whitespace may stand
//! between any two tokens, and strings use the single-character JSON escapes
//! (`\"`, `\\`, `\/`, `\b`, `\f`, `\n`, `\r`, `\t`).  Anything else is not a
//! target response.
//!
//! The grammar below is the definition of well-formedness: `spec_response`
//! is a deterministic parse of the whole input, and the executable parser
//! returns exactly its value.

use vstd::prelude::*;

use crate::model::ExtTargetKind;
use crate::model::ExtTargetV;
use crate::model::TargetRequestV;
use crate::model::TargetResultV;

verus! {

/// The whitespace the codec accepts between tokens.
pub open spec fn is_json_ws(c: char) -> bool {
    c == ' ' || c == '\t' || c == '\n' || c == '\r'
}

/// Index of the first non-whitespace character at or after `i`.
pub open spec fn spec_ws(s: Seq<char>, i: int) -> int
    recommends
        0 <= i <= s.len(),
    decreases s.len() - i,
    when 0 <= i <= s.len()
{
    if i < s.len() && is_json_ws(s[i]) {
        spec_ws(s, i + 1)
    } else {
        i
    }
}

/// Match the single character `c` after optional whitespace; the index after
/// it on success.
pub open spec fn spec_char_tok(s: Seq<char>, i: int, c: char) -> Option<int>
    recommends
        0 <= i <= s.len(),
{
    let j = spec_ws(s, i);
    if j < s.len() && s[j] == c {
        Some(j + 1)
    } else {
        None
    }
}

/// What a backslash escape stands for, or `None` where the escape is not
/// accepted.
pub open spec fn spec_escape_char(c: char) -> Option<char> {
    if c == '"' {
        Some('"')
    } else if c == '\\' {
        Some('\\')
    } else if c == '/' {
        Some('/')
    } else if c == 'n' {
        Some('\n')
    } else if c == 't' {
        Some('\t')
    } else if c == 'r' {
        Some('\r')
    } else if c == 'b' {
        Some('\u{0008}')
    } else if c == 'f' {
        Some('\u{000C}')
    } else {
        None
    }
}

/// Parse the body of a JSON string whose opening quote stands before `i`:
/// the decoded content and the index after the closing quote.
pub open spec fn spec_string_tail(s: Seq<char>, i: int) -> Option<(Seq<char>, int)>
    recommends
        0 <= i <= s.len(),
    decreases s.len() - i,
    when 0 <= i <= s.len()
{
    if i >= s.len() {
        None
    } else if s[i] == '"' {
        Some((Seq::empty(), i + 1))
    } else if s[i] == '\\' {
        if i + 1 < s.len() {
            match spec_escape_char(s[i + 1]) {
                Some(u) => match spec_string_tail(s, i + 2) {
                    Some((t, j)) => Some((seq![u] + t, j)),
                    None => None,
                },
                None => None,
            }
        } else {
            None
        }
    } else {
        match spec_string_tail(s, i + 1) {
            Some((t, j)) => Some((seq![s[i]] + t, j)),
            None => None,
        }
    }
}

/// Parse a quoted JSON string starting exactly at `i`.
pub open spec fn spec_string_at(s: Seq<char>, i: int) -> Option<(Seq<char>, int)>
    recommends
        0 <= i <= s.len(),
{
    if i < s.len() && s[i] == '"' {
        spec_string_tail(s, i + 1)
    } else {
        None
    }
}

/// Parse a quoted JSON string after optional whitespace.
pub open spec fn spec_string_tok(s: Seq<char>, i: int) -> Option<(Seq<char>, int)>
    recommends
        0 <= i <= s.len(),
{
    spec_string_at(s, spec_ws(s, i))
}

pub open spec fn kw_success() -> Seq<char> {
    seq!['S', 'u', 'c', 'c', 'e', 's', 's']
}

pub open spec fn kw_failure() -> Seq<char> {
    seq!['F', 'a', 'i', 'l', 'u', 'r', 'e']
}

pub open spec fn kw_targets() -> Seq<char> {
    seq!['t', 'a', 'r', 'g', 'e', 't', 's']
}

pub open spec fn kw_warnings() -> Seq<char> {
    seq!['w', 'a', 'r', 'n', 'i', 'n', 'g', 's']
}

pub open spec fn kw_errors() -> Seq<char> {
    seq!['e', 'r', 'r', 'o', 'r', 's']
}

pub open spec fn kw_kind() -> Seq<char> {
    seq!['k', 'i', 'n', 'd']
}

pub open spec fn kw_name() -> Seq<char> {
    seq!['n', 'a', 'm', 'e']
}

pub open spec fn kw_src_path() -> Seq<char> {
    seq!['s', 'r', 'c', '_', 'p', 'a', 't', 'h']
}

pub open spec fn kw_message() -> Seq<char> {
    seq!['m', 'e', 's', 's', 'a', 'g', 'e']
}

pub open spec fn kw_bin() -> Seq<char> {
    seq!['B', 'i', 'n']
}

pub open spec fn kw_lib() -> Seq<char> {
    seq!['L', 'i', 'b']
}

/// Parse a target kind: the string `"Bin"` or `"Lib"`.
pub open spec fn spec_kind(s: Seq<char>, i: int) -> Option<(ExtTargetKind, int)>
    recommends
        0 <= i <= s.len(),
{
    match spec_string_tok(s, i) {
        Some((k, j)) => if k == kw_bin() {
            Some((ExtTargetKind::Bin, j))
        } else if k == kw_lib() {
            Some((ExtTargetKind::Lib, j))
        } else {
            None
        },
        None => None,
    }
}

/// Parse one quoted key and require it to be `kw`; the index after it.
pub open spec fn spec_key(s: Seq<char>, i: int, kw: Seq<char>) -> Option<int>
    recommends
        0 <= i <= s.len(),
{
    match spec_string_tok(s, i) {
        Some((k, j)) => if k == kw {
            Some(j)
        } else {
            None
        },
        None => None,
    }
}

/// Parse one target descriptor object.
pub open spec fn spec_target(s: Seq<char>, i: int) -> Option<(ExtTargetV, int)>
    recommends
        0 <= i <= s.len(),
{
    match spec_char_tok(s, i, '{') {
        Some(j0) => match spec_key(s, j0, kw_kind()) {
            Some(j1) => match spec_char_tok(s, j1, ':') {
                Some(j2) => match spec_kind(s, j2) {
                    Some((kind, j3)) => match spec_char_tok(s, j3, ',') {
                        Some(j4) => match spec_key(s, j4, kw_name()) {
                            Some(j5) => match spec_char_tok(s, j5, ':') {
                                Some(j6) => match spec_string_tok(s, j6) {
                                    Some((name, j7)) => match spec_char_tok(s, j7, ',') {
                                        Some(j8) => match spec_key(s, j8, kw_src_path()) {
                                            Some(j9) => match spec_char_tok(s, j9, ':') {
                                                Some(j10) => match spec_string_tok(s, j10) {
                                                    Some((sp, j11)) => match spec_char_tok(
                                                        s,
                                                        j11,
                                                        '}',
                                                    ) {
                                                        Some(j12) => Some(
                                                            (
                                                                ExtTargetV {
                                                                    kind: kind,
                                                                    name: name,
                                                                    src_path: sp,
                                                                },
                                                                j12,
                                                            ),
                                                        ),
                                                        None => None,
                                                    },
                                                    None => None,
                                                },
                                                None => None,
                                            },
                                            None => None,
                                        },
                                        None => None,
                                    },
                                    None => None,
                                },
                                None => None,
                            },
                            None => None,
                        },
                        None => None,
                    },
                    None => None,
                },
                None => None,
            },
            None => None,
        },
        None => None,
    }
}

/// After the first element of a string array: `(WS ',' WS string)* WS ']'`,
/// yielding the remaining elements.
pub open spec fn spec_string_list_rest(s: Seq<char>, i: int) -> Option<(Seq<Seq<char>>, int)>
    recommends
        0 <= i <= s.len(),
    decreases s.len() - i,
    when 0 <= i <= s.len()
{
    let j = spec_ws(s, i);
    if j < s.len() && s[j] == ']' {
        Some((Seq::empty(), j + 1))
    } else if j < s.len() && s[j] == ',' {
        match spec_string_tok(s, j + 1) {
            Some((v, k)) => if i < k <= s.len() {
                match spec_string_list_rest(s, k) {
                    Some((vs, m)) => Some((seq![v] + vs, m)),
                    None => None,
                }
            } else {
                None
            },
            None => None,
        }
    } else {
        None
    }
}

/// Parse a JSON array of strings.
pub open spec fn spec_string_list(s: Seq<char>, i: int) -> Option<(Seq<Seq<char>>, int)>
    recommends
        0 <= i <= s.len(),
{
    match spec_char_tok(s, i, '[') {
        Some(j0) => {
            let j1 = spec_ws(s, j0);
            if j1 < s.len() && s[j1] == ']' {
                Some((Seq::empty(), j1 + 1))
            } else {
                match spec_string_at(s, j1) {
                    Some((v, k)) => if 0 <= k <= s.len() {
                        match spec_string_list_rest(s, k) {
                            Some((vs, m)) => Some((seq![v] + vs, m)),
                            None => None,
                        }
                    } else {
                        None
                    },
                    None => None,
                }
            }
        },
        None => None,
    }
}

/// After the first element of a target array: `(WS ',' WS target)* WS ']'`.
pub open spec fn spec_target_list_rest(s: Seq<char>, i: int) -> Option<(Seq<ExtTargetV>, int)>
    recommends
        0 <= i <= s.len(),
    decreases s.len() - i,
    when 0 <= i <= s.len()
{
    let j = spec_ws(s, i);
    if j < s.len() && s[j] == ']' {
        Some((Seq::empty(), j + 1))
    } else if j < s.len() && s[j] == ',' {
        match spec_target(s, j + 1) {
            Some((t, k)) => if i < k <= s.len() {
                match spec_target_list_rest(s, k) {
                    Some((ts, m)) => Some((seq![t] + ts, m)),
                    None => None,
                }
            } else {
                None
            },
            None => None,
        }
    } else {
        None
    }
}

/// Parse a JSON array of target descriptors.
pub open spec fn spec_target_list(s: Seq<char>, i: int) -> Option<(Seq<ExtTargetV>, int)>
    recommends
        0 <= i <= s.len(),
{
    match spec_char_tok(s, i, '[') {
        Some(j0) => {
            let j1 = spec_ws(s, j0);
            if j1 < s.len() && s[j1] == ']' {
                Some((Seq::empty(), j1 + 1))
            } else {
                match spec_target(s, j1) {
                    Some((t, k)) => if 0 <= k <= s.len() {
                        match spec_target_list_rest(s, k) {
                            Some((ts, m)) => Some((seq![t] + ts, m)),
                            None => None,
                        }
                    } else {
                        None
                    },
                    None => None,
                }
            }
        },
        None => None,
    }
}

/// Parse the body of a `Success` response.
pub open spec fn spec_success_body(s: Seq<char>, i: int) -> Option<(TargetResultV, int)>
    recommends
        0 <= i <= s.len(),
{
    match spec_char_tok(s, i, '{') {
        Some(j0) => match spec_key(s, j0, kw_targets()) {
            Some(j1) => match spec_char_tok(s, j1, ':') {
                Some(j2) => match spec_target_list(s, j2) {
                    Some((ts, j3)) => if 0 <= j3 <= s.len() {
                        match spec_char_tok(s, j3, ',') {
                            Some(j4) => match spec_key(s, j4, kw_warnings()) {
                                Some(j5) => match spec_char_tok(s, j5, ':') {
                                    Some(j6) => match spec_string_list(s, j6) {
                                        Some((ws, j7)) => if 0 <= j7 <= s.len() {
                                            match spec_char_tok(s, j7, ',') {
                                                Some(j8) => match spec_key(s, j8, kw_errors()) {
                                                    Some(j9) => match spec_char_tok(s, j9, ':') {
                                                        Some(j10) => match spec_string_list(
                                                            s,
                                                            j10,
                                                        ) {
                                                            Some((es, j11)) => if 0 <= j11
                                                                <= s.len() {
                                                                match spec_char_tok(s, j11, '}') {
                                                                    Some(j12) => Some(
                                                                        (
                                                                            TargetResultV::Success {
                                                                                targets: ts,
                                                                                warnings: ws,
                                                                                errors: es,
                                                                            },
                                                                            j12,
                                                                        ),
                                                                    ),
                                                                    None => None,
                                                                }
                                                            } else {
                                                                None
                                                            },
                                                            None => None,
                                                        },
                                                        None => None,
                                                    },
                                                    None => None,
                                                },
                                                None => None,
                                            }
                                        } else {
                                            None
                                        },
                                        None => None,
                                    },
                                    None => None,
                                },
                                None => None,
                            },
                            None => None,
                        }
                    } else {
                        None
                    },
                    None => None,
                },
                None => None,
            },
            None => None,
        },
        None => None,
    }
}

/// Parse the body of a `Failure` response.
pub open spec fn spec_failure_body(s: Seq<char>, i: int) -> Option<(TargetResultV, int)>
    recommends
        0 <= i <= s.len(),
{
    match spec_char_tok(s, i, '{') {
        Some(j0) => match spec_key(s, j0, kw_message()) {
            Some(j1) => match spec_char_tok(s, j1, ':') {
                Some(j2) => match spec_string_tok(s, j2) {
                    Some((m, j3)) => match spec_char_tok(s, j3, '}') {
                        Some(j4) => Some((TargetResultV::Failure { message: m }, j4)),
                        None => None,
                    },
                    None => None,
                },
                None => None,
            },
            None => None,
        },
        None => None,
    }
}

/// The target response denoted by the whole input, or `None` where the input
/// is not a well-formed target response.
pub open spec fn spec_response(s: Seq<char>) -> Option<TargetResultV> {
    match spec_char_tok(s, 0, '{') {
        Some(j0) => match spec_string_tok(s, j0) {
            Some((tag, j1)) => {
                let body = if tag == kw_success() {
                    match spec_char_tok(s, j1, ':') {
                        Some(j2) => spec_success_body(s, j2),
                        None => None,
                    }
                } else if tag == kw_failure() {
                    match spec_char_tok(s, j1, ':') {
                        Some(j2) => spec_failure_body(s, j2),
                        None => None,
                    }
                } else {
                    None
                };
                match body {
                    Some((v, j3)) => if 0 <= j3 <= s.len() {
                        match spec_char_tok(s, j3, '}') {
                            Some(j4) => if spec_ws(s, j4) == s.len() {
                                Some(v)
                            } else {
                                None
                            },
                            None => None,
                        }
                    } else {
                        None
                    },
                    None => None,
                }
            },
            None => None,
        },
        None => None,
    }
}

} // verus!
