//! Executable parser for the target-response wire format.
//!
//! Each function returns exactly the value of the matching `spec_` function
//! in [`crate::wire`]; parsing is by characters, so the input may be any
//! UTF-8 text.

use vstd::prelude::*;

use crate::model::ExtTarget;
use crate::model::ExtTargetKind;
use crate::model::ExtTargetV;
use crate::model::TargetResult;
use crate::wire::kw_bin;
use crate::wire::kw_errors;
use crate::wire::kw_failure;
use crate::wire::kw_kind;
use crate::wire::kw_lib;
use crate::wire::kw_message;
use crate::wire::kw_name;
use crate::wire::kw_src_path;
use crate::wire::kw_success;
use crate::wire::kw_targets;
use crate::wire::kw_warnings;
use crate::wire::spec_char_tok;
use crate::wire::spec_escape_char;
use crate::wire::spec_failure_body;
use crate::wire::spec_kind;
use crate::wire::spec_key;
use crate::wire::spec_response;
use crate::wire::spec_string_at;
use crate::wire::spec_string_list;
use crate::wire::spec_string_list_rest;
use crate::wire::spec_string_tail;
use crate::wire::spec_string_tok;
use crate::wire::spec_success_body;
use crate::wire::spec_target;
use crate::wire::spec_target_list;
use crate::wire::spec_target_list_rest;
use crate::wire::spec_ws;

verus! {

fn skip_ws(s: &str, n: usize, i: usize) -> (j: usize)
    requires
        n == s@.len(),
        i <= n,
    ensures
        j as int == spec_ws(s@, i as int),
        i <= j <= n,
    decreases n - i,
{
    if i < n {
        let c = s.get_char(i);
        if c == ' ' || c == '\t' || c == '\n' || c == '\r' {
            skip_ws(s, n, i + 1)
        } else {
            i
        }
    } else {
        i
    }
}

fn parse_char_tok(s: &str, n: usize, i: usize, c: char) -> (r: Option<usize>)
    requires
        n == s@.len(),
        i <= n,
    ensures
        (match r {
            Some(j) => spec_char_tok(s@, i as int, c) == Some(j as int) && i < j <= n,
            None => spec_char_tok(s@, i as int, c) is None,
        }),
{
    let j = skip_ws(s, n, i);
    if j < n && s.get_char(j) == c {
        Some(j + 1)
    } else {
        None
    }
}

fn parse_string_tail(s: &str, n: usize, i: usize) -> (r: Option<(String, usize)>)
    requires
        n == s@.len(),
        i <= n,
    ensures
        (match r {
            Some(p) => spec_string_tail(s@, i as int) == Some((p.0@, p.1 as int)) && i < p.1 <= n,
            None => spec_string_tail(s@, i as int) is None,
        }),
    decreases n - i,
{
    if i >= n {
        return None;
    }
    let c = s.get_char(i);
    if c == '"' {
        Some((String::new(), i + 1))
    } else if c == '\\' {
        if i + 1 < n {
            let e = s.get_char(i + 1);
            let piece: Option<&str> = if e == '"' {
                Some("\"")
            } else if e == '\\' {
                Some("\\")
            } else if e == '/' {
                Some("/")
            } else if e == 'n' {
                Some("\n")
            } else if e == 't' {
                Some("\t")
            } else if e == 'r' {
                Some("\r")
            } else if e == 'b' {
                Some("\u{0008}")
            } else if e == 'f' {
                Some("\u{000C}")
            } else {
                None
            };
            match piece {
                Some(p) => {
                    proof {
                        reveal_strlit("\"");
                        reveal_strlit("\\");
                        reveal_strlit("/");
                        reveal_strlit("\n");
                        reveal_strlit("\t");
                        reveal_strlit("\r");
                        reveal_strlit("\u{0008}");
                        reveal_strlit("\u{000C}");
                    }
                    assert(p@.len() == 1 && spec_escape_char(e) == Some(p@[0]));
                    match parse_string_tail(s, n, i + 2) {
                        Some((t, j)) => {
                            let out = p.to_owned().concat(t.as_str());
                            assert(out@ =~= seq![p@[0]] + t@);
                            Some((out, j))
                        },
                        None => None,
                    }
                },
                None => None,
            }
        } else {
            None
        }
    } else {
        match parse_string_tail(s, n, i + 1) {
            Some((t, j)) => {
                let piece = s.substring_char(i, i + 1);
                assert(piece@ =~= seq![s@[i as int]]);
                let out = piece.to_owned().concat(t.as_str());
                Some((out, j))
            },
            None => None,
        }
    }
}

fn parse_string_at(s: &str, n: usize, i: usize) -> (r: Option<(String, usize)>)
    requires
        n == s@.len(),
        i <= n,
    ensures
        (match r {
            Some(p) => spec_string_at(s@, i as int) == Some((p.0@, p.1 as int)) && i < p.1 <= n,
            None => spec_string_at(s@, i as int) is None,
        }),
{
    if i < n && s.get_char(i) == '"' {
        parse_string_tail(s, n, i + 1)
    } else {
        None
    }
}

fn parse_string_tok(s: &str, n: usize, i: usize) -> (r: Option<(String, usize)>)
    requires
        n == s@.len(),
        i <= n,
    ensures
        (match r {
            Some(p) => spec_string_tok(s@, i as int) == Some((p.0@, p.1 as int)) && i < p.1 <= n,
            None => spec_string_tok(s@, i as int) is None,
        }),
{
    let j = skip_ws(s, n, i);
    parse_string_at(s, n, j)
}

fn parse_key(s: &str, n: usize, i: usize, kw: &str) -> (r: Option<usize>)
    requires
        n == s@.len(),
        i <= n,
    ensures
        (match r {
            Some(j) => spec_key(s@, i as int, kw@) == Some(j as int) && i < j <= n,
            None => spec_key(s@, i as int, kw@) is None,
        }),
{
    match parse_string_tok(s, n, i) {
        Some((k, j)) => {
            let kws = kw.to_owned();
            if k == kws {
                Some(j)
            } else {
                None
            }
        },
        None => None,
    }
}

fn parse_kind(s: &str, n: usize, i: usize) -> (r: Option<(ExtTargetKind, usize)>)
    requires
        n == s@.len(),
        i <= n,
    ensures
        (match r {
            Some(p) => spec_kind(s@, i as int) == Some((p.0, p.1 as int)) && i < p.1 <= n,
            None => spec_kind(s@, i as int) is None,
        }),
{
    proof {
        reveal_strlit("Bin");
        reveal_strlit("Lib");
    }
    match parse_string_tok(s, n, i) {
        Some((k, j)) => {
            assert(("Bin")@ =~= kw_bin());
            assert(("Lib")@ =~= kw_lib());
            let bin = "Bin".to_owned();
            let lib = "Lib".to_owned();
            if k == bin {
                Some((ExtTargetKind::Bin, j))
            } else if k == lib {
                Some((ExtTargetKind::Lib, j))
            } else {
                None
            }
        },
        None => None,
    }
}

fn parse_target(s: &str, n: usize, i: usize) -> (r: Option<(ExtTarget, usize)>)
    requires
        n == s@.len(),
        i <= n,
    ensures
        (match r {
            Some(p) => spec_target(s@, i as int) == Some((p.0@, p.1 as int)) && i < p.1 <= n,
            None => spec_target(s@, i as int) is None,
        }),
{
    proof {
        reveal_strlit("kind");
        reveal_strlit("name");
        reveal_strlit("src_path");
    }
    assert(("kind")@ =~= kw_kind());
    assert(("name")@ =~= kw_name());
    assert(("src_path")@ =~= kw_src_path());
    let j0 = match parse_char_tok(s, n, i, '{') {
        Some(j) => j,
        None => {
            return None;
        },
    };
    let j1 = match parse_key(s, n, j0, "kind") {
        Some(j) => j,
        None => {
            return None;
        },
    };
    let j2 = match parse_char_tok(s, n, j1, ':') {
        Some(j) => j,
        None => {
            return None;
        },
    };
    let (kind, j3) = match parse_kind(s, n, j2) {
        Some(p) => p,
        None => {
            return None;
        },
    };
    let j4 = match parse_char_tok(s, n, j3, ',') {
        Some(j) => j,
        None => {
            return None;
        },
    };
    let j5 = match parse_key(s, n, j4, "name") {
        Some(j) => j,
        None => {
            return None;
        },
    };
    let j6 = match parse_char_tok(s, n, j5, ':') {
        Some(j) => j,
        None => {
            return None;
        },
    };
    let (name, j7) = match parse_string_tok(s, n, j6) {
        Some(p) => p,
        None => {
            return None;
        },
    };
    let j8 = match parse_char_tok(s, n, j7, ',') {
        Some(j) => j,
        None => {
            return None;
        },
    };
    let j9 = match parse_key(s, n, j8, "src_path") {
        Some(j) => j,
        None => {
            return None;
        },
    };
    let j10 = match parse_char_tok(s, n, j9, ':') {
        Some(j) => j,
        None => {
            return None;
        },
    };
    let (sp, j11) = match parse_string_tok(s, n, j10) {
        Some(p) => p,
        None => {
            return None;
        },
    };
    let j12 = match parse_char_tok(s, n, j11, '}') {
        Some(j) => j,
        None => {
            return None;
        },
    };
    Some((ExtTarget { kind, name, src_path: sp }, j12))
}

fn parse_string_list_rest(s: &str, n: usize, i: usize) -> (r: Option<(Vec<String>, usize)>)
    requires
        n == s@.len(),
        i <= n,
    ensures
        (match r {
            Some(p) => spec_string_list_rest(s@, i as int) == Some(
                (p.0@.map_values(|w: String| w@), p.1 as int),
            ) && i < p.1 <= n,
            None => spec_string_list_rest(s@, i as int) is None,
        }),
    decreases n - i,
{
    let j = skip_ws(s, n, i);
    if j < n {
        let c = s.get_char(j);
        if c == ']' {
            let out: Vec<String> = Vec::new();
            assert(out@.map_values(|w: String| w@) =~= Seq::<Seq<char>>::empty());
            Some((out, j + 1))
        } else if c == ',' {
            match parse_string_tok(s, n, j + 1) {
                Some((v, k)) => match parse_string_list_rest(s, n, k) {
                    Some((mut vs, m)) => {
                        let ghost old_vs = vs@;
                        vs.insert(0, v);
                        assert(vs@.map_values(|w: String| w@) =~= seq![v@] + old_vs.map_values(
                            |w: String| w@,
                        ));
                        Some((vs, m))
                    },
                    None => None,
                },
                None => None,
            }
        } else {
            None
        }
    } else {
        None
    }
}

fn parse_string_list(s: &str, n: usize, i: usize) -> (r: Option<(Vec<String>, usize)>)
    requires
        n == s@.len(),
        i <= n,
    ensures
        (match r {
            Some(p) => spec_string_list(s@, i as int) == Some(
                (p.0@.map_values(|w: String| w@), p.1 as int),
            ) && i < p.1 <= n,
            None => spec_string_list(s@, i as int) is None,
        }),
{
    let j0 = match parse_char_tok(s, n, i, '[') {
        Some(j) => j,
        None => {
            return None;
        },
    };
    let j1 = skip_ws(s, n, j0);
    if j1 < n && s.get_char(j1) == ']' {
        let out: Vec<String> = Vec::new();
        assert(out@.map_values(|w: String| w@) =~= Seq::<Seq<char>>::empty());
        Some((out, j1 + 1))
    } else {
        match parse_string_at(s, n, j1) {
            Some((v, k)) => match parse_string_list_rest(s, n, k) {
                Some((mut vs, m)) => {
                    let ghost old_vs = vs@;
                    vs.insert(0, v);
                    assert(vs@.map_values(|w: String| w@) =~= seq![v@] + old_vs.map_values(
                        |w: String| w@,
                    ));
                    Some((vs, m))
                },
                None => None,
            },
            None => None,
        }
    }
}

fn parse_target_list_rest(s: &str, n: usize, i: usize) -> (r: Option<(Vec<ExtTarget>, usize)>)
    requires
        n == s@.len(),
        i <= n,
    ensures
        (match r {
            Some(p) => spec_target_list_rest(s@, i as int) == Some(
                (p.0@.map_values(|t: ExtTarget| t@), p.1 as int),
            ) && i < p.1 <= n,
            None => spec_target_list_rest(s@, i as int) is None,
        }),
    decreases n - i,
{
    let j = skip_ws(s, n, i);
    if j < n {
        let c = s.get_char(j);
        if c == ']' {
            let out: Vec<ExtTarget> = Vec::new();
            assert(out@.map_values(|t: ExtTarget| t@) =~= Seq::<ExtTargetV>::empty());
            Some((out, j + 1))
        } else if c == ',' {
            match parse_target(s, n, j + 1) {
                Some((t, k)) => match parse_target_list_rest(s, n, k) {
                    Some((mut ts, m)) => {
                        let ghost old_ts = ts@;
                        ts.insert(0, t);
                        assert(ts@.map_values(|t: ExtTarget| t@) =~= seq![t@] + old_ts.map_values(
                            |t: ExtTarget| t@,
                        ));
                        Some((ts, m))
                    },
                    None => None,
                },
                None => None,
            }
        } else {
            None
        }
    } else {
        None
    }
}

fn parse_target_list(s: &str, n: usize, i: usize) -> (r: Option<(Vec<ExtTarget>, usize)>)
    requires
        n == s@.len(),
        i <= n,
    ensures
        (match r {
            Some(p) => spec_target_list(s@, i as int) == Some(
                (p.0@.map_values(|t: ExtTarget| t@), p.1 as int),
            ) && i < p.1 <= n,
            None => spec_target_list(s@, i as int) is None,
        }),
{
    let j0 = match parse_char_tok(s, n, i, '[') {
        Some(j) => j,
        None => {
            return None;
        },
    };
    let j1 = skip_ws(s, n, j0);
    if j1 < n && s.get_char(j1) == ']' {
        let out: Vec<ExtTarget> = Vec::new();
        assert(out@.map_values(|t: ExtTarget| t@) =~= Seq::<ExtTargetV>::empty());
        Some((out, j1 + 1))
    } else {
        match parse_target(s, n, j1) {
            Some((t, k)) => match parse_target_list_rest(s, n, k) {
                Some((mut ts, m)) => {
                    let ghost old_ts = ts@;
                    ts.insert(0, t);
                    assert(ts@.map_values(|t: ExtTarget| t@) =~= seq![t@] + old_ts.map_values(
                        |t: ExtTarget| t@,
                    ));
                    Some((ts, m))
                },
                None => None,
            },
            None => None,
        }
    }
}

fn parse_success_body(s: &str, n: usize, i: usize) -> (r: Option<(TargetResult, usize)>)
    requires
        n == s@.len(),
        i <= n,
    ensures
        (match r {
            Some(p) => spec_success_body(s@, i as int) == Some((p.0@, p.1 as int)) && i < p.1 <= n,
            None => spec_success_body(s@, i as int) is None,
        }),
{
    proof {
        reveal_strlit("targets");
        reveal_strlit("warnings");
        reveal_strlit("errors");
    }
    assert(("targets")@ =~= kw_targets());
    assert(("warnings")@ =~= kw_warnings());
    assert(("errors")@ =~= kw_errors());
    let j0 = match parse_char_tok(s, n, i, '{') {
        Some(j) => j,
        None => {
            return None;
        },
    };
    let j1 = match parse_key(s, n, j0, "targets") {
        Some(j) => j,
        None => {
            return None;
        },
    };
    let j2 = match parse_char_tok(s, n, j1, ':') {
        Some(j) => j,
        None => {
            return None;
        },
    };
    let (ts, j3) = match parse_target_list(s, n, j2) {
        Some(p) => p,
        None => {
            return None;
        },
    };
    let j4 = match parse_char_tok(s, n, j3, ',') {
        Some(j) => j,
        None => {
            return None;
        },
    };
    let j5 = match parse_key(s, n, j4, "warnings") {
        Some(j) => j,
        None => {
            return None;
        },
    };
    let j6 = match parse_char_tok(s, n, j5, ':') {
        Some(j) => j,
        None => {
            return None;
        },
    };
    let (ws, j7) = match parse_string_list(s, n, j6) {
        Some(p) => p,
        None => {
            return None;
        },
    };
    let j8 = match parse_char_tok(s, n, j7, ',') {
        Some(j) => j,
        None => {
            return None;
        },
    };
    let j9 = match parse_key(s, n, j8, "errors") {
        Some(j) => j,
        None => {
            return None;
        },
    };
    let j10 = match parse_char_tok(s, n, j9, ':') {
        Some(j) => j,
        None => {
            return None;
        },
    };
    let (es, j11) = match parse_string_list(s, n, j10) {
        Some(p) => p,
        None => {
            return None;
        },
    };
    let j12 = match parse_char_tok(s, n, j11, '}') {
        Some(j) => j,
        None => {
            return None;
        },
    };
    Some((TargetResult::Success { targets: ts, warnings: ws, errors: es }, j12))
}

fn parse_failure_body(s: &str, n: usize, i: usize) -> (r: Option<(TargetResult, usize)>)
    requires
        n == s@.len(),
        i <= n,
    ensures
        (match r {
            Some(p) => spec_failure_body(s@, i as int) == Some((p.0@, p.1 as int)) && i < p.1 <= n,
            None => spec_failure_body(s@, i as int) is None,
        }),
{
    proof {
        reveal_strlit("message");
    }
    assert(("message")@ =~= kw_message());
    let j0 = match parse_char_tok(s, n, i, '{') {
        Some(j) => j,
        None => {
            return None;
        },
    };
    let j1 = match parse_key(s, n, j0, "message") {
        Some(j) => j,
        None => {
            return None;
        },
    };
    let j2 = match parse_char_tok(s, n, j1, ':') {
        Some(j) => j,
        None => {
            return None;
        },
    };
    let (m, j3) = match parse_string_tok(s, n, j2) {
        Some(p) => p,
        None => {
            return None;
        },
    };
    let j4 = match parse_char_tok(s, n, j3, '}') {
        Some(j) => j,
        None => {
            return None;
        },
    };
    Some((TargetResult::Failure { message: m }, j4))
}

/// Parse a whole plugin answer.  The result is the target response the input
/// denotes, or `None` exactly when the input is not a well-formed target
/// response.
pub fn parse_response(s: &str) -> (r: Option<TargetResult>)
    ensures
        (match r {
            Some(v) => spec_response(s@) == Some(v@),
            None => spec_response(s@) is None,
        }),
{
    proof {
        reveal_strlit("Success");
        reveal_strlit("Failure");
    }
    assert(("Success")@ =~= kw_success());
    assert(("Failure")@ =~= kw_failure());
    let n = s.unicode_len();
    let j0 = match parse_char_tok(s, n, 0, '{') {
        Some(j) => j,
        None => {
            return None;
        },
    };
    let (tag, j1) = match parse_string_tok(s, n, j0) {
        Some(p) => p,
        None => {
            return None;
        },
    };
    let success_tag = "Success".to_owned();
    let failure_tag = "Failure".to_owned();
    let body = if tag == success_tag {
        let j2 = match parse_char_tok(s, n, j1, ':') {
            Some(j) => j,
            None => {
                return None;
            },
        };
        parse_success_body(s, n, j2)
    } else if tag == failure_tag {
        let j2 = match parse_char_tok(s, n, j1, ':') {
            Some(j) => j,
            None => {
                return None;
            },
        };
        parse_failure_body(s, n, j2)
    } else {
        return None;
    };
    let (v, j3) = match body {
        Some(p) => p,
        None => {
            return None;
        },
    };
    let j4 = match parse_char_tok(s, n, j3, '}') {
        Some(j) => j,
        None => {
            return None;
        },
    };
    let j5 = skip_ws(s, n, j4);
    if j5 == n {
        Some(v)
    } else {
        None
    }
}

} // verus!
