//! Rendering of a target request onto the wire.
//!
//! A request is always written in one canonical shape,
//! `{"package_name":"...","package_root":"..."}`, with `"` and `\` escaped
//! inside the two strings and every other character carried through as it
//! is.

use vstd::prelude::*;

use crate::model::TargetRequest;
use crate::model::TargetRequestV;

verus! {

/// JSON string escaping as the renderer applies it: `"` and `\` get a
/// backslash, all else is unchanged.
pub open spec fn spec_escape(s: Seq<char>) -> Seq<char>
    decreases s.len(),
{
    if s.len() == 0 {
        Seq::empty()
    } else {
        let head = if s[0] == '"' {
            seq!['\\', '"']
        } else if s[0] == '\\' {
            seq!['\\', '\\']
        } else {
            seq![s[0]]
        };
        head + spec_escape(s.skip(1))
    }
}

pub open spec fn req_head() -> Seq<char> {
    seq![
        '{',
        '"',
        'p',
        'a',
        'c',
        'k',
        'a',
        'g',
        'e',
        '_',
        'n',
        'a',
        'm',
        'e',
        '"',
        ':',
        '"',
    ]
}

pub open spec fn req_mid() -> Seq<char> {
    seq![
        '"',
        ',',
        '"',
        'p',
        'a',
        'c',
        'k',
        'a',
        'g',
        'e',
        '_',
        'r',
        'o',
        'o',
        't',
        '"',
        ':',
        '"',
    ]
}

pub open spec fn req_tail() -> Seq<char> {
    seq!['"', '}']
}

/// The exact text of a request on the wire.
pub open spec fn spec_request_text(r: TargetRequestV) -> Seq<char> {
    req_head() + spec_escape(r.package_name) + req_mid() + spec_escape(r.package_root) + req_tail()
}

fn escape_from(s: &str, n: usize, i: usize) -> (out: String)
    requires
        n == s@.len(),
        i <= n,
    ensures
        out@ == spec_escape(s@.skip(i as int)),
    decreases n - i,
{
    if i >= n {
        assert(s@.skip(i as int) =~= Seq::<char>::empty());
        String::new()
    } else {
        let c = s.get_char(i);
        let rest = escape_from(s, n, i + 1);
        assert(s@.skip(i as int).skip(1) =~= s@.skip(i as int + 1));
        assert(s@.skip(i as int)[0] == s@[i as int]);
        if c == '"' {
            proof {
                reveal_strlit("\\\"");
            }
            assert(("\\\"")@ =~= seq!['\\', '"']);
            "\\\"".to_owned().concat(rest.as_str())
        } else if c == '\\' {
            proof {
                reveal_strlit("\\\\");
            }
            assert(("\\\\")@ =~= seq!['\\', '\\']);
            "\\\\".to_owned().concat(rest.as_str())
        } else {
            let piece = s.substring_char(i, i + 1);
            assert(piece@ =~= seq![s@[i as int]]);
            piece.to_owned().concat(rest.as_str())
        }
    }
}

/// Escape one string for the wire.
pub fn escape_json(s: &str) -> (out: String)
    ensures
        out@ == spec_escape(s@),
{
    let n = s.unicode_len();
    let out = escape_from(s, n, 0);
    assert(s@.skip(0) =~= s@);
    out
}

/// Write a whole request as its wire text.
pub fn render_request(req: &TargetRequest) -> (out: String)
    ensures
        out@ == spec_request_text(req@),
{
    proof {
        reveal_strlit("{\"package_name\":\"");
        reveal_strlit("\",\"package_root\":\"");
        reveal_strlit("\"}");
    }
    assert(("{\"package_name\":\"")@ =~= req_head());
    assert(("\",\"package_root\":\"")@ =~= req_mid() && ("\"}")@ =~= req_tail());
    let mut out = "{\"package_name\":\"".to_owned();
    let name = escape_json(req.package_name.as_str());
    out.append(name.as_str());
    out.append("\",\"package_root\":\"");
    let root = escape_json(req.package_root.as_str());
    out.append(root.as_str());
    out.append("\"}");
    assert(out@ =~= spec_request_text(req@));
    out
}

} // verus!
