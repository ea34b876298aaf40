//! Lexical-distance matching behind the "did you mean" suggestion that a
//! failed registry lookup carries.

use vstd::prelude::*;

verus! {

/// Levenshtein distance between the suffixes `a[i..]` and `b[j..]`: the least
/// number of single-character insertions, deletions and substitutions that
/// turn one into the other.
pub open spec fn spec_edit_distance_from(a: Seq<char>, b: Seq<char>, i: int, j: int) -> nat
    recommends
        0 <= i <= a.len(),
        0 <= j <= b.len(),
    decreases a.len() - i + b.len() - j,
    when 0 <= i <= a.len() && 0 <= j <= b.len()
{
    if i >= a.len() {
        (b.len() - j) as nat
    } else if j >= b.len() {
        (a.len() - i) as nat
    } else if a[i] == b[j] {
        spec_edit_distance_from(a, b, i + 1, j + 1)
    } else {
        let del = spec_edit_distance_from(a, b, i + 1, j);
        let ins = spec_edit_distance_from(a, b, i, j + 1);
        let sub = spec_edit_distance_from(a, b, i + 1, j + 1);
        1 + (if del <= ins && del <= sub {
            del
        } else if ins <= sub {
            ins
        } else {
            sub
        })
    }
}

/// Levenshtein distance between two strings.
pub open spec fn spec_edit_distance(a: Seq<char>, b: Seq<char>) -> nat {
    spec_edit_distance_from(a, b, 0, 0)
}

fn edit_distance_rec(a: &str, b: &str, la: usize, lb: usize, i: usize, j: usize) -> (d: usize)
    requires
        la == a@.len(),
        lb == b@.len(),
        i <= la,
        j <= lb,
    ensures
        d == spec_edit_distance_from(a@, b@, i as int, j as int),
        d <= (if la - i >= lb - j {
            la - i
        } else {
            lb - j
        }),
    decreases la - i + lb - j,
{
    if i >= la {
        lb - j
    } else if j >= lb {
        la - i
    } else if a.get_char(i) == b.get_char(j) {
        edit_distance_rec(a, b, la, lb, i + 1, j + 1)
    } else {
        let del = edit_distance_rec(a, b, la, lb, i + 1, j);
        let ins = edit_distance_rec(a, b, la, lb, i, j + 1);
        let sub = edit_distance_rec(a, b, la, lb, i + 1, j + 1);
        1 + (if del <= ins && del <= sub {
            del
        } else if ins <= sub {
            ins
        } else {
            sub
        })
    }
}

/// Levenshtein distance between `a` and `b`.
pub fn edit_distance(a: &str, b: &str) -> (d: usize)
    ensures
        d == spec_edit_distance(a@, b@),
{
    let la = a.unicode_len();
    let lb = b.unicode_len();
    edit_distance_rec(a, b, la, lb, 0, 0)
}

/// How far a registered identifier may lie from a requested one and still be
/// offered as a suggestion: a third of the request's length, but never less
/// than one character.
pub open spec fn spec_threshold(n: nat) -> nat {
    (if n < 3 {
        3nat
    } else {
        n
    }) / 3
}

/// Fold over `ids[i..]` that keeps the candidate with the least distance to
/// `q`, the earliest one on a tie.
pub open spec fn spec_best_match_from(
    ids: Seq<Seq<char>>,
    q: Seq<char>,
    i: int,
    best: Option<(Seq<char>, nat)>,
) -> Option<(Seq<char>, nat)>
    recommends
        0 <= i <= ids.len(),
    decreases ids.len() - i,
    when 0 <= i <= ids.len()
{
    if i >= ids.len() {
        best
    } else {
        let d = spec_edit_distance(q, ids[i]);
        let next = match best {
            None => Some((ids[i], d)),
            Some((c, bd)) => if d < bd {
                Some((ids[i], d))
            } else {
                Some((c, bd))
            },
        };
        spec_best_match_from(ids, q, i + 1, next)
    }
}

/// The single best suggestion among `ids` for the request `q`: the earliest
/// identifier at the least distance, and only when that distance is within
/// the threshold; `None` when no candidate is close enough.
pub open spec fn spec_closest(ids: Seq<Seq<char>>, q: Seq<char>) -> Option<Seq<char>> {
    match spec_best_match_from(ids, q, 0, None) {
        None => None,
        Some((c, d)) => if d <= spec_threshold(q.len()) {
            Some(c)
        } else {
            None
        },
    }
}

} // verus!
