//! Small verified text helpers: exact and case-insensitive string
//! comparison over ASCII letters, and joining lines.

use vstd::prelude::*;

verus! {

/// The Unicode scalar value of `c`, with an ASCII capital letter folded to
/// its small counterpart.  Folding only the ASCII range matches the wire
/// protocol, whose keyword tables are plain ASCII.
pub open spec fn fold_code(c: char) -> int {
    if 65 <= c as u32 && c as u32 <= 90 {
        c as u32 + 32
    } else {
        c as int
    }
}

/// Case-folded image of a character sequence; two strings are equal up to
/// ASCII case exactly when their images agree.
pub open spec fn fold_case(s: Seq<char>) -> Seq<int> {
    s.map_values(|c: char| fold_code(c))
}

/// Exact string equality, decided character by character.
pub fn str_eq(a: &str, b: &str) -> (r: bool)
    ensures
        r == (a@ == b@),
{
    let a_len = a.unicode_len();
    let b_len = b.unicode_len();
    if a_len != b_len {
        return false;
    }
    let mut i: usize = 0;
    while i < a_len
        invariant
            i <= a_len,
            a_len == a@.len(),
            a_len == b@.len(),
            forall|j: int| 0 <= j < i ==> a@[j] == b@[j],
        decreases a_len - i,
    {
        if a.get_char(i) != b.get_char(i) {
            return false;
        }
        i = i + 1;
    }
    proof {
        assert(a@ =~= b@);
    }
    true
}

/// String equality up to ASCII case, decided character by character.
pub fn eq_ignore_ascii_case(a: &str, b: &str) -> (r: bool)
    ensures
        r == (fold_case(a@) == fold_case(b@)),
{
    let a_len = a.unicode_len();
    let b_len = b.unicode_len();
    if a_len != b_len {
        proof {
            assert(fold_case(a@).len() != fold_case(b@).len());
        }
        return false;
    }
    let mut i: usize = 0;
    while i < a_len
        invariant
            i <= a_len,
            a_len == a@.len(),
            a_len == b@.len(),
            forall|j: int| 0 <= j < i ==> fold_code(a@[j]) == fold_code(b@[j]),
        decreases a_len - i,
    {
        let ca = a.get_char(i) as u32;
        let cb = b.get_char(i) as u32;
        let fa = if 65 <= ca && ca <= 90 {
            ca + 32
        } else {
            ca
        };
        let fb = if 65 <= cb && cb <= 90 {
            cb + 32
        } else {
            cb
        };
        if fa != fb {
            proof {
                assert(fold_case(a@)[i as int] != fold_case(b@)[i as int]);
            }
            return false;
        }
        i = i + 1;
    }
    proof {
        assert(fold_case(a@) =~= fold_case(b@));
    }
    true
}

/// The lines of `msgs` joined with a newline between each adjacent pair.
pub open spec fn spec_join_lines(msgs: Seq<String>) -> Seq<char>
    decreases msgs.len(),
{
    if msgs.len() == 0 {
        Seq::empty()
    } else if msgs.len() == 1 {
        msgs.last()@
    } else {
        spec_join_lines(msgs.drop_last()) + "\n"@ + msgs.last()@
    }
}

/// Joins `msgs` with a newline between each adjacent pair.
pub fn join_lines(msgs: &Vec<String>) -> (r: String)
    ensures
        r@ == spec_join_lines(msgs@),
{
    let mut out = String::new();
    let mut i: usize = 0;
    while i < msgs.len()
        invariant
            i <= msgs@.len(),
            out@ == spec_join_lines(msgs@.take(i as int)),
        decreases msgs@.len() - i,
    {
        if i > 0 {
            out.append("\n");
        }
        out.append(msgs[i].as_str());
        proof {
            let taken = msgs@.take(i + 1);
            assert(taken.drop_last() =~= msgs@.take(i as int));
            assert(taken.last() == msgs@[i as int]);
            if i == 0 {
                assert(out@ =~= spec_join_lines(taken));
            }
        }
        i = i + 1;
    }
    proof {
        assert(msgs@.take(msgs@.len() as int) =~= msgs@);
    }
    out
}

} // verus!
