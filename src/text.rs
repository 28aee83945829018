use vstd::prelude::*;
use vstd::string::*;

verus! {

/// `s` holds `p` as a contiguous run of characters.
pub open spec fn has_sub(s: Seq<char>, p: Seq<char>) -> bool {
    exists|i: int| 0 <= i && i + p.len() <= s.len() && #[trigger] s.subrange(i, i + p.len()) == p
}

/// Whether `p` occurs at position `i` of `s`.
fn occurs_at(s: &str, p: &str, i: usize, slen: usize, plen: usize) -> (r: bool)
    requires
        slen == s@.len(),
        plen == p@.len(),
        i + plen <= slen,
    ensures
        r == (s@.subrange(i as int, i + plen) == p@),
{
    let mut k: usize = 0;
    while k < plen
        invariant
            slen == s@.len(),
            plen == p@.len(),
            i + plen <= slen,
            k <= plen,
            forall|j: int| 0 <= j < k ==> s@[i + j] == p@[j],
        decreases plen - k,
    {
        if s.get_char(i + k) != p.get_char(k) {
            assert(s@.subrange(i as int, i + plen)[k as int] != p@[k as int]);
            return false;
        }
        k = k + 1;
    }
    assert(s@.subrange(i as int, i + plen) =~= p@);
    true
}

/// Whether the characters of `p` occur, in a row, somewhere in `s`.
pub fn contains_str(s: &str, p: &str) -> (r: bool)
    ensures
        r == has_sub(s@, p@),
{
    let slen = s.unicode_len();
    let plen = p.unicode_len();
    if plen > slen {
        return false;
    }
    let mut i: usize = 0;
    loop
        invariant
            slen == s@.len(),
            plen == p@.len(),
            plen <= slen,
            i <= slen - plen,
            forall|j: int| 0 <= j < i ==> #[trigger] s@.subrange(j, j + plen) != p@,
        decreases slen - plen - i,
    {
        if occurs_at(s, p, i, slen, plen) {
            return true;
        }
        if i == slen - plen {
            return false;
        }
        i = i + 1;
    }
}

/// `name` placed under the directory `base`, with a single `/` between them.
pub open spec fn joined(base: Seq<char>, name: Seq<char>) -> Seq<char> {
    if base.len() == 0 {
        name
    } else if base.last() == '/' {
        base + name
    } else {
        base + seq!['/'] + name
    }
}

/// The path of `name` under the directory `base`.
pub fn join_path(base: &str, name: &str) -> (r: String)
    ensures
        r@ == joined(base@, name@),
{
    proof {
        reveal_strlit("/");
        assert(seq!['/'] =~= "/"@);
    }
    let n = base.unicode_len();
    let mut r = String::from_str(base);
    if n > 0 && base.get_char(n - 1) != '/' {
        r.append("/");
    }
    r.append(name);
    r
}

} // verus!
