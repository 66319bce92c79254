use vstd::prelude::*;

verus! {

/// `p` occurs in `s` as a contiguous run.
pub open spec fn contains_text(s: Seq<char>, p: Seq<char>) -> bool {
    exists|i: int| 0 <= i && i + p.len() <= s.len() && #[trigger] s.subrange(i, i + p.len()) == p
}

/// The characters of `s`, in order.
pub fn chars_of(s: &str) -> (r: Vec<char>)
    ensures
        r@ == s@,
{
    let mut out: Vec<char> = Vec::new();
    for c in it: s.chars()
        invariant
            out@ == it.seq().take(it.index() as int),
    {
        out.push(c);
    }
    out
}

/// Whether `p` occurs in `s` starting at `at`.
fn occurs_at(s: &Vec<char>, p: &Vec<char>, at: usize) -> (r: bool)
    requires
        at + p@.len() <= s@.len(),
    ensures
        r == (s@.subrange(at as int, at + p@.len()) == p@),
{
    let n = p.len();
    for k in 0..n
        invariant
            n == p@.len(),
            at + n <= s.len(),
            forall|j: int| 0 <= j < k ==> s@[at + j] == p@[j],
    {
        if s[at + k] != p[k] {
            assert(s@.subrange(at as int, at + p@.len())[k as int] != p@[k as int]);
            return false;
        }
    }
    assert(s@.subrange(at as int, at + p@.len()) =~= p@);
    true
}

/// Whether `p` occurs in `s`.
pub fn contains_str(s: &str, p: &str) -> (r: bool)
    ensures
        r == contains_text(s@, p@),
{
    let sv = chars_of(s);
    let pv = chars_of(p);
    if pv.len() > sv.len() {
        return false;
    }
    if pv.len() == 0 {
        assert(s@.subrange(0, 0 + p@.len() as int) =~= p@);
        return true;
    }
    let last = sv.len() - pv.len();
    let mut at: usize = 0;
    while at <= last
        invariant
            sv@ == s@,
            pv@ == p@,
            pv@.len() > 0,
            last == sv.len() - pv.len(),
            at <= last + 1,
            forall|i: int| 0 <= i < at ==> #[trigger] s@.subrange(i, i + p@.len()) != p@,
        decreases last + 1 - at,
    {
        if occurs_at(&sv, &pv, at) {
            return true;
        }
        at += 1;
    }
    false
}

/// Whether `s` begins with `p`.
pub fn starts_with_str(s: &str, p: &str) -> (r: bool)
    ensures
        r == p@.is_prefix_of(s@),
{
    let sv = chars_of(s);
    let pv = chars_of(p);
    if pv.len() > sv.len() {
        return false;
    }
    occurs_at(&sv, &pv, 0)
}

/// The views of an optional string.
pub open spec fn option_text(o: Option<String>) -> Option<Seq<char>> {
    match o {
        Some(s) => Some(s@),
        None => None,
    }
}

} // verus!
