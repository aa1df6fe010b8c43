use vstd::prelude::*;

verus! {

/// `a` extended by the path component `b`: an absolute `b` replaces `a`, and a
/// separator is put between the two unless `a` is empty or already ends in one.
pub open spec fn joined_path(a: Seq<char>, b: Seq<char>) -> Seq<char> {
    if b.len() > 0 && b[0] == '/' {
        b
    } else if a.len() == 0 {
        b
    } else if a.last() == '/' {
        a + b
    } else {
        a + seq!['/'] + b
    }
}

/// Where the last '/'-separated segment of `s` begins.
pub open spec fn segment_start(s: Seq<char>) -> int
    decreases s.len(),
{
    if s.len() == 0 {
        0
    } else if s.last() == '/' {
        s.len() as int
    } else {
        segment_start(s.drop_last())
    }
}

/// The text after the last '/' of `s` (all of `s` when it holds none).
pub open spec fn last_segment(s: Seq<char>) -> Seq<char> {
    s.subrange(segment_start(s), s.len() as int)
}

proof fn lemma_segment_start_prefix(s: Seq<char>, i: int)
    requires
        0 <= i <= s.len(),
        forall|j: int| i <= j < s.len() ==> s[j] != '/',
    ensures
        segment_start(s) == segment_start(s.subrange(0, i)),
    decreases s.len() - i,
{
    if i < s.len() {
        assert(s.last() != '/');
        assert(s.drop_last().subrange(0, i) =~= s.subrange(0, i));
        lemma_segment_start_prefix(s.drop_last(), i);
    } else {
        assert(s.subrange(0, i) =~= s);
    }
}

/// Text of the last '/'-separated segment of `s`.
pub fn last_segment_of(s: &str) -> (r: String)
    ensures
        r@ == last_segment(s@),
{
    let n = s.unicode_len();
    let mut i: usize = n;
    while i > 0 && s.get_char(i - 1) != '/'
        invariant
            n == s@.len(),
            0 <= i <= n,
            forall|j: int| i <= j < n ==> s@[j] != '/',
        decreases i,
    {
        i = i - 1;
    }
    proof {
        lemma_segment_start_prefix(s@, i as int);
        let p = s@.subrange(0, i as int);
        if i > 0 {
            assert(p.last() == '/');
        }
    }
    String::from_str(s.substring_char(i, n))
}

/// Joins the path component `b` onto `a`.
pub fn join_path(a: &str, b: &str) -> (r: String)
    ensures
        r@ == joined_path(a@, b@),
{
    let na = a.unicode_len();
    let nb = b.unicode_len();
    if nb > 0 && b.get_char(0) == '/' {
        String::from_str(b)
    } else if na == 0 {
        String::from_str(b)
    } else if a.get_char(na - 1) == '/' {
        let mut r = String::from_str(a);
        r.append(b);
        r
    } else {
        let mut r = String::from_str(a);
        let sep = "/";
        proof {
            reveal_strlit("/");
        }
        r.append(sep);
        r.append(b);
        r
    }
}

} // verus!
