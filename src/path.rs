//! Paths held as text, with the Unix meaning of joining and of a file name.
use vstd::prelude::*;

verus! {

/// `rel` appended to `base` as a path: an absolute `rel` replaces `base`,
/// and a separator is put between them unless `base` is empty or already
/// ends with one.
pub open spec fn joined(base: Seq<char>, rel: Seq<char>) -> Seq<char> {
    if rel.len() > 0 && rel[0] == '/' {
        rel
    } else if base.len() > 0 && base.last() != '/' {
        base + seq!['/'] + rel
    } else {
        base + rel
    }
}

/// Where the last segment of `p` starts: just after its last separator, or 0.
pub open spec fn segment_start(p: Seq<char>) -> nat
    decreases p.len(),
{
    if p.len() == 0 {
        0
    } else if p.last() == '/' {
        p.len()
    } else {
        segment_start(p.drop_last())
    }
}

/// The last component of `p`: trailing separators and `.` components are
/// skipped; there is none when nothing is left or the component is `..`.
pub open spec fn file_name_of(p: Seq<char>) -> Option<Seq<char>>
    decreases p.len(),
{
    if p.len() == 0 {
        None
    } else if p.last() == '/' {
        file_name_of(p.drop_last())
    } else {
        let k = segment_start(p);
        let seg = p.subrange(k as int, p.len() as int);
        if seg == seq!['.'] {
            proof {
                lemma_segment_start_bound(p);
            }
            file_name_of(p.subrange(0, k as int))
        } else if seg == seq!['.', '.'] {
            None
        } else {
            Some(seg)
        }
    }
}

/// The last segment starts within the path, and before its end when the
/// path does not end with a separator.
pub proof fn lemma_segment_start_bound(p: Seq<char>)
    ensures
        segment_start(p) <= p.len(),
        p.len() > 0 && p.last() != '/' ==> segment_start(p) < p.len(),
    decreases p.len(),
{
    if p.len() > 0 && p.last() != '/' {
        lemma_segment_start_bound(p.drop_last());
    }
}

/// `base` and `rel` joined as paths.
pub fn join(base: &str, rel: &str) -> (r: String)
    ensures
        r@ == joined(base@, rel@),
{
    let n = base.unicode_len();
    let m = rel.unicode_len();
    if m > 0 && rel.get_char(0) == '/' {
        String::from_str(rel)
    } else if n > 0 && base.get_char(n - 1) != '/' {
        proof {
            reveal_strlit("/");
        }
        let mut s = String::from_str(base);
        s.append("/");
        s.append(rel);
        s
    } else {
        let mut s = String::from_str(base);
        s.append(rel);
        s
    }
}

/// The file name of the path `p`, if it has one.
pub fn file_name(p: &str) -> (r: Option<String>)
    ensures
        r matches Some(x) ==> file_name_of(p@) == Some(x@),
        r is None ==> file_name_of(p@) is None,
{
    let n = p.unicode_len();
    let ghost s = p@;
    let mut end: usize = n;
    assert(s.subrange(0, n as int) =~= s);
    loop
        invariant
            n == s.len(),
            s == p@,
            end <= n,
            file_name_of(s) == file_name_of(s.subrange(0, end as int)),
        decreases end,
    {
        let ghost e0 = end;
        while end > 0 && p.get_char(end - 1) == '/'
            invariant
                end <= e0,
                n == s.len(),
                s == p@,
                end <= n,
                file_name_of(s) == file_name_of(s.subrange(0, end as int)),
            decreases end,
        {
            assert(s.subrange(0, end as int).drop_last() =~= s.subrange(0, end - 1));
            end = end - 1;
        }
        if end == 0 {
            return None;
        }
        let ghost q = s.subrange(0, end as int);
        let mut k: usize = end;
        while k > 0 && p.get_char(k - 1) != '/'
            invariant
                n == s.len(),
                s == p@,
                0 < end <= n,
                k <= end,
                q == s.subrange(0, end as int),
                q.last() != '/',
                segment_start(q) == segment_start(s.subrange(0, k as int)),
                k < end ==> s[k as int] != '/',
            decreases k,
        {
            assert(s.subrange(0, k as int).drop_last() =~= s.subrange(0, k - 1));
            k = k - 1;
        }
        assert(segment_start(q) == k);
        let seg = p.substring_char(k, end);
        assert(seg@ =~= q.subrange(k as int, q.len() as int));
        proof {
            reveal_strlit(".");
            reveal_strlit("..");
            lemma_segment_start_bound(q);
        }
        if crate::text::str_eq(seg, ".") {
            assert(seg@ =~= seq!['.']);
            assert(q.subrange(0, k as int) =~= s.subrange(0, k as int));
            assert(k < e0);
            end = k;
        } else if crate::text::str_eq(seg, "..") {
            assert(seg@ =~= seq!['.', '.']);
            return None;
        } else {
            assert("."@ =~= seq!['.']);
            assert(".."@ =~= seq!['.', '.']);
            return Some(String::from_str(seg));
        }
    }
}

} // verus!
