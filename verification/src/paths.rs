//! Paths as `/`-separated text: the final component, the containing
//! directory and joining, following the rules of Unix paths.
use vstd::prelude::*;

use crate::text::chars_eq;
use crate::text::chars_of;
use crate::text::concat;
use crate::text::push_char;
use crate::text::string_of;

verus! {

/// Index of the last `/` in `p`, or -1 when there is none.
pub open spec fn last_slash(p: Seq<char>) -> int
    decreases p.len(),
{
    if p.len() == 0 {
        -1
    } else if p.last() == '/' {
        p.len() - 1
    } else {
        last_slash(p.drop_last())
    }
}

pub proof fn lemma_last_slash_bounds(p: Seq<char>)
    ensures
        -1 <= last_slash(p) < p.len(),
        last_slash(p) >= 0 ==> p[last_slash(p)] == '/',
        forall|i: int| last_slash(p) < i < p.len() ==> p[i] != '/',
    decreases p.len(),
{
    if p.len() > 0 && p.last() != '/' {
        lemma_last_slash_bounds(p.drop_last());
        assert forall|i: int| last_slash(p) < i < p.len() implies p[i] != '/' by {
            if i < p.len() - 1 {
                assert(p.drop_last()[i] == p[i]);
            }
        }
    }
}

/// `last_slash` is characterised by a `/` at `k` (or `k == -1`) and no `/` after it.
pub proof fn lemma_last_slash_at(p: Seq<char>, k: int)
    requires
        -1 <= k < p.len(),
        k >= 0 ==> p[k] == '/',
        forall|i: int| k < i < p.len() ==> p[i] != '/',
    ensures
        last_slash(p) == k,
    decreases p.len(),
{
    if p.len() > 0 && k < p.len() - 1 {
        assert forall|i: int| k < i < p.drop_last().len() implies p.drop_last()[i] != '/' by {
            assert(p.drop_last()[i] == p[i]);
        }
        if k >= 0 {
            assert(p.drop_last()[k] == p[k]);
        }
        lemma_last_slash_at(p.drop_last(), k);
    }
}

/// The final component of `p`, as `Path::file_name` gives it on Unix:
/// trailing `/` and `.` components are skipped; there is none when nothing
/// is left or when the final component is `..`.
pub open spec fn spec_file_name(p: Seq<char>) -> Option<Seq<char>>
    decreases p.len(),
{
    if p.len() == 0 {
        None
    } else if p.last() == '/' {
        spec_file_name(p.drop_last())
    } else {
        let k = last_slash(p);
        let seg = p.subrange(k + 1, p.len() as int);
        if seg == seq!['.'] {
            proof {
                lemma_last_slash_bounds(p);
            }
            spec_file_name(p.subrange(0, k + 1))
        } else if seg == seq!['.', '.'] {
            None
        } else {
            Some(seg)
        }
    }
}

/// `p` without its trailing `/` characters.
pub open spec fn strip_slashes(p: Seq<char>) -> Seq<char>
    decreases p.len(),
{
    if p.len() > 0 && p.last() == '/' {
        strip_slashes(p.drop_last())
    } else {
        p
    }
}

/// The directory that holds `p`: trailing `/` are dropped, then the last
/// component with the `/` before it; the root `/` is its own directory's
/// text, and a path of one relative component has the empty parent. A path
/// that is empty or only `/` has no parent. `.` and `..` are taken as
/// ordinary components.
pub open spec fn spec_parent(p: Seq<char>) -> Option<Seq<char>> {
    let q = strip_slashes(p);
    if q.len() == 0 {
        None
    } else {
        let k = last_slash(q);
        if k < 0 {
            Some(Seq::empty())
        } else {
            let head = strip_slashes(q.subrange(0, k + 1));
            if head.len() == 0 {
                Some(seq!['/'])
            } else {
                Some(head)
            }
        }
    }
}

/// `name` adjoined to `base` as `PathBuf::push` does on Unix: an absolute
/// `name` replaces `base`; otherwise a `/` separates them unless `base` is
/// empty or already ends with one.
pub open spec fn spec_join(base: Seq<char>, name: Seq<char>) -> Seq<char> {
    if name.len() > 0 && name[0] == '/' {
        name
    } else if base.len() == 0 || base.last() == '/' {
        base + name
    } else {
        base + seq!['/'] + name
    }
}

proof fn lemma_strip_prefix(p: Seq<char>, e: int)
    requires
        0 <= e <= p.len(),
        forall|i: int| e <= i < p.len() ==> p[i] == '/',
    ensures
        strip_slashes(p) == strip_slashes(p.subrange(0, e)),
    decreases p.len() - e,
{
    if e < p.len() {
        assert(p.drop_last() == p.subrange(0, p.len() - 1));
        assert forall|i: int| e <= i < p.drop_last().len() implies p.drop_last()[i] == '/' by {
            assert(p.drop_last()[i] == p[i]);
        }
        lemma_strip_prefix(p.drop_last(), e);
        assert(p.drop_last().subrange(0, e) == p.subrange(0, e));
    } else {
        assert(p.subrange(0, e) == p);
    }
}

/// The final component of `path` (see `spec_file_name`).
pub fn file_name(path: &str) -> (r: Option<String>)
    ensures
        r matches Some(s) ==> spec_file_name(path@) == Some(s@),
        r is None ==> spec_file_name(path@) is None,
{
    let v = chars_of(path);
    let mut end: usize = v.len();
    assert(v@.subrange(0, end as int) == v@);
    loop
        invariant
            v@ == path@,
            end <= v@.len(),
            spec_file_name(path@) == spec_file_name(v@.subrange(0, end as int)),
        decreases end,
    {
        let ghost q = v@.subrange(0, end as int);
        if end == 0 {
            return None;
        }
        if v[end - 1] == '/' {
            assert(q.drop_last() == v@.subrange(0, end - 1));
            end = end - 1;
        } else {
            let mut start: usize = end;
            while start > 0 && v[start - 1] != '/'
                invariant
                    start <= end <= v@.len(),
                    forall|i: int| start <= i < end ==> v@[i] != '/',
                decreases start,
            {
                start = start - 1;
            }
            proof {
                lemma_last_slash_at(q, start - 1);
                assert(q.subrange(start as int, end as int) == v@.subrange(start as int, end as int));
            }
            let seg_len: usize = end - start;
            if seg_len == 1 && v[start] == '.' {
                assert(q.subrange(start as int, end as int) == seq!['.']);
                assert(q.subrange(0, start as int) == v@.subrange(0, start as int));
                end = start;
            } else if seg_len == 2 && v[start] == '.' && v[start + 1] == '.' {
                assert(q.subrange(start as int, end as int) == seq!['.', '.']);
                return None;
            } else {
                proof {
                    if q.subrange(start as int, end as int) == seq!['.'] {
                        assert(q.subrange(start as int, end as int)[0] == v@[start as int]);
                    }
                    if q.subrange(start as int, end as int) == seq!['.', '.'] {
                        assert(q.subrange(start as int, end as int)[0] == v@[start as int]);
                        assert(q.subrange(start as int, end as int)[1] == v@[start + 1]);
                    }
                }
                return Some(string_of(&v, start, end));
            }
        }
    }
}

/// The directory that holds `path` (see `spec_parent`).
pub fn parent(path: &str) -> (r: Option<String>)
    ensures
        r matches Some(s) ==> spec_parent(path@) == Some(s@),
        r is None ==> spec_parent(path@) is None,
{
    let v = chars_of(path);
    let mut end: usize = v.len();
    while end > 0 && v[end - 1] == '/'
        invariant
            v@ == path@,
            end <= v@.len(),
            forall|i: int| end <= i < v@.len() ==> v@[i] == '/',
        decreases end,
    {
        end = end - 1;
    }
    proof {
        lemma_strip_prefix(v@, end as int);
        if end > 0 {
            assert(strip_slashes(v@.subrange(0, end as int)) == v@.subrange(0, end as int));
        } else {
            assert(v@.subrange(0, 0) =~= Seq::<char>::empty());
        }
    }
    let ghost q = v@.subrange(0, end as int);
    assert(strip_slashes(v@) == q);
    if end == 0 {
        return None;
    }
    let mut k: usize = end;
    while k > 0 && v[k - 1] != '/'
        invariant
            k <= end <= v@.len(),
            forall|i: int| k <= i < end ==> v@[i] != '/',
        decreases k,
    {
        k = k - 1;
    }
    proof {
        lemma_last_slash_at(q, k - 1);
    }
    if k == 0 {
        return Some(String::new());
    }
    let mut h: usize = k - 1;
    while h > 0 && v[h - 1] == '/'
        invariant
            h < k <= end <= v@.len(),
            v@[k - 1] == '/',
            forall|i: int| h <= i < k ==> v@[i] == '/',
        decreases h,
    {
        h = h - 1;
    }
    proof {
        let pre = q.subrange(0, k as int);
        assert(pre == v@.subrange(0, k as int));
        assert forall|i: int| h <= i < pre.len() implies pre[i] == '/' by {}
        lemma_strip_prefix(pre, h as int);
        if h > 0 {
            assert(strip_slashes(pre.subrange(0, h as int)) == pre.subrange(0, h as int));
        } else {
            assert(pre.subrange(0, 0) =~= Seq::<char>::empty());
        }
        assert(pre.subrange(0, h as int) == v@.subrange(0, h as int));
    }
    if h == 0 {
        let mut root = String::new();
        push_char(&mut root, '/');
        assert(root@ == seq!['/']);
        return Some(root);
    }
    Some(string_of(&v, 0, h))
}

/// `name` adjoined to `base` (see `spec_join`).
pub fn join(base: &str, name: &str) -> (r: String)
    ensures
        r@ == spec_join(base@, name@),
{
    let b = chars_of(base);
    let n = chars_of(name);
    if n.len() > 0 && n[0] == '/' {
        return string_of(&n, 0, n.len());
    }
    if b.len() == 0 || b[b.len() - 1] == '/' {
        return concat(base, name);
    }
    let mut r = string_of(&b, 0, b.len());
    push_char(&mut r, '/');
    let tail = string_of(&n, 0, n.len());
    let r2 = concat(r.as_str(), tail.as_str());
    assert(b@.subrange(0, b@.len() as int) == b@);
    assert(n@.subrange(0, n@.len() as int) == n@);
    r2
}

/// A name of one component: non-empty, no `/`, and neither `.` nor `..`.
pub open spec fn is_plain_name(name: Seq<char>) -> bool {
    &&& name.len() > 0
    &&& forall|i: int| 0 <= i < name.len() ==> name[i] != '/'
    &&& name != seq!['.']
    &&& name != seq!['.', '.']
}

/// A plain name adjoined to any directory is the final component of the result.
pub proof fn lemma_file_name_of_join(base: Seq<char>, name: Seq<char>)
    requires
        is_plain_name(name),
    ensures
        spec_file_name(spec_join(base, name)) == Some(name),
{
    let p = spec_join(base, name);
    let k = p.len() - name.len() - 1;
    assert(p.subrange(k + 1, p.len() as int) == name);
    assert forall|i: int| k < i < p.len() implies p[i] != '/' by {
        assert(p[i] == name[i - k - 1]);
    }
    if k >= 0 {
        assert(p[k] == '/' || base.len() > 0);
        if name.len() > 0 && name[0] == '/' {
        } else if base.len() == 0 || base.last() == '/' {
            assert(p[k] == base.last());
        } else {
            assert(p[k] == '/');
        }
    }
    lemma_last_slash_at(p, k);
    assert(p.last() == name.last());
}

/// A plain name adjoined to a directory text that has no trailing `/`
/// (other than the root itself) has that directory as its parent.
pub proof fn lemma_parent_of_join(base: Seq<char>, name: Seq<char>)
    requires
        is_plain_name(name),
        base.len() == 0 || base == seq!['/'] || base.last() != '/',
    ensures
        spec_parent(spec_join(base, name)) == Some(base),
{
    let p = spec_join(base, name);
    assert(p.last() == name.last());
    assert(strip_slashes(p) == p);
    let k = p.len() - name.len() - 1;
    assert forall|i: int| k < i < p.len() implies p[i] != '/' by {
        assert(p[i] == name[i - k - 1]);
    }
    if base.len() == 0 {
        assert(p == name);
        lemma_last_slash_at(p, -1);
    } else if base == seq!['/'] {
        assert(p[0] == '/');
        lemma_last_slash_at(p, 0);
        assert(p.subrange(0, 1) == seq!['/']);
        assert(strip_slashes(seq!['/']) == strip_slashes(seq!['/'].drop_last()));
        assert(seq!['/'].drop_last() =~= Seq::<char>::empty());
    } else {
        assert(p[k] == '/');
        lemma_last_slash_at(p, k);
        assert(p.subrange(0, k + 1) == base.push('/'));
        assert(base.push('/').drop_last() == base);
        assert(strip_slashes(base) == base);
    }
}

} // verus!
