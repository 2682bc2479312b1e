//! Paths as the prompts read them: `/`-separated parts, with empty parts
//! and `.` dropped, and `..` resolved against the parts before it.
use vstd::prelude::*;
use vstd::string::{StrSliceExecFns, StringExecFns};

verus! {

/// The characters of each string.
pub open spec fn views(v: Seq<String>) -> Seq<Seq<char>> {
    v.map_values(|s: String| s@)
}

/// `done` with `part` added, unless it is empty or `.`.
pub open spec fn keep(done: Seq<Seq<char>>, part: Seq<char>) -> Seq<Seq<char>> {
    if part.len() == 0 || part == seq!['.'] {
        done
    } else {
        done.push(part)
    }
}

/// The parts finished so far and the part under way after reading `p`.
pub open spec fn split_state(p: Seq<char>) -> (Seq<Seq<char>>, Seq<char>)
    decreases p.len(),
{
    if p.len() == 0 {
        (Seq::empty(), Seq::empty())
    } else {
        let (done, cur) = split_state(p.drop_last());
        if p.last() == '/' {
            (keep(done, cur), Seq::empty())
        } else {
            (done, cur.push(p.last()))
        }
    }
}

/// The parts of a path.
pub open spec fn parts(p: Seq<char>) -> Seq<Seq<char>> {
    keep(split_state(p).0, split_state(p).1)
}

/// Whether a path starts at the root.
pub open spec fn rooted(p: Seq<char>) -> bool {
    p.len() > 0 && p[0] == '/'
}

/// Whether two paths name the same place without resolving `..`: both
/// rooted or both not, with the same parts.
pub open spec fn same_path(a: Seq<char>, b: Seq<char>) -> bool {
    rooted(a) == rooted(b) && parts(a) == parts(b)
}

/// The parts that remain once each `..` has removed the part before it.
pub open spec fn resolve(ps: Seq<Seq<char>>) -> Seq<Seq<char>>
    decreases ps.len(),
{
    if ps.len() == 0 {
        Seq::empty()
    } else {
        let st = resolve(ps.drop_last());
        if ps.last() == seq!['.', '.'] {
            if st.len() > 0 {
                st.drop_last()
            } else {
                st
            }
        } else {
            st.push(ps.last())
        }
    }
}

/// Whether a string is `.` or `..`, as `dots` says.
fn is_dots(s: &str, dots: usize) -> (r: bool)
    requires
        1 <= dots <= 2,
    ensures
        r == (s@ == Seq::new(dots as nat, |i: int| '.')),
{
    let n = s.unicode_len();
    if n != dots {
        return false;
    }
    let mut i: usize = 0;
    while i < n
        invariant
            n == s@.len(),
            n == dots,
            i <= n,
            forall|j: int| 0 <= j < i ==> s@[j] == '.',
        decreases n - i,
    {
        if s.get_char(i) != '.' {
            return false;
        }
        i = i + 1;
    }
    proof {
        assert(s@ =~= Seq::new(dots as nat, |i: int| '.'));
    }
    true
}

/// Adds `part` to `done` unless it is empty or `.`.
fn keep_part(done: &mut Vec<String>, part: &str)
    ensures
        views(final(done)@) == keep(views(old(done)@), part@),
{
    proof {
        assert(Seq::new(1, |i: int| '.') =~= seq!['.']);
    }
    if part.unicode_len() == 0 || is_dots(part, 1) {
        return;
    }
    done.push(String::from_str(part));
    proof {
        assert(views(done@) =~= views(old(done)@).push(part@));
    }
}

/// The parts of a path.
pub fn split_parts(p: &str) -> (r: Vec<String>)
    ensures
        views(r@) == parts(p@),
{
    let n = p.unicode_len();
    let mut done: Vec<String> = Vec::new();
    let mut start: usize = 0;
    let mut i: usize = 0;
    proof {
        assert(views(done@) =~= Seq::<Seq<char>>::empty());
    }
    while i < n
        invariant
            n == p@.len(),
            start <= i <= n,
            views(done@) == split_state(p@.take(i as int)).0,
            p@.subrange(start as int, i as int) == split_state(p@.take(i as int)).1,
        decreases n - i,
    {
        proof {
            assert(p@.take(i + 1).drop_last() =~= p@.take(i as int));
        }
        if p.get_char(i) == '/' {
            keep_part(&mut done, p.substring_char(start, i));
            start = i + 1;
            proof {
                assert(p@.subrange(start as int, i + 1) =~= Seq::<char>::empty());
            }
        } else {
            proof {
                assert(p@.subrange(start as int, i + 1) =~= p@.subrange(start as int, i as int).push(
                    p@[i as int],
                ));
            }
        }
        i = i + 1;
    }
    proof {
        assert(p@.take(n as int) =~= p@);
    }
    keep_part(&mut done, p.substring_char(start, n));
    done
}

/// The parts that remain once each `..` has removed the part before it.
pub fn resolve_parts(ps: &Vec<String>) -> (r: Vec<String>)
    ensures
        views(r@) == resolve(views(ps@)),
{
    let mut st: Vec<String> = Vec::new();
    let mut i: usize = 0;
    proof {
        assert(Seq::new(2, |i: int| '.') =~= seq!['.', '.']);
        assert(views(st@) =~= Seq::<Seq<char>>::empty());
    }
    while i < ps.len()
        invariant
            i <= ps@.len(),
            views(st@) == resolve(views(ps@.take(i as int))),
        decreases ps@.len() - i,
    {
        proof {
            assert(views(ps@.take(i + 1)).drop_last() =~= views(ps@.take(i as int)));
            assert(views(ps@.take(i + 1)).last() == ps@[i as int]@);
            assert(Seq::new(2, |i: int| '.') =~= seq!['.', '.']);
        }
        if is_dots(ps[i].as_str(), 2) {
            if st.len() > 0 {
                st.pop();
                proof {
                    assert(views(st@) =~= resolve(views(ps@.take(i as int))).drop_last());
                }
            }
        } else {
            st.push(ps[i].clone());
            proof {
                assert(views(st@) =~= resolve(views(ps@.take(i as int))).push(ps@[i as int]@));
            }
        }
        i = i + 1;
    }
    proof {
        assert(ps@.take(i as int) =~= ps@);
    }
    st
}

/// Whether two lists of parts are equal.
fn same_parts(a: &Vec<String>, b: &Vec<String>) -> (r: bool)
    ensures
        r == (views(a@) == views(b@)),
{
    if a.len() != b.len() {
        proof {
            assert(views(a@).len() != views(b@).len());
        }
        return false;
    }
    let mut i: usize = 0;
    while i < a.len()
        invariant
            a@.len() == b@.len(),
            i <= a@.len(),
            forall|j: int| 0 <= j < i ==> a@[j]@ == b@[j]@,
        decreases a@.len() - i,
    {
        if !a[i].eq(&b[i]) {
            proof {
                assert(views(a@)[i as int] != views(b@)[i as int]);
            }
            return false;
        }
        i = i + 1;
    }
    proof {
        assert(views(a@) =~= views(b@));
    }
    true
}

/// Whether a path starts at the root.
fn is_rooted(p: &str) -> (r: bool)
    ensures
        r == rooted(p@),
{
    p.unicode_len() > 0 && p.get_char(0) == '/'
}

/// Whether two paths name the same place without resolving `..`.
pub fn same(a: &str, b: &str) -> (r: bool)
    ensures
        r == same_path(a@, b@),
{
    is_rooted(a) == is_rooted(b) && same_parts(&split_parts(a), &split_parts(b))
}

} // verus!
