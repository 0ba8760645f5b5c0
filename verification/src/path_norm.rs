//! Lexical path normalization.
//!
//! A logical path is cleaned without touching the filesystem: both separator
//! characters are treated alike and rewritten as a backslash, empty and `.`
//! segments are dropped, and a `..` segment removes the segment before it
//! where one exists. On a relative path, leading `..` segments are kept; on a
//! rooted path they are dropped. A relative path with nothing left is `.`.

use vstd::prelude::*;
use vstd::string::StrSliceExecFns;
use vstd::string::StringExecFns;

verus! {

/// The character separates path segments.
pub open spec fn is_sep(c: char) -> bool {
    c == '\\' || c == '/'
}

/// The one-character segment `.`.
pub open spec fn seg_dot() -> Seq<char> {
    seq!['.']
}

/// The two-character segment `..`.
pub open spec fn seg_dotdot() -> Seq<char> {
    seq!['.', '.']
}

/// The path begins with a separator.
pub open spec fn spec_rooted(s: Seq<char>) -> bool {
    s.len() > 0 && is_sep(s[0])
}

/// Effect of one segment on the stack of kept segments.
pub open spec fn apply_seg(stack: Seq<Seq<char>>, seg: Seq<char>, rooted: bool) -> Seq<Seq<char>> {
    if seg.len() == 0 || seg == seg_dot() {
        stack
    } else if seg == seg_dotdot() {
        if stack.len() > 0 && stack.last() != seg_dotdot() {
            stack.drop_last()
        } else if rooted {
            stack
        } else {
            stack.push(seg)
        }
    } else {
        stack.push(seg)
    }
}

/// Stack of kept segments after reading the rest of the path from position
/// `i`, with `stack` the segments kept so far and `cur` the partial segment
/// read before `i`.
pub open spec fn stack_after(
    s: Seq<char>,
    i: int,
    stack: Seq<Seq<char>>,
    cur: Seq<char>,
    rooted: bool,
) -> Seq<Seq<char>>
    decreases s.len() - i,
{
    if i < 0 || i >= s.len() {
        apply_seg(stack, cur, rooted)
    } else if is_sep(s[i]) {
        stack_after(s, i + 1, apply_seg(stack, cur, rooted), Seq::empty(), rooted)
    } else {
        stack_after(s, i + 1, stack, cur.push(s[i]), rooted)
    }
}

/// The segments a path keeps after cleaning.
pub open spec fn norm_segments(s: Seq<char>) -> Seq<Seq<char>> {
    stack_after(s, 0, Seq::empty(), Seq::empty(), spec_rooted(s))
}

/// The segments joined by single backslashes.
pub open spec fn join_segs(segs: Seq<Seq<char>>) -> Seq<char>
    decreases segs.len(),
{
    if segs.len() == 0 {
        Seq::empty()
    } else if segs.len() == 1 {
        segs[0]
    } else {
        join_segs(segs.drop_last()) + seq!['\\'] + segs.last()
    }
}

/// The cleaned form of a path.
pub open spec fn normalize_spec(s: Seq<char>) -> Seq<char> {
    let segs = norm_segments(s);
    if spec_rooted(s) {
        seq!['\\'] + join_segs(segs)
    } else if segs.len() == 0 {
        seg_dot()
    } else {
        join_segs(segs)
    }
}

/// Views of a sequence of owned strings.
pub open spec fn views(st: Seq<String>) -> Seq<Seq<char>> {
    st.map_values(|x: String| x@)
}

proof fn lemma_views_push(st: Seq<String>, x: String)
    ensures
        views(st.push(x)) == views(st).push(x@),
{
    assert(views(st.push(x)) =~~= views(st).push(x@));
}

proof fn lemma_views_drop_last(st: Seq<String>)
    requires
        st.len() > 0,
    ensures
        views(st.drop_last()) == views(st).drop_last(),
{
    assert(views(st.drop_last()) =~~= views(st).drop_last());
}

/// Apply one segment of the path being cleaned to the stack of kept
/// segments.
fn apply_seg_exec(stack: &mut Vec<String>, seg: &str, rooted: bool)
    ensures
        views(final(stack)@) == apply_seg(views(old(stack)@), seg@, rooted),
{
    let dot = String::from_str(".");
    let dotdot = String::from_str("..");
    proof {
        reveal_strlit(".");
        reveal_strlit("..");
        assert(dot@ =~= seg_dot());
        assert(dotdot@ =~= seg_dotdot());
    }
    let seg_string = String::from_str(seg);
    if seg.unicode_len() == 0 || seg_string == dot {
        return ;
    }
    if seg_string == dotdot {
        let len = stack.len();
        let mut pop_it = false;
        if len > 0 {
            let last = &stack[len - 1];
            if !(*last == dotdot) {
                pop_it = true;
            }
        }
        if pop_it {
            proof {
                lemma_views_drop_last(stack@);
                assert(stack@.take(stack@.len() - 1) =~= stack@.drop_last());
            }
            stack.pop();
        } else if rooted {
        } else {
            proof {
                lemma_views_push(stack@, dotdot);
            }
            stack.push(dotdot);
        }
    } else {
        proof {
            lemma_views_push(stack@, seg_string);
        }
        stack.push(seg_string);
    }
}

/// Clean a path lexically: collapse `.` and `..` segments and normalize
/// separators, without consulting the filesystem.
pub fn normalize(s: &str) -> (r: String)
    ensures
        r@ == normalize_spec(s@),
{
    let n = s.unicode_len();
    let rooted = if n == 0 {
        false
    } else {
        let c0 = s.get_char(0);
        c0 == '\\' || c0 == '/'
    };
    let mut stack: Vec<String> = Vec::new();
    let mut seg_start: usize = 0;
    let mut i: usize = 0;
    proof {
        assert(views(stack@) =~= Seq::<Seq<char>>::empty());
        assert(s@.subrange(0, 0) =~= Seq::<char>::empty());
    }
    while i < n
        invariant
            n == s@.len(),
            seg_start <= i <= n,
            rooted == spec_rooted(s@),
            stack_after(
                s@,
                i as int,
                views(stack@),
                s@.subrange(seg_start as int, i as int),
                rooted,
            ) == norm_segments(s@),
        decreases n - i,
    {
        let c = s.get_char(i);
        if c == '\\' || c == '/' {
            let seg = s.substring_char(seg_start, i);
            apply_seg_exec(&mut stack, seg, rooted);
            seg_start = i + 1;
            proof {
                assert(s@.subrange(seg_start as int, i + 1) =~= Seq::<char>::empty());
            }
        } else {
            proof {
                assert(s@.subrange(seg_start as int, i + 1) =~= s@.subrange(
                    seg_start as int,
                    i as int,
                ).push(s@[i as int]));
            }
        }
        i = i + 1;
    }
    let seg = s.substring_char(seg_start, n);
    apply_seg_exec(&mut stack, seg, rooted);
    assert(views(stack@) == norm_segments(s@));

    let mut body = String::new();
    let mut k: usize = 0;
    proof {
        reveal_strlit("\\");
    }
    while k < stack.len()
        invariant
            views(stack@) == norm_segments(s@),
            k <= stack@.len(),
            body@ == join_segs(views(stack@).take(k as int)),
        decreases stack@.len() - k,
    {
        if k > 0 {
            body.append("\\");
        }
        body.append(stack[k].as_str());
        proof {
            let segs = views(stack@);
            assert(segs.take(k + 1).drop_last() =~= segs.take(k as int));
            assert(segs.take(k + 1).last() == segs[k as int]);
            if k == 0 {
                assert(body@ =~= join_segs(segs.take(k + 1)));
            } else {
                reveal_strlit("\\");
                assert("\\"@ =~= seq!['\\']);
                assert(body@ =~= join_segs(segs.take(k + 1)));
            }
        }
        k = k + 1;
    }
    proof {
        assert(views(stack@).take(stack@.len() as int) =~= views(stack@));
    }

    if rooted {
        let mut r = String::from_str("\\");
        r.append(body.as_str());
        proof {
            reveal_strlit("\\");
            assert(r@ =~= normalize_spec(s@));
        }
        r
    } else if stack.len() == 0 {
        let r = String::from_str(".");
        proof {
            reveal_strlit(".");
            assert(r@ =~= normalize_spec(s@));
        }
        r
    } else {
        body
    }
}

} // verus!
