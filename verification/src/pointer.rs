//! Rendering of error paths as JSON Pointers (RFC 6901).
//!
//! A path is a sequence of raw (unescaped) segments in root-to-leaf order.
//! Rendering escapes `~` as `~0` and `/` as `~1` inside each segment, joins
//! the escaped segments with `/`, and puts a single `/` in front; the empty
//! path renders as the empty string, not `/`.

use vstd::prelude::*;
use vstd::string::StrSliceExecFns;
use vstd::string::StringExecFns;

verus! {

/// The escaped form of one character of a segment.
pub open spec fn escape_char(c: char) -> Seq<char> {
    if c == '~' {
        seq!['~', '0']
    } else if c == '/' {
        seq!['~', '1']
    } else {
        seq![c]
    }
}

/// The escaped form of one whole segment.
pub open spec fn escape_seg(s: Seq<char>) -> Seq<char>
    decreases s.len(),
{
    if s.len() == 0 {
        Seq::empty()
    } else {
        escape_char(s[0]) + escape_seg(s.subrange(1, s.len() as int))
    }
}

/// The views of a vector of segment strings.
pub open spec fn seg_views(path: Seq<String>) -> Seq<Seq<char>> {
    path.map_values(|s: String| s@)
}

/// The JSON Pointer rendering of a whole path.
pub open spec fn pointer_of(path: Seq<Seq<char>>) -> Seq<char>
    decreases path.len(),
{
    if path.len() == 0 {
        Seq::empty()
    } else {
        seq!['/'] + escape_seg(path[0]) + pointer_of(path.subrange(1, path.len() as int))
    }
}

proof fn lemma_escape_seg_push(s: Seq<char>, c: char)
    ensures
        escape_seg(s.push(c)) == escape_seg(s) + escape_char(c),
    decreases s.len(),
{
    let t = s.push(c);
    assert(t.len() == s.len() + 1);
    if s.len() == 0 {
        assert(t[0] == c);
        assert(t.subrange(1, t.len() as int) =~= Seq::<char>::empty());
        assert(escape_seg(t) == escape_char(c) + escape_seg(Seq::<char>::empty()));
        assert(escape_char(c) + Seq::<char>::empty() =~= escape_char(c));
        assert(escape_seg(s) + escape_char(c) =~= escape_char(c));
        assert(escape_seg(t) =~= escape_seg(s) + escape_char(c));
    } else {
        assert(t[0] == s[0]);
        assert(t.subrange(1, t.len() as int) =~= s.subrange(1, s.len() as int).push(c));
        lemma_escape_seg_push(s.subrange(1, s.len() as int), c);
        assert(escape_seg(t) == escape_char(s[0]) + (escape_seg(
            s.subrange(1, s.len() as int),
        ) + escape_char(c)));
        assert(escape_seg(t) =~= escape_seg(s) + escape_char(c));
    }
}

proof fn lemma_pointer_of_push(path: Seq<Seq<char>>, seg: Seq<char>)
    ensures
        pointer_of(path.push(seg)) == pointer_of(path) + seq!['/'] + escape_seg(seg),
    decreases path.len(),
{
    let t = path.push(seg);
    assert(t.len() == path.len() + 1);
    if path.len() == 0 {
        assert(t[0] == seg);
        assert(t.subrange(1, t.len() as int) =~= Seq::<Seq<char>>::empty());
        assert(pointer_of(t) == seq!['/'] + escape_seg(seg) + pointer_of(
            Seq::<Seq<char>>::empty(),
        ));
        assert(pointer_of(t) =~= pointer_of(path) + seq!['/'] + escape_seg(seg));
    } else {
        assert(t[0] == path[0]);
        assert(t.subrange(1, t.len() as int) =~= path.subrange(
            1,
            path.len() as int,
        ).push(seg));
        lemma_pointer_of_push(path.subrange(1, path.len() as int), seg);
        assert(pointer_of(t) == seq!['/'] + escape_seg(path[0]) + (pointer_of(
            path.subrange(1, path.len() as int),
        ) + seq!['/'] + escape_seg(seg)));
        assert(pointer_of(t) =~= pointer_of(path) + seq!['/'] + escape_seg(seg));
    }
}

/// Undo the segment escaping: `~0` becomes `~`, `~1` becomes `/`.
pub open spec fn unescape_seg(s: Seq<char>) -> Seq<char>
    decreases s.len(),
{
    if s.len() == 0 {
        Seq::empty()
    } else if s[0] == '~' && s.len() >= 2 {
        let c = if s[1] == '0' {
            '~'
        } else {
            '/'
        };
        seq![c] + unescape_seg(s.subrange(2, s.len() as int))
    } else {
        seq![s[0]] + unescape_seg(s.subrange(1, s.len() as int))
    }
}

/// Position of the first `/` in `s`, or `s.len()` if there is none.
pub open spec fn first_slash(s: Seq<char>) -> nat
    decreases s.len(),
{
    if s.len() == 0 {
        0
    } else if s[0] == '/' {
        0
    } else {
        1 + first_slash(s.subrange(1, s.len() as int))
    }
}

/// Split on `/` and unescape each piece.
pub open spec fn split_segments(s: Seq<char>) -> Seq<Seq<char>>
    decreases s.len(),
{
    let i = first_slash(s);
    if i >= s.len() {
        seq![unescape_seg(s)]
    } else {
        seq![unescape_seg(s.subrange(0, i as int))] + split_segments(
            s.subrange(i as int + 1, s.len() as int),
        )
    }
}

/// Recover a path from its JSON Pointer rendering.
pub open spec fn parse_pointer(p: Seq<char>) -> Seq<Seq<char>> {
    if p.len() == 0 {
        Seq::empty()
    } else {
        split_segments(p.subrange(1, p.len() as int))
    }
}

proof fn lemma_escape_no_slash(s: Seq<char>)
    ensures
        forall|i: int| 0 <= i < escape_seg(s).len() ==> escape_seg(s)[i] != '/',
    decreases s.len(),
{
    if s.len() > 0 {
        lemma_escape_no_slash(s.subrange(1, s.len() as int));
        assert forall|i: int| 0 <= i < escape_seg(s).len() implies escape_seg(s)[i]
            != '/' by {
            let head = escape_char(s[0]);
            if i < head.len() {
                assert(escape_seg(s)[i] == head[i]);
            } else {
                assert(escape_seg(s)[i] == escape_seg(s.subrange(1, s.len() as int))[i
                    - head.len()]);
            }
        }
    }
}

proof fn lemma_unescape_escape(s: Seq<char>)
    ensures
        unescape_seg(escape_seg(s)) == s,
    decreases s.len(),
{
    if s.len() == 0 {
        assert(unescape_seg(escape_seg(s)) =~= s);
    } else {
        let rest = s.subrange(1, s.len() as int);
        let e = escape_seg(s);
        lemma_unescape_escape(rest);
        if s[0] == '~' {
            assert(e == seq!['~', '0'] + escape_seg(rest));
            assert(e[0] == '~' && e[1] == '0');
            assert(e.subrange(2, e.len() as int) =~= escape_seg(rest));
            assert(unescape_seg(e) == seq!['~'] + rest);
            assert(unescape_seg(e) =~= s);
        } else if s[0] == '/' {
            assert(e == seq!['~', '1'] + escape_seg(rest));
            assert(e[0] == '~' && e[1] == '1');
            assert(e.subrange(2, e.len() as int) =~= escape_seg(rest));
            assert(unescape_seg(e) == seq!['/'] + rest);
            assert(unescape_seg(e) =~= s);
        } else {
            assert(e == seq![s[0]] + escape_seg(rest));
            assert(e[0] == s[0] && s[0] != '~');
            assert(e.subrange(1, e.len() as int) =~= escape_seg(rest));
            assert(unescape_seg(e) == seq![s[0]] + rest);
            assert(unescape_seg(e) =~= s);
        }
    }
}

proof fn lemma_first_slash_none(s: Seq<char>)
    requires
        forall|j: int| 0 <= j < s.len() ==> s[j] != '/',
    ensures
        first_slash(s) == s.len(),
    decreases s.len(),
{
    if s.len() > 0 {
        lemma_first_slash_none(s.subrange(1, s.len() as int));
    }
}

proof fn lemma_first_slash_concat(a: Seq<char>, b: Seq<char>)
    requires
        forall|j: int| 0 <= j < a.len() ==> a[j] != '/',
        b.len() > 0,
        b[0] == '/',
    ensures
        first_slash(a + b) == a.len(),
    decreases a.len(),
{
    let q = a + b;
    if a.len() == 0 {
        assert(q =~= b);
    } else {
        assert(q[0] == a[0]);
        assert(q.subrange(1, q.len() as int) =~= a.subrange(1, a.len() as int) + b);
        lemma_first_slash_concat(a.subrange(1, a.len() as int), b);
    }
}

proof fn lemma_split_segments_of(path: Seq<Seq<char>>)
    requires
        path.len() >= 1,
    ensures
        split_segments(
            escape_seg(path[0]) + pointer_of(path.subrange(1, path.len() as int)),
        ) == path,
    decreases path.len(),
{
    let rest = path.subrange(1, path.len() as int);
    let e = escape_seg(path[0]);
    let q = e + pointer_of(rest);
    lemma_escape_no_slash(path[0]);
    lemma_unescape_escape(path[0]);
    if rest.len() == 0 {
        assert(q =~= e);
        lemma_first_slash_none(e);
        assert(split_segments(q) == seq![unescape_seg(e)]);
        assert(split_segments(q) =~= path);
    } else {
        let b = pointer_of(rest);
        assert(b == seq!['/'] + escape_seg(rest[0]) + pointer_of(
            rest.subrange(1, rest.len() as int),
        ));
        assert(b[0] == '/');
        lemma_first_slash_concat(e, b);
        let k = e.len();
        assert(first_slash(q) == k);
        assert(k < q.len());
        assert(q.subrange(0, k as int) =~= e);
        assert(q.subrange(k as int + 1, q.len() as int) =~= escape_seg(rest[0])
            + pointer_of(rest.subrange(1, rest.len() as int)));
        lemma_split_segments_of(rest);
        assert(split_segments(q) == seq![unescape_seg(e)] + split_segments(
            q.subrange(k as int + 1, q.len() as int),
        ));
        assert(split_segments(q) =~= path);
    }
}

/// JSON Pointer round-trip: splitting a rendered pointer on its unescaped
/// `/` separators and unescaping each piece recovers the original segments,
/// for every path, including segments that contain `~` or `/`.
pub proof fn lemma_pointer_round_trip(path: Seq<Seq<char>>)
    ensures
        parse_pointer(pointer_of(path)) == path,
{
    if path.len() == 0 {
        assert(parse_pointer(pointer_of(path)) =~= path);
    } else {
        let p = pointer_of(path);
        assert(p == seq!['/'] + escape_seg(path[0]) + pointer_of(
            path.subrange(1, path.len() as int),
        ));
        assert(p.len() > 0);
        assert(p.subrange(1, p.len() as int) =~= escape_seg(path[0]) + pointer_of(
            path.subrange(1, path.len() as int),
        ));
        lemma_split_segments_of(path);
    }
}

/// Escape one path segment: `~` becomes `~0`, `/` becomes `~1`.
pub fn escape_segment(s: &str) -> (r: String)
    ensures
        r@ == escape_seg(s@),
{
    let len: usize = s.unicode_len();
    let mut r = String::new();
    let mut i: usize = 0;
    while i < len
        invariant
            i <= len,
            len == s@.len(),
            r@ == escape_seg(s@.subrange(0, i as int)),
        decreases len - i,
    {
        let c = s.get_char(i);
        proof {
            reveal_strlit("~0");
            reveal_strlit("~1");
            lemma_escape_seg_push(s@.subrange(0, i as int), s@[i as int]);
            assert(s@.subrange(0, i as int + 1) =~= s@.subrange(0, i as int).push(
                s@[i as int],
            ));
        }
        if c == '~' {
            r.append("~0");
        } else if c == '/' {
            r.append("~1");
        } else {
            r.push(c);
        }
        i = i + 1;
    }
    proof {
        assert(s@.subrange(0, len as int) =~= s@);
    }
    r
}

/// Render a path as a JSON Pointer; the empty path renders as the empty
/// string.
pub fn to_json_pointer(path: &Vec<String>) -> (r: String)
    ensures
        r@ == pointer_of(seg_views(path@)),
        path@.len() == 0 ==> r@ == Seq::<char>::empty(),
{
    let mut r = String::new();
    let mut i: usize = 0;
    while i < path.len()
        invariant
            i <= path@.len(),
            r@ == pointer_of(seg_views(path@).subrange(0, i as int)),
        decreases path@.len() - i,
    {
        let esc = escape_segment(path[i].as_str());
        proof {
            reveal_strlit("/");
            lemma_pointer_of_push(
                seg_views(path@).subrange(0, i as int),
                path@[i as int]@,
            );
            assert(seg_views(path@).subrange(0, i as int + 1) =~= seg_views(
                path@,
            ).subrange(0, i as int).push(seg_views(path@)[i as int]));
        }
        r.append("/");
        r.append(esc.as_str());
        i = i + 1;
    }
    proof {
        assert(seg_views(path@).subrange(0, path@.len() as int) =~= seg_views(path@));
    }
    r
}

} // verus!

