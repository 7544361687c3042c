use vstd::prelude::*;
use crate::error::ClideError;
use crate::text::{chars_of, string_from_chars};

verus! {

/// The non-empty segments of a path between its `'/'` separators, where
/// `cur` is the part of the first segment already read.
pub open spec fn segments_from(s: Seq<char>, cur: Seq<char>) -> Seq<Seq<char>>
    decreases s.len(),
{
    if s.len() == 0 {
        if cur.len() == 0 {
            seq![]
        } else {
            seq![cur]
        }
    } else if s[0] == '/' {
        if cur.len() == 0 {
            segments_from(s.drop_first(), seq![])
        } else {
            seq![cur] + segments_from(s.drop_first(), seq![])
        }
    } else {
        segments_from(s.drop_first(), cur.push(s[0]))
    }
}

/// The non-empty segments of a path.
pub open spec fn segments(s: Seq<char>) -> Seq<Seq<char>> {
    segments_from(s, seq![])
}

/// One segment applied to the stack of kept components: `.` is dropped,
/// `..` removes the last kept component if there is one, any other
/// segment is kept.
pub open spec fn apply_segment(stack: Seq<Seq<char>>, seg: Seq<char>) -> Seq<Seq<char>> {
    if seg == seq!['.'] {
        stack
    } else if seg == seq!['.', '.'] {
        if stack.len() > 0 {
            stack.drop_last()
        } else {
            stack
        }
    } else {
        stack.push(seg)
    }
}

/// The components kept after applying each segment in turn.
pub open spec fn kept(segs: Seq<Seq<char>>) -> Seq<Seq<char>>
    decreases segs.len(),
{
    if segs.len() == 0 {
        seq![]
    } else {
        apply_segment(kept(segs.drop_last()), segs.last())
    }
}

/// Components joined with `'/'` between them.
pub open spec fn join_slash(cs: Seq<Seq<char>>) -> Seq<char>
    decreases cs.len(),
{
    if cs.len() == 0 {
        seq![]
    } else if cs.len() == 1 {
        cs[0]
    } else {
        join_slash(cs.drop_last()) + seq!['/'] + cs.last()
    }
}

pub open spec fn is_absolute(s: Seq<char>) -> bool {
    s.len() > 0 && s[0] == '/'
}

/// A path with `.` segments dropped and `..` resolved by removing the
/// component before it, lexically: the filesystem is not consulted and
/// symlinks are not followed. An absolute path stays absolute.
pub open spec fn normalized(s: Seq<char>) -> Seq<char> {
    let body = join_slash(kept(segments(s)));
    if is_absolute(s) {
        seq!['/'] + body
    } else {
        body
    }
}

/// The last component of a normalized path, if it has one.
pub open spec fn file_name_of(s: Seq<char>) -> Option<Seq<char>> {
    let k = kept(segments(s));
    if k.len() == 0 {
        None
    } else {
        Some(k.last())
    }
}

/// The segments of `s`.
fn split_segments(s: &Vec<char>) -> (r: Vec<Vec<char>>)
    ensures
        crate::text::char_views(r@) == segments(s@),
{
    let mut out: Vec<Vec<char>> = Vec::new();
    let mut cur: Vec<char> = Vec::new();
    let mut i: usize = 0;
    assert(crate::text::char_views(out@) =~= Seq::<Seq<char>>::empty());
    assert(s@.skip(0) =~= s@);
    assert(cur@ =~= Seq::<char>::empty());
    while i < s.len()
        invariant
            i <= s.len(),
            crate::text::char_views(out@) + segments_from(s@.skip(i as int), cur@) == segments(s@),
        decreases s.len() - i,
    {
        let c = s[i];
        assert(s@.skip(i as int).drop_first() == s@.skip(i + 1));
        assert(s@.skip(i as int)[0] == c);
        if c == '/' {
            if cur.len() > 0 {
                assert(segments_from(s@.skip(i as int), cur@) == seq![cur@] + segments_from(
                    s@.skip(i + 1),
                    seq![],
                ));
                let ghost rest = segments_from(s@.skip(i + 1), seq![]);
                proof {
                    assert(crate::text::char_views(out@.push(cur)) == crate::text::char_views(
                        out@,
                    ).push(cur@));
                    assert(crate::text::char_views(out@).push(cur@) + rest =~= crate::text::char_views(
                        out@,
                    ) + (seq![cur@] + rest));
                }
                out.push(cur);
                cur = Vec::new();
                assert(cur@ =~= Seq::<char>::empty());
            } else {
                assert(segments_from(s@.skip(i as int), cur@) == segments_from(
                    s@.skip(i + 1),
                    seq![],
                ));
                assert(cur@ =~= Seq::<char>::empty());
            }
        } else {
            assert(segments_from(s@.skip(i as int), cur@) == segments_from(
                s@.skip(i + 1),
                cur@.push(c),
            ));
            cur.push(c);
        }
        i = i + 1;
    }
    assert(s@.skip(i as int).len() == 0);
    if cur.len() > 0 {
        proof {
            assert(crate::text::char_views(out@.push(cur)) == crate::text::char_views(out@).push(
                cur@,
            ));
        }
        out.push(cur);
    }
    out
}

fn is_dot(seg: &Vec<char>) -> (r: bool)
    ensures
        r == (seg@ == seq!['.']),
{
    if seg.len() == 1 && seg[0] == '.' {
        assert(seg@ =~= seq!['.']);
        true
    } else {
        false
    }
}

fn is_dot_dot(seg: &Vec<char>) -> (r: bool)
    ensures
        r == (seg@ == seq!['.', '.']),
{
    if seg.len() == 2 && seg[0] == '.' && seg[1] == '.' {
        assert(seg@ =~= seq!['.', '.']);
        true
    } else {
        false
    }
}

/// The components kept from `segs`.
fn keep_components(segs: Vec<Vec<char>>) -> (r: Vec<Vec<char>>)
    ensures
        crate::text::char_views(r@) == kept(crate::text::char_views(segs@)),
{
    let ghost all = crate::text::char_views(segs@);
    let mut stack: Vec<Vec<char>> = Vec::new();
    let mut i: usize = 0;
    assert(all.take(0) =~= Seq::<Seq<char>>::empty());
    assert(crate::text::char_views(stack@) =~= Seq::<Seq<char>>::empty());
    while i < segs.len()
        invariant
            i <= segs.len(),
            all == crate::text::char_views(segs@),
            crate::text::char_views(stack@) == kept(all.take(i as int)),
        decreases segs.len() - i,
    {
        assert(all.take(i + 1).drop_last() =~= all.take(i as int));
        assert(all.take(i + 1).last() == segs@[i as int]@);
        let seg = &segs[i];
        if is_dot(seg) {
        } else if is_dot_dot(seg) {
            if stack.len() > 0 {
                let _ = stack.pop();
                assert(crate::text::char_views(stack@) =~= kept(all.take(i as int)).drop_last());
            }
        } else {
            stack.push(seg.clone());
            assert(crate::text::char_views(stack@) =~= kept(all.take(i as int)).push(seg@));
        }
        i = i + 1;
    }
    assert(all.take(i as int) =~= all);
    stack
}

/// The characters of `cs` joined with `'/'`, after `prefix`.
fn join_components(prefix: Vec<char>, cs: &Vec<Vec<char>>) -> (r: Vec<char>)
    ensures
        r@ == prefix@ + join_slash(crate::text::char_views(cs@)),
{
    let ghost all = crate::text::char_views(cs@);
    let mut out = prefix;
    let mut i: usize = 0;
    assert(all.take(0) =~= Seq::<Seq<char>>::empty());
    assert(out@ =~= prefix@ + join_slash(all.take(0)));
    while i < cs.len()
        invariant
            i <= cs.len(),
            all == crate::text::char_views(cs@),
            out@ == prefix@ + join_slash(all.take(i as int)),
        decreases cs.len() - i,
    {
        let ghost before = out@;
        assert(all.take(i + 1).drop_last() =~= all.take(i as int));
        if i > 0 {
            out.push('/');
        }
        let c = &cs[i];
        let mut j: usize = 0;
        let ghost mid = out@;
        while j < c.len()
            invariant
                j <= c.len(),
                out@ == mid + c@.take(j as int),
            decreases c.len() - j,
        {
            out.push(c[j]);
            assert(c@.take(j + 1) =~= c@.take(j as int).push(c@[j as int]));
            j = j + 1;
        }
        assert(c@.take(j as int) =~= c@);
        if i == 0 {
            assert(out@ =~= prefix@ + join_slash(all.take(i + 1)));
        } else {
            assert(out@ =~= prefix@ + join_slash(all.take(i + 1)));
        }
        i = i + 1;
    }
    assert(all.take(i as int) =~= all);
    out
}

/// Normalizes a path as `normalized` states.
pub fn normalize(p: &str) -> (r: String)
    ensures
        r@ == normalized(p@),
{
    let chars = chars_of(p);
    let segs = split_segments(&chars);
    let stack = keep_components(segs);
    let prefix: Vec<char> = if chars.len() > 0 && chars[0] == '/' {
        vec!['/']
    } else {
        Vec::new()
    };
    let joined = join_components(prefix, &stack);
    assert(joined@ =~= normalized(p@));
    string_from_chars(joined.as_slice())
}

/// What the explorer knows of one filesystem entry: its normalized path,
/// the name that the tree shows for it, and whether it is a directory.
#[derive(Debug)]
pub struct EntryMeta {
    pub abs_path: String,
    pub file_name: String,
    pub is_dir: bool,
}

impl EntryMeta {
    /// The entry for `p`, whose directory flag was read from the filesystem.
    /// Fails with `NoFileName` when the normalized path has no last
    /// component (`/`, or a relative path that resolves to nothing).
    pub fn new(p: &str, is_dir: bool) -> (r: Result<EntryMeta, ClideError>)
        ensures
            file_name_of(p@) is None <==> r == Err::<EntryMeta, ClideError>(ClideError::NoFileName),
            file_name_of(p@) is Some <==> r is Ok,
            r matches Ok(m) ==> {
                &&& m.abs_path@ == normalized(p@)
                &&& Some(m.file_name@) == file_name_of(p@)
                &&& m.is_dir == is_dir
            },
    {
        let chars = chars_of(p);
        let segs = split_segments(&chars);
        let stack = keep_components(segs);
        if stack.len() == 0 {
            return Err(ClideError::NoFileName);
        }
        let file_name = string_from_chars(stack[stack.len() - 1].as_slice());
        let abs_path = normalize(p);
        Ok(EntryMeta { abs_path, file_name, is_dir })
    }
}

} // verus!
