//! Comma-separated lists, as conditional headers carry them: a list is cut
//! at its commas, and each member is freed of the whitespace around it.

use crate::text::chars_of;
use vstd::prelude::*;
use vstd::string::StrSliceExecFns;

verus! {

/// The characters with the Unicode property White_Space.
pub open spec fn spec_is_whitespace(c: char) -> bool {
    let u = c as u32;
    ||| 0x09 <= u <= 0x0d
    ||| u == 0x20
    ||| u == 0x85
    ||| u == 0xa0
    ||| u == 0x1680
    ||| 0x2000 <= u <= 0x200a
    ||| u == 0x2028
    ||| u == 0x2029
    ||| u == 0x202f
    ||| u == 0x205f
    ||| u == 0x3000
}

/// Whether `c` has the Unicode property White_Space.
pub fn is_whitespace(c: char) -> (r: bool)
    ensures
        r == spec_is_whitespace(c),
{
    let u = c as u32;
    (0x09 <= u && u <= 0x0d) || u == 0x20 || u == 0x85 || u == 0xa0 || u == 0x1680 || (0x2000 <= u
        && u <= 0x200a) || u == 0x2028 || u == 0x2029 || u == 0x202f || u == 0x205f || u == 0x3000
}

/// `s` without the whitespace at its start.
pub open spec fn spec_trim_start(s: Seq<char>) -> Seq<char>
    decreases s.len(),
{
    if s.len() > 0 && spec_is_whitespace(s[0]) {
        spec_trim_start(s.skip(1))
    } else {
        s
    }
}

/// `s` without the whitespace at its end.
pub open spec fn spec_trim_end(s: Seq<char>) -> Seq<char>
    decreases s.len(),
{
    if s.len() > 0 && spec_is_whitespace(s.last()) {
        spec_trim_end(s.drop_last())
    } else {
        s
    }
}

/// `s` without the whitespace around it.
pub open spec fn spec_trim(s: Seq<char>) -> Seq<char> {
    spec_trim_end(spec_trim_start(s))
}

/// The pieces of `s` between its commas: one more piece than there are commas,
/// each free of commas, in the order in which they stand.
pub open spec fn spec_split(s: Seq<char>) -> Seq<Seq<char>>
    decreases s.len(),
{
    if s.len() == 0 {
        seq![Seq::<char>::empty()]
    } else {
        let before = spec_split(s.drop_last());
        if s.last() == ',' {
            before.push(Seq::<char>::empty())
        } else {
            before.drop_last().push(before.last().push(s.last()))
        }
    }
}

/// The members of a comma-separated list, each without the whitespace around it.
pub open spec fn spec_split_list(value: Seq<char>) -> Seq<Seq<char>> {
    spec_trim_each(spec_split(value))
}

/// Each piece without the whitespace around it.
pub open spec fn spec_trim_each(pieces: Seq<Seq<char>>) -> Seq<Seq<char>> {
    pieces.map_values(|piece: Seq<char>| spec_trim(piece))
}

/// The texts that a sequence of string slices holds.
pub open spec fn texts(items: Seq<&str>) -> Seq<Seq<char>> {
    items.map_values(|item: &str| item@)
}

/// The bounds of `chars[lo..hi]` without the whitespace around it.
fn trim_bounds(chars: &Vec<char>, lo: usize, hi: usize) -> (r: (usize, usize))
    requires
        lo <= hi <= chars.len(),
    ensures
        lo <= r.0 <= r.1 <= hi,
        chars@.subrange(r.0 as int, r.1 as int) == spec_trim(chars@.subrange(lo as int, hi as int)),
{
    let mut a = lo;
    while a < hi && is_whitespace(chars[a])
        invariant
            lo <= a <= hi <= chars.len(),
            spec_trim_start(chars@.subrange(lo as int, hi as int)) == spec_trim_start(
                chars@.subrange(a as int, hi as int),
            ),
        decreases hi - a,
    {
        assert(chars@.subrange(a as int, hi as int).skip(1) == chars@.subrange(
            a as int + 1,
            hi as int,
        ));
        a += 1;
    }
    let mut b = hi;
    while a < b && is_whitespace(chars[b - 1])
        invariant
            lo <= a <= b <= hi <= chars.len(),
            spec_trim(chars@.subrange(lo as int, hi as int)) == spec_trim_end(
                chars@.subrange(a as int, b as int),
            ),
        decreases b - a,
    {
        assert(chars@.subrange(a as int, b as int).drop_last() == chars@.subrange(
            a as int,
            b as int - 1,
        ));
        b -= 1;
    }
    (a, b)
}

/// The members of the comma-separated list `value`, each without the
/// whitespace around it.
pub fn split_list(value: &str) -> (r: Vec<&str>)
    ensures
        texts(r@) == spec_split_list(value@),
{
    let chars = chars_of(value);
    let n = chars.len();
    let mut out: Vec<&str> = Vec::new();
    let mut start: usize = 0;
    let mut i: usize = 0;
    while i < n
        invariant
            start <= i <= n,
            n == chars.len(),
            chars@ == value@,
            spec_split(value@.take(i as int)).len() == out.len() + 1,
            spec_split(value@.take(i as int)).last() == value@.subrange(start as int, i as int),
            texts(out@) == spec_trim_each(spec_split(value@.take(i as int)).drop_last()),
        decreases n - i,
    {
        let ghost before = spec_split(value@.take(i as int));
        let ghost done = out@;
        assert(value@.take(i + 1).drop_last() == value@.take(i as int));
        if chars[i] == ',' {
            let (a, b) = trim_bounds(&chars, start, i);
            let piece = value.substring_char(a, b);
            out.push(piece);
            start = i + 1;
            assert(spec_split(value@.take(i + 1)) == before.push(Seq::<char>::empty()));
            assert(before.push(Seq::<char>::empty()).drop_last() == before);
            assert(before == before.drop_last().push(before.last()));
            assert(value@.subrange(start as int, i + 1) == Seq::<char>::empty());
            assert(texts(out@) =~= spec_trim_each(before)) by {
                assert forall|k: int| 0 <= k < out.len() implies texts(out@)[k] == spec_trim_each(
                    before,
                )[k] by {
                    if k < done.len() {
                        assert(texts(done)[k] == spec_trim_each(before.drop_last())[k]);
                    }
                }
            }
        } else {
            assert(value@.subrange(start as int, i + 1) == value@.subrange(
                start as int,
                i as int,
            ).push(value@[i as int]));
            assert(before.drop_last().push(before.last().push(value@[i as int])).drop_last()
                == before.drop_last());
        }
        i += 1;
    }
    let ghost done = out@;
    let (a, b) = trim_bounds(&chars, start, n);
    let piece = value.substring_char(a, b);
    out.push(piece);
    proof {
        assert(value@.take(n as int) == value@);
        let all = spec_split(value@);
        assert(texts(out@) =~= spec_trim_each(all)) by {
            assert forall|k: int| 0 <= k < out.len() implies texts(out@)[k] == spec_trim_each(
                all,
            )[k] by {
                if k < done.len() {
                    assert(texts(done)[k] == spec_trim_each(all.drop_last())[k]);
                }
            }
        }
    }
    out
}

/// No piece holds a comma.
pub open spec fn spec_comma_free(pieces: Seq<Seq<char>>) -> bool {
    forall|i: int| 0 <= i < pieces.len() ==> !(#[trigger] pieces[i]).contains(',')
}

/// The pieces with a comma between each two neighbours.
pub open spec fn spec_join(pieces: Seq<Seq<char>>) -> Seq<char>
    decreases pieces.len(),
{
    if pieces.len() == 0 {
        Seq::<char>::empty()
    } else if pieces.len() == 1 {
        pieces[0]
    } else {
        spec_join(pieces.drop_last()) + seq![','] + pieces.last()
    }
}

/// The pieces of a text hold no comma, and joined with commas they give
/// the text back.
pub proof fn split_joins_back(s: Seq<char>)
    ensures
        spec_split(s).len() >= 1,
        spec_comma_free(spec_split(s)),
        spec_join(spec_split(s)) == s,
    decreases s.len(),
{
    if s.len() != 0 {
        let t = s.drop_last();
        let c = s.last();
        let before = spec_split(t);
        split_joins_back(t);
        assert(s == t.push(c));
        if c == ',' {
            let pieces = before.push(Seq::<char>::empty());
            assert(pieces.drop_last() == before);
            assert(spec_join(pieces) == s);
        } else {
            let grown = before.last().push(c);
            let pieces = before.drop_last().push(grown);
            assert(pieces.drop_last() == before.drop_last());
            assert(!grown.contains(',')) by {
                if grown.contains(',') {
                    let k = choose|k: int| 0 <= k < grown.len() && grown[k] == ',';
                    assert(before.last()[k] == ',');
                }
            }
            if before.len() == 1 {
                assert(spec_join(pieces) == s);
            } else {
                assert(spec_join(pieces) == spec_join(before).push(c));
            }
        }
    }
}

/// A text followed by a text without commas has the pieces of the first
/// text, with the second text at the end of the last piece.
pub proof fn split_of_extended(a: Seq<char>, b: Seq<char>)
    requires
        !b.contains(','),
    ensures
        spec_split(a).len() >= 1,
        spec_split(a + b) == spec_split(a).drop_last().push(spec_split(a).last() + b),
    decreases b.len(),
{
    split_joins_back(a);
    let pieces = spec_split(a);
    if b.len() == 0 {
        assert(a + b == a);
        assert(pieces.last() + b == pieces.last());
        assert(pieces.drop_last().push(pieces.last()) == pieces);
    } else {
        let shorter = b.drop_last();
        assert(!shorter.contains(',')) by {
            if shorter.contains(',') {
                let k = choose|k: int| 0 <= k < shorter.len() && shorter[k] == ',';
                assert(b[k] == ',');
            }
        }
        split_of_extended(a, shorter);
        assert((a + b).drop_last() == a + shorter);
        assert((a + b).last() == b.last());
        assert(b.last() != ',') by {
            assert(b[b.len() - 1] == b.last());
        }
        let before = spec_split(a + shorter);
        assert(before.drop_last() == pieces.drop_last());
        assert(before.last().push(b.last()) == pieces.last() + b);
    }
}

/// Pieces without commas are the pieces of the text that joins them:
/// `spec_split` is the one way to cut a text at its commas.
pub proof fn join_splits_back(pieces: Seq<Seq<char>>)
    requires
        pieces.len() >= 1,
        spec_comma_free(pieces),
    ensures
        spec_split(spec_join(pieces)) == pieces,
    decreases pieces.len(),
{
    let none = Seq::<char>::empty();
    if pieces.len() == 1 {
        split_of_extended(none, pieces[0]);
        assert(none + pieces[0] == pieces[0]);
        assert(spec_split(none) == seq![none]);
        assert(seq![none].drop_last().push(none + pieces[0]) == pieces);
    } else {
        let earlier = pieces.drop_last();
        join_splits_back(earlier);
        let joined = spec_join(earlier);
        let opened = joined + seq![','];
        assert(opened.drop_last() == joined);
        assert(spec_split(opened) == earlier.push(none));
        split_of_extended(opened, pieces.last());
        assert(earlier.push(none).drop_last() == earlier);
        assert(none + pieces.last() == pieces.last());
        assert(earlier.push(pieces.last()) == pieces);
    }
}

/// What `spec_trim_start` leaves is the end of the text, begins with no
/// whitespace, and follows nothing but whitespace.
pub proof fn trim_start_cuts_whitespace(s: Seq<char>)
    ensures
        spec_trim_start(s).len() <= s.len(),
        spec_trim_start(s) == s.skip(s.len() - spec_trim_start(s).len()),
        spec_trim_start(s).len() > 0 ==> !spec_is_whitespace(spec_trim_start(s)[0]),
        forall|k: int|
            0 <= k < s.len() - spec_trim_start(s).len() ==> spec_is_whitespace(#[trigger] s[k]),
    decreases s.len(),
{
    if s.len() > 0 && spec_is_whitespace(s[0]) {
        let rest = s.skip(1);
        trim_start_cuts_whitespace(rest);
        let cut = s.len() - spec_trim_start(s).len();
        assert(rest.skip(rest.len() - spec_trim_start(rest).len()) == s.skip(cut));
        assert forall|k: int| 0 <= k < cut implies spec_is_whitespace(#[trigger] s[k]) by {
            if k > 0 {
                assert(s[k] == rest[k - 1]);
            }
        }
    } else {
        assert(s.skip(0) == s);
    }
}

/// What `spec_trim_end` leaves is the beginning of the text, ends with no
/// whitespace, and is followed by nothing but whitespace.
pub proof fn trim_end_cuts_whitespace(s: Seq<char>)
    ensures
        spec_trim_end(s).len() <= s.len(),
        spec_trim_end(s) == s.take(spec_trim_end(s).len() as int),
        spec_trim_end(s).len() > 0 ==> !spec_is_whitespace(spec_trim_end(s).last()),
        forall|k: int| spec_trim_end(s).len() <= k < s.len() ==> spec_is_whitespace(#[trigger] s[k]),
    decreases s.len(),
{
    if s.len() > 0 && spec_is_whitespace(s.last()) {
        let rest = s.drop_last();
        trim_end_cuts_whitespace(rest);
        let kept = spec_trim_end(s).len() as int;
        assert(rest.take(kept) == s.take(kept));
        assert forall|k: int| kept <= k < s.len() implies spec_is_whitespace(#[trigger] s[k]) by {
            if k < s.len() - 1 {
                assert(s[k] == rest[k]);
            }
        }
    } else {
        assert(s.take(s.len() as int) == s);
    }
}

/// `spec_trim` cuts whitespace and nothing else: what it leaves is a run
/// of the text with only whitespace before it and after it, and it
/// neither begins nor ends with whitespace.
pub proof fn trim_cuts_whitespace(s: Seq<char>)
    ensures
        exists|lo: int, hi: int|
            {
                &&& 0 <= lo <= hi <= s.len()
                &&& spec_trim(s) == #[trigger] s.subrange(lo, hi)
                &&& forall|k: int| 0 <= k < lo ==> spec_is_whitespace(#[trigger] s[k])
                &&& forall|k: int| hi <= k < s.len() ==> spec_is_whitespace(#[trigger] s[k])
                &&& lo < hi ==> !spec_is_whitespace(s[lo]) && !spec_is_whitespace(s[hi - 1])
            },
{
    let started = spec_trim_start(s);
    trim_start_cuts_whitespace(s);
    trim_end_cuts_whitespace(started);
    let lo = s.len() - started.len();
    let hi = lo + spec_trim_end(started).len();
    assert(spec_trim(s) == s.subrange(lo, hi));
    assert forall|k: int| hi <= k < s.len() implies spec_is_whitespace(#[trigger] s[k]) by {
        assert(s[k] == started[k - lo]);
    }
    if lo < hi {
        assert(started[0] == s[lo]);
        assert(spec_trim_end(started).last() == s[hi - 1]);
    }
}

} // verus!
