//! Text primitives shared by the topic codec and the configuration format:
//! splitting on a separator character and joining the pieces back.

use vstd::prelude::*;
use vstd::utf8::{encode_utf8, encode_utf8_decode_utf8};

verus! {

/// The pieces of `s` between occurrences of `sep`.
///
/// Read from left to right: a separator opens a new, empty piece, and any
/// other character extends the piece that is currently last. An empty text
/// is one empty piece.
pub open spec fn split_on(s: Seq<char>, sep: char) -> Seq<Seq<char>>
    decreases s.len(),
{
    if s.len() == 0 {
        seq![Seq::empty()]
    } else {
        let before = split_on(s.drop_last(), sep);
        if s.last() == sep {
            before.push(Seq::empty())
        } else {
            before.drop_last().push(before.last().push(s.last()))
        }
    }
}

/// The pieces glued together with one `sep` between neighbours.
pub open spec fn join_with(pieces: Seq<Seq<char>>, sep: char) -> Seq<char>
    decreases pieces.len(),
{
    if pieces.len() == 0 {
        Seq::empty()
    } else if pieces.len() == 1 {
        pieces[0]
    } else {
        join_with(pieces.drop_last(), sep) + seq![sep] + pieces.last()
    }
}

/// No character of `s` is `sep`.
pub open spec fn free_of(s: Seq<char>, sep: char) -> bool {
    forall|i: int| 0 <= i < s.len() ==> s[i] != sep
}

/// The character sequences held by a vector of strings, in order.
pub open spec fn views_of(strings: Seq<String>) -> Seq<Seq<char>> {
    Seq::new(strings.len(), |i: int| strings[i]@)
}

/// Splitting always yields at least one piece.
pub proof fn lemma_split_nonempty(s: Seq<char>, sep: char)
    ensures
        split_on(s, sep).len() >= 1,
    decreases s.len(),
{
    if s.len() > 0 {
        lemma_split_nonempty(s.drop_last(), sep);
    }
}

/// A text without the separator is its own single piece.
pub proof fn lemma_split_without_separator(s: Seq<char>, sep: char)
    requires
        free_of(s, sep),
    ensures
        split_on(s, sep) == seq![s],
    decreases s.len(),
{
    if s.len() == 0 {
        assert(s =~= Seq::empty());
    } else {
        lemma_split_without_separator(s.drop_last(), sep);
        let before = split_on(s.drop_last(), sep);
        assert(before.drop_last().push(before.last().push(s.last())) =~= seq![s]) by {
            assert(s.drop_last().push(s.last()) =~= s);
        }
    }
}

/// Appending a piece that holds no separator extends the last piece.
pub proof fn lemma_split_append_plain(s: Seq<char>, tail: Seq<char>, sep: char)
    requires
        free_of(tail, sep),
    ensures
        split_on(s + tail, sep) == split_on(s, sep).drop_last().push(
            split_on(s, sep).last() + tail,
        ),
    decreases tail.len(),
{
    lemma_split_nonempty(s, sep);
    let pieces = split_on(s, sep);
    if tail.len() == 0 {
        assert(s + tail =~= s);
        assert(pieces.last() + tail =~= pieces.last());
        assert(pieces.drop_last().push(pieces.last()) =~= pieces);
    } else {
        let shorter = tail.drop_last();
        lemma_split_append_plain(s, shorter, sep);
        assert((s + tail).drop_last() =~= s + shorter);
        assert((s + tail).last() == tail.last());
        let before = split_on(s + shorter, sep);
        assert(before.last().push(tail.last()) =~= pieces.last() + tail);
        assert(before.drop_last() =~= pieces.drop_last());
    }
}

/// A separator followed by a piece without separators adds that piece.
pub proof fn lemma_split_append_piece(s: Seq<char>, piece: Seq<char>, sep: char)
    requires
        free_of(piece, sep),
    ensures
        split_on(s + seq![sep] + piece, sep) == split_on(s, sep).push(piece),
{
    let opened = s + seq![sep];
    assert(opened.drop_last() =~= s);
    assert(opened.last() == sep);
    lemma_split_append_plain(opened, piece, sep);
    let pieces = split_on(opened, sep);
    assert(pieces.last() + piece =~= piece);
    assert(pieces.drop_last() =~= split_on(s, sep));
}

/// Joining pieces that hold no separator and splitting again gives the
/// pieces back.
pub proof fn lemma_split_of_join(pieces: Seq<Seq<char>>, sep: char)
    requires
        pieces.len() >= 1,
        forall|i: int| 0 <= i < pieces.len() ==> free_of(#[trigger] pieces[i], sep),
    ensures
        split_on(join_with(pieces, sep), sep) == pieces,
    decreases pieces.len(),
{
    if pieces.len() == 1 {
        lemma_split_without_separator(pieces[0], sep);
        assert(seq![pieces[0]] =~= pieces);
    } else {
        let shorter = pieces.drop_last();
        lemma_split_of_join(shorter, sep);
        lemma_split_append_piece(join_with(shorter, sep), pieces.last(), sep);
        assert(shorter.push(pieces.last()) =~= pieces);
    }
}

/// Splitting loses nothing: the pieces hold no separator, and joined with
/// the separator they give the text back.
pub proof fn lemma_join_of_split(s: Seq<char>, sep: char)
    ensures
        join_with(split_on(s, sep), sep) == s,
        forall|i: int|
            0 <= i < split_on(s, sep).len() ==> free_of(#[trigger] split_on(s, sep)[i], sep),
    decreases s.len(),
{
    lemma_split_nonempty(s, sep);
    if s.len() == 0 {
        assert(s =~= Seq::empty());
    } else {
        let init = s.drop_last();
        lemma_join_of_split(init, sep);
        lemma_split_nonempty(init, sep);
        let before = split_on(init, sep);
        assert(init.push(s.last()) =~= s);
        if s.last() == sep {
            let after = before.push(Seq::empty());
            assert(after.drop_last() =~= before);
            assert(join_with(after, sep) =~= s);
        } else {
            let grown = before.last().push(s.last());
            let after = before.drop_last().push(grown);
            assert(after.drop_last() =~= before.drop_last());
            if before.len() == 1 {
                assert(join_with(before, sep) == before[0]);
                assert(join_with(after, sep) =~= s);
            } else {
                assert(join_with(before, sep) == join_with(before.drop_last(), sep) + seq![sep]
                    + before.last());
                assert(join_with(after, sep) =~= s);
            }
            assert forall|i: int| 0 <= i < after.len() implies free_of(
                #[trigger] after[i],
                sep,
            ) by {
                if i < after.len() - 1 {
                    assert(after[i] == before[i]);
                } else {
                    assert(free_of(before[before.len() - 1], sep));
                }
            }
        }
    }
}

/// Whether `c` occurs in `s`.
pub fn holds(s: &str, c: char) -> (found: bool)
    ensures
        found == !free_of(s@, c),
{
    let mut found = false;
    for x in it: s.chars()
        invariant
            it.seq() == s@,
            found == !free_of(s@.take(it.index() as int), c),
    {
        proof {
            let i = it.index() as int;
            let seen = s@.take(i);
            let next = s@.take(i + 1);
            if found {
                let j = choose|j: int| 0 <= j < seen.len() && seen[j] == c;
                assert(next[j] == c);
            } else if x == c {
                assert(next[i] == c);
            } else {
                assert forall|j: int| 0 <= j < next.len() implies next[j] != c by {
                    if j < i {
                        assert(seen[j] != c);
                    }
                }
            }
        }
        if x == c {
            found = true;
        }
    }
    proof {
        assert(s@.take(s@.len() as int) =~= s@);
    }
    found
}

/// Whether two texts hold the same characters.
pub fn same_text(a: &str, b: &str) -> (same: bool)
    ensures
        same == (a@ == b@),
{
    let left = a.as_bytes();
    let right = b.as_bytes();
    if left.len() != right.len() {
        return false;
    }
    let mut i: usize = 0;
    while i < left.len()
        invariant
            left@ == encode_utf8(a@),
            right@ == encode_utf8(b@),
            left@.len() == right@.len(),
            i <= left@.len(),
            forall|j: int| 0 <= j < i ==> left@[j] == right@[j],
        decreases left@.len() - i,
    {
        if left[i] != right[i] {
            return false;
        }
        i = i + 1;
    }
    proof {
        // Texts with the same bytes are the same texts.
        assert(left@ =~= right@);
        encode_utf8_decode_utf8(a@);
        encode_utf8_decode_utf8(b@);
    }
    true
}

/// Where piece number `k` begins, when `cuts` are the positions of the
/// separators seen so far.
spec fn piece_start(cuts: Seq<usize>, k: int) -> int {
    if k == 0 {
        0
    } else {
        cuts[k - 1] + 1
    }
}

/// Where piece number `k` ends, when `cuts` are the positions of the
/// separators in the first `end` characters.
spec fn piece_end(cuts: Seq<usize>, k: int, end: int) -> int {
    if k < cuts.len() {
        cuts[k] as int
    } else {
        end
    }
}

/// The pieces that the separator positions `cuts` mark out of the first
/// `end` characters of `s`.
spec fn pieces_between(s: Seq<char>, cuts: Seq<usize>, end: int) -> Seq<Seq<char>> {
    Seq::new(
        cuts.len() + 1,
        |k: int| s.subrange(piece_start(cuts, k), piece_end(cuts, k, end)),
    )
}

/// The separator positions are in ascending order and lie before `end`.
spec fn cuts_ordered(cuts: Seq<usize>, end: int) -> bool {
    &&& forall|k: int| 0 <= k < cuts.len() ==> 0 <= #[trigger] cuts[k] < end
    &&& forall|k: int| 0 < k < cuts.len() ==> cuts[k - 1] < #[trigger] cuts[k]
}

/// Splits `s` at every `sep`, in the manner of [`split_on`], unless that
/// gives more than `limit` pieces.
///
/// However long the text is and however many separators it holds, no more
/// than `limit` pieces are ever copied out of it.
pub fn split_limited(s: &str, sep: char, limit: usize) -> (pieces: Option<Vec<String>>)
    ensures
        match pieces {
            Some(pieces) => views_of(pieces@) == split_on(s@, sep) && pieces@.len() <= limit,
            None => split_on(s@, sep).len() > limit,
        },
{
    let n = s.unicode_len();
    let mut cuts: Vec<usize> = Vec::new();
    let mut over = false;
    let mut i: usize = 0;
    proof {
        assert(s@.take(0) =~= Seq::empty());
        assert(pieces_between(s@, cuts@, 0) =~= seq![Seq::<char>::empty()]);
    }
    for c in it: s.chars()
        invariant
            it.seq() == s@,
            n == s@.len(),
            i == it.index(),
            cuts_ordered(cuts@, i as int),
            cuts@.len() <= limit,
            over ==> split_on(s@.take(i as int), sep).len() > limit,
            !over ==> pieces_between(s@, cuts@, i as int) == split_on(s@.take(i as int), sep),
    {
        let ghost seen = s@.take(i as int);
        let ghost before = split_on(seen, sep);
        proof {
            assert(s@.take(i + 1).drop_last() =~= seen);
            assert(s@.take(i + 1).last() == c);
            lemma_split_nonempty(seen, sep);
        }
        if c == sep {
            if !over {
                if cuts.len() < limit {
                    let ghost old_cuts = cuts@;
                    cuts.push(i);
                    proof {
                        let now = pieces_between(s@, cuts@, i + 1);
                        let grown = pieces_between(s@, old_cuts, i as int).push(Seq::empty());
                        assert(now.len() == grown.len());
                        assert forall|k: int| 0 <= k < now.len() implies now[k] == grown[k] by {
                            if k < old_cuts.len() {
                                assert(cuts@[k] == old_cuts[k]);
                            } else if k == old_cuts.len() {
                                assert(cuts@[k] == i);
                            } else {
                                assert(cuts@[k - 1] == i);
                                assert(s@.subrange(i + 1, i + 1) =~= Seq::empty());
                            }
                        }
                        assert(now =~= grown);
                    }
                } else {
                    over = true;
                }
            }
        } else {
            proof {
                if !over {
                    let last = cuts@.len() as int;
                    assert(before[last].push(c) =~= s@.subrange(
                        piece_start(cuts@, last),
                        i + 1,
                    ));
                    assert(pieces_between(s@, cuts@, i + 1) =~= before.drop_last().push(
                        before.last().push(c),
                    ));
                }
            }
        }
        i = i + 1;
    }
    proof {
        assert(s@.take(n as int) =~= s@);
    }
    if over || cuts.len() >= limit {
        return None;
    }
    let mut pieces: Vec<String> = Vec::new();
    let mut k: usize = 0;
    while k <= cuts.len()
        invariant
            n == s@.len(),
            cuts_ordered(cuts@, n as int),
            cuts@.len() < limit,
            k <= cuts@.len() + 1,
            pieces@.len() == k,
            forall|j: int|
                0 <= j < k ==> (#[trigger] pieces@[j])@ == pieces_between(s@, cuts@, n as int)[j],
        decreases cuts@.len() + 1 - k,
    {
        let from = if k == 0 {
            0
        } else {
            cuts[k - 1] + 1
        };
        let to = if k < cuts.len() {
            cuts[k]
        } else {
            n
        };
        let piece = s.substring_char(from, to).to_owned();
        pieces.push(piece);
        k = k + 1;
    }
    proof {
        assert(views_of(pieces@) =~= pieces_between(s@, cuts@, n as int));
    }
    Some(pieces)
}

} // verus!
