//! Borrowed views of data: halving a buffer and splitting text on a
//! separator.
//!
//! The splitter is specified through [`spec_join`]: joining the returned
//! pieces with the separator gives back exactly the input, and no piece
//! contains the separator — which together determine the pieces uniquely.

use vstd::prelude::*;

verus! {

/// The sequence obtained by concatenating `pieces` with `sep` between
/// consecutive pieces.
pub open spec fn spec_join(pieces: Seq<Seq<char>>, sep: char) -> Seq<char>
    decreases pieces.len(),
{
    if pieces.len() == 0 {
        Seq::empty()
    } else if pieces.len() == 1 {
        pieces[0]
    } else {
        pieces[0] + seq![sep] + spec_join(pieces.drop_first(), sep)
    }
}

/// Appending `t` to the last piece appends `t` to the join.
proof fn lemma_join_extend_last(pieces: Seq<Seq<char>>, sep: char, t: Seq<char>)
    requires
        pieces.len() >= 1,
    ensures
        spec_join(pieces.update(pieces.len() - 1, pieces.last() + t), sep) == spec_join(
            pieces,
            sep,
        ) + t,
    decreases pieces.len(),
{
    let updated = pieces.update(pieces.len() - 1, pieces.last() + t);
    if pieces.len() == 1 {
        assert(updated =~= seq![pieces[0] + t]);
    } else {
        assert(updated.drop_first() =~= pieces.drop_first().update(
            pieces.drop_first().len() - 1,
            pieces.drop_first().last() + t,
        ));
        lemma_join_extend_last(pieces.drop_first(), sep, t);
        assert(updated[0] == pieces[0]);
        assert(pieces[0] + seq![sep] + (spec_join(pieces.drop_first(), sep) + t) =~= (pieces[0]
            + seq![sep] + spec_join(pieces.drop_first(), sep)) + t);
    }
}

/// Starting a fresh piece appends the separator and that piece to the join.
proof fn lemma_join_push_piece(pieces: Seq<Seq<char>>, sep: char, w: Seq<char>)
    requires
        pieces.len() >= 1,
    ensures
        spec_join(pieces.push(w), sep) == spec_join(pieces, sep) + seq![sep] + w,
    decreases pieces.len(),
{
    assert(pieces.push(w)[0] == pieces[0]);
    if pieces.len() == 1 {
        assert(pieces.push(w).drop_first() =~= seq![w]);
        assert(spec_join(seq![w], sep) == w);
    } else {
        assert(pieces.push(w).drop_first() =~= pieces.drop_first().push(w));
        lemma_join_push_piece(pieces.drop_first(), sep, w);
        assert((pieces[0] + seq![sep] + spec_join(pieces.drop_first(), sep)) + seq![sep] + w =~= pieces[0]
            + seq![sep] + (spec_join(pieces.drop_first(), sep) + seq![sep] + w));
    }
}

/// The join contract is exact: two piece lists that are free of the
/// separator and join to the same text are the same list.
pub proof fn lemma_join_determines_pieces(a: Seq<Seq<char>>, b: Seq<Seq<char>>, sep: char)
    requires
        a.len() >= 1,
        b.len() >= 1,
        spec_join(a, sep) == spec_join(b, sep),
        forall|i: int, j: int| #![auto] 0 <= i < a.len() && 0 <= j < a[i].len() ==> a[i][j] != sep,
        forall|i: int, j: int| #![auto] 0 <= i < b.len() && 0 <= j < b[i].len() ==> b[i][j] != sep,
    ensures
        a =~~= b,
    decreases a.len(),
{
    let j = spec_join(a, sep);
    if a.len() == 1 && b.len() == 1 {
        assert(a[0] == b[0]);
        assert(a =~~= b);
    } else if a.len() == 1 {
        assert(j == b[0] + seq![sep] + spec_join(b.drop_first(), sep));
        assert(j[b[0].len() as int] == sep);
        assert(j == a[0]);
        assert(a[0][b[0].len() as int] == sep);
        assert(false);
    } else if b.len() == 1 {
        assert(j == a[0] + seq![sep] + spec_join(a.drop_first(), sep));
        assert(j[a[0].len() as int] == sep);
        assert(j == b[0]);
        assert(b[0][a[0].len() as int] == sep);
        assert(false);
    } else {
        assert(j == a[0] + seq![sep] + spec_join(a.drop_first(), sep));
        assert(j == b[0] + seq![sep] + spec_join(b.drop_first(), sep));
        assert(j[a[0].len() as int] == sep);
        assert(j[b[0].len() as int] == sep);
        if a[0].len() < b[0].len() {
            assert(b[0][a[0].len() as int] == sep);
            assert(false);
        }
        if b[0].len() < a[0].len() {
            assert(a[0][b[0].len() as int] == sep);
            assert(false);
        }
        assert forall|k: int| 0 <= k < a[0].len() implies a[0][k] == b[0][k] by {
            assert(j[k] == a[0][k]);
            assert(j[k] == b[0][k]);
        }
        assert(a[0] =~= b[0]);
        assert(j.skip(a[0].len() as int + 1) =~= spec_join(a.drop_first(), sep));
        assert(j.skip(b[0].len() as int + 1) =~= spec_join(b.drop_first(), sep));
        assert forall|p: int, q: int|
            #![auto]
            0 <= p < a.drop_first().len() && 0 <= q < a.drop_first()[p].len() implies a.drop_first()[p][q]
            != sep by {
            assert(a.drop_first()[p] == a[p + 1]);
        }
        assert forall|p: int, q: int|
            #![auto]
            0 <= p < b.drop_first().len() && 0 <= q < b.drop_first()[p].len() implies b.drop_first()[p][q]
            != sep by {
            assert(b.drop_first()[p] == b[p + 1]);
        }
        lemma_join_determines_pieces(a.drop_first(), b.drop_first(), sep);
        assert forall|k: int| 0 <= k < a.len() implies a[k] == b[k] by {
            if k > 0 {
                assert(a.drop_first()[k - 1] == a[k]);
                assert(b.drop_first()[k - 1] == b[k]);
            }
        }
        assert(a =~~= b);
    }
}

/// Splits `s` into the pieces that `sep` separates. The contract pins the
/// result exactly: joining the pieces with `sep` restores `s`, no piece
/// contains `sep`, and there is at least one piece.
pub fn split_words(s: &str, sep: char) -> (r: Vec<Vec<char>>)
    ensures
        r@.len() >= 1,
        spec_join(r@.map_values(|w: Vec<char>| w@), sep) == s@,
        forall|i: int, j: int|
            #![auto]
            0 <= i < r@.len() && 0 <= j < r@[i]@.len() ==> r@[i]@[j] != sep,
{
    let mut pieces: Vec<Vec<char>> = Vec::new();
    let mut cur: Vec<char> = Vec::new();
    for c in it: s.chars()
        invariant
            it.seq() == s@,
            it.index() <= s@.len(),
            spec_join(pieces@.map_values(|w: Vec<char>| w@).push(cur@), sep) == s@.take(
                it.index() as int,
            ),
            forall|i: int, j: int|
                #![auto]
                0 <= i < pieces@.len() && 0 <= j < pieces@[i]@.len() ==> pieces@[i]@[j] != sep,
            forall|j: int| 0 <= j < cur@.len() ==> cur@[j] != sep,
    {
        let ghost index = it.index() as int;
        let ghost joined = pieces@.map_values(|w: Vec<char>| w@).push(cur@);
        proof {
            assert(s@.take(index + 1) =~= s@.take(index).push(s@[index]));
        }
        if c == sep {
            pieces.push(cur);
            cur = Vec::new();
            proof {
                lemma_join_push_piece(joined, sep, Seq::<char>::empty());
                assert(pieces@.map_values(|w: Vec<char>| w@).push(cur@) =~= joined.push(
                    Seq::<char>::empty(),
                ));
                assert(spec_join(joined, sep) + seq![sep] + Seq::<char>::empty() =~= s@.take(
                    index,
                ).push(sep));
            }
        } else {
            let ghost old_cur = cur@;
            cur.push(c);
            proof {
                lemma_join_extend_last(joined, sep, seq![c]);
                assert(joined.last() + seq![c] =~= old_cur.push(c));
                assert(pieces@.map_values(|w: Vec<char>| w@).push(cur@) =~= joined.update(
                    joined.len() - 1,
                    joined.last() + seq![c],
                ));
                assert(spec_join(joined, sep) + seq![c] =~= s@.take(index).push(c));
            }
        }
    }
    let ghost final_pieces = pieces@.map_values(|w: Vec<char>| w@).push(cur@);
    pieces.push(cur);
    proof {
        assert(pieces@.map_values(|w: Vec<char>| w@) =~= final_pieces);
        assert(s@.take(s@.len() as int) =~= s@);
    }
    pieces
}

/// Slice demonstration: a sixty-four byte zero buffer is borrowed and cut
/// in half, giving two views of thirty-two bytes each, and a
/// comma-separated text is split into its words. The halves' lengths are
/// pinned to thirty-two, and the words are pinned by the join contract of
/// [`split_words`].
pub fn slices() -> (r: ((usize, usize), Vec<Vec<char>>))
    ensures
        r.0 == (32usize, 32usize),
        r.1@.len() >= 1,
        spec_join(r.1@.map_values(|w: Vec<char>| w@), ',') == "one,two,three,four"@,
        forall|i: int, j: int|
            #![auto]
            0 <= i < r.1@.len() && 0 <= j < r.1@[i]@.len() ==> r.1@[i]@[j] != ',',
{
    let buffer: Vec<u8> = vec![0u8; 64];
    let whole: &[u8] = buffer.as_slice();
    let (first_half, second_half) = whole.split_at(32);
    let halves = (first_half.len(), second_half.len());

    let words = "one,two,three,four";
    let wordlist = split_words(words, ',');

    (halves, wordlist)
}

} // verus!
