//! Bytes cut into pieces of one size, of which only the last can be shorter.

use vstd::prelude::*;

verus! {

/// All pieces but the last have `size` bytes, and the last has at least one and at most
/// `size`.
pub open spec fn are_cut(pieces: Seq<Seq<u8>>, size: nat) -> bool {
    &&& forall|i: int| 0 <= i < pieces.len() ==> 0 < (#[trigger] pieces[i]).len() <= size
    &&& forall|i: int| 0 <= i < pieces.len() - 1 ==> (#[trigger] pieces[i]).len() == size
}

/// The number of pieces of `size` bytes that hold `total` bytes: their quotient, rounded
/// up.
pub open spec fn pieces_needed(total: nat, size: nat) -> int {
    (total + size - 1) / size as int
}

/// Bytes that are cut into pieces of one size make as many pieces as their number,
/// divided by the size and rounded up.
pub proof fn law_piece_count(pieces: Seq<Seq<u8>>, size: nat)
    requires
        size > 0,
        are_cut(pieces, size),
    ensures
        pieces.len() == pieces_needed(pieces.flatten().len(), size),
{
    let total = pieces.flatten().len() as int;
    let count = pieces.len() as int;
    let width = size as int;
    if count == 0 {
        vstd::arithmetic::div_mod::lemma_fundamental_div_mod_converse(
            total + width - 1,
            width,
            0,
            width - 1,
        );
    } else {
        lemma_flatten_len(pieces, size);
        let rest = pieces.last().len() as int;
        assert(total + width - 1 == count * width + (rest - 1)) by (nonlinear_arith)
            requires
                total == (count - 1) * width + rest,
        ;
        vstd::arithmetic::div_mod::lemma_fundamental_div_mod_converse(
            total + width - 1,
            width,
            count,
            rest - 1,
        );
    }
}

/// Pieces that are cut hold the full ones and the last.
proof fn lemma_flatten_len(pieces: Seq<Seq<u8>>, size: nat)
    requires
        are_cut(pieces, size),
        pieces.len() > 0,
    ensures
        pieces.flatten().len() == (pieces.len() - 1) * size + pieces.last().len(),
    decreases pieces.len(),
{
    reveal_with_fuel(Seq::flatten, 2);
    if pieces.len() > 1 {
        let rest = pieces.drop_first();
        assert(are_cut(rest, size)) by {
            assert forall|i: int| 0 <= i < rest.len() implies 0 < (#[trigger] rest[i]).len()
                <= size by {
                assert(rest[i] == pieces[i + 1]);
            }
            assert forall|i: int| 0 <= i < rest.len() - 1 implies (#[trigger] rest[i]).len()
                == size by {
                assert(rest[i] == pieces[i + 1]);
            }
        }
        lemma_flatten_len(rest, size);
        let count = pieces.len() as int;
        let width = size as int;
        assert((count - 1) * width == width + (count - 2) * width) by (nonlinear_arith);
        assert(pieces[0].len() == size);
    } else {
        let width = size as int;
        pieces.lemma_flatten_one_element();
        assert(0 * width == 0) by (nonlinear_arith);
    }
}

} // verus!
