use vstd::prelude::*;

use crate::output::ImageDataErrors;

verus! {

/// Byte `k` of the result comes from `a` in the first half of each 8-byte period
/// and from `b` in the second half.
pub open spec fn interleaved(a: Seq<u8>, b: Seq<u8>) -> Seq<u8> {
    Seq::new(a.len(), |k: int| if k % 8 < 4 { a[k] } else { b[k] })
}

/// The `j`-th 4-byte block of `s`.
pub open spec fn block(s: Seq<u8>, j: int) -> Seq<u8> {
    s.subrange(4 * j, 4 * j + 4)
}

/// Whether two buffers can be interleaved block by block.
pub open spec fn interleavable(a: Seq<u8>, b: Seq<u8>) -> bool {
    a.len() % 4 == 0 && b.len() == a.len()
}

/// Copies the bytes `start..=end` of `vec`.
pub fn set_rgba(vec: &Vec<u8>, start: usize, end: usize) -> (r: Vec<u8>)
    requires
        start <= end,
        end < vec.len(),
    ensures
        r@ == vec@.subrange(start as int, end + 1),
{
    let mut rgba: Vec<u8> = Vec::new();
    let mut i: usize = start;
    while i <= end
        invariant
            start <= i <= end + 1,
            end < vec.len(),
            rgba@ == vec@.subrange(start as int, i as int),
        decreases end + 1 - i,
    {
        rgba.push(vec[i]);
        i += 1;
    }
    rgba
}

/// Builds a buffer of the same length whose 4-byte blocks come alternately from
/// `vec_one` and `vec_two`, starting with `vec_one`. Lengths that differ, or that are
/// not a multiple of 4, are refused before any byte is read.
pub fn alternate_pixels(vec_one: Vec<u8>, vec_two: Vec<u8>) -> (r: Result<Vec<u8>, ImageDataErrors>)
    ensures
        r is Ok <==> interleavable(vec_one@, vec_two@),
        r matches Ok(v) ==> v@ == interleaved(vec_one@, vec_two@),
        r matches Err(e) ==> e == ImageDataErrors::OutOfRange,
{
    if vec_one.len() % 4 != 0 || vec_two.len() != vec_one.len() {
        return Err(ImageDataErrors::OutOfRange);
    }
    let ghost target = interleaved(vec_one@, vec_two@);
    let mut combined_data: Vec<u8> = Vec::with_capacity(vec_one.len());
    let mut i: usize = 0;
    while i < vec_one.len()
        invariant
            i % 4 == 0,
            i <= vec_one.len(),
            interleavable(vec_one@, vec_two@),
            target == interleaved(vec_one@, vec_two@),
            combined_data@ == target.subrange(0, i as int),
        decreases vec_one.len() - i,
    {
        let from_one = i % 8 == 0;
        let rgba = if from_one {
            set_rgba(&vec_one, i, i + 3)
        } else {
            set_rgba(&vec_two, i, i + 3)
        };
        let mut j: usize = 0;
        while j < 4
            invariant
                j <= 4,
                i % 4 == 0,
                i + 4 <= vec_one.len(),
                from_one == (i % 8 == 0),
                interleavable(vec_one@, vec_two@),
                target == interleaved(vec_one@, vec_two@),
                rgba@ == (if from_one { vec_one@ } else { vec_two@ }).subrange(
                    i as int,
                    i + 4,
                ),
                combined_data@ == target.subrange(0, i + j),
            decreases 4 - j,
        {
            proof {
                let k = i + j;
                assert(k % 8 < 4 <==> from_one);
            }
            combined_data.push(rgba[j]);
            assert(combined_data@ =~= target.subrange(0, i + j + 1));
            j += 1;
        }
        i += 4;
    }
    assert(combined_data@ =~= target);
    Ok(combined_data)
}

/// Block by block, the result takes the even-numbered 4-byte blocks from `a` and the
/// odd-numbered ones from `b`: bytes 0..4 of every 8-byte period come from `a`, bytes
/// 4..8 from `b`.
pub proof fn lemma_interleave_blocks(a: Seq<u8>, b: Seq<u8>)
    requires
        interleavable(a, b),
    ensures
        forall|j: int|
            0 <= j < a.len() / 4 ==> #[trigger] block(interleaved(a, b), j) == (if j % 2 == 0 {
                block(a, j)
            } else {
                block(b, j)
            }),
{
    assert forall|j: int| 0 <= j < a.len() / 4 implies #[trigger] block(interleaved(a, b), j) == (
    if j % 2 == 0 {
        block(a, j)
    } else {
        block(b, j)
    }) by {
        let src = if j % 2 == 0 {
            a
        } else {
            b
        };
        assert forall|t: int| 0 <= t < 4 implies #[trigger] block(interleaved(a, b), j)[t]
            == block(src, j)[t] by {
            assert(((4 * j + t) % 8 < 4) == (j % 2 == 0)) by (nonlinear_arith)
                requires
                    0 <= t < 4,
                    0 <= j,
            ;
            assert(4 * j + 4 <= a.len()) by (nonlinear_arith)
                requires
                    0 <= j < a.len() / 4,
                    a.len() % 4 == 0,
            ;
        }
        assert(4 * j + 4 <= a.len()) by (nonlinear_arith)
            requires
                0 <= j < a.len() / 4,
                a.len() % 4 == 0,
        ;
        assert(block(interleaved(a, b), j) =~= block(src, j));
    }
}

/// Swapping the two inputs changes the result whenever the inputs differ.
pub proof fn lemma_interleave_not_commutative(a: Seq<u8>, b: Seq<u8>)
    requires
        a.len() == b.len(),
        a != b,
    ensures
        interleaved(a, b) != interleaved(b, a),
{
    if forall|k: int| 0 <= k < a.len() ==> a[k] == b[k] {
        assert(a =~= b);
    }
    let k = choose|k: int| 0 <= k < a.len() && a[k] != b[k];
    assert(interleaved(a, b)[k] != interleaved(b, a)[k]);
}

} // verus!
