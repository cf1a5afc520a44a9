//! The byte image of a run of 32-bit words, as a GPU buffer receives it.
use vstd::prelude::*;
use vstd::endian::Endian;
use vstd::endian::endianness;
use crate::scalar::Scalar;

verus! {

/// Byte `k` (0 to 3, in memory order) of the word `w` under byte order `e`.
pub open spec fn word_byte(w: u32, k: int, e: Endian) -> u8 {
    let place = match e {
        Endian::Little => k,
        Endian::Big => 3 - k,
    };
    if place == 0 {
        (w as int % 256) as u8
    } else if place == 1 {
        (w as int / 0x100 % 256) as u8
    } else if place == 2 {
        (w as int / 0x1_0000 % 256) as u8
    } else {
        (w as int / 0x100_0000 % 256) as u8
    }
}

/// The words laid end to end, four bytes each, under byte order `e`.
pub open spec fn bytes_in_order(words: Seq<u32>, e: Endian) -> Seq<u8> {
    Seq::new(4 * words.len(), |i: int| word_byte(words[i / 4], i % 4, e))
}

/// The words laid end to end in the byte order of the machine that runs the
/// program.
pub open spec fn native_bytes(words: Seq<u32>) -> Seq<u8> {
    bytes_in_order(words, endianness())
}

/// The bit patterns of a run of scalars, one word each, in order.
pub open spec fn scalar_words(values: Seq<Scalar>) -> Seq<u32> {
    Seq::new(values.len(), |i: int| values[i].bits)
}

/// The words of a 4x4 matrix held as four arrays of four: the first array
/// whole, then the second, the third and the fourth.
pub open spec fn matrix_words(m: [[Scalar; 4]; 4]) -> Seq<u32> {
    scalar_words(m[0]@) + scalar_words(m[1]@) + scalar_words(m[2]@) + scalar_words(m[3]@)
}

/// Appends the bit patterns of `values` to `out`.
pub fn push_scalars<const N: usize>(out: &mut Vec<u32>, values: &[Scalar; N])
    ensures
        final(out)@ == old(out)@ + scalar_words(values@),
{
    let ghost before = out@;
    let mut i: usize = 0;
    while i < N
        invariant
            i <= N,
            values@.len() == N,
            out@ == before + scalar_words(values@.subrange(0, i as int)),
        decreases N - i,
    {
        out.push(values[i].bits);
        i += 1;
        proof {
            assert(out@ =~= before + scalar_words(values@.subrange(0, i as int)));
        }
    }
    proof {
        assert(values@.subrange(0, N as int) =~= values@);
    }
}

/// Appends the words of the matrix `m` to `out`.
pub fn push_matrix(out: &mut Vec<u32>, m: &[[Scalar; 4]; 4])
    ensures
        final(out)@ == old(out)@ + matrix_words(*m),
{
    let ghost before = out@;
    push_scalars(out, &m[0]);
    push_scalars(out, &m[1]);
    push_scalars(out, &m[2]);
    push_scalars(out, &m[3]);
    proof {
        assert(out@ =~= before + matrix_words(*m));
    }
}

/// Calls `bytemuck::cast_slice` from `u32` to `u8` and copies the bytes out.
///
/// Trusted: the cast views the memory of the words as bytes, so every word
/// yields its four bytes in the machine's own byte order, in place. The cast
/// cannot fail in this direction, since a byte has no alignment and any
/// number of bytes is whole.
#[verifier::external_body]
pub(crate) fn cast_words(words: &Vec<u32>) -> (bytes: Vec<u8>)
    ensures
        bytes@ == native_bytes(words@),
{
    bytemuck::cast_slice::<u32, u8>(words.as_slice()).to_vec()
}

/// A word is the sum of its four bytes, each at its weight.
proof fn lemma_word_from_bytes(w: u32)
    ensures
        w == word_byte(w, 0, Endian::Little) + 0x100 * word_byte(w, 1, Endian::Little) + 0x1_0000
            * word_byte(w, 2, Endian::Little) + 0x100_0000 * word_byte(w, 3, Endian::Little),
        forall|k: int|
            0 <= k < 4 ==> word_byte(w, k, Endian::Big) == word_byte(w, 3 - k, Endian::Little),
{
    let x = w as int;
    let q1 = x / 0x100;
    let q2 = x / 0x1_0000;
    let q3 = x / 0x100_0000;
    assert(x == 0x100 * q1 + x % 256);
    assert(q2 == q1 / 0x100);
    assert(q1 == 0x100 * q2 + q1 % 256);
    assert(q3 == q2 / 0x100);
    assert(q2 == 0x100 * q3 + q2 % 256);
    assert(q3 == q3 % 256);
}

/// The four bytes of a word determine it: two words with the same bytes
/// under one byte order are the same word.
proof fn lemma_word_bytes_injective(a: u32, b: u32, e: Endian)
    requires
        forall|k: int| 0 <= k < 4 ==> word_byte(a, k, e) == word_byte(b, k, e),
    ensures
        a == b,
{
    lemma_word_from_bytes(a);
    lemma_word_from_bytes(b);
    assert(word_byte(a, 0, e) == word_byte(b, 0, e));
    assert(word_byte(a, 1, e) == word_byte(b, 1, e));
    assert(word_byte(a, 2, e) == word_byte(b, 2, e));
    assert(word_byte(a, 3, e) == word_byte(b, 3, e));
    assert(word_byte(a, 0, Endian::Little) == word_byte(b, 0, Endian::Little));
    assert(word_byte(a, 1, Endian::Little) == word_byte(b, 1, Endian::Little));
    assert(word_byte(a, 2, Endian::Little) == word_byte(b, 2, Endian::Little));
    assert(word_byte(a, 3, Endian::Little) == word_byte(b, 3, Endian::Little));
}

/// The byte image loses nothing: it has four bytes for every word, and two
/// runs of words with the same image are the same run.
pub proof fn lemma_native_bytes_faithful(a: Seq<u32>, b: Seq<u32>)
    ensures
        native_bytes(a).len() == 4 * a.len(),
        native_bytes(a) == native_bytes(b) ==> a == b,
{
    if native_bytes(a) == native_bytes(b) {
        let e = endianness();
        assert(4 * a.len() == 4 * b.len());
        assert forall|i: int| 0 <= i < a.len() implies a[i] == b[i] by {
            assert forall|k: int| 0 <= k < 4 implies word_byte(a[i], k, e) == word_byte(
                b[i],
                k,
                e,
            ) by {
                let j = 4 * i + k;
                assert(j / 4 == i && j % 4 == k);
                assert(native_bytes(a)[j] == word_byte(a[j / 4], j % 4, e));
                assert(native_bytes(b)[j] == word_byte(b[j / 4], j % 4, e));
            }
            lemma_word_bytes_injective(a[i], b[i], e);
        }
        assert(a =~= b);
    }
}

} // verus!
