//! The primitives of the scene and the fixed-size store that holds them.
use vstd::prelude::*;
use crate::scalar::Scalar;
use crate::scalar::ONE_BITS;
use crate::wire::cast_words;
use crate::wire::native_bytes;
use crate::wire::push_scalars;
use crate::wire::scalar_words;

verus! {

/// Number of 32-bit words one primitive takes in the buffer: a stride of 96
/// bytes.
pub const PRIMITIVE_WORDS: usize = 24;

/// Bit pattern of `0.1`, the value every shape parameter starts with.
pub const INITIAL_DATA_BITS: u32 = 0x3dcc_cccd;

/// Bit pattern of `0.002`: what the first shape parameter gains per second
/// under the default animation, and what the fourth is set to.
pub const FAST_GROWTH_BITS: u32 = 0x3b03_126f;

/// Bit pattern of `0.001`: what the second and third shape parameters gain
/// per second under the default animation.
pub const SLOW_GROWTH_BITS: u32 = 0x3a83_126f;

/// Bit pattern of `-0.01`: what the red channel gains per second under the
/// default animation.
pub const FADE_BITS: u32 = 0xbc23_d70a;

/// One primitive of the scene, with the fields the shader reads.
#[derive(Clone, Copy, Debug)]
#[allow(clippy::upper_case_acronyms)]
pub struct SDFPrimitive {
    /// Position in world space.
    pub position: [Scalar; 3],
    /// Rotation, as a quaternion.
    pub rotation: [Scalar; 4],
    /// Shape parameters; what they mean depends on `typus`.
    pub data: [Scalar; 4],
    /// How often the primitive is repeated along each axis.
    pub instances: [u32; 3],
    /// Colour and opacity.
    pub rgba: [Scalar; 4],
    /// The kind of primitive.
    pub typus: u32,
}

impl SDFPrimitive {
    pub open spec fn spec_new() -> SDFPrimitive {
        SDFPrimitive {
            position: [Scalar::from_bits(0), Scalar::from_bits(0), Scalar::from_bits(0)],
            rotation: [
                Scalar::from_bits(0),
                Scalar::from_bits(0),
                Scalar::from_bits(0),
                Scalar::from_bits(ONE_BITS),
            ],
            data: [
                Scalar::from_bits(INITIAL_DATA_BITS),
                Scalar::from_bits(INITIAL_DATA_BITS),
                Scalar::from_bits(INITIAL_DATA_BITS),
                Scalar::from_bits(INITIAL_DATA_BITS),
            ],
            instances: [1u32, 1u32, 1u32],
            rgba: [
                Scalar::from_bits(ONE_BITS),
                Scalar::from_bits(ONE_BITS),
                Scalar::from_bits(ONE_BITS),
                Scalar::from_bits(ONE_BITS),
            ],
            typus: 0,
        }
    }

    /// The primitive every slot of a store starts with: at the origin, not
    /// rotated, every shape parameter `0.1`, one instance along each axis,
    /// opaque white, with type tag zero.
    #[verifier::when_used_as_spec(spec_new)]
    pub fn new() -> (r: SDFPrimitive)
        ensures
            r == SDFPrimitive::spec_new(),
    {
        let o = Scalar::from_bits(0);
        let l = Scalar::from_bits(ONE_BITS);
        let d = Scalar::from_bits(INITIAL_DATA_BITS);
        SDFPrimitive {
            position: [o, o, o],
            rotation: [o, o, o, l],
            data: [d, d, d, d],
            instances: [1u32, 1u32, 1u32],
            rgba: [l, l, l, l],
            typus: 0,
        }
    }

    /// The primitive as the GPU receives it, in groups of four words:
    /// position and a word of padding; rotation; data; instances and a word
    /// of padding; rgba; typus and three words of padding. Padding is zero.
    pub open spec fn words(self) -> Seq<u32> {
        scalar_words(self.position@) + seq![0u32] + scalar_words(self.rotation@) + scalar_words(
            self.data@,
        ) + self.instances@ + seq![0u32] + scalar_words(self.rgba@) + seq![self.typus] + seq![
            0u32,
            0u32,
            0u32,
        ]
    }

    /// Appends the 24 words of the primitive to `out`.
    pub fn push_words(&self, out: &mut Vec<u32>)
        ensures
            final(out)@ == old(out)@ + self.words(),
    {
        let ghost before = out@;
        push_scalars(out, &self.position);
        out.push(0);
        push_scalars(out, &self.rotation);
        push_scalars(out, &self.data);
        out.push(self.instances[0]);
        out.push(self.instances[1]);
        out.push(self.instances[2]);
        out.push(0);
        push_scalars(out, &self.rgba);
        out.push(self.typus);
        out.push(0);
        out.push(0);
        out.push(0);
        proof {
            assert(out@ =~= before + self.words());
        }
    }
}

impl Default for SDFPrimitive {
    /// The primitive with every field zero.
    fn default() -> (r: SDFPrimitive)
        ensures
            r.words() == Seq::new(PRIMITIVE_WORDS as nat, |i: int| 0u32),
    {
        let o = Scalar::from_bits(0);
        let r = SDFPrimitive {
            position: [o, o, o],
            rotation: [o, o, o, o],
            data: [o, o, o, o],
            instances: [0u32, 0u32, 0u32],
            rgba: [o, o, o, o],
            typus: 0,
        };
        proof {
            assert(r.words() =~= Seq::new(PRIMITIVE_WORDS as nat, |i: int| 0u32));
        }
        r
    }
}

/// Every primitive takes the same number of words.
pub proof fn lemma_primitive_words_len(p: SDFPrimitive)
    ensures
        p.words().len() == PRIMITIVE_WORDS,
{
}

/// Where each field lies among the 24 words, and that the padding words at
/// 3, 15, 21, 22 and 23 are zero.
pub proof fn lemma_primitive_layout(p: SDFPrimitive)
    ensures
        p.words().len() == PRIMITIVE_WORDS,
        forall|k: int| 0 <= k < 3 ==> p.words()[k] == p.position[k].bits,
        p.words()[3] == 0,
        forall|k: int| 0 <= k < 4 ==> p.words()[4 + k] == p.rotation[k].bits,
        forall|k: int| 0 <= k < 4 ==> p.words()[8 + k] == p.data[k].bits,
        forall|k: int| 0 <= k < 3 ==> p.words()[12 + k] == p.instances[k],
        p.words()[15] == 0,
        forall|k: int| 0 <= k < 4 ==> p.words()[16 + k] == p.rgba[k].bits,
        p.words()[20] == p.typus,
        p.words()[21] == 0 && p.words()[22] == 0 && p.words()[23] == 0,
{
}

/// Whether `after` is `before` one step of the default animation later,
/// where `advance(value, rate)` gives what `value` becomes at `rate` per
/// second over the step. The first shape parameter advances at `0.002`, the
/// second and third at `0.001`, the fourth is `0.002`, and red advances at
/// `-0.01`. Nothing else changes.
pub open spec fn animated<F: Fn(Scalar, Scalar) -> Scalar>(
    before: SDFPrimitive,
    after: SDFPrimitive,
    advance: F,
) -> bool {
    &&& call_ensures(
        advance,
        (before.data[0], Scalar::from_bits(FAST_GROWTH_BITS)),
        after.data[0],
    )
    &&& call_ensures(
        advance,
        (before.data[1], Scalar::from_bits(SLOW_GROWTH_BITS)),
        after.data[1],
    )
    &&& call_ensures(
        advance,
        (before.data[2], Scalar::from_bits(SLOW_GROWTH_BITS)),
        after.data[2],
    )
    &&& after.data[3] == Scalar::from_bits(FAST_GROWTH_BITS)
    &&& call_ensures(advance, (before.rgba[0], Scalar::from_bits(FADE_BITS)), after.rgba[0])
    &&& after.rgba[1] == before.rgba[1]
    &&& after.rgba[2] == before.rgba[2]
    &&& after.rgba[3] == before.rgba[3]
    &&& after.position == before.position
    &&& after.rotation == before.rotation
    &&& after.instances == before.instances
    &&& after.typus == before.typus
}

/// The default animation, one step of it on every primitive.
pub fn animate<F: Fn(Scalar, Scalar) -> Scalar>(primitives: &mut Vec<SDFPrimitive>, advance: &F)
    requires
        forall|value: Scalar, rate: Scalar| call_requires(*advance, (value, rate)),
    ensures
        final(primitives)@.len() == old(primitives)@.len(),
        forall|i: int|
            0 <= i < old(primitives)@.len() ==> animated(
                old(primitives)@[i],
                #[trigger] final(primitives)@[i],
                *advance,
            ),
{
    let mut i: usize = 0;
    while i < primitives.len()
        invariant
            i <= primitives@.len(),
            primitives@.len() == old(primitives)@.len(),
            forall|value: Scalar, rate: Scalar| call_requires(*advance, (value, rate)),
            forall|j: int|
                0 <= j < i ==> animated(old(primitives)@[j], #[trigger] primitives@[j], *advance),
            forall|j: int| i <= j < primitives@.len() ==> primitives@[j] == old(primitives)@[j],
        decreases primitives@.len() - i,
    {
        let p = primitives[i];
        let d0 = advance(p.data[0], Scalar::from_bits(FAST_GROWTH_BITS));
        let d1 = advance(p.data[1], Scalar::from_bits(SLOW_GROWTH_BITS));
        let d2 = advance(p.data[2], Scalar::from_bits(SLOW_GROWTH_BITS));
        let red = advance(p.rgba[0], Scalar::from_bits(FADE_BITS));
        primitives[i] = SDFPrimitive {
            position: p.position,
            rotation: p.rotation,
            data: [d0, d1, d2, Scalar::from_bits(FAST_GROWTH_BITS)],
            instances: p.instances,
            rgba: [red, p.rgba[1], p.rgba[2], p.rgba[3]],
            typus: p.typus,
        };
        i += 1;
    }
}

/// The words of a run of primitives: those of the first, then those of the
/// second, and so on, with nothing between them.
pub open spec fn collection_words(primitives: Seq<SDFPrimitive>) -> Seq<u32>
    decreases primitives.len(),
{
    if primitives.len() == 0 {
        Seq::empty()
    } else {
        collection_words(primitives.drop_last()) + primitives.last().words()
    }
}

/// The buffer has a fixed stride: word `k` of primitive `i` is word
/// `24 * i + k` of the whole.
pub proof fn lemma_collection_layout(primitives: Seq<SDFPrimitive>)
    ensures
        collection_words(primitives).len() == PRIMITIVE_WORDS * primitives.len(),
        forall|i: int, k: int|
            0 <= i < primitives.len() && 0 <= k < PRIMITIVE_WORDS ==> collection_words(
                primitives,
            )[PRIMITIVE_WORDS * i + k] == #[trigger] primitives[i].words()[k],
    decreases primitives.len(),
{
    if primitives.len() > 0 {
        let front = primitives.drop_last();
        lemma_collection_layout(front);
        lemma_primitive_words_len(primitives.last());
        assert forall|i: int, k: int|
            0 <= i < primitives.len() && 0 <= k < PRIMITIVE_WORDS implies collection_words(
            primitives,
        )[PRIMITIVE_WORDS * i + k] == #[trigger] primitives[i].words()[k] by {
            if i < front.len() {
                assert(front[i] == primitives[i]);
                assert(collection_words(front)[PRIMITIVE_WORDS * i + k] == front[i].words()[k]);
            }
        }
    }
}

/// A store of primitives whose size is fixed when it is made.
pub struct PrimitiveManager {
    primitives: Vec<SDFPrimitive>,
}

impl View for PrimitiveManager {
    type V = Seq<SDFPrimitive>;

    closed spec fn view(&self) -> Seq<SDFPrimitive> {
        self.primitives@
    }
}

impl PrimitiveManager {
    /// A store of `primitive_count` primitives, each as
    /// [`SDFPrimitive::new`] makes it.
    pub fn new(primitive_count: usize) -> (r: PrimitiveManager)
        ensures
            r@ == Seq::new(primitive_count as nat, |i: int| SDFPrimitive::spec_new()),
    {
        let mut primitives: Vec<SDFPrimitive> = Vec::new();
        let mut i: usize = 0;
        while i < primitive_count
            invariant
                i <= primitive_count,
                primitives@ == Seq::new(i as nat, |j: int| SDFPrimitive::spec_new()),
            decreases primitive_count - i,
        {
            primitives.push(SDFPrimitive::new());
            i += 1;
            proof {
                assert(primitives@ =~= Seq::new(i as nat, |j: int| SDFPrimitive::spec_new()));
            }
        }
        PrimitiveManager { primitives }
    }

    /// Number of primitives in the store.
    pub fn len(&self) -> (n: usize)
        ensures
            n == self@.len(),
    {
        self.primitives.len()
    }

    /// The primitives, in order.
    pub fn primitives(&self) -> (r: &Vec<SDFPrimitive>)
        ensures
            r@ == self@,
    {
        &self.primitives
    }

    /// The words of the whole store, as the buffer holds them.
    pub fn to_words(&self) -> (w: Vec<u32>)
        ensures
            w@ == collection_words(self@),
            w@.len() == PRIMITIVE_WORDS * self@.len(),
    {
        let mut w: Vec<u32> = Vec::new();
        let mut i: usize = 0;
        while i < self.primitives.len()
            invariant
                i <= self.primitives@.len(),
                w@ == collection_words(self.primitives@.subrange(0, i as int)),
            decreases self.primitives@.len() - i,
        {
            self.primitives[i].push_words(&mut w);
            i += 1;
            proof {
                let upto = self.primitives@.subrange(0, i as int);
                assert(upto.drop_last() =~= self.primitives@.subrange(0, i - 1));
                assert(upto.last() == self.primitives@[i - 1]);
            }
        }
        proof {
            assert(self.primitives@.subrange(0, i as int) =~= self.primitives@);
            lemma_collection_layout(self@);
        }
        w
    }

    /// The bytes of the whole store, ready for upload.
    pub fn to_bytes(&self) -> (bytes: Vec<u8>)
        ensures
            bytes@ == native_bytes(collection_words(self@)),
            bytes@.len() == 4 * PRIMITIVE_WORDS * self@.len(),
    {
        let w = self.to_words();
        cast_words(&w)
    }

    /// Lets `primitive_updater` change the primitives in place, then returns
    /// the bytes of the whole store for upload: all of it, never a part.
    ///
    /// The updater may set any field of any primitive. It must leave the
    /// number of primitives as it found it.
    pub fn update_primitives<F: Fn(&mut Vec<SDFPrimitive>)>(&mut self, primitive_updater: F) -> (bytes:
        Vec<u8>)
        requires
            forall|v: &mut Vec<SDFPrimitive>|
                v@ == old(self)@ ==> call_requires(primitive_updater, (v,)),
            forall|v: &mut Vec<SDFPrimitive>|
                v@ == old(self)@ && call_ensures(primitive_updater, (v,), ()) ==> final(v)@.len()
                    == v@.len(),
        ensures
            final(self)@.len() == old(self)@.len(),
            exists|v: &mut Vec<SDFPrimitive>|
                v@ == old(self)@ && final(v)@ == final(self)@ && call_ensures(
                    primitive_updater,
                    (v,),
                    (),
                ),
            bytes@ == native_bytes(collection_words(final(self)@)),
            bytes@.len() == 4 * PRIMITIVE_WORDS * final(self)@.len(),
    {
        assert(self.primitives@ == old(self)@);
        primitive_updater(&mut self.primitives);
        self.to_bytes()
    }

    /// One step of the default animation on every primitive, then the bytes
    /// of the whole store for upload. `advance(value, rate)` is to give
    /// `value + rate * dt` for the `dt` seconds the step lasts.
    pub fn update<F: Fn(Scalar, Scalar) -> Scalar>(&mut self, advance: F) -> (bytes: Vec<u8>)
        requires
            forall|value: Scalar, rate: Scalar| call_requires(advance, (value, rate)),
        ensures
            final(self)@.len() == old(self)@.len(),
            forall|i: int|
                0 <= i < old(self)@.len() ==> animated(
                    old(self)@[i],
                    #[trigger] final(self)@[i],
                    advance,
                ),
            bytes@ == native_bytes(collection_words(final(self)@)),
            bytes@.len() == 4 * PRIMITIVE_WORDS * final(self)@.len(),
    {
        let step = &advance;
        let updater = |primitives: &mut Vec<SDFPrimitive>|
            requires
                forall|value: Scalar, rate: Scalar| call_requires(*step, (value, rate)),
            ensures
                final(primitives)@.len() == old(primitives)@.len(),
                forall|i: int|
                    0 <= i < old(primitives)@.len() ==> animated(
                        old(primitives)@[i],
                        #[trigger] final(primitives)@[i],
                        *step,
                    ),
            { animate(primitives, step) };
        self.update_primitives(updater)
    }
}

} // verus!
