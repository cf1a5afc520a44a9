use sdf_scene::primitives::{
    animate, PrimitiveManager, SDFPrimitive, FADE_BITS, FAST_GROWTH_BITS, INITIAL_DATA_BITS,
    PRIMITIVE_WORDS, SLOW_GROWTH_BITS,
};
use sdf_scene::scalar::Scalar;

fn s(x: f32) -> Scalar {
    Scalar::from_bits(x.to_bits())
}

fn f(x: Scalar) -> f32 {
    f32::from_bits(x.bits)
}

fn words_of(p: &SDFPrimitive) -> Vec<u32> {
    let mut out: Vec<u32> = Vec::new();
    p.push_words(&mut out);
    out
}

fn expected_bytes(primitives: &[SDFPrimitive]) -> Vec<u8> {
    let mut out: Vec<u8> = Vec::new();
    for p in primitives {
        for x in p.position {
            out.extend_from_slice(&f(x).to_ne_bytes());
        }
        out.extend_from_slice(&0.0f32.to_ne_bytes());
        for x in p.rotation {
            out.extend_from_slice(&f(x).to_ne_bytes());
        }
        for x in p.data {
            out.extend_from_slice(&f(x).to_ne_bytes());
        }
        for n in p.instances {
            out.extend_from_slice(&n.to_ne_bytes());
        }
        out.extend_from_slice(&0.0f32.to_ne_bytes());
        for x in p.rgba {
            out.extend_from_slice(&f(x).to_ne_bytes());
        }
        out.extend_from_slice(&p.typus.to_ne_bytes());
        for _ in 0..3 {
            out.extend_from_slice(&0.0f32.to_ne_bytes());
        }
    }
    out
}

fn advance_by(dt: f32) -> impl Fn(Scalar, Scalar) -> Scalar {
    move |value: Scalar, rate: Scalar| s(f(value) + f(rate) * dt)
}

#[test]
fn a_new_primitive_has_the_documented_defaults() {
    let p = SDFPrimitive::new();
    assert_eq!(p.position, [s(0.0); 3]);
    assert_eq!(p.rotation, [s(0.0), s(0.0), s(0.0), s(1.0)]);
    assert_eq!(p.data, [s(0.1); 4]);
    assert_eq!(p.instances, [1, 1, 1]);
    assert_eq!(p.rgba, [s(1.0); 4]);
    assert_eq!(p.typus, 0);
    assert_eq!(INITIAL_DATA_BITS, 0.1f32.to_bits());
}

#[test]
fn the_default_primitive_is_all_zero() {
    let p = SDFPrimitive::default();
    assert_eq!(words_of(&p), vec![0u32; 24]);
    assert_eq!(p.instances, [0, 0, 0]);
    assert_eq!(p.rgba, [s(0.0); 4]);
}

#[test]
fn primitive_words_follow_the_record_layout() {
    let p = SDFPrimitive {
        position: [Scalar::from_bits(1), Scalar::from_bits(2), Scalar::from_bits(3)],
        rotation: [
            Scalar::from_bits(4),
            Scalar::from_bits(5),
            Scalar::from_bits(6),
            Scalar::from_bits(7),
        ],
        data: [
            Scalar::from_bits(8),
            Scalar::from_bits(9),
            Scalar::from_bits(10),
            Scalar::from_bits(11),
        ],
        instances: [12, 13, 14],
        rgba: [
            Scalar::from_bits(15),
            Scalar::from_bits(16),
            Scalar::from_bits(17),
            Scalar::from_bits(18),
        ],
        typus: 19,
    };
    let want: Vec<u32> = vec![
        1, 2, 3, 0, 4, 5, 6, 7, 8, 9, 10, 11, 12, 13, 14, 0, 15, 16, 17, 18, 19, 0, 0, 0,
    ];
    assert_eq!(words_of(&p), want);
    assert_eq!(want.len(), PRIMITIVE_WORDS);
}

#[test]
fn push_words_appends_after_what_is_there() {
    let mut out: Vec<u32> = vec![42];
    SDFPrimitive::new().push_words(&mut out);
    assert_eq!(out.len(), 25);
    assert_eq!(out[0], 42);
    assert_eq!(out[1..], words_of(&SDFPrimitive::new())[..]);
}

#[test]
fn a_new_store_holds_that_many_new_primitives() {
    for count in [0usize, 1, 2, 17] {
        let m = PrimitiveManager::new(count);
        assert_eq!(m.len(), count);
        assert_eq!(m.primitives().len(), count);
        for p in m.primitives() {
            assert_eq!(words_of(p), words_of(&SDFPrimitive::new()));
        }
    }
}

#[test]
fn store_words_have_a_fixed_stride() {
    let mut m = PrimitiveManager::new(3);
    m.update_primitives(|v: &mut Vec<SDFPrimitive>| {
        for (i, p) in v.iter_mut().enumerate() {
            p.typus = 10 + i as u32;
        }
    });
    let words = m.to_words();
    assert_eq!(words.len(), 3 * PRIMITIVE_WORDS);
    for i in 0..3 {
        assert_eq!(words[24 * i..24 * (i + 1)], words_of(&m.primitives()[i])[..]);
        assert_eq!(words[24 * i + 20], 10 + i as u32);
        assert_eq!(words[24 * i + 7], 1.0f32.to_bits());
    }
}

#[test]
fn store_bytes_take_96_bytes_a_primitive() {
    for count in [0usize, 1, 5] {
        let m = PrimitiveManager::new(count);
        let bytes = m.to_bytes();
        assert_eq!(bytes.len(), 96 * count);
        assert_eq!(bytes, expected_bytes(m.primitives()));
    }
}

#[test]
fn a_new_store_serializes_its_defaults() {
    let bytes = PrimitiveManager::new(1).to_bytes();
    let mut floats: Vec<f32> = vec![0.0, 0.0, 0.0, 0.0, 0.0, 0.0, 0.0, 1.0, 0.1, 0.1, 0.1, 0.1];
    floats.extend_from_slice(&[f32::from_bits(1), f32::from_bits(1), f32::from_bits(1), 0.0]);
    floats.extend_from_slice(&[1.0, 1.0, 1.0, 1.0, 0.0, 0.0, 0.0, 0.0]);
    let want: &[u8] = bytemuck::cast_slice(&floats);
    assert_eq!(bytes, want.to_vec());
}

#[test]
fn update_primitives_applies_the_mutator_and_returns_the_whole_buffer() {
    let mut m = PrimitiveManager::new(4);
    let bytes = m.update_primitives(|v: &mut Vec<SDFPrimitive>| {
        v[2].position = [s(1.0), s(2.0), s(3.0)];
        v[2].typus = 5;
        v[0].rgba[3] = s(0.5);
    });
    assert_eq!(m.len(), 4);
    assert_eq!(m.primitives()[2].position, [s(1.0), s(2.0), s(3.0)]);
    assert_eq!(m.primitives()[2].typus, 5);
    assert_eq!(f(m.primitives()[0].rgba[3]), 0.5);
    assert_eq!(words_of(&m.primitives()[1]), words_of(&SDFPrimitive::new()));
    assert_eq!(bytes.len(), 4 * 96);
    assert_eq!(bytes, expected_bytes(m.primitives()));
    assert_eq!(bytes, m.to_bytes());
}

#[test]
fn the_number_of_primitives_never_changes() {
    let mut m = PrimitiveManager::new(6);
    for round in 0..50u32 {
        let bytes = m.update_primitives(|v: &mut Vec<SDFPrimitive>| {
            for p in v.iter_mut() {
                p.instances[0] = round;
            }
            v.swap(0, 5);
        });
        assert_eq!(m.len(), 6);
        assert_eq!(bytes.len(), 6 * 96);
        assert_eq!(bytes, expected_bytes(m.primitives()));
    }
    assert_eq!(m.primitives()[3].instances, [49, 1, 1]);
}

#[test]
fn a_mutator_that_does_nothing_leaves_the_store_as_it_was() {
    let mut m = PrimitiveManager::new(2);
    let before = m.to_bytes();
    let bytes = m.update_primitives(|_v: &mut Vec<SDFPrimitive>| {});
    assert_eq!(bytes, before);
    assert_eq!(m.len(), 2);
}

#[test]
fn an_empty_store_uploads_nothing() {
    let mut m = PrimitiveManager::new(0);
    let bytes = m.update_primitives(|_v: &mut Vec<SDFPrimitive>| {});
    assert!(bytes.is_empty());
    assert_eq!(m.len(), 0);
}

#[test]
fn animation_rates_are_the_values_they_name() {
    assert_eq!(FAST_GROWTH_BITS, 0.002f32.to_bits());
    assert_eq!(SLOW_GROWTH_BITS, 0.001f32.to_bits());
    assert_eq!(FADE_BITS, (-0.01f32).to_bits());
}

#[test]
fn the_default_animation_advances_shape_and_colour() {
    let mut m = PrimitiveManager::new(2);
    let dt = 0.5f32;
    let bytes = m.update(advance_by(dt));
    assert_eq!(m.len(), 2);
    for p in m.primitives() {
        let mut data = [0.1f32; 4];
        data[0] += 0.002 * dt;
        data[1] += 0.001 * dt;
        data[2] += 0.001 * dt;
        data[3] = 0.002;
        let mut red = 1.0f32;
        red -= 0.01 * dt;
        assert_eq!([f(p.data[0]), f(p.data[1]), f(p.data[2]), f(p.data[3])], data);
        assert_eq!(f(p.rgba[0]), red);
        assert_eq!(p.rgba[1..], [s(1.0); 3]);
        assert_eq!(p.position, [s(0.0); 3]);
        assert_eq!(p.rotation, SDFPrimitive::new().rotation);
        assert_eq!(p.instances, [1, 1, 1]);
        assert_eq!(p.typus, 0);
    }
    assert_eq!(bytes.len(), 2 * 96);
    assert_eq!(bytes, expected_bytes(m.primitives()));
    m.update(advance_by(dt));
    assert_eq!(f(m.primitives()[0].data[0]), 0.1 + 0.002 * dt + 0.002 * dt);
    assert_eq!(f(m.primitives()[1].data[3]), 0.002);
    assert_eq!(f(m.primitives()[1].rgba[0]), 1.0 - 0.01 * dt - 0.01 * dt);
}

#[test]
fn the_default_animation_keeps_the_number_of_primitives() {
    let mut m = PrimitiveManager::new(5);
    for _ in 0..100 {
        let bytes = m.update(advance_by(0.016));
        assert_eq!(m.len(), 5);
        assert_eq!(bytes, m.to_bytes());
    }
    assert!(f(m.primitives()[4].data[0]) > 0.1);
    assert!(f(m.primitives()[4].rgba[0]) < 1.0);
}

#[test]
fn animate_passes_each_value_with_its_rate() {
    let mut v = vec![SDFPrimitive::new(), SDFPrimitive::default()];
    v[1].typus = 9;
    animate(&mut v, &|value: Scalar, rate: Scalar| {
        Scalar::from_bits(value.bits ^ rate.bits)
    });
    assert_eq!(v.len(), 2);
    assert_eq!(v[0].data[0].bits, INITIAL_DATA_BITS ^ FAST_GROWTH_BITS);
    assert_eq!(v[0].data[1].bits, INITIAL_DATA_BITS ^ SLOW_GROWTH_BITS);
    assert_eq!(v[0].data[2].bits, INITIAL_DATA_BITS ^ SLOW_GROWTH_BITS);
    assert_eq!(v[0].data[3].bits, FAST_GROWTH_BITS);
    assert_eq!(v[0].rgba[0].bits, 1.0f32.to_bits() ^ FADE_BITS);
    assert_eq!(v[1].data[0].bits, FAST_GROWTH_BITS);
    assert_eq!(v[1].rgba[0].bits, FADE_BITS);
    assert_eq!(v[1].rgba[1].bits, 0);
    assert_eq!(v[1].typus, 9);
}
