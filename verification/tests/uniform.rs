use bevy::render::render_resource::std140::Writer;
use bevy_atmosphere::{pack, AtmosphereMat, Scalar, UniformMember, Vec3, UNIFORM_WORDS};

fn scalar(x: f32) -> Scalar {
    Scalar::from_bits(x.to_bits())
}

fn vec3(x: f32, y: f32, z: f32) -> Vec3 {
    Vec3::new(scalar(x), scalar(y), scalar(z))
}

fn numbers(words: &[u32]) -> Vec<f32> {
    words.iter().map(|w| f32::from_bits(*w)).collect()
}

fn bytes(words: &[u32]) -> Vec<u8> {
    words.iter().flat_map(|w| w.to_ne_bytes()).collect()
}

/// The members written one after the other by the engine's own std140 writer.
fn written(members: &[UniformMember]) -> Vec<u8> {
    let mut buffer: Vec<u8> = Vec::new();
    let mut writer = Writer::new(&mut buffer);
    for member in members {
        match member {
            UniformMember::Number(s) => {
                writer.write(&f32::from_bits(s.to_bits())).unwrap();
            }
            UniformMember::Vector(v) => {
                let v = bevy::math::Vec3::new(
                    f32::from_bits(v.x.to_bits()),
                    f32::from_bits(v.y.to_bits()),
                    f32::from_bits(v.z.to_bits()),
                );
                writer.write(&v).unwrap();
            }
        }
    }
    buffer
}

#[test]
fn uniform_of_the_earth() {
    let words = AtmosphereMat::default().uniform();
    assert_eq!(words.len(), 20);
    assert_eq!(words.len(), UNIFORM_WORDS);
    assert_eq!(
        numbers(&words),
        vec![
            0.0, 6372e3, 0.0, 0.0, // ray origin, padding
            0.0, 1.0, 1.0, 22.0, // sun position, sun intensity
            6371e3, 6471e3, 0.0, 0.0, // planet radius, atmosphere radius, padding
            5.5e-6, 13.0e-6, 22.4e-6, 8e3, // rayleigh coefficient, rayleigh scale height
            21e-6, 1.2e3, 0.758, 0.0, // mie coefficient, mie scale height, mie direction, padding
        ]
    );
}

#[test]
fn uniform_holds_every_parameter_in_its_place() {
    let m = AtmosphereMat {
        ray_origin: vec3(1.0, 2.0, 3.0),
        sun_position: vec3(4.0, 5.0, 6.0),
        sun_intensity: scalar(7.0),
        planet_radius: scalar(8.0),
        atmosphere_radius: scalar(9.0),
        rayleigh_coefficient: vec3(10.0, 11.0, 12.0),
        rayleigh_scale_height: scalar(13.0),
        mie_coefficient: scalar(14.0),
        mie_scale_height: scalar(15.0),
        mie_direction: scalar(16.0),
    };
    assert_eq!(
        numbers(&m.uniform()),
        vec![
            1.0, 2.0, 3.0, 0.0, 4.0, 5.0, 6.0, 7.0, 8.0, 9.0, 0.0, 0.0, 10.0, 11.0, 12.0, 13.0,
            14.0, 15.0, 16.0, 0.0
        ]
    );
    assert_eq!(m.uniform(), pack(&m.uniform_members()));
    assert_eq!(m.uniform_members().len(), 10);
    assert_eq!(m.uniform_members()[0], UniformMember::Vector(vec3(1.0, 2.0, 3.0)));
    assert_eq!(m.uniform_members()[9], UniformMember::Number(scalar(16.0)));
}

#[test]
fn padding_is_zero_words_not_zero_numbers() {
    let mut m = AtmosphereMat::default();
    m.ray_origin = vec3(-0.0, f32::NAN, f32::INFINITY);
    let words = m.uniform();
    assert_eq!(words[0], (-0.0f32).to_bits());
    assert_eq!(words[1], f32::NAN.to_bits());
    assert_eq!(words[2], f32::INFINITY.to_bits());
    for i in [3, 10, 11, 19] {
        assert_eq!(words[i], 0);
    }
}

#[test]
fn pack_aligns_vectors_and_the_block() {
    let n = |x: f32| UniformMember::Number(scalar(x));
    let v = |x: f32| UniformMember::Vector(vec3(x, x + 1.0, x + 2.0));

    assert_eq!(pack(&vec![]), Vec::<u32>::new());
    assert_eq!(numbers(&pack(&vec![n(1.0)])), vec![1.0, 0.0, 0.0, 0.0]);
    assert_eq!(numbers(&pack(&vec![v(1.0)])), vec![1.0, 2.0, 3.0, 0.0]);
    assert_eq!(numbers(&pack(&vec![v(1.0), n(9.0)])), vec![1.0, 2.0, 3.0, 9.0]);
    assert_eq!(
        numbers(&pack(&vec![n(9.0), v(1.0)])),
        vec![9.0, 0.0, 0.0, 0.0, 1.0, 2.0, 3.0, 0.0]
    );
    assert_eq!(
        numbers(&pack(&vec![n(7.0), n(8.0), n(9.0), n(10.0), n(11.0)])),
        vec![7.0, 8.0, 9.0, 10.0, 11.0, 0.0, 0.0, 0.0]
    );
    assert_eq!(
        numbers(&pack(&vec![v(1.0), v(4.0)])),
        vec![1.0, 2.0, 3.0, 0.0, 4.0, 5.0, 6.0, 0.0]
    );
}

#[test]
fn uniform_is_what_the_engine_writes() {
    let mut dusk = AtmosphereMat::default();
    dusk.sun_position = vec3(0.0, 0.05, -1.0);
    dusk.mie_direction = scalar(-0.3);
    for m in [AtmosphereMat::default(), dusk] {
        let ours = bytes(&m.uniform());
        let theirs = written(&m.uniform_members());
        assert_eq!(theirs.len(), 76);
        assert_eq!(ours.len(), 80);
        assert_eq!(&ours[..76], &theirs[..]);
        assert_eq!(&ours[76..], &[0, 0, 0, 0]);
    }
}

#[test]
fn pack_is_what_the_engine_writes() {
    let n = |x: f32| UniformMember::Number(scalar(x));
    let v = |x: f32| UniformMember::Vector(vec3(x, x + 1.0, x + 2.0));
    let lists = [
        vec![n(1.0), v(2.0), n(5.0), n(6.0), v(7.0), v(10.0), n(13.0)],
        vec![v(1.0), n(4.0), v(5.0), n(8.0)],
        vec![n(1.0), n(2.0), n(3.0), n(4.0), v(5.0)],
    ];
    for members in lists {
        let ours = bytes(&pack(&members));
        let theirs = written(&members);
        assert!(theirs.len() <= ours.len() && ours.len() < theirs.len() + 16);
        assert_eq!(ours.len() % 16, 0);
        assert_eq!(&ours[..theirs.len()], &theirs[..]);
        assert!(ours[theirs.len()..].iter().all(|b| *b == 0));
    }
}
