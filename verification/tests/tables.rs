use tower_builder::city::city_records;
use tower_builder::mesh::{cube_indices, cube_vertices, CUBE_INDEX_COUNT, CUBE_VERTEX_COUNT};
use tower_builder::rng::{hash_bits, xorshift64_step, SparkRng};
use tower_builder::scenery::{car_color, spark_count, MAX_PARTICLES};
use tower_builder::Tint;

#[test]
fn city_records_group_by_five() {
    let flat: Vec<f32> = (0..12).map(|i| i as f32).collect();
    let recs = city_records(&flat);
    assert_eq!(recs.len(), 2);
    assert_eq!(recs[0], (0.0, 1.0, 2.0, 3.0, 4.0));
    assert_eq!(recs[1], (5.0, 6.0, 7.0, 8.0, 9.0));
    assert!(city_records::<f32>(&[1.0, 2.0, 3.0, 4.0]).is_empty());
}

#[test]
fn cube_tables() {
    let v = cube_vertices();
    let idx = cube_indices();
    assert_eq!(v.len(), CUBE_VERTEX_COUNT);
    assert_eq!(idx.len(), CUBE_INDEX_COUNT);
    assert_eq!(&idx[..12], &[0, 1, 2, 0, 2, 3, 4, 5, 6, 4, 6, 7]);
    assert_eq!(idx[35], 23);
    for (k, &i) in idx.iter().enumerate() {
        let face = (k / 6) as u16;
        assert!(4 * face <= i && i < 4 * face + 4);
    }
    for vtx in &v {
        let p = vtx.position;
        let n = vtx.normal;
        assert_eq!(p.x as i32 * n.x as i32 + p.y as i32 * n.y as i32 + p.z as i32 * n.z as i32, 1);
    }
    for t in 0..12 {
        let (a, b, c) = (v[idx[3 * t] as usize], v[idx[3 * t + 1] as usize], v[idx[3 * t + 2] as usize]);
        let u = [b.position.x - a.position.x, b.position.y - a.position.y, b.position.z - a.position.z];
        let w = [c.position.x - a.position.x, c.position.y - a.position.y, c.position.z - a.position.z];
        let cross = [u[1] * w[2] - u[2] * w[1], u[2] * w[0] - u[0] * w[2], u[0] * w[1] - u[1] * w[0]];
        let n = a.normal;
        assert!(cross[0] * n.x + cross[1] * n.y + cross[2] * n.z > 0);
    }
}

#[test]
fn random_streams() {
    assert_eq!(xorshift64_step(1), 1082269761);
    assert_eq!(xorshift64_step(1082269761), 1152992998833853505);
    let mut r = SparkRng::new();
    assert_eq!(r.next_bits(), 5311558);
    assert_eq!(r.next_bits(), 14691925);
}

#[test]
fn skyline_hash_values() {
    assert_eq!(hash_bits(0), 8530);
    assert_eq!(hash_bits(1), 57326);
    assert_eq!(hash_bits(2), 8464);
    assert_eq!(hash_bits(3), 18166);
    // The top of the range is reached: the fallback skyline's factor can be 1.0.
    assert_eq!(hash_bits(15490), 0xffff);
}

#[test]
fn car_palette_cycles() {
    assert_eq!(car_color(0), Tint { r: 95, g: 78, b: 10 });
    assert_eq!(car_color(1), car_color(0));
    assert_eq!(car_color(3), Tint { r: 6, g: 6, b: 7 });
    assert_eq!(car_color(11), Tint { r: 85, g: 85, b: 90 });
    assert_eq!(car_color(12), car_color(0));
}

#[test]
fn sparks_respect_the_cap() {
    assert_eq!(spark_count(0, 28), 28);
    assert_eq!(spark_count(590, 28), 10);
    assert_eq!(spark_count(MAX_PARTICLES, 5), 0);
    assert_eq!(spark_count(MAX_PARTICLES + 3, 5), 0);
}

#[test]
fn streams_never_stick_at_zero() {
    let mut x: u64 = 1;
    for _ in 0..10_000 {
        x = xorshift64_step(x);
        assert_ne!(x, 0);
    }
    let mut r = SparkRng::new();
    for _ in 0..10_000 {
        assert!(r.next_bits() < 1 << 24);
    }
    // An even seed is made odd, so the game's stream starts nonzero.
    let mut g = tower_builder::Game::new(0);
    g.drop_block();
    assert!(g.tick(Some(tower_builder::Contact::Aligned)).placed);
}
