use raytracing_minecraft::controls::{camera_moves, CameraMove, Keys};
use raytracing_minecraft::faces::{contact_face, uv_axis, Axis, Contacts, Face};
use raytracing_minecraft::frame::{frame_bytes, pixel_grid, Rgba};
use raytracing_minecraft::hits::{any_hit_within, nearest_hit};
use raytracing_minecraft::rank::{bits_from_rank, is_above, is_below, rank_from_bits, Rank};
use raytracing_minecraft::shading::{next_depth, sky_band, texture_slot, SkyBand, TextureSlot, MAX_SHADED_DEPTH};
use raytracing_minecraft::slab::slab_distance;

fn rank(f: f32) -> Rank {
    rank_from_bits(f.to_bits())
}

fn unrank(k: u32) -> f32 {
    f32::from_bits(bits_from_rank(k))
}

fn inv(d: f32) -> f32 {
    if d.abs() < 1e-8 {
        f32::INFINITY
    } else {
        1.0 / d
    }
}

/// The slab test written directly in floating point, as a reference.
fn float_slab(lo: [f32; 3], hi: [f32; 3], o: [f32; 3], d: [f32; 3]) -> Option<f32> {
    let i = [inv(d[0]), inv(d[1]), inv(d[2])];
    let mut tmin = (lo[0] - o[0]) * i[0];
    let mut tmax = (hi[0] - o[0]) * i[0];
    if tmin > tmax {
        std::mem::swap(&mut tmin, &mut tmax);
    }
    let mut tymin = (lo[1] - o[1]) * i[1];
    let mut tymax = (hi[1] - o[1]) * i[1];
    if tymin > tymax {
        std::mem::swap(&mut tymin, &mut tymax);
    }
    if tmin > tymax || tymin > tmax {
        return None;
    }
    if tymin > tmin {
        tmin = tymin;
    }
    if tymax < tmax {
        tmax = tymax;
    }
    let mut tzmin = (lo[2] - o[2]) * i[2];
    let mut tzmax = (hi[2] - o[2]) * i[2];
    if tzmin > tzmax {
        std::mem::swap(&mut tzmin, &mut tzmax);
    }
    if tmin > tzmax || tzmin > tmax {
        return None;
    }
    if tzmin > tmin {
        tmin = tzmin;
    }
    if tzmax < tmax {
        tmax = tzmax;
    }
    let distance = if tmin > 0.001 { tmin } else { tmax };
    if distance < 0.001 {
        return None;
    }
    Some(distance)
}

/// The slab test through the library, on the same float inputs.
fn ranked_slab(lo: [f32; 3], hi: [f32; 3], o: [f32; 3], d: [f32; 3]) -> Option<Rank> {
    let i = [inv(d[0]), inv(d[1]), inv(d[2])];
    let pair = |a: usize| (rank((lo[a] - o[a]) * i[a]), rank((hi[a] - o[a]) * i[a]));
    slab_distance(pair(0), pair(1), pair(2), rank(0.001))
}

fn unit_box() -> ([f32; 3], [f32; 3]) {
    ([-0.5, -0.5, -0.5], [0.5, 0.5, 0.5])
}

#[test]
fn rank_from_bits_values() {
    assert_eq!(rank_from_bits(0x3f80_0000), Some(0xbf80_0000)); // 1.0
    assert_eq!(rank_from_bits(0xbf80_0000), Some(0x407f_ffff)); // -1.0
    assert_eq!(rank_from_bits(0x0000_0000), Some(0x8000_0000)); // 0.0
    assert_eq!(rank_from_bits(0x8000_0000), Some(0x8000_0000)); // -0.0
    assert_eq!(rank_from_bits(0x7f80_0000), Some(0xff80_0000)); // infinity
    assert_eq!(rank_from_bits(0xff80_0000), Some(0x007f_ffff)); // -infinity
    assert_eq!(rank_from_bits(0x7fc0_0000), None); // NaN
    assert_eq!(rank_from_bits(0xff80_0001), None); // negative NaN
    assert_eq!(bits_from_rank(0xbf80_0000), 0x3f80_0000);
    assert_eq!(bits_from_rank(0x407f_ffff), 0xbf80_0000);
    assert_eq!(bits_from_rank(0x8000_0000), 0);
}

#[test]
fn rank_orders_like_floats() {
    let values = [
        f32::NEG_INFINITY, -1e30, -2.0, -1.0, -1e-40, -0.0, 0.0, 1e-40, 0.001, 0.5, 1.0, 7.5, 1e30,
        f32::INFINITY,
    ];
    for a in values {
        for b in values {
            assert_eq!(is_below(rank(a), rank(b)), a < b);
            assert_eq!(is_above(rank(a), rank(b)), a > b);
        }
        assert!(!is_below(rank(a), rank(f32::NAN)));
        assert!(!is_below(rank(f32::NAN), rank(a)));
        assert_eq!(unrank(rank(a).unwrap()), if a == 0.0 { 0.0 } else { a });
    }
}

#[test]
fn slab_hits_front_face() {
    let (lo, hi) = unit_box();
    let r = ranked_slab(lo, hi, [0.0, 0.0, 8.0], [0.0, 0.0, -1.0]);
    assert_eq!(r, Some(rank(7.5)));
}

#[test]
fn slab_misses_beside_box() {
    let (lo, hi) = unit_box();
    assert_eq!(ranked_slab(lo, hi, [2.0, 0.0, 8.0], [0.0, 0.0, -1.0]), None);
}

#[test]
fn slab_from_inside_reports_exit() {
    let (lo, hi) = unit_box();
    assert_eq!(ranked_slab(lo, hi, [0.0, 0.0, 0.0], [0.0, 0.0, -1.0]), Some(rank(0.5)));
}

#[test]
fn slab_box_behind_ray_is_missed() {
    let (lo, hi) = unit_box();
    assert_eq!(ranked_slab(lo, hi, [0.0, 0.0, -8.0], [0.0, 0.0, -1.0]), None);
}

#[test]
fn slab_too_close_to_surface_is_missed() {
    let (lo, hi) = unit_box();
    // leaving the box 0.0005 beyond the origin: closer than the minimum distance
    assert_eq!(ranked_slab(lo, hi, [0.0, 0.0, -0.4995], [0.0, 0.0, -1.0]), None);
}

#[test]
fn slab_diagonal_ray_enters_at_latest_entry() {
    let lo = [1.0, 1.0, 1.0];
    let hi = [2.0, 3.0, 2.0];
    let r = ranked_slab(lo, hi, [0.0, 0.0, 0.0], [1.0, 1.0, 1.0]);
    // entries 1, 1, 1 and exits 2, 3, 2: enters at 1
    assert_eq!(r, Some(rank(1.0)));
    let r = ranked_slab([1.0, 2.0, 0.0], [3.0, 4.0, 5.0], [0.0, 0.0, 0.0], [1.0, 1.0, 1.0]);
    // entries 1, 2, 0 and exits 3, 4, 5: from 2 to 3
    assert_eq!(r, Some(rank(2.0)));
}

#[test]
fn slab_nan_parameter_passes_through() {
    // the origin lies on the box's x = 0.5 plane and the ray runs parallel to
    // it: 0 * inf is NaN on that axis
    let (lo, hi) = unit_box();
    let o = [0.5, 0.0, 8.0];
    let d = [0.0, 0.0, -1.0];
    let expected = float_slab(lo, hi, o, d).map(rank);
    assert_eq!(ranked_slab(lo, hi, o, d), expected);
}

#[test]
fn slab_agrees_with_float_reference() {
    let mut state: u64 = 0x2545_f491_4f6c_dd1d;
    let mut next = move || {
        state ^= state << 13;
        state ^= state >> 7;
        state ^= state << 17;
        state
    };
    let special = [0.0, -0.0, 0.5, -0.5, 1.0, f32::INFINITY, f32::NEG_INFINITY, f32::NAN, 1e-9, 0.001];
    let mut pick = || {
        let v = next();
        if v % 4 == 0 {
            special[(v / 4 % special.len() as u64) as usize]
        } else {
            ((v >> 16) % 2001) as f32 / 100.0 - 10.0
        }
    };
    for _ in 0..20000 {
        let mut lo = [0.0f32; 3];
        let mut hi = [0.0f32; 3];
        let mut o = [0.0f32; 3];
        let mut d = [0.0f32; 3];
        for a in 0..3 {
            lo[a] = pick();
            hi[a] = pick();
            o[a] = pick();
            d[a] = pick();
        }
        let expected = float_slab(lo, hi, o, d).map(rank);
        assert_eq!(ranked_slab(lo, hi, o, d), expected, "{:?} {:?} {:?} {:?}", lo, hi, o, d);
    }
}

#[test]
fn slab_axis_and_pair_order_do_not_matter() {
    let x = (rank(-3.0), rank(4.0));
    let y = (rank(2.0), rank(-1.0));
    let z = (rank(1.5), rank(9.0));
    let near = rank(0.001);
    let base = slab_distance(x, y, z, near);
    assert_eq!(base, Some(rank(1.5)));
    assert_eq!(slab_distance((x.1, x.0), y, z, near), base);
    assert_eq!(slab_distance(x, (y.1, y.0), z, near), base);
    assert_eq!(slab_distance(x, y, (z.1, z.0), near), base);
    assert_eq!(slab_distance(y, x, z, near), base);
    assert_eq!(slab_distance(x, z, y, near), base);
    assert_eq!(slab_distance(z, y, x, near), base);
}

fn contacts(bits: [bool; 6]) -> Contacts {
    Contacts { min_x: bits[0], max_x: bits[1], min_y: bits[2], max_y: bits[3], min_z: bits[4], max_z: bits[5] }
}

#[test]
fn contact_face_takes_first_in_order() {
    assert_eq!(contact_face(contacts([false; 6])), None);
    assert_eq!(contact_face(contacts([true, true, true, true, true, true])), Some(Face::NegX));
    assert_eq!(contact_face(contacts([false, true, false, false, false, true])), Some(Face::PosX));
    assert_eq!(contact_face(contacts([false, false, true, true, false, false])), Some(Face::NegY));
    assert_eq!(contact_face(contacts([false, false, false, true, true, false])), Some(Face::PosY));
    assert_eq!(contact_face(contacts([false, false, false, false, true, true])), Some(Face::NegZ));
    assert_eq!(contact_face(contacts([false, false, false, false, false, true])), Some(Face::PosZ));
}

#[test]
fn uv_axis_follows_face() {
    assert_eq!(uv_axis(Some(Face::NegX)), Axis::X);
    assert_eq!(uv_axis(Some(Face::PosX)), Axis::X);
    assert_eq!(uv_axis(Some(Face::NegY)), Axis::Y);
    assert_eq!(uv_axis(Some(Face::PosY)), Axis::Y);
    assert_eq!(uv_axis(Some(Face::NegZ)), Axis::Z);
    assert_eq!(uv_axis(Some(Face::PosZ)), Axis::Z);
    assert_eq!(uv_axis(None), Axis::Z);
}

#[test]
fn nearest_hit_takes_first_of_nearest() {
    let far = rank(f32::INFINITY);
    let hits = vec![None, rank(5.0), rank(3.0), rank(3.0), rank(f32::NAN), rank(4.0)];
    assert_eq!(nearest_hit(&hits, far), Some(2));
    assert_eq!(nearest_hit(&hits, rank(3.0)), None);
    assert_eq!(nearest_hit(&hits, rank(4.5)), Some(2));
    assert_eq!(nearest_hit(&vec![], far), None);
    assert_eq!(nearest_hit(&vec![None, None], far), None);
    // a hit at infinity is not nearer than the infinite horizon
    assert_eq!(nearest_hit(&vec![rank(f32::INFINITY)], far), None);
    assert_eq!(nearest_hit(&vec![rank(1.0)], rank(f32::NAN)), None);
}

#[test]
fn shadow_test_finds_blocker_before_light() {
    let hits = vec![None, rank(5.0), rank(2.0)];
    assert!(any_hit_within(&hits, rank(3.0)));
    assert!(!any_hit_within(&hits, rank(2.0)));
    assert!(!any_hit_within(&hits, rank(f32::NAN)));
    assert!(!any_hit_within(&vec![], rank(3.0)));
}

#[test]
fn shadow_and_nearest_agree() {
    let hits = vec![rank(4.0), None, rank(1.5), rank(f32::NAN), rank(1.5)];
    for bound in [0.0f32, 1.0, 1.5, 1.6, 4.0, 4.1, f32::INFINITY, f32::NAN] {
        assert_eq!(nearest_hit(&hits, rank(bound)).is_some(), any_hit_within(&hits, rank(bound)));
    }
}

#[test]
fn depth_gate_allows_two_bounces() {
    assert_eq!(MAX_SHADED_DEPTH, 1);
    assert_eq!(next_depth(0), Some(1));
    assert_eq!(next_depth(1), Some(2));
    assert_eq!(next_depth(2), None);
    assert_eq!(next_depth(u32::MAX), None);
    // follow a primary ray's chain of secondary rays
    let mut depth = 0;
    let mut levels = 0;
    while let Some(d) = next_depth(depth) {
        depth = d;
        levels += 1;
    }
    assert_eq!(levels, 2);
}

#[test]
fn texture_slot_choices() {
    let s = Some("a.png".to_string());
    assert_eq!(texture_slot(&s, &s, &None, true), TextureSlot::TopBottom);
    assert_eq!(texture_slot(&s, &s, &None, false), TextureSlot::Side);
    assert_eq!(texture_slot(&s, &None, &s, true), TextureSlot::TopBottom);
    assert_eq!(texture_slot(&s, &s, &s, false), TextureSlot::Side);
    assert_eq!(texture_slot(&None, &s, &s, true), TextureSlot::Material);
    assert_eq!(texture_slot(&None, &None, &s, false), TextureSlot::Material);
    assert_eq!(texture_slot(&None, &None, &None, true), TextureSlot::Diffuse);
}

#[test]
fn sky_bands() {
    let ends = (rank(0.4), rank(0.6), rank(0.85));
    assert_eq!(sky_band(rank(0.0), ends), SkyBand::Horizon);
    assert_eq!(sky_band(rank(0.4), ends), SkyBand::Middle);
    assert_eq!(sky_band(rank(0.59), ends), SkyBand::Middle);
    assert_eq!(sky_band(rank(0.6), ends), SkyBand::Upper);
    assert_eq!(sky_band(rank(0.85), ends), SkyBand::Zenith);
    assert_eq!(sky_band(rank(1.0), ends), SkyBand::Zenith);
    assert_eq!(sky_band(rank(f32::NAN), ends), SkyBand::Zenith);
}

#[test]
fn pixel_grid_is_row_major() {
    assert_eq!(pixel_grid(3, 2), vec![(0, 0), (1, 0), (2, 0), (0, 1), (1, 1), (2, 1)]);
    assert_eq!(pixel_grid(1, 1), vec![(0, 0)]);
    assert_eq!(pixel_grid(0, 5), vec![]);
    assert_eq!(pixel_grid(4, -1), vec![]);
    assert_eq!(pixel_grid(-3, -3), vec![]);
    let g = pixel_grid(800, 600);
    assert_eq!(g.len(), 480000);
    assert_eq!(g[799], (799, 0));
    assert_eq!(g[800 * 599 + 5], (5, 599));
}

#[test]
fn frame_bytes_layout() {
    let px = vec![Rgba { r: 1, g: 2, b: 3, a: 4 }, Rgba { r: 250, g: 0, b: 17, a: 255 }];
    assert_eq!(frame_bytes(&px), vec![1, 2, 3, 4, 250, 0, 17, 255]);
    assert_eq!(frame_bytes(&vec![]), Vec::<u8>::new());
}

fn keys(bits: [bool; 8]) -> Keys {
    Keys { left: bits[0], right: bits[1], up: bits[2], down: bits[3], d: bits[4], a: bits[5], w: bits[6], s: bits[7] }
}

#[test]
fn camera_moves_follow_keys_in_order() {
    assert_eq!(camera_moves(keys([false; 8])), vec![]);
    assert_eq!(
        camera_moves(keys([true; 8])),
        vec![
            CameraMove::OrbitLeft,
            CameraMove::OrbitRight,
            CameraMove::OrbitUp,
            CameraMove::OrbitDown,
            CameraMove::ZoomIn,
            CameraMove::ZoomOut,
            CameraMove::Raise,
            CameraMove::Lower,
        ]
    );
    assert_eq!(
        camera_moves(keys([false, true, false, true, false, true, true, false])),
        vec![CameraMove::OrbitRight, CameraMove::OrbitDown, CameraMove::ZoomOut, CameraMove::Raise]
    );
}

#[test]
fn rank_order_matches_float_order_on_random_bits() {
    let mut state: u64 = 0x9e37_79b9_7f4a_7c15;
    let mut next = move || {
        state ^= state << 13;
        state ^= state >> 7;
        state ^= state << 17;
        (state >> 32) as u32
    };
    for _ in 0..200000 {
        let a = next();
        let b = next();
        let (fa, fb) = (f32::from_bits(a), f32::from_bits(b));
        assert_eq!(is_below(rank_from_bits(a), rank_from_bits(b)), fa < fb, "{:#x} {:#x}", a, b);
        assert_eq!(rank_from_bits(a).is_none(), fa.is_nan());
        if let Some(k) = rank_from_bits(a) {
            assert_eq!(f32::from_bits(bits_from_rank(k)), fa);
        }
    }
}
