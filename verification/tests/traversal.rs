use std::collections::HashSet;

use pumpkin_world::column::Column;
use pumpkin_world::request::{LoadRequest, RequestTraversal};
use pumpkin_world::ring::RingIterator;

fn collect_ring(origin: Column, distance: u32, radius: u32) -> Vec<Column> {
    let mut cursor = RingIterator::new(origin, distance, radius);
    let mut out = Vec::new();
    while let Some(col) = cursor.next() {
        out.push(col);
    }
    out
}

fn cheb(origin: Column, col: Column) -> u32 {
    let dx = (col.x as i64 - origin.x as i64).unsigned_abs();
    let dz = (col.z as i64 - origin.z as i64).unsigned_abs();
    dx.max(dz) as u32
}

#[test]
fn ring_zero_yields_only_origin() {
    let origin = Column { x: 7, z: -3 };
    let cols = collect_ring(origin, 0, 0);
    assert_eq!(cols, vec![origin]);
}

#[test]
fn ring_yields_8r_distinct_columns_at_distance_r() {
    let origin = Column { x: -11, z: 29 };
    for r in 1u32..=5 {
        let cols = collect_ring(origin, r, r);
        assert_eq!(cols.len(), (8 * r) as usize);
        let mut seen = HashSet::new();
        for col in &cols {
            assert_eq!(cheb(origin, *col), r);
            assert!(seen.insert((col.x, col.z)));
        }
    }
}

#[test]
fn ring_traversal_is_restartable_by_reconstruction() {
    let origin = Column { x: 4, z: 4 };
    let first = collect_ring(origin, 3, 3);
    let second = collect_ring(origin, 3, 3);
    assert_eq!(first, second);
}

#[test]
fn rings_up_to_radius_cover_the_disc_exactly_once() {
    let origin = Column { x: 10, z: -7 };
    let radius = 2u32;
    let mut seen = HashSet::new();
    let mut total = 0usize;
    for d in 0..=radius {
        for col in collect_ring(origin, d, d) {
            assert_eq!(cheb(origin, col), d);
            assert!(seen.insert((col.x, col.z)), "column visited at two distances");
            total += 1;
        }
    }
    assert_eq!(total, 25);
    for dx in -2i32..=2 {
        for dz in -2i32..=2 {
            assert!(seen.contains(&(origin.x + dx, origin.z + dz)));
        }
    }
}

#[test]
fn cursor_walks_every_ring_up_to_its_target_radius() {
    let origin = Column { x: 0, z: 0 };
    let cols = collect_ring(origin, 0, 2);
    assert_eq!(cols.len(), 1 + 8 + 16);
    assert_eq!(cols[0], origin);
    for col in &cols[1..9] {
        assert_eq!(cheb(origin, *col), 1);
    }
    for col in &cols[9..] {
        assert_eq!(cheb(origin, *col), 2);
    }
}

#[test]
fn with_padding_extends_the_target_radius() {
    let origin = Column { x: 1, z: 2 };
    let cursor = RingIterator::new(origin, 0, 1);
    let padded = cursor.with_padding(3);
    assert_eq!(padded.radius, 4);
    assert_eq!(padded.current, 0);
    assert_eq!(padded.origin, origin);
}

#[test]
fn with_radius_replaces_only_the_radius() {
    let request = LoadRequest { origin: Column { x: 5, z: 6 }, radius: 9 };
    let changed = request.with_radius(2);
    assert_eq!(changed.origin, request.origin);
    assert_eq!(changed.radius, 2);
    let padded = request.with_padding(4);
    assert_eq!(padded.origin, request.origin);
    assert_eq!(padded.radius, 13);
}

#[test]
fn oversized_requests_are_rejected_by_valid() {
    let ok = LoadRequest { origin: Column { x: 0, z: 0 }, radius: 2 };
    assert!(ok.valid());
    let too_wide = LoadRequest { origin: Column { x: 0, z: 0 }, radius: u32::MAX };
    assert!(!too_wide.valid());
    let near_edge = LoadRequest { origin: Column { x: i32::MAX, z: 0 }, radius: 1 };
    assert!(!near_edge.valid());
}

#[test]
fn radius_two_request_expands_to_three_padded_work_units() {
    let request = LoadRequest { origin: Column { x: 0, z: 0 }, radius: 2 };
    let mut traversal = RequestTraversal::new(request);
    let mut units = Vec::new();
    while let Some(unit) = traversal.next() {
        units.push(unit);
    }
    assert_eq!(units.len(), 3);
    for (i, unit) in units.iter().enumerate() {
        let d = i as u32;
        assert_eq!(unit.distance, d);
        for cursor in [unit.terrain, unit.light, unit.carver, unit.biome, unit.structure_starts] {
            assert_eq!(cursor.current, d);
            assert_eq!(cursor.origin, request.origin);
            assert_eq!(cursor.index, 0);
        }
        assert_eq!(unit.terrain.radius, d);
        assert_eq!(unit.light.radius, d + 1);
        assert_eq!(unit.carver.radius, d + 2);
        assert_eq!(unit.biome.radius, d + 3);
        assert_eq!(unit.structure_starts.radius, d + 10);
    }
    assert_eq!(
        [
            units[1].terrain.radius,
            units[1].light.radius,
            units[1].carver.radius,
            units[1].biome.radius,
            units[1].structure_starts.radius,
        ],
        [1, 2, 3, 4, 11]
    );
    assert_eq!(
        [
            units[2].terrain.radius,
            units[2].light.radius,
            units[2].carver.radius,
            units[2].biome.radius,
            units[2].structure_starts.radius,
        ],
        [2, 3, 4, 5, 12]
    );
}

#[test]
fn stage_rings_at_distance_two_match_the_closed_form_enumeration() {
    let origin = Column { x: 0, z: 0 };
    let request = LoadRequest { origin, radius: 2 };
    let mut traversal = RequestTraversal::new(request);
    traversal.next();
    traversal.next();
    let unit = traversal.next().expect("third work unit");
    assert_eq!(unit.distance, 2);

    // The terrain cursor covers exactly the ring at distance 2: 8 * 2 columns.
    let mut cursor = unit.terrain;
    let mut seen = HashSet::new();
    let mut n = 0usize;
    while let Some(col) = cursor.next() {
        assert_eq!(cheb(origin, col), 2);
        assert!(seen.insert((col.x, col.z)));
        n += 1;
    }
    assert_eq!(n, 16);
    let mut expected = HashSet::new();
    for dx in -2i32..=2 {
        for dz in -2i32..=2 {
            if dx.abs().max(dz.abs()) == 2 {
                expected.insert((dx, dz));
            }
        }
    }
    assert_eq!(seen, expected);

    // Every other stage's cursor starts on that same ring and runs out to
    // its padded radius.
    for (stage_cursor, padded) in
        [(unit.light, 3u32), (unit.carver, 4), (unit.biome, 5), (unit.structure_starts, 12)]
    {
        let mut c = stage_cursor;
        let mut count = 0usize;
        let mut first_ring = HashSet::new();
        while let Some(col) = c.next() {
            let d = cheb(origin, col);
            assert!((2..=padded).contains(&d));
            if d == 2 {
                first_ring.insert((col.x, col.z));
            }
            count += 1;
        }
        let want: usize = (2..=padded).map(|r| 8 * r as usize).sum();
        assert_eq!(count, want);
        assert_eq!(first_ring, expected);
    }
}

#[test]
fn radius_zero_request_still_yields_one_work_unit() {
    let request = LoadRequest { origin: Column { x: 3, z: 3 }, radius: 0 };
    let mut traversal = RequestTraversal::new(request);
    let unit = traversal.next().expect("one unit");
    assert_eq!(unit.distance, 0);
    assert_eq!(unit.terrain.radius, 0);
    assert_eq!(unit.structure_starts.radius, 10);
    assert!(traversal.next().is_none());
}
