use audvis::mesh::{bar_vertex_layout, compute_bar_indices, Level, VertexSlot};
use audvis::N;

#[test]
fn indices_for_one_bar() {
    assert_eq!(compute_bar_indices(1), vec![[0, 1, 2], [1, 2, 3]]);
}

#[test]
fn indices_for_zero_bars_are_empty() {
    assert!(compute_bar_indices(0).is_empty());
    assert_eq!(bar_vertex_layout(0), vec![VertexSlot { column: 0, level: Level::Baseline }]);
}

#[test]
fn index_count_is_twice_the_bar_count() {
    assert_eq!(compute_bar_indices(N).len(), 2 * N as usize);
    assert_eq!(bar_vertex_layout(N).len(), 3 * N as usize + 1);
}

#[test]
fn indices_are_identical_across_calls() {
    assert_eq!(compute_bar_indices(N), compute_bar_indices(N));
}

#[test]
fn indices_of_last_bar() {
    let r = compute_bar_indices(N);
    let last = r.len() - 1;
    assert_eq!(r[last - 1], [1023, 1024, 1025 + 2046]);
    assert_eq!(r[last], [1024, 1025 + 2046, 1025 + 2047]);
    assert_eq!(r[last][2], 3 * N);
}

#[test]
fn four_bars_make_eight_triangles() {
    let r = compute_bar_indices(4);
    assert_eq!(r.len(), 8);
    assert_eq!(
        r,
        vec![
            [0, 1, 5],
            [1, 5, 6],
            [1, 2, 7],
            [2, 7, 8],
            [2, 3, 9],
            [3, 9, 10],
            [3, 4, 11],
            [4, 11, 12],
        ]
    );
}

#[test]
fn four_bar_layout() {
    let l = bar_vertex_layout(4);
    assert_eq!(l.len(), 13);
    for c in 0..5u32 {
        assert_eq!(l[c as usize], VertexSlot { column: c, level: Level::Baseline });
    }
    for b in 0..4u32 {
        let left = 5 + 2 * b as usize;
        assert_eq!(l[left], VertexSlot { column: b, level: Level::Top(b) });
        assert_eq!(l[left + 1], VertexSlot { column: b + 1, level: Level::Top(b) });
    }
}

#[test]
fn every_triangle_stays_on_its_bar() {
    let n: u32 = 16;
    let r = compute_bar_indices(n);
    let l = bar_vertex_layout(n);
    for (k, t) in r.iter().enumerate() {
        let b = (k / 2) as u32;
        for &v in t.iter() {
            let slot = l[v as usize];
            assert!(slot.column == b || slot.column == b + 1);
            assert!(slot.level == Level::Baseline || slot.level == Level::Top(b));
        }
    }
}
