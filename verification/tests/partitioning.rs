//! Domain decomposition: disjoint, exhaustive slabs.

use marching_cubes::partition::partition_ranges;

#[test]
fn slabs_cover_every_index_exactly_once() {
    for n in [0usize, 1, 2, 5, 10, 63] {
        for w in [1usize, 2, 3, 7, 64] {
            let r = partition_ranges(n, w);
            assert_eq!(r.len(), w, "n {} w {}", n, w);
            assert_eq!(r[0].0, 0);
            assert_eq!(r[w - 1].1, n);
            for k in 0..w {
                assert!(r[k].0 <= r[k].1 && r[k].1 <= n, "n {} w {} slab {}", n, w, k);
                if k + 1 < w {
                    assert_eq!(r[k].1, r[k + 1].0, "n {} w {} slab {}", n, w, k);
                }
            }
            let mut seen = vec![0usize; n];
            for &(a, b) in r.iter() {
                for x in a..b {
                    seen[x] += 1;
                }
            }
            assert!(seen.iter().all(|&c| c == 1), "n {} w {}", n, w);
        }
    }
}

#[test]
fn slabs_balance_near_the_ceiling() {
    let r = partition_ranges(10, 3);
    assert_eq!(r, vec![(0, 4), (4, 8), (8, 10)]);
    let r = partition_ranges(6, 3);
    assert_eq!(r, vec![(0, 2), (2, 4), (4, 6)]);
    let r = partition_ranges(2, 4);
    assert_eq!(r[3].1, 2);
}
