use alwm::geom::Geometry;
use alwm::registry::Registry;

#[test]
fn registry_tracks_managed_windows() {
    let mut r = Registry::new();
    assert_eq!(r.len(), 0);
    assert!(!r.contains(5));
    assert_eq!(r.get(5), None);

    let g = Geometry::new(1, 2, 30, 40);
    r.insert(5, g);
    assert!(r.contains(5));
    assert_eq!(r.get(5), Some(g));
    assert_eq!(r.len(), 1);

    // Re-inserting updates in place.
    let g2 = Geometry::new(7, 8, 9, 10);
    r.insert(5, g2);
    assert_eq!(r.get(5), Some(g2));
    assert_eq!(r.len(), 1);

    r.insert(6, g);
    assert_eq!(r.len(), 2);

    r.remove(5);
    assert!(!r.contains(5));
    assert!(r.contains(6));
    assert_eq!(r.len(), 1);

    // Removing an absent window changes nothing.
    r.remove(99);
    assert_eq!(r.len(), 1);
}
