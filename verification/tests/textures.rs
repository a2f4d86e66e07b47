//! The checkered texture holds its two shared textures.

use std::sync::Arc;

use lustre::textures::checkered::Checkered;

#[test]
fn checkered_shares_both_textures() {
    let even = Arc::new([1.0f32, 1.0, 1.0]);
    let odd = Arc::new([0.0f32, 0.5, 0.0]);
    let checkered = Checkered::new(&even, &odd);
    assert!(Arc::ptr_eq(&checkered.even, &even));
    assert!(Arc::ptr_eq(&checkered.odd, &odd));
}

#[test]
fn checkered_can_nest() {
    let white = Arc::new(1u8);
    let black = Arc::new(0u8);
    let inner = Arc::new(Checkered::new(&white, &black));
    let outer = Checkered::new(&inner, &white);
    assert!(Arc::ptr_eq(&outer.even, &inner));
    assert_eq!(*outer.odd, 1);
}
