//! Behavior of the option-combining helper and the axis enumeration.

use lustre::utils::match_opts::match_opts;
use lustre::utils::Axis;

fn closer(a: i32, b: i32) -> i32 {
    if a < b {
        a
    } else {
        b
    }
}

#[test]
fn both_none_gives_none() {
    assert_eq!(match_opts(None, None, closer), None);
}

#[test]
fn one_some_passes_through() {
    assert_eq!(match_opts(Some(3), None, closer), Some(3));
    assert_eq!(match_opts(None, Some(9), closer), Some(9));
}

#[test]
fn both_some_applies_op() {
    assert_eq!(match_opts(Some(7), Some(4), closer), Some(4));
    assert_eq!(match_opts(Some(2), Some(8), closer), Some(2));
}

#[test]
fn axis_component_indices() {
    assert_eq!(Axis::X.as_index(), 0);
    assert_eq!(Axis::Y.as_index(), 1);
    assert_eq!(Axis::Z.as_index(), 2);
}

#[test]
fn axes_are_in_component_order() {
    let axes = Axis::axes();
    assert_eq!(axes[0].as_index(), 0);
    assert_eq!(axes[1].as_index(), 1);
    assert_eq!(axes[2].as_index(), 2);
}
