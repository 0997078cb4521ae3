use molcv::range::{RangeLimit, TargetRange};

#[test]
fn half_open_range_resolves_to_its_ends() {
    assert_eq!(TargetRange::new(1, 4).resolve(5), Some((1, 4)));
    assert_eq!(TargetRange::new(0, 0).resolve(5), Some((0, 0)));
    assert_eq!(TargetRange::new(5, 5).resolve(5), Some((5, 5)));
}

#[test]
fn unlimited_range_covers_every_residue() {
    assert_eq!(TargetRange::all().resolve(7), Some((0, 7)));
    assert_eq!(TargetRange::all().resolve(0), Some((0, 0)));
    assert_eq!(TargetRange::all().resolve(7), TargetRange::new(0, 7).resolve(7));
}

#[test]
fn each_kind_of_limit_is_resolved() {
    let range = TargetRange { start: RangeLimit::Excluded(1), end: RangeLimit::Included(3) };
    assert_eq!(range.resolve(5), Some((2, 4)));
    let range = TargetRange { start: RangeLimit::Unbounded, end: RangeLimit::Included(4) };
    assert_eq!(range.resolve(5), Some((0, 5)));
    let range = TargetRange { start: RangeLimit::Included(2), end: RangeLimit::Unbounded };
    assert_eq!(range.resolve(5), Some((2, 5)));
    let range = TargetRange { start: RangeLimit::Excluded(4), end: RangeLimit::Unbounded };
    assert_eq!(range.resolve(5), Some((5, 5)));
}

#[test]
fn range_outside_the_residues_is_refused() {
    assert_eq!(TargetRange::new(0, 6).resolve(5), None);
    assert_eq!(TargetRange::new(3, 2).resolve(5), None);
    assert_eq!(TargetRange::new(6, 6).resolve(5), None);
    let range = TargetRange { start: RangeLimit::Unbounded, end: RangeLimit::Included(5) };
    assert_eq!(range.resolve(5), None);
    let range = TargetRange { start: RangeLimit::Excluded(5), end: RangeLimit::Unbounded };
    assert_eq!(range.resolve(5), None);
}

#[test]
fn limits_at_the_largest_index_do_not_wrap() {
    let range = TargetRange { start: RangeLimit::Excluded(usize::MAX), end: RangeLimit::Unbounded };
    assert_eq!(range.resolve(usize::MAX), None);
    let range = TargetRange { start: RangeLimit::Unbounded, end: RangeLimit::Included(usize::MAX) };
    assert_eq!(range.resolve(usize::MAX), None);
    assert_eq!(TargetRange::all().resolve(usize::MAX), Some((0, usize::MAX)));
}
