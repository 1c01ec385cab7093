use memfile::Seal;
use memfile::Seals;

fn s(seal: Seal) -> Seals {
    Seals::from_seal(seal)
}

#[test]
fn test_empty() {
    assert!(Seals::empty().len() == 0);
    assert!(Seals::empty().is_empty());
    assert!(!Seals::empty().is_all());
    assert!(Seals::empty().contains(Seals::empty()));
    assert!(!Seals::empty().contains(Seals::all()));
    assert!(!Seals::empty().contains(s(Seal::Seal)));
    assert!(!Seals::empty().contains(s(Seal::Shrink)));
    assert!(!Seals::empty().contains(s(Seal::Grow)));
    assert!(!Seals::empty().contains(s(Seal::Write)));
    assert!(!Seals::empty().contains(s(Seal::FutureWrite)));
}

#[test]
fn test_all() {
    assert!(Seals::all().len() == 5);
    assert!(!Seals::all().is_empty());
    assert!(Seals::all().is_all());
    assert!(Seals::all().contains(Seals::empty()));
    assert!(Seals::all().contains(Seals::all()));
    assert!(Seals::all().contains(s(Seal::Seal)));
    assert!(Seals::all().contains(s(Seal::Shrink)));
    assert!(Seals::all().contains(s(Seal::Grow)));
    assert!(Seals::all().contains(s(Seal::Write)));
    assert!(Seals::all().contains(s(Seal::FutureWrite)));
}

#[test]
fn test_iter() {
    let mut iter = Seals::all().iter();
    assert!(iter.next() == Some(Seal::Seal));
    assert!(iter.next() == Some(Seal::Shrink));
    assert!(iter.next() == Some(Seal::Grow));
    assert!(iter.next() == Some(Seal::Write));
    assert!(iter.next() == Some(Seal::FutureWrite));
    assert!(iter.next() == None);

    let mut iter = s(Seal::Shrink).union(s(Seal::Grow)).iter();
    assert!(iter.next() == Some(Seal::Shrink));
    assert!(iter.next() == Some(Seal::Grow));
    assert!(iter.next() == None);
}

#[test]
fn test_bitor() {
    let set = s(Seal::Seal).union(s(Seal::FutureWrite)).union(s(Seal::Write));
    assert!(set.len() == 3);
    assert!(set.contains(s(Seal::Seal)));
    assert!(!set.contains(s(Seal::Shrink)));
    assert!(!set.contains(s(Seal::Grow)));
    assert!(set.contains(s(Seal::Write)));
    assert!(set.contains(s(Seal::FutureWrite)));
}

#[test]
fn test_bitand() {
    let subset = s(Seal::Seal).union(s(Seal::Write));
    assert!(Seals::all().intersection(subset) == subset);
    assert!(Seals::all().intersection(subset).len() == 2);
}

#[test]
fn test_bitxor() {
    let left = s(Seal::Seal).union(s(Seal::Write));
    let expected = s(Seal::Shrink).union(s(Seal::Grow)).union(s(Seal::FutureWrite));
    assert!(Seals::all().symmetric_difference(left) == expected);
}

#[test]
fn test_debug() {
    assert!(Seals::empty().debug_string() == "Seals { }");
    assert!(s(Seal::Seal).debug_string() == "Seals { Seal }");
    assert!(s(Seal::Seal).union(s(Seal::Shrink)).debug_string() == "Seals { Seal | Shrink }");
    assert!(
        Seals::all().debug_string() == "Seals { Seal | Shrink | Grow | Write | FutureWrite }"
    );
}

#[test]
fn seal_bit_values() {
    assert!(s(Seal::Seal).bits() == 0x1);
    assert!(s(Seal::Shrink).bits() == 0x2);
    assert!(s(Seal::Grow).bits() == 0x4);
    assert!(s(Seal::Write).bits() == 0x8);
    assert!(s(Seal::FutureWrite).bits() == 0x10);
    assert!(Seal::Grow.bit() == 0x4);
    assert!(Seals::all().bits() == 0x1f);
    assert!(Seals::empty().bits() == 0);
}

#[test]
fn from_bits_round_trip() {
    assert!(Seals::from_bits_truncate(Seals::all().bits()) == Seals::all());
    assert!(Seals::from_bits_truncate(0) == Seals::empty());
    // Extraneous high bits truncate to the same set as the cleaned mask.
    assert!(Seals::from_bits_truncate(0xffff_ffe0 | 0x6) == Seals::from_bits_truncate(0x6));
    assert!(Seals::from_bits_truncate(0x20 | 0x3).bits() == 0x3);
}

#[test]
fn contains_matches_intersection() {
    let a = s(Seal::Seal).union(s(Seal::Grow)).union(s(Seal::Write));
    let b = s(Seal::Grow).union(s(Seal::Write));
    assert!(a.contains(b) == (a.intersection(b) == b));
    assert!(b.contains(a) == (b.intersection(a) == a));
    assert!(a.contains(b));
    assert!(!b.contains(a));
}

#[test]
fn intersects_matches_intersection() {
    let a = s(Seal::Seal).union(s(Seal::Grow));
    let b = s(Seal::Grow).union(s(Seal::Write));
    let c = s(Seal::Shrink).union(s(Seal::FutureWrite));
    assert!(a.intersects(b) == !a.intersection(b).is_empty());
    assert!(a.intersects(c) == !a.intersection(c).is_empty());
    assert!(a.intersects(b));
    assert!(!a.intersects(c));
}

#[test]
fn union_is_idempotent() {
    let a = s(Seal::Seal).union(s(Seal::Write));
    let b = s(Seal::Grow);
    assert!(a.union(b).union(a) == a.union(b));
    assert!(a.intersection(a) == a);
}

#[test]
fn complement_is_involutive() {
    let a = s(Seal::Shrink).union(s(Seal::FutureWrite));
    assert!(a.complement().complement() == a);
    assert!(Seals::empty().complement().bits() == 0xffff_ffff);
    assert!(a.symmetric_difference(a) == Seals::empty());
}

#[test]
fn difference_removes_seals() {
    let a = Seals::all();
    let b = s(Seal::Write).union(s(Seal::FutureWrite));
    let expected = s(Seal::Seal).union(s(Seal::Shrink)).union(s(Seal::Grow));
    assert!(a.difference(b) == expected);
    assert!(b.difference(a) == Seals::empty());
}

#[test]
fn in_place_operators() {
    let mut a = s(Seal::Seal);
    a.union_with(s(Seal::Grow));
    assert!(a == s(Seal::Seal).union(s(Seal::Grow)));
    a.intersect_with(s(Seal::Grow));
    assert!(a == s(Seal::Grow));
    a.union_with(s(Seal::Write));
    a.difference_with(s(Seal::Grow));
    assert!(a == s(Seal::Write));
    a.symmetric_difference_with(s(Seal::Write).union(s(Seal::Seal)));
    assert!(a == s(Seal::Seal));
}

#[test]
fn iteration_is_restartable() {
    let set = s(Seal::Grow).union(s(Seal::Seal));
    let mut first = set.iter();
    assert!(first.next() == Some(Seal::Seal));
    assert!(first.next() == Some(Seal::Grow));
    assert!(first.next() == None);
    assert!(first.next() == None);
    let mut again = set.iter();
    assert!(again.next() == Some(Seal::Seal));
    assert!(again.next() == Some(Seal::Grow));
    assert!(again.next() == None);
}

#[test]
fn iteration_ignores_unknown_bits() {
    let mut iter = Seals::from_bits_truncate(0xffff_fff0).iter();
    assert!(iter.next() == Some(Seal::FutureWrite));
    assert!(iter.next() == None);
}
