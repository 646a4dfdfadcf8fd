use tweakpoint::utils::{EitherIter, IteratorExt};

#[test]
fn either_iter_keeps_its_side() {
    let l: EitherIter<u8, u16> = EitherIter::left(3);
    assert!(matches!(l, EitherIter::Left(3)));
    let r: EitherIter<u8, u16> = EitherIter::right(4);
    assert!(matches!(r, EitherIter::Right(4)));
    let l: EitherIter<u8, u16> = 5u8.left();
    assert!(matches!(l, EitherIter::Left(5)));
    let r: EitherIter<u8, u16> = 6u16.right();
    assert!(matches!(r, EitherIter::Right(6)));
}

#[test]
fn either_iter_hands_out_the_items_of_the_iterator_inside() {
    let mut it: EitherIter<std::vec::IntoIter<i32>, std::ops::Range<i32>> =
        EitherIter::left(vec![1, 2].into_iter());
    assert_eq!(it.next(), Some(1));
    assert_eq!(it.next(), Some(2));
    assert_eq!(it.next(), None);
    assert_eq!(it.next(), None);
    let mut it: EitherIter<std::vec::IntoIter<i32>, std::ops::Range<i32>> = (7..9).right();
    assert_eq!(it.next(), Some(7));
    assert_eq!(it.next(), Some(8));
    assert_eq!(it.next(), None);
}
