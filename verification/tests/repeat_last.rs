use monitor::LastRepeatIter;

#[test]
fn it_works() {
    let mut it = LastRepeatIter::new(vec![1, 2, 3]);

    assert_eq!(it.next(), Some(1));
    assert_eq!(it.next(), Some(2));
    for _ in 0..100 {
        assert_eq!(it.next(), Some(3));
    }
}

#[test]
fn it_breaks() {
    assert!(LastRepeatIter::new(Vec::<()>::new()).next().is_none());
}

#[test]
fn empty_input_never_yields() {
    let mut it = LastRepeatIter::new(Vec::<u64>::new());
    for _ in 0..10 {
        assert_eq!(it.next(), None);
    }
}

#[test]
fn single_value_repeats_from_the_first_draw() {
    let mut it = LastRepeatIter::new(vec![500u64]);
    for _ in 0..50 {
        assert_eq!(it.next(), Some(500));
    }
}

#[test]
fn values_come_in_order_then_the_last_one_for_ever() {
    let input = vec![10u32, 20, 40, 80, 160];
    let mut it = LastRepeatIter::new(input.clone());
    let mut drawn = Vec::new();
    for _ in 0..12 {
        drawn.push(it.next());
    }
    let mut expected: Vec<Option<u32>> = input.iter().map(|d| Some(*d)).collect();
    while expected.len() < 12 {
        expected.push(Some(160));
    }
    assert_eq!(drawn, expected);
}

#[test]
fn last_value_is_not_taken_from_an_earlier_position() {
    let mut it = LastRepeatIter::new(vec![7u8, 7, 9, 7, 3]);
    let drawn: Vec<Option<u8>> = (0..8).map(|_| it.next()).collect();
    assert_eq!(
        drawn,
        vec![Some(7), Some(7), Some(9), Some(7), Some(3), Some(3), Some(3), Some(3)]
    );
}

#[test]
fn repeaters_over_copies_of_one_list_are_independent() {
    let input = vec!['a', 'b', 'c'];
    let mut first = LastRepeatIter::new(input.clone());
    assert_eq!(first.next(), Some('a'));
    assert_eq!(first.next(), Some('b'));

    let mut second = LastRepeatIter::new(input.clone());
    assert_eq!(second.next(), Some('a'));
    assert_eq!(first.next(), Some('c'));
    assert_eq!(second.next(), Some('b'));
    assert_eq!(first.next(), Some('c'));
    assert_eq!(second.next(), Some('c'));
    assert_eq!(second.next(), Some('c'));
}
