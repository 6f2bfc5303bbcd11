use rune::slice::{Iter, IterMut};

#[test]
fn elements_are_taken_from_both_ends() {
    let values = [1, 2, 3, 4];
    let mut it = Iter::new(&values);
    assert_eq!(it.len(), 4);
    assert_eq!(it.size_hint(), (4, Some(4)));
    assert_eq!(it.next(), Some(&1));
    assert_eq!(it.next_back(), Some(&4));
    assert_eq!(it.len(), 2);
    assert_eq!(it.next(), Some(&2));
    assert_eq!(it.next(), Some(&3));
    assert_eq!(it.next(), None);
    assert_eq!(it.next_back(), None);
    assert!(it.is_empty());
}

#[test]
fn elements_are_skipped() {
    let values = [1, 2, 3, 4, 5, 6];
    let mut it = Iter::new(&values);
    assert_eq!(it.nth(1), Some(&2));
    assert_eq!(it.nth_back(1), Some(&5));
    assert_eq!(it.len(), 2);
    assert_eq!(it.nth(2), None);
    assert!(it.is_empty());

    let mut it = Iter::new(&values);
    assert_eq!(it.nth_back(6), None);
    assert_eq!(it.next(), None);
    assert_eq!(Iter::new(&values).last(), Some(&6));
    assert_eq!(Iter::new(&values).count(), 6);
    assert_eq!(Iter::<u8>::new(&[]).last(), None);
}

#[test]
fn elements_are_searched() {
    let values = [1, 2, 3, 4, 5];
    let mut it = Iter::new(&values);
    assert!(!it.all(|x: &i32| *x < 3));
    assert_eq!(it.next(), Some(&4));
    assert!(Iter::new(&values).all(|x: &i32| *x < 6));

    let mut it = Iter::new(&values);
    assert!(it.any(|x: &i32| *x == 2));
    assert_eq!(it.next(), Some(&3));
    assert!(!it.any(|x: &i32| *x == 2));
    assert_eq!(it.next(), None);

    assert_eq!(Iter::new(&values).find(|x: &i32| *x > 2), Some(&3));
    assert_eq!(Iter::new(&values).find(|x: &i32| *x > 9), None);
    assert_eq!(Iter::new(&values).position(|x: &i32| *x % 2 == 0), Some(1));
    assert_eq!(Iter::new(&values).rposition(|x: &i32| *x % 2 == 0), Some(3));
    assert_eq!(Iter::new(&values).rposition(|x: &i32| *x > 9), None);
    let found = Iter::new(&values).find_map(|x: &i32| if *x > 3 { Some(x * 10) } else { None });
    assert_eq!(found, Some(40));
    assert_eq!(Iter::new(&values).fold(0, |acc: i32, x: &i32| acc * 10 + *x), 12345);
}

#[test]
fn elements_of_no_size_are_counted() {
    let values = [(), (), ()];
    let mut it = Iter::new(&values);
    assert_eq!(it.nth(1), Some(&()));
    assert_eq!(it.len(), 1);
    assert_eq!(it.nth_back(0), Some(&()));
    assert_eq!(it.next(), None);
}

#[test]
fn elements_are_changed_from_both_ends() {
    let mut values = [1, 2, 3, 4, 5];
    {
        let mut it = IterMut::new(&mut values);
        let first = it.next().unwrap();
        let last = it.next_back().unwrap();
        *first = 10;
        *last = 50;
        *it.nth(1).unwrap() = 30;
        assert_eq!(it.len(), 1);
        *it.nth_back(0).unwrap() = 40;
        assert!(it.next().is_none());
    }
    assert_eq!(values, [10, 2, 30, 40, 50]);
}

#[test]
fn elements_are_changed_by_functions() {
    let mut values = [1, 2, 3];
    IterMut::new(&mut values).for_each(|x: &mut i32| *x += 1);
    assert_eq!(values, [2, 3, 4]);

    let passed = IterMut::new(&mut values).all(|x: &mut i32| {
        *x *= 2;
        *x < 6
    });
    assert!(!passed);
    assert_eq!(values, [4, 6, 4]);

    assert!(IterMut::new(&mut values).any(|x: &mut i32| *x == 6));
    assert_eq!(IterMut::new(&mut values).position(|x: &mut i32| *x == 6), Some(1));
    assert_eq!(IterMut::new(&mut values).rposition(|x: &mut i32| *x == 4), Some(2));
    assert_eq!(IterMut::new(&mut values).rposition(|x: &mut i32| *x == 5), None);
    *IterMut::new(&mut values).find(|x: &&mut i32| **x == 6).unwrap() = 7;
    assert_eq!(values, [4, 7, 4]);
    let found = IterMut::new(&mut values).find_map(|x: &mut i32| {
        *x += 1;
        if *x == 8 {
            Some("eight")
        } else {
            None
        }
    });
    assert_eq!(found, Some("eight"));
    assert_eq!(values, [5, 8, 4]);
    let sum = IterMut::new(&mut values).fold(0, |acc: i32, x: &mut i32| {
        *x = 0;
        acc + 1
    });
    assert_eq!(sum, 3);
    assert_eq!(values, [0, 0, 0]);
    *IterMut::new(&mut values).last().unwrap() = 9;
    assert_eq!(values, [0, 0, 9]);
    assert_eq!(IterMut::new(&mut values).count(), 3);
    assert_eq!(IterMut::new(&mut values).size_hint(), (3, Some(3)));
}
