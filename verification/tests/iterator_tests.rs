use presence_rs::Presence;

#[test]
fn test_into_iter() {
    let some = Presence::Present(42);
    let mut iter = some.into_iter();
    assert_eq!(iter.next(), Some(42));
    assert_eq!(iter.next(), None);

    let null: Presence<i32> = Presence::Null;
    let mut iter = null.into_iter();
    assert_eq!(iter.next(), None);

    let absent: Presence<i32> = Presence::Absent;
    let mut iter = absent.into_iter();
    assert_eq!(iter.next(), None);
}

#[test]
fn test_iter() {
    let some = Presence::Present(42);
    let mut iter = some.iter();
    assert_eq!(iter.next(), Some(&42));
    assert_eq!(iter.next(), None);

    let null: Presence<i32> = Presence::Null;
    let mut iter = null.iter();
    assert_eq!(iter.next(), None);

    let absent: Presence<i32> = Presence::Absent;
    let mut iter = absent.iter();
    assert_eq!(iter.next(), None);
}

#[test]
fn test_iter_mut() {
    let mut some = Presence::Present(42);
    let mut iter = some.iter_mut();
    while let Some(val) = iter.next() {
        *val *= 2;
    }
    assert_eq!(some, Presence::Present(84));

    let mut null: Presence<i32> = Presence::Null;
    let mut count = 0;
    let mut iter = null.iter_mut();
    while let Some(_) = iter.next() {
        count += 1;
    }
    assert_eq!(count, 0);
}

#[test]
fn test_exact_size_iterator() {
    let some = Presence::Present(42);
    let iter = some.iter();
    assert_eq!(iter.len(), 1);

    let null: Presence<i32> = Presence::Null;
    let iter = null.iter();
    assert_eq!(iter.len(), 0);

    let absent: Presence<i32> = Presence::Absent;
    let iter = absent.iter();
    assert_eq!(iter.len(), 0);
}

#[test]
fn test_double_ended_iterator() {
    let some = Presence::Present(42);
    let mut iter = some.iter();
    assert_eq!(iter.next_back(), Some(&42));
    assert_eq!(iter.next_back(), None);

    let null: Presence<i32> = Presence::Null;
    let mut iter = null.iter();
    assert_eq!(iter.next_back(), None);
}

#[test]
fn test_item_next_back() {
    let some = Presence::Present(42);
    let mut iter = some.into_iter();
    assert_eq!(iter.next_back(), Some(42));
    assert_eq!(iter.next_back(), None);
}

#[test]
fn test_collect() {
    let some = Presence::Present(42);
    let mut collected: Vec<i32> = Vec::new();
    let mut iter = some.into_iter();
    while let Some(val) = iter.next() {
        collected.push(val);
    }
    assert_eq!(collected, vec![42]);

    let null: Presence<i32> = Presence::Null;
    let mut collected: Vec<i32> = Vec::new();
    let mut iter = null.into_iter();
    while let Some(val) = iter.next() {
        collected.push(val);
    }
    assert_eq!(collected, Vec::<i32>::new());

    let absent: Presence<i32> = Presence::Absent;
    let mut collected: Vec<i32> = Vec::new();
    let mut iter = absent.into_iter();
    while let Some(val) = iter.next() {
        collected.push(val);
    }
    assert_eq!(collected, Vec::<i32>::new());
}

#[test]
fn test_for_loop() {
    let some = Presence::Present(42);
    let mut values = Vec::new();
    let mut iter = some.into_iter();
    while let Some(val) = iter.next() {
        values.push(val);
    }
    assert_eq!(values, vec![42]);

    let null: Presence<i32> = Presence::Null;
    let mut values = Vec::new();
    let mut iter = null.into_iter();
    while let Some(val) = iter.next() {
        values.push(val);
    }
    assert_eq!(values, Vec::<i32>::new());
}

#[test]
fn test_for_loop_with_references() {
    let some = Presence::Present(42);
    let mut values = Vec::new();
    let mut iter = some.iter();
    while let Some(val) = iter.next() {
        values.push(*val);
    }
    assert_eq!(values, vec![42]);
}

#[test]
fn test_iterator_chain() {
    let presence1 = Presence::Present(1);
    let presence2 = Presence::Present(2);
    let presence3: Presence<i32> = Presence::Null;

    let mut collected: Vec<i32> = Vec::new();
    for p in [presence1, presence2, presence3] {
        let mut iter = p.into_iter();
        while let Some(val) = iter.next() {
            collected.push(val);
        }
    }

    assert_eq!(collected, vec![1, 2]);
}

#[test]
fn test_iterator_map() {
    let some = Presence::Present(5);
    let mut doubled: Vec<i32> = Vec::new();
    let mut iter = some.into_iter();
    while let Some(val) = iter.next() {
        doubled.push(val * 2);
    }
    assert_eq!(doubled, vec![10]);
}

#[test]
fn test_iterator_filter() {
    let some1 = Presence::Present(5);
    let mut filtered1: Vec<i32> = Vec::new();
    let mut iter = some1.into_iter();
    while let Some(val) = iter.next() {
        if val > 3 {
            filtered1.push(val);
        }
    }
    assert_eq!(filtered1, vec![5]);

    let some2 = Presence::Present(5);
    let mut filtered2: Vec<i32> = Vec::new();
    let mut iter = some2.into_iter();
    while let Some(val) = iter.next() {
        if val > 10 {
            filtered2.push(val);
        }
    }
    assert_eq!(filtered2, Vec::<i32>::new());
}

#[test]
fn test_from_iterator() {
    let values = vec![Presence::Present(1), Presence::Present(2), Presence::Null];
    let mut collected: Vec<i32> = Vec::new();
    for p in values {
        let mut iter = p.into_iter();
        while let Some(val) = iter.next() {
            collected.push(val);
        }
    }
    assert_eq!(collected, vec![1, 2]);
}

#[test]
fn test_size_hint() {
    let some = Presence::Present(42);
    let iter = some.iter();
    assert_eq!(iter.size_hint(), (1, Some(1)));

    let null: Presence<i32> = Presence::Null;
    let iter = null.iter();
    assert_eq!(iter.size_hint(), (0, Some(0)));

    let absent: Presence<i32> = Presence::Absent;
    let iter = absent.iter();
    assert_eq!(iter.size_hint(), (0, Some(0)));
}

#[test]
fn test_iter_mut_handle() {
    let mut some = Presence::Present(42);
    let mut iter = some.iter_mut();
    match iter.next() {
        Some(v) => *v = 100,
        None => panic!("expected a handle"),
    }
    assert_eq!(iter.next(), None);
    assert_eq!(some, Presence::Present(100));
}
