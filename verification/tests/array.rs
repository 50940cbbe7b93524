use strctr::array::{Array, ArrayError};

#[test]
fn new_array_is_empty_with_full_capacity() {
    let a: Array<u32, 7> = Array::new();
    assert_eq!(a.len(), 0);
    assert!(a.is_empty());
    assert_eq!(a.capacity(), 7);
    assert_eq!(a.size(), 7);
}

#[test]
fn new_array_holds_defaults_in_every_slot_it_lets_read() {
    let a: Array<i64, 4> = Array::new();
    assert_eq!(a[0], 0);
    let b: Array<bool, 2> = Array::new();
    assert_eq!(b[0], false);
    let c: Array<(u8, char), 2> = Array::new();
    assert_eq!(c[0], (0, '\0'));
}

#[test]
fn default_is_new() {
    let a: Array<u16, 3> = Default::default();
    assert_eq!(a.len(), 0);
    assert!(a.is_empty());
    assert_eq!(a.size(), 3);
    assert_eq!(a[0], 0);
}

#[test]
fn is_empty_until_first_push() {
    let mut a: Array<_, 15> = Array::new();
    assert!(a.is_empty());
    a.push(12);
    assert_eq!(a.is_empty(), false);
}

#[test]
fn len_counts_pushes() {
    let mut a: Array<usize, 15> = Array::new();
    assert_eq!(a.len(), 0);
    a.push(12);
    assert_eq!(a.len(), 1);
}

#[test]
fn size_stays_while_len_grows() {
    let mut a: Array<usize, 15> = Array::new();
    assert_eq!(a.size(), 15);
    assert_eq!(a.len(), 0);

    a.push(10);
    assert_eq!(a.size(), 15);
    assert_eq!(a.len(), 1);
}

#[test]
fn try_push_reports_overflow() {
    let mut a: Array<usize, 1> = Array::new();
    let res = a.try_push(1);
    assert!(res.is_ok());
    let res2 = a.try_push(2);
    assert!(res2.is_err());
}

#[test]
fn push_adds_one() {
    let mut a: Array<usize, 1> = Array::new();
    a.push(1);
    assert_eq!(a.len(), 1);
}

#[test]
fn index_reads_what_was_pushed() {
    let mut a: Array<usize, 5> = Array::new();
    a.push(1);
    a.push(2);
    assert_eq!(a[0], 1);
    assert_eq!(a[1], 2);
}

#[test]
fn index_mut_updates_a_slot() {
    let mut a: Array<usize, 5> = Array::new();
    a.push(1);
    a[0] = 20;
    assert_eq!(a[0], 20);
}

#[test]
fn capacity_one_accepts_one_then_overflows() {
    let mut a: Array<i32, 1> = Array::new();
    assert_eq!(a.try_push(1), Ok(()));
    assert_eq!(a.len(), 1);
    assert_eq!(a.try_push(2), Err(ArrayError::Overflow));
    assert_eq!(a.len(), 1);
    assert_eq!(a[0], 1);
}

#[test]
fn push_read_write_read() {
    let mut a: Array<i32, 5> = Array::new();
    a.push(1);
    a.push(2);
    assert_eq!(a[0], 1);
    assert_eq!(a[1], 2);
    a[0] = 20;
    assert_eq!(a[0], 20);
    assert_eq!(a.len(), 2);
}

#[test]
fn filling_to_capacity_then_overflow_changes_nothing() {
    let mut a: Array<u64, 6> = Array::new();
    for k in 0..6u64 {
        assert_eq!(a.try_push(100 + k), Ok(()));
        assert_eq!(a.len() as u64, k + 1);
    }
    assert_eq!(a.len(), 6);
    assert_eq!(a.len(), a.capacity());
    assert_eq!(a.try_push(999), Err(ArrayError::Overflow));
    assert_eq!(a.try_push(998), Err(ArrayError::Overflow));
    assert_eq!(a.len(), 6);
    for k in 0..6usize {
        assert_eq!(a[k], 100 + k as u64);
    }
}

#[test]
fn zero_capacity_overflows_at_once() {
    let mut a: Array<u8, 0> = Array::new();
    assert!(a.is_empty());
    assert_eq!(a.len(), 0);
    assert_eq!(a.capacity(), 0);
    assert_eq!(a.try_push(1), Err(ArrayError::Overflow));
    assert_eq!(a.len(), 0);
    assert!(a.is_empty());
}

#[test]
fn pushed_value_reads_back_at_old_length() {
    let mut a: Array<char, 4> = Array::new();
    for (k, v) in ['w', 'x', 'y', 'z'].into_iter().enumerate() {
        assert_eq!(a.len(), k);
        assert_eq!(a.try_push(v), Ok(()));
        assert_eq!(a[k], v);
        assert_eq!(a.len(), k + 1);
    }
}

#[test]
fn write_replaces_only_its_slot() {
    let mut a: Array<i32, 5> = Array::new();
    a.push(10);
    a.push(11);
    a.push(12);
    a[1] = -5;
    assert_eq!(a[0], 10);
    assert_eq!(a[1], -5);
    assert_eq!(a[2], 12);
    assert_eq!(a[3], 0);
    assert_eq!(a.len(), 3);
    a[2] = 7;
    a[0] = 8;
    assert_eq!(a[0], 8);
    assert_eq!(a[1], -5);
    assert_eq!(a[2], 7);
    assert_eq!(a.len(), 3);
}

#[test]
fn capacity_is_the_same_after_pushes_and_writes() {
    let mut a: Array<u8, 3> = Array::new();
    assert_eq!(a.capacity(), 3);
    a.push(1);
    assert_eq!(a.capacity(), 3);
    a[0] = 9;
    assert_eq!(a.capacity(), 3);
    a.push(2);
    a.push(3);
    assert_eq!(a.capacity(), 3);
    assert_eq!(a.try_push(4), Err(ArrayError::Overflow));
    assert_eq!(a.capacity(), 3);
    assert_eq!(a.size(), 3);
}

#[test]
fn first_vacant_slot_reads_as_default() {
    let mut a: Array<u32, 3> = Array::new();
    assert_eq!(a[0], 0);
    a.push(5);
    assert_eq!(a[1], 0);
    a.push(6);
    assert_eq!(a[2], 0);
}

#[test]
fn write_to_first_vacant_slot_does_not_occupy_it() {
    let mut a: Array<u32, 3> = Array::new();
    a.push(5);
    a[1] = 77;
    assert_eq!(a.len(), 1);
    assert_eq!(a[1], 77);
    assert_eq!(a[0], 5);
    a.push(6);
    assert_eq!(a.len(), 2);
    assert_eq!(a[1], 6);
}

#[test]
fn overflow_is_the_only_error() {
    let mut a: Array<u8, 2> = Array::new();
    a.push(1);
    a.push(2);
    let e = a.try_push(3).unwrap_err();
    assert!(matches!(e, ArrayError::Overflow));
    assert_eq!(e, ArrayError::Overflow);
    assert_eq!(format!("{:?}", e), "Overflow");
}
