use vectorish::{VecError, Vectorish};

fn list_of(items: &[u64]) -> Vectorish {
    let mut v = Vectorish::new();
    for &x in items {
        v.push_back(x);
    }
    v
}

#[test]
fn new_list_is_empty() {
    let v = Vectorish::new();
    assert_eq!(v.len(), 0);
    assert_eq!(v.__len__(), 0);
    assert_eq!(v.to_vec(), Vec::<u64>::new());
}

#[test]
fn scenario_push_remove_insert_reverse() {
    let mut v = Vectorish::new();
    v.push_back(1);
    v.push_back(2);
    v.push_front(0);
    assert_eq!(v.to_vec(), vec![0, 1, 2]);
    assert_eq!(v.len(), 3);
    assert_eq!(v.remove(1), Ok(1));
    assert_eq!(v.to_vec(), vec![0, 2]);
    v.insert(5, 9);
    assert_eq!(v.to_vec(), vec![0, 2, 9]);
    v.reverse();
    assert_eq!(v.to_vec(), vec![9, 2, 0]);
}

#[test]
fn insert_then_get_returns_item() {
    for i in 0..=4usize {
        let mut v = list_of(&[10, 11, 12, 13]);
        v.insert(i, 99);
        assert_eq!(v.get(i), Some(99));
        assert_eq!(v.len(), 5);
    }
}

#[test]
fn insert_in_middle_shifts_rest() {
    let mut v = list_of(&[1, 2, 3]);
    v.insert(1, 7);
    assert_eq!(v.to_vec(), vec![1, 7, 2, 3]);
    v.insert(0, 8);
    assert_eq!(v.to_vec(), vec![8, 1, 7, 2, 3]);
}

#[test]
fn insert_past_end_appends() {
    let mut v = list_of(&[1, 2]);
    v.insert(2, 3);
    v.insert(usize::MAX, 4);
    assert_eq!(v.to_vec(), vec![1, 2, 3, 4]);
}

#[test]
fn set_then_get_returns_new_value() {
    let mut v = list_of(&[1, 2, 3]);
    assert_eq!(v.set(1, 20), Ok(()));
    assert_eq!(v.get(1), Some(20));
    assert_eq!(v.to_vec(), vec![1, 20, 3]);
    assert_eq!(v.set(3, 5), Err(VecError::IndexOutOfRange));
    assert_eq!(v.to_vec(), vec![1, 20, 3]);
}

#[test]
fn length_follows_successful_operations() {
    let mut v = Vectorish::new();
    v.append(1);
    v.append_left(0);
    v.insert(1, 5);
    assert_eq!(v.len(), 3);
    assert_eq!(v.remove(7), Err(VecError::IndexOutOfRange));
    assert_eq!(v.len(), 3);
    assert_eq!(v.pop_front(), Ok(0));
    assert_eq!(v.pop_back(), Ok(1));
    assert_eq!(v.len(), 1);
    assert_eq!(v.pop(None), Ok(5));
    assert_eq!(v.pop(None), Err(VecError::PopFromEmpty));
    assert_eq!(v.len(), 0);
}

#[test]
fn push_front_comes_first_push_back_comes_last() {
    let mut v = list_of(&[5, 6]);
    v.push_front(4);
    v.push_back(7);
    let items = v.to_vec();
    assert_eq!(items.first(), Some(&4));
    assert_eq!(items.last(), Some(&7));
    assert_eq!(v.to_vec_rev(), vec![7, 6, 5, 4]);
}

#[test]
fn reverse_twice_restores_order() {
    let mut v = list_of(&[3, 1, 4, 1, 5, 9, 2, 6]);
    v.reverse();
    assert_eq!(v.to_vec(), vec![6, 2, 9, 5, 1, 4, 1, 3]);
    v.reverse();
    assert_eq!(v.to_vec(), vec![3, 1, 4, 1, 5, 9, 2, 6]);
}

#[test]
fn reverse_of_empty_and_single() {
    let mut v = Vectorish::new();
    v.reverse();
    assert_eq!(v.len(), 0);
    v.push_back(42);
    v.reverse();
    assert_eq!(v.to_vec(), vec![42]);
}

#[test]
fn boundary_get_and_remove_at_length_fail() {
    let mut v = list_of(&[1, 2]);
    assert_eq!(v.get(2), None);
    assert_eq!(v.remove(2), Err(VecError::IndexOutOfRange));
    assert_eq!(v.__getitem__(2), Err(VecError::IndexOutOfRange));
    assert_eq!(v.to_vec(), vec![1, 2]);
}

#[test]
fn pop_from_empty_fails() {
    let mut v = Vectorish::new();
    assert_eq!(v.pop_back(), Err(VecError::PopFromEmpty));
    assert_eq!(v.pop_front(), Err(VecError::PopFromEmpty));
    assert_eq!(v.pop(None), Err(VecError::PopFromEmpty));
    assert_eq!(v.pop(Some(0)), Err(VecError::IndexOutOfRange));
}

#[test]
fn pop_at_index_and_from_back() {
    let mut v = list_of(&[1, 2, 3, 4]);
    assert_eq!(v.pop(Some(1)), Ok(2));
    assert_eq!(v.pop(Some(4)), Err(VecError::IndexOutOfRange));
    assert_eq!(v.pop(None), Ok(4));
    assert_eq!(v.to_vec(), vec![1, 3]);
}

#[test]
fn negative_indices_count_from_end() {
    let mut v = list_of(&[10, 20, 30]);
    assert_eq!(v.__getitem__(-1), Ok(30));
    assert_eq!(v.__getitem__(-3), Ok(10));
    assert_eq!(v.__getitem__(-4), Err(VecError::IndexOutOfRange));
    assert_eq!(v.__getitem__(isize::MIN), Err(VecError::IndexOutOfRange));
    assert_eq!(v.__getitem__(0), Ok(10));
    assert_eq!(v.__setitem__(-2, 25), Ok(()));
    assert_eq!(v.__setitem__(3, 1), Err(VecError::IndexOutOfRange));
    assert_eq!(v.__setitem__(-4, 1), Err(VecError::IndexOutOfRange));
    assert_eq!(v.to_vec(), vec![10, 25, 30]);
}

#[test]
fn clear_empties_and_list_is_reusable() {
    let mut v = list_of(&[1, 2, 3]);
    v.clear();
    assert_eq!(v.len(), 0);
    assert_eq!(v.get(0), None);
    v.push_back(8);
    assert_eq!(v.to_vec(), vec![8]);
}

#[test]
fn many_elements_keep_order_under_mixed_operations() {
    let mut v = Vectorish::new();
    let mut model: Vec<u64> = Vec::new();
    for i in 0..300u64 {
        let pos = ((i * 7919) % (model.len() as u64 + 1)) as usize;
        v.insert(pos, i);
        model.insert(pos, i);
        if i % 5 == 0 {
            let r = ((i * 31) % model.len() as u64) as usize;
            assert_eq!(v.remove(r), Ok(model.remove(r)));
        }
    }
    assert_eq!(v.len(), model.len());
    assert_eq!(v.to_vec(), model);
    for (i, x) in model.iter().enumerate() {
        assert_eq!(v.get(i), Some(*x));
    }
}
