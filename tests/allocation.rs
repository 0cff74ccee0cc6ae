use heap_arr::{new, new_default, new_uninit, HeapArray};

#[test]
fn test_new() {
    let arr = new::<Option<bool>, 1_000>(&Some(false)).unwrap();
    assert_eq!(arr.len(), 1_000);
    assert_eq!(*arr.get(999), Some(false));
}

#[test]
fn test_default() {
    let arr = new_default::<Option<bool>, 1_000>().unwrap();
    assert_eq!(arr.len(), 1_000);
    assert_eq!(*arr.get(999), None);
}

#[test]
fn test_uninit() {
    let _ = new_uninit::<u64, 1_000>().unwrap();
}

#[test]
fn new_fills_every_slot_and_slots_are_independent() {
    let mut arr = new::<i32, 1_000>(&7).unwrap();
    assert_eq!(arr.len(), 1_000);
    assert!(arr.as_slice().iter().all(|&x| x == 7));
    arr.set(999, 42);
    assert_eq!(*arr.get(999), 42);
    assert_eq!(*arr.get(0), 7);
    assert_eq!(*arr.get(998), 7);
}

#[test]
fn new_clones_are_deep() {
    let mut arr = new::<Vec<i32>, 3>(&vec![1, 2]).unwrap();
    arr.set(1, vec![9]);
    assert_eq!(*arr.get(0), vec![1, 2]);
    assert_eq!(*arr.get(1), vec![9]);
    assert_eq!(*arr.get(2), vec![1, 2]);
}

#[test]
fn new_default_gives_none_everywhere() {
    let arr = new_default::<Option<bool>, 1_000>().unwrap();
    assert!(arr.as_slice().iter().all(|x| x.is_none()));
}

#[test]
fn new_default_of_integers_is_zero() {
    let arr = new_default::<u64, 64>().unwrap();
    assert_eq!(arr.as_slice(), &[0u64; 64][..]);
}

#[test]
fn two_default_arrays_are_independent() {
    let mut a = new_default::<u32, 16>().unwrap();
    let b = new_default::<u32, 16>().unwrap();
    a.set(3, 5);
    assert_eq!(*b.get(3), 0);
    drop(a);
    assert_eq!(b.len(), 16);
    assert!(b.as_slice().iter().all(|&x| x == 0));
}

#[test]
fn too_large_layout_is_an_error() {
    const HUGE: usize = usize::MAX / 8;
    assert!(new_uninit::<u64, HUGE>().is_err());
    assert!(new::<u64, HUGE>(&1).is_err());
    assert!(new_default::<u64, HUGE>().is_err());
}

#[test]
fn layout_just_past_the_limit_is_an_error() {
    const PAST: usize = isize::MAX as usize / 2 + 1;
    assert!(new_uninit::<u16, PAST>().is_err());
}

#[test]
fn zero_length_and_zero_sized_elements() {
    let empty = new::<u32, 0>(&5).unwrap();
    assert_eq!(empty.len(), 0);
    assert!(empty.as_slice().is_empty());
    let units = new::<(), 10>(&()).unwrap();
    assert_eq!(units.len(), 10);
}

#[test]
fn uninit_write_then_read_round_trips() {
    let mut slots = new_uninit::<u64, 4>().unwrap();
    assert_eq!(slots.initialized(), 0);
    slots.write(0, 10);
    slots.write(1, 11);
    assert_eq!(*slots.get(0), 10);
    assert_eq!(*slots.get(1), 11);
    slots.write(0, 20);
    assert_eq!(*slots.get(0), 20);
    assert_eq!(*slots.get(1), 11);
    assert_eq!(slots.initialized(), 2);
    slots.write(2, 12);
    slots.write(3, 13);
    let arr: HeapArray<u64, 4> = slots.assume_init();
    assert_eq!(arr.as_slice(), &[20, 11, 12, 13][..]);
}

#[test]
fn into_boxed_array_keeps_the_elements() {
    let mut arr = new::<u8, 5>(&3).unwrap();
    arr.set(4, 8);
    let boxed: Box<[u8; 5]> = arr.into_boxed_array();
    assert_eq!(*boxed, [3, 3, 3, 3, 8]);
}
