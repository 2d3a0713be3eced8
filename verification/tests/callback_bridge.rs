use keyboard_hook::bridge::ExterDataContainer;
use keyboard_hook::bridge::DEAD_GUARD;
use keyboard_hook::bridge::LIVE_GUARD;

#[test]
fn guards_have_their_values() {
    assert_eq!(LIVE_GUARD, usize::MAX);
    assert_eq!(DEAD_GUARD, 0);
}

#[test]
fn live_container_is_used() {
    let mut owner = ExterDataContainer::container(10u32);
    assert!(owner.as_ptr().check());
    let container = owner.as_mut_ptr();
    let seen = container.check_and_lock(|value: &mut u32| {
        *value += 1;
        *value * 2
    });
    assert_eq!(seen, Some(22));
    let again = container.check_and_lock(|value: &mut u32| *value);
    assert_eq!(again, Some(11));
    assert_eq!(container.lock().map(|value| *value), Some(11));
}

#[test]
fn late_use_after_teardown_finds_nothing() {
    let mut owner = ExterDataContainer::container(String::from("handler"));
    owner.invalidate();
    assert!(!owner.as_ptr().check());
    let mut calls = 0;
    let seen = owner.as_mut_ptr().check_and_lock(|_value: &mut String| {
        calls += 1;
    });
    assert_eq!(seen, None);
    assert_eq!(calls, 0);
    assert!(owner.as_mut_ptr().lock().is_none());
    owner.invalidate();
    assert!(owner.as_mut_ptr().lock().is_none());
}

#[test]
fn invalidating_the_container_itself() {
    let mut owner = ExterDataContainer::container(5u8);
    let container = owner.as_mut_ptr();
    assert_eq!(container.check_and_lock(|v: &mut u8| *v), Some(5));
    container.invalidate();
    assert!(!container.check());
    assert_eq!(container.check_and_lock(|v: &mut u8| *v), None);
}

#[test]
fn panic_in_one_use_does_not_block_the_next() {
    let mut owner = ExterDataContainer::container(0u32);
    let container = owner.as_mut_ptr();
    assert_eq!(container.check_and_lock(|n: &mut u32| { *n += 1; *n }), Some(1));
    container.note_panic();
    assert!(container.check());
    assert_eq!(container.check_and_lock(|n: &mut u32| { *n += 1; *n }), Some(2));
    container.note_panic();
    assert_eq!(container.check_and_lock(|n: &mut u32| { *n += 1; *n }), Some(3));
}

#[test]
fn result_of_the_use_is_handed_back() {
    let mut owner = ExterDataContainer::container(vec![1, 2, 3]);
    let sum = owner.as_mut_ptr().check_and_lock(|v: &mut Vec<i32>| v.iter().sum::<i32>());
    assert_eq!(sum, Some(6));
    let pushed = owner.as_mut_ptr().check_and_lock(|v: &mut Vec<i32>| {
        v.push(4);
        v.len()
    });
    assert_eq!(pushed, Some(4));
}
