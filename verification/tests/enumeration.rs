//! The chunked, mutation-detecting enumeration protocol.

use choco::base::Ptr;
use choco::fastenum::MutationDetected;
use choco::fastenum::NSFastEnumerationState;
use choco::foundation::NSObjectInterface;
use choco::fastenum::FAST_ENUMERATOR_BUFFER_LEN;
use choco::nsarray::NSMutableArray;
use choco::nsstring::NSString;
use choco::nsstring::NSStringInterface;
use choco::nsstring::NSStringInterfaceInstanceMethods;
use choco::runtime::Runtime;

fn array_of(rt: &mut Runtime, len: usize) -> Ptr<NSMutableArray<NSString>> {
    let array: Ptr<NSMutableArray<NSString>> = NSMutableArray::new(rt);
    let mut i: usize = 0;
    while i < len {
        let text = format!("item{}", i);
        let value = NSString::new_with_str(rt, &text);
        array.add_object(rt, &value);
        i += 1;
    }
    array
}

#[test]
fn new_state_is_zeroed() {
    let state = NSFastEnumerationState::new();
    assert_eq!(state.state, 0);
    assert_eq!(state.extra, 0);
}

#[test]
fn iter_yields_all_in_order() {
    // lengths around every buffer boundary
    let lengths = [
        0,
        1,
        FAST_ENUMERATOR_BUFFER_LEN - 1,
        FAST_ENUMERATOR_BUFFER_LEN,
        FAST_ENUMERATOR_BUFFER_LEN * 3 + 1,
    ];
    for &array_len in lengths.iter() {
        let mut rt = Runtime::new();
        let array = array_of(&mut rt, array_len);
        let mut it = array.iter(&rt);
        let mut collected: Vec<String> = Vec::new();
        loop {
            match it.next(&mut rt) {
                Ok(Some(item)) => collected.push(item.to_string(&rt).unwrap()),
                Ok(None) => break,
                Err(_) => panic!("no mutation happened"),
            }
        }
        assert_eq!(collected.len(), array_len);
        for (i, item) in collected.iter().enumerate() {
            let expected_text = format!("item{}", i);
            assert_eq!(item, &expected_text);
        }
        // the iterator stays spent
        assert!(matches!(it.next(&mut rt), Ok(None)));
    }
}

#[test]
fn collect_retained_owns_each_element() {
    let mut rt = Runtime::new();
    let array = array_of(&mut rt, 5);
    let out = array.collect_retained(&mut rt);
    assert_eq!(out.len(), 5);
    for (i, item) in out.iter().enumerate() {
        let expected_text = format!("item{}", i);
        assert_eq!(item.to_string(&rt).unwrap(), expected_text);
        // one increment from the array's view, one from the enumeration
        assert_eq!(rt.rc_count(item.as_raw().index()), 2);
    }
    // the yielded values outlive the iteration and the array handle
    array.release(&mut rt);
    for item in out.iter() {
        assert!(!item.to_string(&rt).unwrap().is_empty());
    }
}

#[test]
fn mutation_during_iteration_is_detected() {
    let mut rt = Runtime::new();
    let array = array_of(&mut rt, 4);
    let mut it = array.iter(&rt);
    // pull one element, fetching the first round
    let first = it.next(&mut rt);
    assert!(matches!(first, Ok(Some(_))));
    // mutate the array between pulls
    let intruder = NSString::new_with_str(&mut rt, "intruder");
    array.add_object(&mut rt, &intruder);
    // the next pull from the same round refuses to go on
    assert!(matches!(it.next(&mut rt), Err(MutationDetected)));
    // iterating afresh, without mutation, works again
    let mut it2 = array.iter(&rt);
    let mut n = 0;
    while let Ok(Some(_)) = it2.next(&mut rt) {
        n += 1;
    }
    assert_eq!(n, 5);
}

#[test]
fn iteration_without_mutation_never_errs() {
    let mut rt = Runtime::new();
    let array = array_of(&mut rt, FAST_ENUMERATOR_BUFFER_LEN * 2);
    let mut it = array.iter(&rt);
    let mut n = 0;
    loop {
        match it.next(&mut rt) {
            Ok(Some(_)) => n += 1,
            Ok(None) => break,
            Err(_) => panic!("no mutation happened"),
        }
    }
    assert_eq!(n, FAST_ENUMERATOR_BUFFER_LEN * 2);
}
