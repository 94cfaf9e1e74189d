//! What each step returns, for each way of forming the borrow.
use pipe_drop::PipeDrop;

#[test]
fn ref_step_returns_what_the_function_returns() {
    let total: u64 = vec![1u64, 2, 3].pipe_ref_drop(|v: &Vec<u64>| v.iter().sum());
    assert_eq!(total, 6);
    assert_eq!(41u32.pipe_ref_drop(|n: &u32| *n + 1), 42);
}

#[test]
fn mut_step_lets_the_function_change_the_value() {
    let items = vec![3u8, 1, 2].pipe_mut_drop(|v: &mut Vec<u8>| {
        v.sort();
        v.push(9);
        v.clone()
    });
    assert_eq!(items, vec![1, 2, 3, 9]);
}

#[test]
fn mut_step_can_take_the_contents_out() {
    let taken = Some(String::from("kept")).pipe_mut_drop(|slot: &mut Option<String>| slot.take());
    assert_eq!(taken, Some(String::from("kept")));
}

#[test]
fn as_ref_step_converts_before_the_function_runs() {
    let length = String::from("hello").pipe_as_ref_drop(|s: &str| s.len());
    assert_eq!(length, 5);
    let bytes = String::from("abc").pipe_as_ref_drop(|b: &[u8]| b.to_vec());
    assert_eq!(bytes, vec![97, 98, 99]);
}

#[test]
fn as_mut_step_hands_out_an_exclusive_borrow() {
    let reversed = vec![1u16, 2, 3].pipe_as_mut_drop(|s: &mut [u16]| {
        s.reverse();
        s.to_vec()
    });
    assert_eq!(reversed, vec![3, 2, 1]);
}

#[test]
fn deref_step_borrows_the_target() {
    assert_eq!(Box::new(20u64).pipe_deref_drop(|n: &u64| *n * 2), 40);
    let upper = String::from("pipe").pipe_deref_drop(|s: &str| s.to_uppercase());
    assert_eq!(upper, "PIPE");
    let last = vec![4i32, 5, 6].pipe_deref_drop(|s: &[i32]| s.last().copied());
    assert_eq!(last, Some(6));
}

#[test]
fn deref_mut_step_hands_out_an_exclusive_borrow_of_the_target() {
    let sorted = vec![3i64, -1, 2].pipe_deref_mut_drop(|s: &mut [i64]| {
        s.sort();
        s.to_vec()
    });
    assert_eq!(sorted, vec![-1, 2, 3]);
    let bumped = Box::new(1u8).pipe_deref_mut_drop(|n: &mut u8| {
        *n += 1;
        *n
    });
    assert_eq!(bumped, 2);
}

#[test]
fn borrow_step_borrows_as_the_other_type() {
    let words = String::from("a b c").pipe_borrow_drop(|s: &str| s.split(' ').count());
    assert_eq!(words, 3);
    let first = vec![7u8, 8].pipe_borrow_drop(|s: &[u8]| s[0]);
    assert_eq!(first, 7);
}

#[test]
fn borrow_mut_step_hands_out_an_exclusive_borrow() {
    let swapped = vec!['x', 'y'].pipe_borrow_mut_drop(|s: &mut [char]| {
        s.swap(0, 1);
        s.to_vec()
    });
    assert_eq!(swapped, vec!['y', 'x']);
}

#[test]
fn steps_chain_through_different_borrow_forms() {
    let out = String::from("3 1 2")
        .pipe_as_ref_drop(|s: &str| s.split(' ').map(|w| w.parse::<u32>().unwrap()).collect::<Vec<u32>>())
        .pipe_mut_drop(|v: &mut Vec<u32>| {
            v.sort();
            v.clone()
        })
        .pipe_deref_drop(|s: &[u32]| s.iter().map(|n| n * 10).collect::<Vec<u32>>())
        .pipe_ref_drop(|v: &Vec<u32>| v.len() + v[2] as usize);
    assert_eq!(out, 33);
}

#[test]
fn the_function_may_move_what_it_captured() {
    let prefix = String::from("id-");
    let label = 12u8.pipe_ref_drop(move |n: &u8| {
        let mut text = prefix;
        text.push_str(&n.to_string());
        text
    });
    assert_eq!(label, "id-12");
}

#[test]
fn the_loan_ends_with_the_step() {
    let mut counter = 0u32;
    let seen = (&mut counter).pipe_mut_drop(|slot: &mut &mut u32| {
        **slot += 1;
        **slot
    });
    counter += 10;
    assert_eq!((seen, counter), (1, 11));

    let mut words = vec![String::from("a")];
    let count = (&mut words).pipe_ref_drop(|list: &&mut Vec<String>| list.len());
    words.push(String::from("b"));
    assert_eq!((count, words.len()), (1, 2));
}

#[test]
fn a_failure_reported_as_a_value_is_handed_on() {
    let parsed: Result<u8, String> = String::from("300")
        .pipe_as_ref_drop(|s: &str| s.parse::<u8>().map_err(|e| e.to_string()));
    assert_eq!(parsed, Err(String::from("number too large to fit in target type")));
    let none: Option<u8> = vec![1u8].pipe_deref_drop(|s: &[u8]| s.get(3).copied());
    assert_eq!(none, None);
}
