use xaynet_e2e::chunking::{chunks, message_plan, MAX_MESSAGE_SIZE};
use xaynet_e2e::text::{decimal_string, push_decimal};

#[test]
fn decimal_of_zero_is_single_digit() {
    assert_eq!(decimal_string(0), "0");
}

#[test]
fn decimal_of_numbers() {
    assert_eq!(decimal_string(7), "7");
    assert_eq!(decimal_string(10), "10");
    assert_eq!(decimal_string(12345), "12345");
    assert_eq!(decimal_string(u64::MAX), "18446744073709551615");
}

#[test]
fn push_decimal_appends() {
    let mut s = String::from("phase ");
    push_decimal(&mut s, 42);
    assert_eq!(s, "phase 42");
}

#[test]
fn chunks_cut_into_full_pieces_and_remainder() {
    let data: Vec<u8> = (0..5000u32).map(|i| (i % 251) as u8).collect();
    let pieces = chunks(data.clone(), 2048);
    assert_eq!(pieces.len(), 3);
    assert_eq!(pieces[0].len(), 2048);
    assert_eq!(pieces[1].len(), 2048);
    assert_eq!(pieces[2].len(), 904);
    assert_eq!(pieces.concat(), data);
}

#[test]
fn chunks_of_exact_multiple() {
    let data = vec![9u8; 4096];
    let pieces = chunks(data.clone(), 2048);
    assert_eq!(pieces.len(), 2);
    assert_eq!(pieces.concat(), data);
}

#[test]
fn chunks_of_empty_data_are_none() {
    assert!(chunks(Vec::new(), 16).is_empty());
}

#[test]
fn small_message_is_sent_whole() {
    let data = vec![1u8, 2, 3];
    assert_eq!(message_plan(data.clone()), vec![data]);
    let empty: Vec<u8> = Vec::new();
    assert_eq!(message_plan(empty.clone()), vec![empty]);
}

#[test]
fn message_of_max_size_is_sent_whole() {
    let data = vec![5u8; MAX_MESSAGE_SIZE];
    assert_eq!(message_plan(data.clone()), vec![data]);
}

#[test]
fn large_message_is_chunked() {
    let data: Vec<u8> = (0..(MAX_MESSAGE_SIZE + 1)).map(|i| i as u8).collect();
    let plan = message_plan(data.clone());
    assert_eq!(plan.len(), 2);
    assert_eq!(plan[0].len(), MAX_MESSAGE_SIZE);
    assert_eq!(plan[1], vec![data[MAX_MESSAGE_SIZE]]);
    assert_eq!(plan.concat(), data);
}
