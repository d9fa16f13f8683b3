use cross_process_event::name::terminate_units;

#[test]
fn wide_name_of_evt_1_is_terminated() {
    let units: Vec<u16> = "evt-1".encode_utf16().collect();
    assert_eq!(terminate_units(&units), Some(vec![101, 118, 116, 45, 49, 0]));
}

#[test]
fn wide_name_keeps_surrogate_pairs() {
    let units: Vec<u16> = "\u{1F600}".encode_utf16().collect();
    assert_eq!(terminate_units(&units), Some(vec![0xD83D, 0xDE00, 0]));
}

#[test]
fn empty_name_is_a_lone_terminator() {
    assert_eq!(terminate_units(&Vec::new()), Some(vec![0]));
}

#[test]
fn name_with_nul_is_refused() {
    let units: Vec<u16> = "a\0b".encode_utf16().collect();
    assert_eq!(terminate_units(&units), None);
    assert_eq!(terminate_units(&vec![0]), None);
}
