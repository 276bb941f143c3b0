use monitor_power::descriptor::decode_description;

fn utf16(text: &str) -> Vec<u16> {
    text.encode_utf16().collect()
}

#[test]
fn decode_empty_buffer() {
    let buffer: Vec<u16> = Vec::new();
    assert_eq!(decode_description(&buffer), Vec::<u16>::new());
}

#[test]
fn decode_terminator_at_position_zero() {
    let buffer: Vec<u16> = vec![0, 65, 66, 67];
    assert_eq!(decode_description(&buffer), Vec::<u16>::new());
}

#[test]
fn decode_terminator_in_middle() {
    // A zero at position 4: the decoded description is exactly the first
    // four elements, and nothing after the terminator survives.
    let mut buffer = utf16("Acme");
    buffer.push(0);
    buffer.extend(utf16("garbage"));
    assert_eq!(decode_description(&buffer), utf16("Acme"));
    assert_eq!(decode_description(&buffer).len(), 4);
}

#[test]
fn decode_without_terminator_takes_whole_buffer() {
    let buffer = utf16("Acme 27in");
    assert_eq!(decode_description(&buffer), utf16("Acme 27in"));
    assert_eq!(decode_description(&buffer).len(), buffer.len());
}

#[test]
fn decode_stops_at_first_of_several_terminators() {
    let buffer: Vec<u16> = vec![72, 105, 0, 33, 0, 64];
    assert_eq!(decode_description(&buffer), vec![72, 105]);
}
