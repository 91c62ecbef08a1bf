use livesplit_auto_splitting::memory::{check_range, get_bytes, read_str};
use livesplit_auto_splitting::trap::Trap;

#[test]
fn range_inside_memory() {
    assert_eq!(check_range(16, 0, 16), Ok((0, 16)));
    assert_eq!(check_range(16, 4, 8), Ok((4, 12)));
    assert_eq!(check_range(16, 16, 0), Ok((16, 16)));
    assert_eq!(check_range(0, 0, 0), Ok((0, 0)));
}

#[test]
fn range_outside_memory() {
    assert_eq!(check_range(16, 0, 17), Err(Trap::OutOfBounds));
    assert_eq!(check_range(16, 17, 0), Err(Trap::OutOfBounds));
    assert_eq!(check_range(16, 10, 7), Err(Trap::OutOfBounds));
    assert_eq!(check_range(0, 0, 1), Err(Trap::OutOfBounds));
}

#[test]
fn range_whose_end_overflows() {
    assert_eq!(check_range(16, u32::MAX, 2), Err(Trap::OutOfBounds));
    assert_eq!(check_range(16, u32::MAX, u32::MAX), Err(Trap::OutOfBounds));
    assert_eq!(check_range(usize::MAX, u32::MAX, u32::MAX), Ok((4_294_967_295, 8_589_934_590)));
}

#[test]
fn bytes_of_a_range() {
    let memory = [1u8, 2, 3, 4, 5];
    assert_eq!(get_bytes(&memory, 1, 3), Ok(&memory[1..4]));
    assert_eq!(get_bytes(&memory, 5, 0), Ok(&memory[5..5]));
    assert_eq!(get_bytes(&memory, 3, 3), Err(Trap::OutOfBounds));
}

#[test]
fn string_in_memory() {
    let memory = b"..hi..".to_vec();
    assert_eq!(read_str(&memory, 2, 2), Ok("hi".to_string()));
    assert_eq!(read_str(&memory, 0, 0), Ok(String::new()));
    assert_eq!(read_str(&memory, 6, 0), Ok(String::new()));
}

#[test]
fn string_with_many_byte_characters() {
    let text = "gr\u{fc}\u{df}e \u{4e16}\u{754c} \u{1f600}";
    let memory = text.as_bytes().to_vec();
    assert_eq!(read_str(&memory, 0, memory.len() as u32), Ok(text.to_string()));
}

#[test]
fn string_outside_memory_traps() {
    let memory = b"hello".to_vec();
    assert_eq!(read_str(&memory, 0, 6), Err(Trap::OutOfBounds));
    assert_eq!(read_str(&memory, 6, 0), Err(Trap::OutOfBounds));
    assert_eq!(read_str(&memory, u32::MAX, 1), Err(Trap::OutOfBounds));
}

#[test]
fn string_not_in_utf8_traps() {
    let memory = vec![b'a', 0xff, b'b'];
    assert_eq!(read_str(&memory, 0, 3), Err(Trap::InvalidUtf8));
    assert_eq!(read_str(&memory, 1, 1), Err(Trap::InvalidUtf8));
    assert_eq!(read_str(&memory, 0, 1), Ok("a".to_string()));
    // A character cut in two, an overlong form and a surrogate.
    let memory = vec![0xe4, 0xb8, 0x96, 0xc0, 0x80, 0xed, 0xa0, 0x80];
    assert_eq!(read_str(&memory, 0, 3), Ok("\u{4e16}".to_string()));
    assert_eq!(read_str(&memory, 0, 2), Err(Trap::InvalidUtf8));
    assert_eq!(read_str(&memory, 3, 2), Err(Trap::InvalidUtf8));
    assert_eq!(read_str(&memory, 5, 3), Err(Trap::InvalidUtf8));
}

#[test]
fn out_of_bounds_is_reported_before_bad_text() {
    let memory = vec![0xff, 0xff];
    assert_eq!(read_str(&memory, 0, 3), Err(Trap::OutOfBounds));
    assert_eq!(read_str(&memory, 0, 2), Err(Trap::InvalidUtf8));
}
