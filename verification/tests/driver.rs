use rusty_craft::driver::{
    ARRAY_BUFFER, COMPILE_STATUS, ELEMENT_ARRAY_BUFFER, FALSE, FLOAT, FRAGMENT_SHADER,
    INFO_LOG_LENGTH, LINK_STATUS, NEAREST, NO_OBJECT, REPEAT, RGB, STATIC_DRAW, TEXTURE_2D,
    TEXTURE_MAG_FILTER, TEXTURE_MIN_FILTER, TEXTURE_WRAP_S, TEXTURE_WRAP_T, TRIANGLES,
    UNSIGNED_BYTE, UNSIGNED_INT, VERTEX_SHADER,
};
use rusty_craft::ffi_utils::{create_whitespace_cstring_of_len, CText, FILLER};

#[test]
fn enumerants_are_the_bindings_own() {
    assert_eq!(VERTEX_SHADER, gl::VERTEX_SHADER);
    assert_eq!(FRAGMENT_SHADER, gl::FRAGMENT_SHADER);
    assert_eq!(COMPILE_STATUS, gl::COMPILE_STATUS);
    assert_eq!(LINK_STATUS, gl::LINK_STATUS);
    assert_eq!(INFO_LOG_LENGTH, gl::INFO_LOG_LENGTH);
    assert_eq!(TEXTURE_2D, gl::TEXTURE_2D);
    assert_eq!(TEXTURE_WRAP_S, gl::TEXTURE_WRAP_S);
    assert_eq!(TEXTURE_WRAP_T, gl::TEXTURE_WRAP_T);
    assert_eq!(TEXTURE_MIN_FILTER, gl::TEXTURE_MIN_FILTER);
    assert_eq!(TEXTURE_MAG_FILTER, gl::TEXTURE_MAG_FILTER);
    assert_eq!(REPEAT, gl::REPEAT as gl::types::GLint);
    assert_eq!(NEAREST, gl::NEAREST as gl::types::GLint);
    assert_eq!(RGB, gl::RGB);
    assert_eq!(UNSIGNED_BYTE, gl::UNSIGNED_BYTE);
    assert_eq!(UNSIGNED_INT, gl::UNSIGNED_INT);
    assert_eq!(FLOAT, gl::FLOAT);
    assert_eq!(ARRAY_BUFFER, gl::ARRAY_BUFFER);
    assert_eq!(ELEMENT_ARRAY_BUFFER, gl::ELEMENT_ARRAY_BUFFER);
    assert_eq!(STATIC_DRAW, gl::STATIC_DRAW);
    assert_eq!(TRIANGLES, gl::TRIANGLES);
    assert_eq!(FALSE, gl::FALSE);
    assert_eq!(NO_OBJECT, 0);
}

#[test]
fn blank_buffer_has_the_length_asked_for() {
    assert_eq!(create_whitespace_cstring_of_len(0), Vec::<u8>::new());
    assert_eq!(create_whitespace_cstring_of_len(1), vec![b' ']);
    assert_eq!(create_whitespace_cstring_of_len(5), vec![b' '; 5]);
    assert_eq!(create_whitespace_cstring_of_len(4096).len(), 4096);
}

#[test]
fn blank_buffer_holds_spaces_and_no_zero() {
    assert_eq!(FILLER, b' ');
    let buffer = create_whitespace_cstring_of_len(300);
    assert!(buffer.iter().all(|byte| *byte == b' '));
    assert!(CText::new(buffer).is_some());
}

#[test]
fn text_for_the_driver_holds_no_zero() {
    assert_eq!(CText::new(b"void main() {}".to_vec()).unwrap().into_bytes(), b"void main() {}".to_vec());
    assert_eq!(CText::new(vec![]).unwrap().into_bytes(), Vec::<u8>::new());
    assert!(CText::new(vec![0]).is_none());
    assert!(CText::new(b"ab\0cd".to_vec()).is_none());
    assert!(CText::new(b"abcd\0".to_vec()).is_none());
    assert!(CText::new(vec![255, 1, 128]).is_some());
}
