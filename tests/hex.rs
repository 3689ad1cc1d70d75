use splasm::hex::{hex_word, render_words};

#[test]
fn words_render_in_lowercase_without_padding() {
    assert_eq!(hex_word(0), "0");
    assert_eq!(hex_word(0x0F), "f");
    assert_eq!(hex_word(0x10), "10");
    assert_eq!(hex_word(0x01020304), "1020304");
    assert_eq!(hex_word(0xBF800000), "bf800000");
    assert_eq!(hex_word(u32::MAX), "ffffffff");
}

#[test]
fn word_stream_is_comma_joined() {
    assert_eq!(render_words(&vec![]), "");
    assert_eq!(render_words(&vec![0x01020304]), "1020304");
    assert_eq!(render_words(&vec![0x01020304, 0, 0x07000000, 5]), "1020304,0,7000000,5");
}
