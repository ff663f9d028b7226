use bytescolor::ByteColor;

#[test]
fn green_u32_scenario() {
    let number: u32 = 42;
    assert_eq!(number.green(), "\x1b[32m42\x1b[0m");
}

#[test]
fn red_str_scenario() {
    let message: &str = "Success!";
    assert_eq!(message.red(), "\x1b[31mSuccess!\x1b[0m");
}

#[test]
fn cyan_invalid_bytes_scenario() {
    let bytes: &[u8] = &[0xFF, 0x48, 0x49];
    assert_eq!(bytes.cyan(), "\x1b[36m\u{FFFD}HI\x1b[0m");
}

#[test]
fn rgb_str_scenario() {
    assert_eq!("Text".rgb((70, 130, 180)), "\x1b[38;2;70;130;180mText\x1b[0m");
}

#[test]
fn color_str_scenario() {
    assert_eq!("Text".color(202), "\x1b[38;5;202mText\x1b[0m");
}

#[test]
fn bold_empty_str_scenario() {
    assert_eq!("".bold(), "\x1b[1m\x1b[0m");
}

#[test]
fn every_style_on_str() {
    let s: &str = "x";
    assert_eq!(s.red(), "\x1b[31mx\x1b[0m");
    assert_eq!(s.green(), "\x1b[32mx\x1b[0m");
    assert_eq!(s.yellow(), "\x1b[33mx\x1b[0m");
    assert_eq!(s.magenta(), "\x1b[35mx\x1b[0m");
    assert_eq!(s.cyan(), "\x1b[36mx\x1b[0m");
    assert_eq!(s.blue(), "\x1b[34mx\x1b[0m");
    assert_eq!(s.bold(), "\x1b[1mx\x1b[0m");
    assert_eq!(s.underline(), "\x1b[4mx\x1b[0m");
    assert_eq!(s.blink(), "\x1b[5mx\x1b[0m");
}

#[test]
fn every_style_on_u64() {
    let n: u64 = 7;
    assert_eq!(n.red(), "\x1b[31m7\x1b[0m");
    assert_eq!(n.green(), "\x1b[32m7\x1b[0m");
    assert_eq!(n.yellow(), "\x1b[33m7\x1b[0m");
    assert_eq!(n.magenta(), "\x1b[35m7\x1b[0m");
    assert_eq!(n.cyan(), "\x1b[36m7\x1b[0m");
    assert_eq!(n.blue(), "\x1b[34m7\x1b[0m");
    assert_eq!(n.bold(), "\x1b[1m7\x1b[0m");
    assert_eq!(n.underline(), "\x1b[4m7\x1b[0m");
    assert_eq!(n.blink(), "\x1b[5m7\x1b[0m");
}

#[test]
fn unsigned_types_decimal() {
    assert_eq!(0u8.red(), "\x1b[31m0\x1b[0m");
    assert_eq!(255u8.yellow(), "\x1b[33m255\x1b[0m");
    assert_eq!(65535u16.red(), "\x1b[31m65535\x1b[0m");
    assert_eq!(4294967295u32.blue(), "\x1b[34m4294967295\x1b[0m");
    assert_eq!(u64::MAX.green(), "\x1b[32m18446744073709551615\x1b[0m");
    assert_eq!(1000000usize.magenta(), "\x1b[35m1000000\x1b[0m");
}

#[test]
fn signed_types_decimal() {
    assert_eq!((-128i8).blue(), "\x1b[34m-128\x1b[0m");
    assert_eq!(127i8.green(), "\x1b[32m127\x1b[0m");
    assert_eq!((-32768i16).red(), "\x1b[31m-32768\x1b[0m");
    assert_eq!((-1i32).underline(), "\x1b[4m-1\x1b[0m");
    assert_eq!(0i64.bold(), "\x1b[1m0\x1b[0m");
    assert_eq!(i64::MIN.cyan(), "\x1b[36m-9223372036854775808\x1b[0m");
    assert_eq!(i64::MAX.yellow(), "\x1b[33m9223372036854775807\x1b[0m");
}

#[test]
fn rgb_and_palette_on_numbers() {
    assert_eq!(7u8.rgb((0, 0, 0)), "\x1b[38;2;0;0;0m7\x1b[0m");
    assert_eq!(42u32.rgb((255, 255, 255)), "\x1b[38;2;255;255;255m42\x1b[0m");
    assert_eq!((-5i16).color(255), "\x1b[38;5;255m-5\x1b[0m");
    assert_eq!(9usize.color(0), "\x1b[38;5;0m9\x1b[0m");
}

#[test]
fn owned_string_styles() {
    let s = String::from("Dynamic Hello");
    assert_eq!(s.blue(), "\x1b[34mDynamic Hello\x1b[0m");
    assert_eq!(s.rgb((1, 2, 3)), "\x1b[38;2;1;2;3mDynamic Hello\x1b[0m");
    assert_eq!(s.color(128), "\x1b[38;5;128mDynamic Hello\x1b[0m");
    let empty = String::new();
    assert_eq!(empty.red(), "\x1b[31m\x1b[0m");
}

#[test]
fn byte_slice_styles() {
    let bytes: &[u8] = b"Byte Slice";
    assert_eq!(bytes.cyan(), "\x1b[36mByte Slice\x1b[0m");
    assert_eq!(bytes.rgb((10, 20, 30)), "\x1b[38;2;10;20;30mByte Slice\x1b[0m");
    assert_eq!(bytes.color(17), "\x1b[38;5;17mByte Slice\x1b[0m");
    let empty: &[u8] = &[];
    assert_eq!(empty.red(), "\x1b[31m\x1b[0m");
}

#[test]
fn byte_vector_styles() {
    let v: Vec<u8> = vec![66, 121, 116, 101, 32, 86, 101, 99];
    assert_eq!(v.bold(), "\x1b[1mByte Vec\x1b[0m");
    assert_eq!(v.rgb((4, 5, 6)), "\x1b[38;2;4;5;6mByte Vec\x1b[0m");
    assert_eq!(v.color(202), "\x1b[38;5;202mByte Vec\x1b[0m");
    let invalid: Vec<u8> = vec![0xC3, 0x28];
    assert_eq!(invalid.green(), "\x1b[32m\u{FFFD}(\x1b[0m");
    let empty: Vec<u8> = vec![];
    assert_eq!(empty.blink(), "\x1b[5m\x1b[0m");
}

#[test]
fn byte_array_ref_styles() {
    let arr = [72u8, 73u8];
    assert_eq!((&arr).magenta(), "\x1b[35mHI\x1b[0m");
    assert_eq!((&arr).rgb((7, 8, 9)), "\x1b[38;2;7;8;9mHI\x1b[0m");
    assert_eq!((&arr).color(1), "\x1b[38;5;1mHI\x1b[0m");
}

#[test]
fn original_value_unchanged() {
    let s = String::from("keep");
    let _ = s.red();
    let _ = s.rgb((1, 2, 3));
    assert_eq!(s, "keep");
    let v: Vec<u8> = vec![1, 2, 3];
    let _ = v.green();
    let _ = v.color(9);
    assert_eq!(v, vec![1, 2, 3]);
    let n: u32 = 7;
    let _ = n.blue();
    assert_eq!(n, 7);
    let t: &str = "still here";
    let _ = t.bold();
    assert_eq!(t, "still here");
}
