use himawari_wallpaper::decimal::{push_decimal, push_signed_decimal};
use himawari_wallpaper::tray::APP_NAME;
use himawari_wallpaper::wide::{convert_u16, write_field};

#[test]
fn convert_u16_ascii() {
    assert_eq!(convert_u16("ab"), vec![97, 98, 0]);
    assert_eq!(convert_u16(""), vec![0]);
}

#[test]
fn convert_u16_matches_std() {
    for s in ["himawari8壁纸", "已启动", "\u{1D11E} clef", "\u{FFFF}\u{10000}\u{10FFFF}", APP_NAME] {
        let mut expect: Vec<u16> = s.encode_utf16().collect();
        expect.push(0);
        assert_eq!(convert_u16(s), expect, "{}", s);
    }
    assert_eq!(convert_u16("\u{1D11E}"), vec![0xD834, 0xDD1E, 0]);
}

#[test]
fn write_field_keeps_tail() {
    let mut field = [7u16; 8];
    write_field(&mut field, &vec![1, 2, 0]);
    assert_eq!(field, [1, 2, 0, 7, 7, 7, 7, 7]);
    let mut full = [0u16; 2];
    write_field(&mut full, &vec![5, 6]);
    assert_eq!(full, [5, 6]);
}

#[test]
fn decimals() {
    let mut s = String::from("x");
    push_decimal(&mut s, 0);
    push_decimal(&mut s, 1907);
    push_decimal(&mut s, u64::MAX);
    assert_eq!(s, format!("x01907{}", u64::MAX));
    let mut t = String::new();
    push_signed_decimal(&mut t, -42);
    push_signed_decimal(&mut t, i64::MIN);
    push_signed_decimal(&mut t, 7);
    assert_eq!(t, format!("-42{}7", i64::MIN));
}
