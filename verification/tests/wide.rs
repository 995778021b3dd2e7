use ura_plugin::host::il2cppstring_as_string;
use ura_plugin::utf16::module_path_from_wide;

#[test]
fn lossy_decoding_matches_std() {
    let samples: [&[u16]; 9] = [
        &[],
        &[0x41, 0x42],
        &[0xD83D, 0xDE00],
        &[0xD83D],
        &[0xDE00],
        &[0xDE00, 0xD83D],
        &[0xD83D, 0x41, 0xDE00],
        &[0xD800, 0xDC00, 0xDBFF, 0xDFFF],
        &[0xFFFF, 0xE000, 0xD7FF],
    ];
    for units in samples.iter() {
        assert_eq!(il2cppstring_as_string(units), String::from_utf16_lossy(units), "units {:?}", units);
    }
}

#[test]
fn lone_surrogates_become_replacement_characters() {
    assert_eq!(il2cppstring_as_string(&[0xD83D, 0x41]), "\u{FFFD}A");
    assert_eq!(il2cppstring_as_string(&[0xDC00, 0xDC00]), "\u{FFFD}\u{FFFD}");
    assert_eq!(il2cppstring_as_string(&[0xD800, 0xDC00]), "\u{10000}");
}

#[test]
fn module_path_decodes_valid_names() {
    let name: Vec<u16> = "C:\\Games\\ウマ娘\\hachimi\\ura.dll".encode_utf16().collect();
    assert_eq!(module_path_from_wide(&name).as_deref(), Some("C:\\Games\\ウマ娘\\hachimi\\ura.dll"));
    assert_eq!(module_path_from_wide(&[0xD83D, 0xDE00]).as_deref(), Some("😀"));
}

#[test]
fn module_path_refuses_empty_and_invalid_names() {
    assert_eq!(module_path_from_wide(&[]), None);
    assert_eq!(module_path_from_wide(&[0x43, 0xD800]), None);
    assert_eq!(module_path_from_wide(&[0xDC00, 0x43]), None);
}
