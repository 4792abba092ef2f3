use snowfall_core::{
    ansi_rgb, cprint_add_color, cprintln_add_color, ensure_custom_colors, html_named_color,
    parse_color, parse_hex, snowfall_color, RGB,
};

fn rgb(r: u8, g: u8, b: u8) -> Option<RGB> {
    Some(RGB { r, g, b })
}

#[test]
fn alias_resolves_through_one_step() {
    let mut colors = ensure_custom_colors();
    cprint_add_color(&mut colors, "oops", "red");
    assert_eq!(parse_color(&colors, "oops"), rgb(255, 0, 0));
}

#[test]
fn alias_is_not_looked_up_twice() {
    let mut colors = ensure_custom_colors();
    cprint_add_color(&mut colors, "first", "second");
    cprint_add_color(&mut colors, "second", "#123456");
    assert_eq!(parse_color(&colors, "second"), rgb(0x12, 0x34, 0x56));
    assert_eq!(parse_color(&colors, "first"), None);
}

#[test]
fn hex_forms_agree() {
    let colors = ensure_custom_colors();
    for s in ["#fff", "fff", "#ffffff", "FFFFFF"] {
        assert_eq!(parse_color(&colors, s), rgb(255, 255, 255));
    }
    assert_eq!(parse_hex("#1a2B3c"), rgb(0x1a, 0x2b, 0x3c));
    assert_eq!(parse_hex("4cf"), rgb(0x44, 0xcc, 0xff));
}

#[test]
fn bad_hex_is_rejected() {
    for s in ["", "#", "#ff", "ff", "#ggg", "12345", "#1234567", "##fff", "abcdeg", "#fffff"] {
        assert_eq!(parse_hex(s), None, "{}", s);
    }
}

#[test]
fn named_colors_ignore_case() {
    let colors = ensure_custom_colors();
    assert_eq!(parse_color(&colors, "Red"), rgb(255, 0, 0));
    assert_eq!(parse_color(&colors, "rebeccapurple"), rgb(0x66, 0x33, 0x99));
    assert_eq!(parse_color(&colors, "GoldenRod"), rgb(0xda, 0xa5, 0x20));
    assert_eq!(html_named_color("NAVY"), Some("#000080"));
    assert_eq!(html_named_color("notacolor"), None);
}

#[test]
fn semantic_names() {
    assert_eq!(snowfall_color("filepath"), Some("#f7cd43"));
    assert_eq!(snowfall_color("digits"), Some("#556fed"));
    assert_eq!(snowfall_color("Number"), None);
    let colors = ensure_custom_colors();
    assert_eq!(parse_color(&colors, "number"), rgb(0x55, 0x6f, 0xed));
    // the built-in alias for "filename" comes before the semantic color
    assert_eq!(parse_color(&colors, "filename"), rgb(0xe0, 0xc1, 0x6c));
}

#[test]
fn built_in_aliases() {
    let colors = ensure_custom_colors();
    assert_eq!(colors.lookup("key"), Some("#4CF".to_string()));
    assert_eq!(colors.lookup(""), Some("#bbb".to_string()));
    assert_eq!(colors.lookup("txt"), Some("#bbb".to_string()));
    assert_eq!(colors.lookup("option"), Some("#78aeff".to_string()));
    assert_eq!(colors.lookup("nothing"), None);
    assert_eq!(parse_color(&colors, "error"), rgb(255, 0, 0));
    assert_eq!(parse_color(&colors, "unknown"), None);
}

#[test]
fn registering_many_aliases_keeps_all() {
    let mut colors = ensure_custom_colors();
    let n: u32 = 200;
    for i in 0..n {
        cprintln_add_color(&mut colors, &format!("alias{}", i), &format!("#{:06x}", i));
    }
    for i in 0..n {
        assert_eq!(colors.lookup(&format!("alias{}", i)), Some(format!("#{:06x}", i)));
    }
    cprintln_add_color(&mut colors, "alias7", "blue");
    assert_eq!(colors.lookup("alias7"), Some("blue".to_string()));
}

#[test]
fn escapes() {
    assert_eq!(RGB { r: 1, g: 2, b: 3 }.to_ansi(), "\x1b[38;2;1;2;3m");
    assert_eq!(ansi_rgb(255, 0, 128), "\x1b[38;2;255;0;128m");
    assert_eq!(RGB::gray(), RGB { r: 128, g: 128, b: 128 });
}
