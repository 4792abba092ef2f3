use snowfall_core::{
    classify, cprint_add_color, ensure_custom_colors, format_text, render, render_line,
    PathContext, SemanticTag, RGB,
};

const RESET: &str = "\x1b[0m";

fn esc(r: u8, g: u8, b: u8) -> String {
    format!("\x1b[38;2;{};{};{}m", r, g, b)
}

fn no_paths() -> PathContext {
    PathContext { cwd: None, home: None }
}

#[test]
fn plain_text_is_unchanged() {
    let colors = ensure_custom_colors();
    let base = esc(187, 187, 187);
    for s in ["hello world", "", "  indented\tand [x] rest", "line\nbreak"] {
        assert_eq!(render(&colors, "text", s, &no_paths()), format!("{}{}{}", base, s, RESET));
    }
}

#[test]
fn spans_are_colored_and_base_restored() {
    let colors = ensure_custom_colors();
    let out = render(&colors, "#fff", "a [b](red) c", &no_paths());
    let white = esc(255, 255, 255);
    assert_eq!(out, format!("{}a {}b{} c{}", white, esc(255, 0, 0), white, RESET));
}

#[test]
fn unknown_base_is_gray() {
    let colors = ensure_custom_colors();
    let out = render(&colors, "not-a-color", "x", &no_paths());
    assert_eq!(out, format!("{}x{}", esc(128, 128, 128), RESET));
}

#[test]
fn unresolved_span_is_written_back() {
    let colors = ensure_custom_colors();
    let out = render(&colors, "#000", "see [this](nocolor) now", &no_paths());
    assert_eq!(out, format!("{}see [this](nocolor) now{}", esc(0, 0, 0), RESET));
}

#[test]
fn number_span_is_grouped() {
    let colors = ensure_custom_colors();
    let out = render(&colors, "#000", "[1234567](number) files", &no_paths());
    let black = esc(0, 0, 0);
    assert_eq!(out, format!("{}{}1,234,567{} files{}", black, esc(0x55, 0x6f, 0xed), black, RESET));
}

#[test]
fn alias_used_in_span() {
    let mut colors = ensure_custom_colors();
    cprint_add_color(&mut colors, "oops", "red");
    let out = render_line(&colors, "#000", "[x](oops)", &no_paths());
    let black = esc(0, 0, 0);
    assert_eq!(out, format!("{}{}x{}{}\n", black, esc(255, 0, 0), black, RESET));
}

#[test]
fn paths_are_shortened() {
    let ctx = PathContext {
        cwd: Some("/home/u/proj".to_string()),
        home: Some("/home/u".to_string()),
    };
    let file = RGB { r: 0xe0, g: 0xc1, b: 0x6c };
    let prefix = esc(237, 85, 43);
    let file_esc = esc(0xe0, 0xc1, 0x6c);
    assert_eq!(
        format_text("/home/u/proj/src/x.rs", "filename", file, &ctx),
        format!("{}.{}/src/x.rs", prefix, file_esc)
    );
    assert_eq!(
        format_text("/home/u/other", "filepath", file, &ctx),
        format!("{}~{}/other", prefix, file_esc)
    );
    assert_eq!(format_text("/home/u/proj", "filename", file, &ctx), format!("{}~{}/proj", prefix, file_esc));
    assert_eq!(format_text("/etc/hosts", "filename", file, &ctx), "/etc/hosts");
    assert_eq!(format_text("/home/u/proj/a", "other", file, &ctx), "/home/u/proj/a");
    assert_eq!(format_text("/home/u/proj/a", "filename", file, &no_paths()), "/home/u/proj/a");

    let colors = ensure_custom_colors();
    let out = render(&colors, "#000", "[/home/u/proj/a](filename)", &ctx);
    let black = esc(0, 0, 0);
    assert_eq!(out, format!("{}{}{}.{}/a{}{}", black, file_esc, prefix, file_esc, black, RESET));
}

#[test]
fn tags_are_classified() {
    assert_eq!(classify("number"), SemanticTag::Number);
    assert_eq!(classify("filename"), SemanticTag::FilenameLike);
    assert_eq!(classify("filepath"), SemanticTag::FilenameLike);
    assert_eq!(classify("digits"), SemanticTag::Plain);
    assert_eq!(classify("red"), SemanticTag::Plain);
}
