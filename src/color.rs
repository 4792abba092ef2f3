//! Resolving a color name or hex string to an RGB value.
use vstd::prelude::*;
use crate::rgb::RGB;
use crate::text::{ascii_lower, chars_of, eq_ignore_ascii_case, str_eq};

verus! {

/// The value of a hexadecimal digit (either case), or -1 for any other character.
pub open spec fn hex_digit(c: char) -> int {
    if '0' <= c <= '9' {
        c as int - 48
    } else if 'a' <= c <= 'f' {
        c as int - 87
    } else if 'A' <= c <= 'F' {
        c as int - 55
    } else {
        -1
    }
}

pub open spec fn all_hex(s: Seq<char>) -> bool {
    forall|i: int| 0 <= i < s.len() ==> hex_digit(#[trigger] s[i]) >= 0
}

/// `s` without the `#` that leads a 4- or 7-character hex color.
pub open spec fn strip_hash(s: Seq<char>) -> Seq<char> {
    if (s.len() == 4 || s.len() == 7) && s[0] == '#' {
        s.drop_first()
    } else {
        s
    }
}

/// A color written as `#RGB`, `#RRGGBB`, `RGB` or `RRGGBB` in hex digits of either
/// case; in the three-digit form each digit stands for itself twice (`f` is `ff`).
pub open spec fn hex_rgb(s: Seq<char>) -> Option<RGB> {
    let h = strip_hash(s);
    if h.len() == 3 && all_hex(h) {
        Some(
            RGB {
                r: (17 * hex_digit(h[0])) as u8,
                g: (17 * hex_digit(h[1])) as u8,
                b: (17 * hex_digit(h[2])) as u8,
            },
        )
    } else if h.len() == 6 && all_hex(h) {
        Some(
            RGB {
                r: (16 * hex_digit(h[0]) + hex_digit(h[1])) as u8,
                g: (16 * hex_digit(h[2]) + hex_digit(h[3])) as u8,
                b: (16 * hex_digit(h[4]) + hex_digit(h[5])) as u8,
            },
        )
    } else {
        None
    }
}

fn hex_digit_exec(c: char) -> (r: Option<u8>)
    ensures
        match r {
            Some(d) => d as int == hex_digit(c) && d < 16,
            None => hex_digit(c) == -1,
        },
{
    if '0' <= c && c <= '9' {
        Some((c as u32 - 48) as u8)
    } else if 'a' <= c && c <= 'f' {
        Some((c as u32 - 87) as u8)
    } else if 'A' <= c && c <= 'F' {
        Some((c as u32 - 55) as u8)
    } else {
        None
    }
}

/// Reads a hex color; see [`hex_rgb`] for the accepted forms.
pub fn parse_hex(hex: &str) -> (r: Option<RGB>)
    ensures
        r == hex_rgb(hex@),
{
    let v = chars_of(hex);
    let n = v.len();
    let start: usize = if (n == 4 || n == 7) && v[0] == '#' { 1 } else { 0 };
    let ghost h = strip_hash(hex@);
    assert(h =~= v@.subrange(start as int, n as int));
    if n - start != 3 && n - start != 6 {
        return None;
    }
    let mut d: Vec<u8> = Vec::new();
    let mut i: usize = start;
    while i < n
        invariant
            v@ == hex@,
            n == v@.len(),
            start <= i <= n,
            h == v@.subrange(start as int, n as int),
            h == strip_hash(hex@),
            d@.len() == i - start,
            forall|j: int| 0 <= j < d@.len() ==> #[trigger] d@[j] as int == hex_digit(h[j]) && d@[j] < 16,
        decreases n - i,
    {
        match hex_digit_exec(v[i]) {
            Some(x) => d.push(x),
            None => {
                assert(h[i - start] == v@[i as int]);
                assert(hex_digit(h[i - start]) < 0);
                assert(!all_hex(h));
                return None;
            },
        }
        i = i + 1;
    }
    assert(all_hex(h)) by {
        assert forall|j: int| 0 <= j < h.len() implies hex_digit(#[trigger] h[j]) >= 0 by {
            assert(d@[j] as int == hex_digit(h[j]));
        }
    }
    if n - start == 3 {
        Some(RGB { r: d[0] * 17, g: d[1] * 17, b: d[2] * 17 })
    } else {
        Some(RGB { r: d[0] * 16 + d[1], g: d[2] * 16 + d[3], b: d[4] * 16 + d[5] })
    }
}

/// A three-digit hex color reads the same with or without `#`, and the same as
/// its six-digit form with each digit doubled, with or without `#`.
pub proof fn lemma_hex_forms_agree(a: char, b: char, c: char)
    requires
        hex_digit(a) >= 0,
        hex_digit(b) >= 0,
        hex_digit(c) >= 0,
    ensures
        hex_rgb(seq![a, b, c]) is Some,
        hex_rgb(seq!['#', a, b, c]) == hex_rgb(seq![a, b, c]),
        hex_rgb(seq![a, a, b, b, c, c]) == hex_rgb(seq![a, b, c]),
        hex_rgb(seq!['#', a, a, b, b, c, c]) == hex_rgb(seq![a, b, c]),
{
    let short = seq![a, b, c];
    let long = seq![a, a, b, b, c, c];
    assert(strip_hash(seq!['#', a, b, c]) =~= short);
    assert(strip_hash(seq!['#', a, a, b, b, c, c]) =~= long);
    assert(strip_hash(short) =~= short);
    assert(strip_hash(long) =~= long);
    assert(all_hex(short)) by {
        assert forall|i: int| 0 <= i < short.len() implies hex_digit(#[trigger] short[i]) >= 0 by {
            assert(i == 0 || i == 1 || i == 2);
        }
    }
    assert(all_hex(long)) by {
        assert forall|i: int| 0 <= i < long.len() implies hex_digit(#[trigger] long[i]) >= 0 by {
            assert(0 <= i < 6);
        }
    }
}

/// The hex value of a standard named HTML color, `name` given in lower case.
pub open spec fn named_hex(name: Seq<char>) -> Option<Seq<char>> {
    if name == "aliceblue"@ {
        Some("#f0f8ff"@)
    } else if name == "antiquewhite"@ {
        Some("#faebd7"@)
    } else if name == "aqua"@ {
        Some("#00ffff"@)
    } else if name == "aquamarine"@ {
        Some("#7fffd4"@)
    } else if name == "azure"@ {
        Some("#f0ffff"@)
    } else if name == "beige"@ {
        Some("#f5f5dc"@)
    } else if name == "bisque"@ {
        Some("#ffe4c4"@)
    } else if name == "black"@ {
        Some("#000000"@)
    } else if name == "blanchedalmond"@ {
        Some("#ffebcd"@)
    } else if name == "blue"@ {
        Some("#0000ff"@)
    } else if name == "blueviolet"@ {
        Some("#8a2be2"@)
    } else if name == "brown"@ {
        Some("#a52a2a"@)
    } else if name == "burlywood"@ {
        Some("#deb887"@)
    } else if name == "cadetblue"@ {
        Some("#5f9ea0"@)
    } else if name == "chartreuse"@ {
        Some("#7fff00"@)
    } else if name == "chocolate"@ {
        Some("#d2691e"@)
    } else if name == "coral"@ {
        Some("#ff7f50"@)
    } else if name == "cornflowerblue"@ {
        Some("#6495ed"@)
    } else if name == "cornsilk"@ {
        Some("#fff8dc"@)
    } else if name == "crimson"@ {
        Some("#dc143c"@)
    } else if name == "cyan"@ {
        Some("#00ffff"@)
    } else if name == "darkblue"@ {
        Some("#00008b"@)
    } else if name == "darkcyan"@ {
        Some("#008b8b"@)
    } else if name == "darkgoldenrod"@ {
        Some("#b8860b"@)
    } else if name == "darkgray"@ {
        Some("#a9a9a9"@)
    } else if name == "darkgreen"@ {
        Some("#006400"@)
    } else if name == "darkgrey"@ {
        Some("#a9a9a9"@)
    } else if name == "darkkhaki"@ {
        Some("#bdb76b"@)
    } else if name == "darkmagenta"@ {
        Some("#8b008b"@)
    } else if name == "darkolivegreen"@ {
        Some("#556b2f"@)
    } else if name == "darkorange"@ {
        Some("#ff8c00"@)
    } else if name == "darkorchid"@ {
        Some("#9932cc"@)
    } else if name == "darkred"@ {
        Some("#8b0000"@)
    } else if name == "darksalmon"@ {
        Some("#e9967a"@)
    } else if name == "darkseagreen"@ {
        Some("#8fbc8f"@)
    } else if name == "darkslateblue"@ {
        Some("#483d8b"@)
    } else if name == "darkslategray"@ {
        Some("#2f4f4f"@)
    } else if name == "darkslategrey"@ {
        Some("#2f4f4f"@)
    } else if name == "darkturquoise"@ {
        Some("#00ced1"@)
    } else if name == "darkviolet"@ {
        Some("#9400d3"@)
    } else if name == "deeppink"@ {
        Some("#ff1493"@)
    } else if name == "deepskyblue"@ {
        Some("#00bfff"@)
    } else if name == "dimgray"@ {
        Some("#696969"@)
    } else if name == "dimgrey"@ {
        Some("#696969"@)
    } else if name == "dodgerblue"@ {
        Some("#1e90ff"@)
    } else if name == "firebrick"@ {
        Some("#b22222"@)
    } else if name == "floralwhite"@ {
        Some("#fffaf0"@)
    } else if name == "forestgreen"@ {
        Some("#228b22"@)
    } else if name == "fuchsia"@ {
        Some("#ff00ff"@)
    } else if name == "gainsboro"@ {
        Some("#dcdcdc"@)
    } else if name == "ghostwhite"@ {
        Some("#f8f8ff"@)
    } else if name == "gold"@ {
        Some("#ffd700"@)
    } else if name == "goldenrod"@ {
        Some("#daa520"@)
    } else if name == "gray"@ {
        Some("#808080"@)
    } else if name == "green"@ {
        Some("#008000"@)
    } else if name == "greenyellow"@ {
        Some("#adff2f"@)
    } else if name == "grey"@ {
        Some("#808080"@)
    } else if name == "honeydew"@ {
        Some("#f0fff0"@)
    } else if name == "hotpink"@ {
        Some("#ff69b4"@)
    } else if name == "indianred"@ {
        Some("#cd5c5c"@)
    } else if name == "indigo"@ {
        Some("#4b0082"@)
    } else if name == "ivory"@ {
        Some("#fffff0"@)
    } else if name == "khaki"@ {
        Some("#f0e68c"@)
    } else if name == "lavender"@ {
        Some("#e6e6fa"@)
    } else if name == "lavenderblush"@ {
        Some("#fff0f5"@)
    } else if name == "lawngreen"@ {
        Some("#7cfc00"@)
    } else if name == "lemonchiffon"@ {
        Some("#fffacd"@)
    } else if name == "lightblue"@ {
        Some("#add8e6"@)
    } else if name == "lightcoral"@ {
        Some("#f08080"@)
    } else if name == "lightcyan"@ {
        Some("#e0ffff"@)
    } else if name == "lightgoldenrodyellow"@ {
        Some("#fafad2"@)
    } else if name == "lightgray"@ {
        Some("#d3d3d3"@)
    } else if name == "lightgreen"@ {
        Some("#90ee90"@)
    } else if name == "lightgrey"@ {
        Some("#d3d3d3"@)
    } else if name == "lightpink"@ {
        Some("#ffb6c1"@)
    } else if name == "lightsalmon"@ {
        Some("#ffa07a"@)
    } else if name == "lightseagreen"@ {
        Some("#20b2aa"@)
    } else if name == "lightskyblue"@ {
        Some("#87cefa"@)
    } else if name == "lightslategray"@ {
        Some("#778899"@)
    } else if name == "lightslategrey"@ {
        Some("#778899"@)
    } else if name == "lightsteelblue"@ {
        Some("#b0c4de"@)
    } else if name == "lightyellow"@ {
        Some("#ffffe0"@)
    } else if name == "lime"@ {
        Some("#00ff00"@)
    } else if name == "limegreen"@ {
        Some("#32cd32"@)
    } else if name == "linen"@ {
        Some("#faf0e6"@)
    } else if name == "magenta"@ {
        Some("#ff00ff"@)
    } else if name == "maroon"@ {
        Some("#800000"@)
    } else if name == "mediumaquamarine"@ {
        Some("#66cdaa"@)
    } else if name == "mediumblue"@ {
        Some("#0000cd"@)
    } else if name == "mediumorchid"@ {
        Some("#ba55d3"@)
    } else if name == "mediumpurple"@ {
        Some("#9370db"@)
    } else if name == "mediumseagreen"@ {
        Some("#3cb371"@)
    } else if name == "mediumslateblue"@ {
        Some("#7b68ee"@)
    } else if name == "mediumspringgreen"@ {
        Some("#00fa9a"@)
    } else if name == "mediumturquoise"@ {
        Some("#48d1cc"@)
    } else if name == "mediumvioletred"@ {
        Some("#c71585"@)
    } else if name == "midnightblue"@ {
        Some("#191970"@)
    } else if name == "mintcream"@ {
        Some("#f5fffa"@)
    } else if name == "mistyrose"@ {
        Some("#ffe4e1"@)
    } else if name == "moccasin"@ {
        Some("#ffe4b5"@)
    } else if name == "navajowhite"@ {
        Some("#ffdead"@)
    } else if name == "navy"@ {
        Some("#000080"@)
    } else if name == "oldlace"@ {
        Some("#fdf5e6"@)
    } else if name == "olive"@ {
        Some("#808000"@)
    } else if name == "olivedrab"@ {
        Some("#6b8e23"@)
    } else if name == "orange"@ {
        Some("#ffa500"@)
    } else if name == "orangered"@ {
        Some("#ff4500"@)
    } else if name == "orchid"@ {
        Some("#da70d6"@)
    } else if name == "palegoldenrod"@ {
        Some("#eee8aa"@)
    } else if name == "palegreen"@ {
        Some("#98fb98"@)
    } else if name == "paleturquoise"@ {
        Some("#afeeee"@)
    } else if name == "palevioletred"@ {
        Some("#db7093"@)
    } else if name == "papayawhip"@ {
        Some("#ffefd5"@)
    } else if name == "peachpuff"@ {
        Some("#ffdab9"@)
    } else if name == "peru"@ {
        Some("#cd853f"@)
    } else if name == "pink"@ {
        Some("#ffc0cb"@)
    } else if name == "plum"@ {
        Some("#dda0dd"@)
    } else if name == "powderblue"@ {
        Some("#b0e0e6"@)
    } else if name == "purple"@ {
        Some("#800080"@)
    } else if name == "rebeccapurple"@ {
        Some("#663399"@)
    } else if name == "red"@ {
        Some("#ff0000"@)
    } else if name == "rosybrown"@ {
        Some("#bc8f8f"@)
    } else if name == "royalblue"@ {
        Some("#4169e1"@)
    } else if name == "saddlebrown"@ {
        Some("#8b4513"@)
    } else if name == "salmon"@ {
        Some("#fa8072"@)
    } else if name == "sandybrown"@ {
        Some("#f4a460"@)
    } else if name == "seagreen"@ {
        Some("#2e8b57"@)
    } else if name == "seashell"@ {
        Some("#fff5ee"@)
    } else if name == "sienna"@ {
        Some("#a0522d"@)
    } else if name == "silver"@ {
        Some("#c0c0c0"@)
    } else if name == "skyblue"@ {
        Some("#87ceeb"@)
    } else if name == "slateblue"@ {
        Some("#6a5acd"@)
    } else if name == "slategray"@ {
        Some("#708090"@)
    } else if name == "slategrey"@ {
        Some("#708090"@)
    } else if name == "snow"@ {
        Some("#fffafa"@)
    } else if name == "springgreen"@ {
        Some("#00ff7f"@)
    } else if name == "steelblue"@ {
        Some("#4682b4"@)
    } else if name == "tan"@ {
        Some("#d2b48c"@)
    } else if name == "teal"@ {
        Some("#008080"@)
    } else if name == "thistle"@ {
        Some("#d8bfd8"@)
    } else if name == "tomato"@ {
        Some("#ff6347"@)
    } else if name == "turquoise"@ {
        Some("#40e0d0"@)
    } else if name == "violet"@ {
        Some("#ee82ee"@)
    } else if name == "wheat"@ {
        Some("#f5deb3"@)
    } else if name == "white"@ {
        Some("#ffffff"@)
    } else if name == "whitesmoke"@ {
        Some("#f5f5f5"@)
    } else if name == "yellow"@ {
        Some("#ffff00"@)
    } else if name == "yellowgreen"@ {
        Some("#9acd32"@)
    } else {
        None
    }
}

/// The hex value of the named HTML color `name`, matched without regard to ASCII case.
pub fn html_named_color(name: &str) -> (r: Option<&'static str>)
    ensures
        match r {
            Some(h) => named_hex(ascii_lower(name@)) == Some(h@),
            None => named_hex(ascii_lower(name@)) is None,
        },
{
    if eq_ignore_ascii_case(name, "aliceblue") {
        return Some("#f0f8ff");
    }
    if eq_ignore_ascii_case(name, "antiquewhite") {
        return Some("#faebd7");
    }
    if eq_ignore_ascii_case(name, "aqua") {
        return Some("#00ffff");
    }
    if eq_ignore_ascii_case(name, "aquamarine") {
        return Some("#7fffd4");
    }
    if eq_ignore_ascii_case(name, "azure") {
        return Some("#f0ffff");
    }
    if eq_ignore_ascii_case(name, "beige") {
        return Some("#f5f5dc");
    }
    if eq_ignore_ascii_case(name, "bisque") {
        return Some("#ffe4c4");
    }
    if eq_ignore_ascii_case(name, "black") {
        return Some("#000000");
    }
    if eq_ignore_ascii_case(name, "blanchedalmond") {
        return Some("#ffebcd");
    }
    if eq_ignore_ascii_case(name, "blue") {
        return Some("#0000ff");
    }
    if eq_ignore_ascii_case(name, "blueviolet") {
        return Some("#8a2be2");
    }
    if eq_ignore_ascii_case(name, "brown") {
        return Some("#a52a2a");
    }
    if eq_ignore_ascii_case(name, "burlywood") {
        return Some("#deb887");
    }
    if eq_ignore_ascii_case(name, "cadetblue") {
        return Some("#5f9ea0");
    }
    if eq_ignore_ascii_case(name, "chartreuse") {
        return Some("#7fff00");
    }
    if eq_ignore_ascii_case(name, "chocolate") {
        return Some("#d2691e");
    }
    if eq_ignore_ascii_case(name, "coral") {
        return Some("#ff7f50");
    }
    if eq_ignore_ascii_case(name, "cornflowerblue") {
        return Some("#6495ed");
    }
    if eq_ignore_ascii_case(name, "cornsilk") {
        return Some("#fff8dc");
    }
    if eq_ignore_ascii_case(name, "crimson") {
        return Some("#dc143c");
    }
    if eq_ignore_ascii_case(name, "cyan") {
        return Some("#00ffff");
    }
    if eq_ignore_ascii_case(name, "darkblue") {
        return Some("#00008b");
    }
    if eq_ignore_ascii_case(name, "darkcyan") {
        return Some("#008b8b");
    }
    if eq_ignore_ascii_case(name, "darkgoldenrod") {
        return Some("#b8860b");
    }
    if eq_ignore_ascii_case(name, "darkgray") {
        return Some("#a9a9a9");
    }
    if eq_ignore_ascii_case(name, "darkgreen") {
        return Some("#006400");
    }
    if eq_ignore_ascii_case(name, "darkgrey") {
        return Some("#a9a9a9");
    }
    if eq_ignore_ascii_case(name, "darkkhaki") {
        return Some("#bdb76b");
    }
    if eq_ignore_ascii_case(name, "darkmagenta") {
        return Some("#8b008b");
    }
    if eq_ignore_ascii_case(name, "darkolivegreen") {
        return Some("#556b2f");
    }
    if eq_ignore_ascii_case(name, "darkorange") {
        return Some("#ff8c00");
    }
    if eq_ignore_ascii_case(name, "darkorchid") {
        return Some("#9932cc");
    }
    if eq_ignore_ascii_case(name, "darkred") {
        return Some("#8b0000");
    }
    if eq_ignore_ascii_case(name, "darksalmon") {
        return Some("#e9967a");
    }
    if eq_ignore_ascii_case(name, "darkseagreen") {
        return Some("#8fbc8f");
    }
    if eq_ignore_ascii_case(name, "darkslateblue") {
        return Some("#483d8b");
    }
    if eq_ignore_ascii_case(name, "darkslategray") {
        return Some("#2f4f4f");
    }
    if eq_ignore_ascii_case(name, "darkslategrey") {
        return Some("#2f4f4f");
    }
    if eq_ignore_ascii_case(name, "darkturquoise") {
        return Some("#00ced1");
    }
    if eq_ignore_ascii_case(name, "darkviolet") {
        return Some("#9400d3");
    }
    if eq_ignore_ascii_case(name, "deeppink") {
        return Some("#ff1493");
    }
    if eq_ignore_ascii_case(name, "deepskyblue") {
        return Some("#00bfff");
    }
    if eq_ignore_ascii_case(name, "dimgray") {
        return Some("#696969");
    }
    if eq_ignore_ascii_case(name, "dimgrey") {
        return Some("#696969");
    }
    if eq_ignore_ascii_case(name, "dodgerblue") {
        return Some("#1e90ff");
    }
    if eq_ignore_ascii_case(name, "firebrick") {
        return Some("#b22222");
    }
    if eq_ignore_ascii_case(name, "floralwhite") {
        return Some("#fffaf0");
    }
    if eq_ignore_ascii_case(name, "forestgreen") {
        return Some("#228b22");
    }
    if eq_ignore_ascii_case(name, "fuchsia") {
        return Some("#ff00ff");
    }
    if eq_ignore_ascii_case(name, "gainsboro") {
        return Some("#dcdcdc");
    }
    if eq_ignore_ascii_case(name, "ghostwhite") {
        return Some("#f8f8ff");
    }
    if eq_ignore_ascii_case(name, "gold") {
        return Some("#ffd700");
    }
    if eq_ignore_ascii_case(name, "goldenrod") {
        return Some("#daa520");
    }
    if eq_ignore_ascii_case(name, "gray") {
        return Some("#808080");
    }
    if eq_ignore_ascii_case(name, "green") {
        return Some("#008000");
    }
    if eq_ignore_ascii_case(name, "greenyellow") {
        return Some("#adff2f");
    }
    if eq_ignore_ascii_case(name, "grey") {
        return Some("#808080");
    }
    if eq_ignore_ascii_case(name, "honeydew") {
        return Some("#f0fff0");
    }
    if eq_ignore_ascii_case(name, "hotpink") {
        return Some("#ff69b4");
    }
    if eq_ignore_ascii_case(name, "indianred") {
        return Some("#cd5c5c");
    }
    if eq_ignore_ascii_case(name, "indigo") {
        return Some("#4b0082");
    }
    if eq_ignore_ascii_case(name, "ivory") {
        return Some("#fffff0");
    }
    if eq_ignore_ascii_case(name, "khaki") {
        return Some("#f0e68c");
    }
    if eq_ignore_ascii_case(name, "lavender") {
        return Some("#e6e6fa");
    }
    if eq_ignore_ascii_case(name, "lavenderblush") {
        return Some("#fff0f5");
    }
    if eq_ignore_ascii_case(name, "lawngreen") {
        return Some("#7cfc00");
    }
    if eq_ignore_ascii_case(name, "lemonchiffon") {
        return Some("#fffacd");
    }
    if eq_ignore_ascii_case(name, "lightblue") {
        return Some("#add8e6");
    }
    if eq_ignore_ascii_case(name, "lightcoral") {
        return Some("#f08080");
    }
    if eq_ignore_ascii_case(name, "lightcyan") {
        return Some("#e0ffff");
    }
    if eq_ignore_ascii_case(name, "lightgoldenrodyellow") {
        return Some("#fafad2");
    }
    if eq_ignore_ascii_case(name, "lightgray") {
        return Some("#d3d3d3");
    }
    if eq_ignore_ascii_case(name, "lightgreen") {
        return Some("#90ee90");
    }
    if eq_ignore_ascii_case(name, "lightgrey") {
        return Some("#d3d3d3");
    }
    if eq_ignore_ascii_case(name, "lightpink") {
        return Some("#ffb6c1");
    }
    if eq_ignore_ascii_case(name, "lightsalmon") {
        return Some("#ffa07a");
    }
    if eq_ignore_ascii_case(name, "lightseagreen") {
        return Some("#20b2aa");
    }
    if eq_ignore_ascii_case(name, "lightskyblue") {
        return Some("#87cefa");
    }
    if eq_ignore_ascii_case(name, "lightslategray") {
        return Some("#778899");
    }
    if eq_ignore_ascii_case(name, "lightslategrey") {
        return Some("#778899");
    }
    if eq_ignore_ascii_case(name, "lightsteelblue") {
        return Some("#b0c4de");
    }
    if eq_ignore_ascii_case(name, "lightyellow") {
        return Some("#ffffe0");
    }
    if eq_ignore_ascii_case(name, "lime") {
        return Some("#00ff00");
    }
    if eq_ignore_ascii_case(name, "limegreen") {
        return Some("#32cd32");
    }
    if eq_ignore_ascii_case(name, "linen") {
        return Some("#faf0e6");
    }
    if eq_ignore_ascii_case(name, "magenta") {
        return Some("#ff00ff");
    }
    if eq_ignore_ascii_case(name, "maroon") {
        return Some("#800000");
    }
    if eq_ignore_ascii_case(name, "mediumaquamarine") {
        return Some("#66cdaa");
    }
    if eq_ignore_ascii_case(name, "mediumblue") {
        return Some("#0000cd");
    }
    if eq_ignore_ascii_case(name, "mediumorchid") {
        return Some("#ba55d3");
    }
    if eq_ignore_ascii_case(name, "mediumpurple") {
        return Some("#9370db");
    }
    if eq_ignore_ascii_case(name, "mediumseagreen") {
        return Some("#3cb371");
    }
    if eq_ignore_ascii_case(name, "mediumslateblue") {
        return Some("#7b68ee");
    }
    if eq_ignore_ascii_case(name, "mediumspringgreen") {
        return Some("#00fa9a");
    }
    if eq_ignore_ascii_case(name, "mediumturquoise") {
        return Some("#48d1cc");
    }
    if eq_ignore_ascii_case(name, "mediumvioletred") {
        return Some("#c71585");
    }
    if eq_ignore_ascii_case(name, "midnightblue") {
        return Some("#191970");
    }
    if eq_ignore_ascii_case(name, "mintcream") {
        return Some("#f5fffa");
    }
    if eq_ignore_ascii_case(name, "mistyrose") {
        return Some("#ffe4e1");
    }
    if eq_ignore_ascii_case(name, "moccasin") {
        return Some("#ffe4b5");
    }
    if eq_ignore_ascii_case(name, "navajowhite") {
        return Some("#ffdead");
    }
    if eq_ignore_ascii_case(name, "navy") {
        return Some("#000080");
    }
    if eq_ignore_ascii_case(name, "oldlace") {
        return Some("#fdf5e6");
    }
    if eq_ignore_ascii_case(name, "olive") {
        return Some("#808000");
    }
    if eq_ignore_ascii_case(name, "olivedrab") {
        return Some("#6b8e23");
    }
    if eq_ignore_ascii_case(name, "orange") {
        return Some("#ffa500");
    }
    if eq_ignore_ascii_case(name, "orangered") {
        return Some("#ff4500");
    }
    if eq_ignore_ascii_case(name, "orchid") {
        return Some("#da70d6");
    }
    if eq_ignore_ascii_case(name, "palegoldenrod") {
        return Some("#eee8aa");
    }
    if eq_ignore_ascii_case(name, "palegreen") {
        return Some("#98fb98");
    }
    if eq_ignore_ascii_case(name, "paleturquoise") {
        return Some("#afeeee");
    }
    if eq_ignore_ascii_case(name, "palevioletred") {
        return Some("#db7093");
    }
    if eq_ignore_ascii_case(name, "papayawhip") {
        return Some("#ffefd5");
    }
    if eq_ignore_ascii_case(name, "peachpuff") {
        return Some("#ffdab9");
    }
    if eq_ignore_ascii_case(name, "peru") {
        return Some("#cd853f");
    }
    if eq_ignore_ascii_case(name, "pink") {
        return Some("#ffc0cb");
    }
    if eq_ignore_ascii_case(name, "plum") {
        return Some("#dda0dd");
    }
    if eq_ignore_ascii_case(name, "powderblue") {
        return Some("#b0e0e6");
    }
    if eq_ignore_ascii_case(name, "purple") {
        return Some("#800080");
    }
    if eq_ignore_ascii_case(name, "rebeccapurple") {
        return Some("#663399");
    }
    if eq_ignore_ascii_case(name, "red") {
        return Some("#ff0000");
    }
    if eq_ignore_ascii_case(name, "rosybrown") {
        return Some("#bc8f8f");
    }
    if eq_ignore_ascii_case(name, "royalblue") {
        return Some("#4169e1");
    }
    if eq_ignore_ascii_case(name, "saddlebrown") {
        return Some("#8b4513");
    }
    if eq_ignore_ascii_case(name, "salmon") {
        return Some("#fa8072");
    }
    if eq_ignore_ascii_case(name, "sandybrown") {
        return Some("#f4a460");
    }
    if eq_ignore_ascii_case(name, "seagreen") {
        return Some("#2e8b57");
    }
    if eq_ignore_ascii_case(name, "seashell") {
        return Some("#fff5ee");
    }
    if eq_ignore_ascii_case(name, "sienna") {
        return Some("#a0522d");
    }
    if eq_ignore_ascii_case(name, "silver") {
        return Some("#c0c0c0");
    }
    if eq_ignore_ascii_case(name, "skyblue") {
        return Some("#87ceeb");
    }
    if eq_ignore_ascii_case(name, "slateblue") {
        return Some("#6a5acd");
    }
    if eq_ignore_ascii_case(name, "slategray") {
        return Some("#708090");
    }
    if eq_ignore_ascii_case(name, "slategrey") {
        return Some("#708090");
    }
    if eq_ignore_ascii_case(name, "snow") {
        return Some("#fffafa");
    }
    if eq_ignore_ascii_case(name, "springgreen") {
        return Some("#00ff7f");
    }
    if eq_ignore_ascii_case(name, "steelblue") {
        return Some("#4682b4");
    }
    if eq_ignore_ascii_case(name, "tan") {
        return Some("#d2b48c");
    }
    if eq_ignore_ascii_case(name, "teal") {
        return Some("#008080");
    }
    if eq_ignore_ascii_case(name, "thistle") {
        return Some("#d8bfd8");
    }
    if eq_ignore_ascii_case(name, "tomato") {
        return Some("#ff6347");
    }
    if eq_ignore_ascii_case(name, "turquoise") {
        return Some("#40e0d0");
    }
    if eq_ignore_ascii_case(name, "violet") {
        return Some("#ee82ee");
    }
    if eq_ignore_ascii_case(name, "wheat") {
        return Some("#f5deb3");
    }
    if eq_ignore_ascii_case(name, "white") {
        return Some("#ffffff");
    }
    if eq_ignore_ascii_case(name, "whitesmoke") {
        return Some("#f5f5f5");
    }
    if eq_ignore_ascii_case(name, "yellow") {
        return Some("#ffff00");
    }
    if eq_ignore_ascii_case(name, "yellowgreen") {
        return Some("#9acd32");
    }
    None
}

/// The hex value of a semantic color name: file names and paths, or numbers.
pub open spec fn semantic_hex(name: Seq<char>) -> Option<Seq<char>> {
    if name == "filename"@ || name == "filepath"@ {
        Some("#f7cd43"@)
    } else if name == "number"@ || name == "digits"@ {
        Some("#556fed"@)
    } else {
        None
    }
}

/// The hex value of a semantic color name.
pub fn snowfall_color(name: &str) -> (r: Option<&'static str>)
    ensures
        match r {
            Some(h) => semantic_hex(name@) == Some(h@),
            None => semantic_hex(name@) is None,
        },
{
    if str_eq(name, "filename") || str_eq(name, "filepath") {
        Some("#f7cd43")
    } else if str_eq(name, "number") || str_eq(name, "digits") {
        Some("#556fed")
    } else {
        None
    }
}

/// A color spec resolved without the alias table: a named HTML color first, then a
/// semantic name, then a literal hex color.
pub open spec fn spec_color(s: Seq<char>) -> Option<RGB> {
    match named_hex(ascii_lower(s)) {
        Some(h) => hex_rgb(h),
        None => match semantic_hex(s) {
            Some(h) => hex_rgb(h),
            None => hex_rgb(s),
        },
    }
}

/// Resolves a color spec that is not an alias; see [`spec_color`].
pub fn resolve_spec_color(s: &str) -> (r: Option<RGB>)
    ensures
        r == spec_color(s@),
{
    match html_named_color(s) {
        Some(h) => parse_hex(h),
        None => match snowfall_color(s) {
            Some(h) => parse_hex(h),
            None => parse_hex(s),
        },
    }
}

} // verus!
