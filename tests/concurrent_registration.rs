use snowfall_core::{cprint_add_color, ensure_custom_colors, parse_color, RGB};
use std::sync::Mutex;

#[test]
fn interleaved_registration_loses_no_alias() {
    // several writers take turns on one shared table, one insert per lock
    let colors = Mutex::new(ensure_custom_colors());
    let writers: u32 = 8;
    let per_writer: u32 = 50;
    for i in 0..per_writer {
        for t in (0..writers).rev() {
            let name = format!("t{}_{}", t, i);
            let value = format!("#{:02x}{:02x}00", t, i);
            let mut guard = colors.lock().unwrap();
            cprint_add_color(&mut guard, &name, &value);
        }
    }
    let colors = colors.into_inner().unwrap();
    for t in 0..writers {
        for i in 0..per_writer {
            let name = format!("t{}_{}", t, i);
            assert_eq!(
                parse_color(&colors, &name),
                Some(RGB { r: t as u8, g: i as u8, b: 0 })
            );
        }
    }
}
