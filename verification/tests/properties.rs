use termctl::cursor;
use termctl::screen;
use termctl::screen::Mode;

#[test]
fn mode_codes_match_table() {
    let modes = vec![
        Mode::MonoText40x25,
        Mode::ColorText40x25,
        Mode::MonoText80x25,
        Mode::ColorText80x25,
        Mode::Color4Graphics320x200,
        Mode::MonoGraphics320x200,
        Mode::MonoGraphics640x200,
        Mode::ColorGraphics320x200,
        Mode::Color16Graphics640x200,
        Mode::MonoGraphics640x350,
        Mode::Color16Graphics640x350,
        Mode::MonoGraphics640x480,
        Mode::Color16Graphics640x480,
        Mode::Color256Graphics320x200,
    ];
    let codes = vec![0u8, 1, 2, 3, 4, 5, 6, 13, 14, 15, 16, 17, 18, 19];
    assert_eq!(modes.len(), codes.len());
    for i in 0..modes.len() {
        assert_eq!(modes[i].code(), codes[i]);
    }
}

#[test]
fn mode_codes_are_distinct() {
    let modes = vec![
        Mode::MonoText40x25,
        Mode::ColorText40x25,
        Mode::MonoText80x25,
        Mode::ColorText80x25,
        Mode::Color4Graphics320x200,
        Mode::MonoGraphics320x200,
        Mode::MonoGraphics640x200,
        Mode::ColorGraphics320x200,
        Mode::Color16Graphics640x200,
        Mode::MonoGraphics640x350,
        Mode::Color16Graphics640x350,
        Mode::MonoGraphics640x480,
        Mode::Color16Graphics640x480,
        Mode::Color256Graphics320x200,
    ];
    for i in 0..modes.len() {
        for j in 0..modes.len() {
            if i != j {
                assert_ne!(modes[i].code(), modes[j].code());
            }
        }
    }
}

#[test]
fn sequential_outputs_concatenate() {
    let combined = format!("{}{}", cursor::home(), cursor::move_down(3));
    assert_eq!(combined, "\x1b[H\x1b[3B");
}

#[test]
fn show_is_independent_of_prior_calls() {
    let fresh = cursor::show();
    cursor::hide_cursor();
    let after_hide = cursor::show();
    assert_eq!(fresh, after_hide);
    assert_eq!(after_hide, "\x1b[?25h");
}

#[test]
fn mode_round_trip() {
    let combined = format!(
        "{}{}",
        screen::set_mode(Mode::Color16Graphics640x480),
        screen::reset_mode(Mode::Color16Graphics640x480)
    );
    assert_eq!(combined, "\x1b[=18h\x1b[=18l");
}
