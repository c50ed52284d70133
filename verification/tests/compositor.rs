use twatch::display::backlight_duty;
use twatch::display::full_screen;
use twatch::display::Backlight;
use twatch::display::Point;
use twatch::display::Rectangle;
use twatch::display::Size;
use twatch::display::TwatchDisplay;

fn fresh_display() -> TwatchDisplay {
    TwatchDisplay::new(Backlight::new())
}

#[test]
fn new_display_is_black() {
    let d = fresh_display();
    assert_eq!(d.framebuffer.len(), 57600);
    assert!(d.framebuffer.iter().all(|&w| w == 0));
    assert_eq!(d.get_display_level(), 100);
}

#[test]
fn set_pixel_lands_row_major() {
    let mut d = fresh_display();
    d.set_pixel(3, 2, 0xF800);
    assert_eq!(d.framebuffer[2 * 240 + 3], 0xF800);
    assert_eq!(d.framebuffer.iter().filter(|&&w| w != 0).count(), 1);
}

#[test]
fn partial_commit_full_rect_matches_full_commit() {
    let mut d = fresh_display();
    // Paint a pattern that distinguishes every word.
    for y in 0..240u32 {
        for x in 0..240u32 {
            d.set_pixel(x, y, ((x * 7 + y * 131) & 0xFFFF) as u16);
        }
    }
    let partial = d.commit_display_partial(full_screen());
    let full = d.commit_display();
    assert_eq!(partial.words, full.words);
    assert_eq!(partial.region, full.region);
    assert_eq!(partial.words.len(), 57600);
}

#[test]
fn full_commit_clears_buffer() {
    let mut d = fresh_display();
    d.set_pixel(10, 10, 0xFFFF);
    let write = d.commit_display();
    assert_eq!(write.words[10 * 240 + 10], 0xFFFF);
    assert!(d.framebuffer.iter().all(|&w| w == 0));
}

#[test]
fn partial_commit_copies_per_row_offsets() {
    let mut d = fresh_display();
    d.set_pixel(5, 7, 0xAAAA);
    d.set_pixel(6, 8, 0xBBBB);
    d.set_pixel(4, 7, 0x1111); // left of the rectangle: must not appear
    let rect = Rectangle {
        top_left: Point { x: 5, y: 7 },
        size: Size { width: 2, height: 2 },
    };
    let write = d.commit_display_partial(rect);
    assert_eq!(write.words.len(), 4);
    assert_eq!(write.words[0], 0xAAAA); // row 0, col 0 -> (5, 7)
    assert_eq!(write.words[1], 0x0000); // row 0, col 1 -> (6, 7)
    assert_eq!(write.words[2], 0x0000); // row 1, col 0 -> (5, 8)
    assert_eq!(write.words[3], 0xBBBB); // row 1, col 1 -> (6, 8)
    // A partial commit does not clear the buffer.
    assert_eq!(d.framebuffer[7 * 240 + 5], 0xAAAA);
}

#[test]
fn backlight_level_remembers_last_on() {
    let mut d = fresh_display();
    d.set_display_level(25);
    assert_eq!(d.get_display_level(), 25);
    d.set_display_off();
    assert_eq!(d.get_display_level(), 0);
    d.set_display_on();
    assert_eq!(d.get_display_level(), 25);
}

#[test]
fn backlight_duty_is_level_share_of_max() {
    assert_eq!(backlight_duty(0, 1023), 0);
    assert_eq!(backlight_duty(25, 1023), 255);
    assert_eq!(backlight_duty(100, 1023), 1023);
    assert_eq!(backlight_duty(50, 4_000_000_000), 2_000_000_000);
}
