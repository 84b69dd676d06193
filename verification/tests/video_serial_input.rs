use padme_frontend::input::{all_buttons, Button, ButtonState};
use padme_frontend::serial::SerialLog;
use padme_frontend::video::{FrameBuffer, FRAME_HEIGHT, FRAME_WIDTH, INITIAL_PIXEL};

#[test]
fn fresh_frame_is_all_initial_color() {
    let f = FrameBuffer::new();
    assert_eq!(f.pixels().len(), FRAME_WIDTH * FRAME_HEIGHT);
    assert_eq!(f.pixel_at(0, 0), INITIAL_PIXEL);
    assert_eq!(
        f.pixel_at((FRAME_WIDTH - 1) as u8, (FRAME_HEIGHT - 1) as u8),
        INITIAL_PIXEL
    );
}

#[test]
fn write_pixel_updates_exactly_the_addressed_pixel() {
    let mut f = FrameBuffer::new();
    f.write_pixel(0x00FF_0000, 3, 2);
    assert_eq!(f.pixel_at(3, 2), 0x00FF_0000);
    assert_eq!(f.pixel_at(2, 3), INITIAL_PIXEL);
    assert_eq!(f.pixels()[3 + 2 * FRAME_WIDTH], 0x00FF_0000);
}

#[test]
fn out_of_bounds_writes_are_ignored() {
    // A conformant core never writes outside the visible area; a
    // misbehaving one must still leave the sink well-defined: the write is
    // dropped and the frame is untouched.
    let mut f = FrameBuffer::new();
    f.write_pixel(0x0012_3456, FRAME_WIDTH as u8, 0);
    f.write_pixel(0x0012_3456, 0, FRAME_HEIGHT as u8);
    f.write_pixel(0x0012_3456, 255, 255);
    for &p in f.pixels().iter() {
        assert_eq!(p, INITIAL_PIXEL);
    }
}

#[test]
fn serial_log_appends_in_order() {
    let mut s = SerialLog::new();
    for b in b"frame ok\n" {
        s.put_byte(*b);
    }
    assert_eq!(s.pending_len(), 9);
    let taken = s.take_pending();
    assert_eq!(taken, b"frame ok\n".to_vec());
    assert_eq!(s.pending_len(), 0);
}

#[test]
fn taking_pending_bytes_does_not_lose_later_ones() {
    let mut s = SerialLog::new();
    s.put_byte(1);
    s.put_byte(2);
    let first = s.take_pending();
    s.put_byte(3);
    let second = s.take_pending();
    assert_eq!(first, vec![1, 2]);
    assert_eq!(second, vec![3]);
}

#[test]
fn button_state_is_pure_level_sampling() {
    let st = ButtonState::sample(true, false, true, false, false, true, false, false);
    assert!(st.pressed(Button::A));
    assert!(!st.pressed(Button::B));
    assert!(st.pressed(Button::Start));
    assert!(!st.pressed(Button::Select));
    assert!(!st.pressed(Button::Up));
    assert!(st.pressed(Button::Down));
    assert!(!st.pressed(Button::Left));
    assert!(!st.pressed(Button::Right));
}

#[test]
fn resampling_overwrites_wholesale() {
    let first = ButtonState::sample(true, true, true, true, true, true, true, true);
    let second = ButtonState::sample(false, false, false, false, false, false, false, false);
    assert_ne!(first, second);
    for b in all_buttons() {
        assert!(first.pressed(b));
        assert!(!second.pressed(b));
    }
}

#[test]
fn forwarding_order_covers_every_button_once() {
    let order = all_buttons();
    assert_eq!(
        order,
        vec![
            Button::A,
            Button::B,
            Button::Start,
            Button::Select,
            Button::Up,
            Button::Down,
            Button::Left,
            Button::Right,
        ]
    );
}
