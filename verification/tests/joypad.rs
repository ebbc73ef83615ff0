use feox::interrupts::{Interrupt, InterruptQueue};
use feox::joypad::{Button, Joypad};

#[test]
fn nothing_selected_reads_all_ones() {
    let mut joypad = Joypad::new();
    let mut interrupts = InterruptQueue::new();
    assert_eq!(joypad.as_byte(), 0xFF);
    joypad.press_button(&mut interrupts, Button::A);
    joypad.press_button(&mut interrupts, Button::Left);
    assert_eq!(joypad.as_byte(), 0xFF);
}

#[test]
fn direction_pad_shows_when_bit_4_is_clear() {
    let mut joypad = Joypad::new();
    let mut interrupts = InterruptQueue::new();
    joypad.from_byte(0x20);
    joypad.press_button(&mut interrupts, Button::Right);
    assert_eq!(joypad.as_byte(), 0xFE);
    joypad.press_button(&mut interrupts, Button::Left);
    assert_eq!(joypad.as_byte(), 0xFC);
    joypad.press_button(&mut interrupts, Button::Up);
    assert_eq!(joypad.as_byte(), 0xF8);
    joypad.press_button(&mut interrupts, Button::Down);
    assert_eq!(joypad.as_byte(), 0xF0);
    joypad.press_button(&mut interrupts, Button::A);
    assert_eq!(joypad.as_byte(), 0xF0);
}

#[test]
fn buttons_show_when_bit_5_is_clear() {
    let mut joypad = Joypad::new();
    let mut interrupts = InterruptQueue::new();
    joypad.from_byte(0x10);
    joypad.press_button(&mut interrupts, Button::A);
    assert_eq!(joypad.as_byte(), 0xFE);
    joypad.press_button(&mut interrupts, Button::B);
    assert_eq!(joypad.as_byte(), 0xFC);
    joypad.press_button(&mut interrupts, Button::Select);
    assert_eq!(joypad.as_byte(), 0xF8);
    joypad.press_button(&mut interrupts, Button::Start);
    assert_eq!(joypad.as_byte(), 0xF0);
    joypad.press_button(&mut interrupts, Button::Up);
    assert_eq!(joypad.as_byte(), 0xF0);
}

#[test]
fn both_groups_share_the_lines() {
    let mut joypad = Joypad::new();
    let mut interrupts = InterruptQueue::new();
    joypad.from_byte(0x00);
    joypad.press_button(&mut interrupts, Button::Down);
    joypad.press_button(&mut interrupts, Button::A);
    assert_eq!(joypad.as_byte(), 0xF6);
}

#[test]
fn first_press_requests_the_interrupt() {
    let mut joypad = Joypad::new();
    let mut interrupts = InterruptQueue::new();
    joypad.press_button(&mut interrupts, Button::Start);
    assert_eq!(interrupts.as_byte(), 0x10);
    interrupts.from_byte(0);
    joypad.press_button(&mut interrupts, Button::Start);
    assert_eq!(interrupts.as_byte(), 0x00);
    joypad.press_button(&mut interrupts, Button::Select);
    assert_eq!(interrupts.as_byte(), 0x10);
    interrupts.flags_from_byte(0x10);
    assert_eq!(interrupts.pop(), Some(Interrupt::Joypad));
}

#[test]
fn clear_button_releases_only_that_button() {
    let mut joypad = Joypad::new();
    let mut interrupts = InterruptQueue::new();
    joypad.from_byte(0x20);
    joypad.press_button(&mut interrupts, Button::Right);
    joypad.press_button(&mut interrupts, Button::Up);
    joypad.clear_button(Button::Right);
    assert_eq!(joypad.as_byte(), 0xFB);
    joypad.clear_button(Button::Down);
    assert_eq!(joypad.as_byte(), 0xFB);
    joypad.clear_button(Button::Up);
    assert_eq!(joypad.as_byte(), 0xFF);
    interrupts.from_byte(0);
    joypad.press_button(&mut interrupts, Button::Right);
    assert_eq!(interrupts.as_byte(), 0x10);
}
