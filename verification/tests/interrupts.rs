use feox::interrupts::{Interrupt, InterruptQueue};

#[test]
fn new_queue_has_nothing_pending() {
    let mut queue = InterruptQueue::new();
    assert!(!queue.peek());
    assert_eq!(queue.pop(), None);
    assert_eq!(queue.as_byte(), 0);
    assert_eq!(queue.flags_as_byte(), 0);
}

#[test]
fn request_needs_enable_to_be_pending() {
    let mut queue = InterruptQueue::new();
    queue.request_interrupt(Interrupt::Timer);
    assert!(!queue.peek());
    assert_eq!(queue.as_byte(), 0x04);
    queue.flags_from_byte(0x04);
    assert!(queue.peek());
    assert_eq!(queue.pop(), Some(Interrupt::Timer));
    assert!(!queue.peek());
    assert_eq!(queue.as_byte(), 0x00);
}

#[test]
fn pop_follows_priority_order() {
    let mut queue = InterruptQueue::new();
    queue.flags_from_byte(0xFF);
    queue.request_interrupt(Interrupt::Joypad);
    queue.request_interrupt(Interrupt::Timer);
    queue.request_interrupt(Interrupt::Lcd);
    queue.request_interrupt(Interrupt::VBlank);
    assert_eq!(queue.pop(), Some(Interrupt::VBlank));
    assert_eq!(queue.pop(), Some(Interrupt::Lcd));
    assert_eq!(queue.pop(), Some(Interrupt::Timer));
    assert_eq!(queue.pop(), Some(Interrupt::Joypad));
    assert_eq!(queue.pop(), None);
}

#[test]
fn registers_read_back_without_reserved_bits() {
    let mut queue = InterruptQueue::new();
    queue.from_byte(0xFF);
    queue.flags_from_byte(0xFF);
    assert_eq!(queue.as_byte(), 0x17);
    assert_eq!(queue.flags_as_byte(), 0x17);
    queue.from_byte(0x08);
    assert_eq!(queue.as_byte(), 0x00);
    assert!(!queue.peek());
}
