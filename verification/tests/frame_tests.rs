use ledstrip_core::channel::CommandQueue;
use ledstrip_core::color::ColorCommand;
use ledstrip_core::frame::driver_step;
use ledstrip_core::frame::LedFrame;

#[test]
fn solid_frame_fills_every_pixel() {
    let c = ColorCommand::new(10, 20, 30);
    let f = LedFrame::solid(c, 23);
    assert_eq!(f.len(), 23);
    for p in f.pixels() {
        assert_eq!(*p, c);
    }
}

#[test]
fn startup_frame_is_all_off() {
    let f = LedFrame::solid(ColorCommand::off(), 23);
    for p in f.pixels() {
        assert_eq!(*p, ColorCommand::new(0, 0, 0));
    }
}

#[test]
fn empty_strip_frame_has_no_pixels() {
    let f = LedFrame::solid(ColorCommand::new(1, 2, 3), 0);
    assert_eq!(f.len(), 0);
}

#[test]
fn driver_step_consumes_oldest_command() {
    let mut q = CommandQueue::new();
    let first = ColorCommand::new(1, 2, 3);
    let second = ColorCommand::new(4, 5, 6);
    q.try_push(first);
    q.try_push(second);
    let f = driver_step(&mut q, 5).expect("a command was queued");
    let expected_first = LedFrame::solid(first, 5);
    assert_eq!(f.pixels(), expected_first.pixels());
    assert_eq!(q.len(), 1);
    let f = driver_step(&mut q, 5).expect("a command was queued");
    let expected_second = LedFrame::solid(second, 5);
    assert_eq!(f.pixels(), expected_second.pixels());
    assert!(q.is_empty());
}

#[test]
fn driver_step_suspends_on_empty_channel() {
    let mut q = CommandQueue::new();
    assert!(driver_step(&mut q, 23).is_none());
    assert!(q.is_empty());
}
