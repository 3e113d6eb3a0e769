use device_nodes::{
    device_kind, DeviceKind, DeviceNode, Devices, Dsp, DspAction, FsError, GPIOOutput,
    IoctlError, Stdin, Stdout, DSP_ID, DSP_PLAY, DSP_RESET, GPIO_ID, MAX_PIN, STDERR_ID,
    STDIN_ID, STDOUT_ID,
};

#[test]
fn fifo_order_of_pushes() {
    let mut s = Stdin::new();
    for c in ['a', 'b', 'c', 'd'] {
        s.push(c);
    }
    let mut out = Vec::new();
    for _ in 0..4 {
        out.push(s.pop().unwrap());
    }
    assert_eq!(out, vec!['a', 'b', 'c', 'd']);
    assert!(!s.can_read());
}

#[test]
fn pop_on_empty_waits_then_gets_pushed_value() {
    let mut s = Stdin::default();
    assert_eq!(s.pop(), None);
    assert!(!s.can_read());
    s.push('z');
    assert!(s.can_read());
    assert_eq!(s.pop(), Some('z'));
    assert_eq!(s.pop(), None);
}

#[test]
fn scenario_push_pop_block_push() {
    let mut s = Stdin::new();
    s.push('h');
    s.push('i');
    assert_eq!(s.pop(), Some('h'));
    assert_eq!(s.pop(), Some('i'));
    assert_eq!(s.pop(), None);
    s.push('x');
    assert_eq!(s.pop(), Some('x'));
}

#[test]
fn read_at_reports_one_byte_whatever_the_length() {
    let mut s = Stdin::new();
    s.push('A');
    s.push('B');
    let mut big = [7u8; 16];
    assert_eq!(s.read_at(0, &mut big), Some(1));
    assert_eq!(big[0], b'A');
    assert!(big[1..].iter().all(|&b| b == 7));
    let mut one = [0u8; 1];
    assert_eq!(s.read_at(99, &mut one), Some(1));
    assert_eq!(one[0], b'B');
}

#[test]
fn read_at_on_empty_queue_leaves_buffer() {
    let mut s = Stdin::new();
    let mut buf = [5u8; 3];
    assert_eq!(s.read_at(0, &mut buf), None);
    assert_eq!(buf, [5u8; 3]);
}

#[test]
fn read_at_keeps_low_byte_of_character() {
    let mut s = Stdin::new();
    s.push('\u{20AC}');
    let mut buf = [0u8; 2];
    assert_eq!(s.read_at(0, &mut buf), Some(1));
    assert_eq!(buf, [0xAC, 0]);
}

#[test]
fn gpio_rejects_pin_above_range() {
    let mut g = GPIOOutput::new(7);
    assert_eq!(g.ioctl(54), Err(IoctlError::NotValidParam));
    assert_eq!(g.pin(), 7);
    assert_eq!(g.ioctl(u32::MAX), Err(IoctlError::NotValidParam));
    assert_eq!(g.pin(), 7);
}

#[test]
fn gpio_accepts_last_pin_and_write_drives_it() {
    let mut g = GPIOOutput::default();
    assert_eq!(g.pin(), 0);
    assert_eq!(g.ioctl(MAX_PIN as u32), Ok(()));
    let w = g.write_at(0, &[1, 2, 3]);
    assert_eq!(w.pin, 53);
    assert_eq!(w.written, 0);
}

#[test]
fn scenario_gpio_select_then_write() {
    let mut g = GPIOOutput::default();
    assert_eq!(g.ioctl(12), Ok(()));
    let w = g.write_at(0, &[0]);
    assert_eq!(w.pin, 12);
    assert_eq!(w.written, 0);
}

#[test]
fn dsp_writes_accumulate_regardless_of_offset() {
    let mut d = Dsp::new();
    assert_eq!(d.write_at(0, &[10, 11]), 2);
    assert_eq!(d.write_at(500, &[12]), 1);
    assert_eq!(d.samples(), &[10, 11, 12]);
    assert_eq!(d.len(), 3);
}

#[test]
fn dsp_reset_empties_and_is_idempotent() {
    let mut d = Dsp::default();
    d.write_at(0, &[1, 2, 3]);
    assert_eq!(d.ioctl(DSP_RESET), DspAction::Done);
    assert_eq!(d.len(), 0);
    assert_eq!(d.ioctl(DSP_RESET), DspAction::Done);
    assert_eq!(d.len(), 0);
    d.write_at(0, &[4]);
    assert_eq!(d.samples(), &[4]);
}

#[test]
fn dsp_unknown_request_succeeds_without_effect() {
    let mut d = Dsp::new();
    d.write_at(0, &[9, 8]);
    assert_eq!(d.ioctl(2), DspAction::Done);
    assert_eq!(d.ioctl(u32::MAX), DspAction::Done);
    assert_eq!(d.samples(), &[9, 8]);
}

#[test]
fn dsp_play_hands_whole_buffer_and_keeps_it() {
    let mut d = Dsp::new();
    d.write_at(0, &[1, 2, 3, 4]);
    assert_eq!(d.ioctl(DSP_PLAY), DspAction::Play { len: 4 });
    assert_eq!(d.samples(), &[1, 2, 3, 4]);
    assert_eq!(d.ioctl(DSP_PLAY), DspAction::Play { len: 4 });
}

#[test]
fn structural_operations_fail_uniformly() {
    let s = Stdin::new();
    assert_eq!(s.metadata(), Err(FsError::NotSupported));
    assert_eq!(s.resize(10), Err(FsError::NotSupported));
    assert_eq!(s.sync_all(), Ok(()));
    assert_eq!(s.sync_data(), Ok(()));
    assert_eq!(s.chmod(0o644), Ok(()));
    let d = Dsp::new();
    assert_eq!(d.create("x", 0), Err(FsError::NotDir));
    assert_eq!(d.unlink("x"), Err(FsError::NotDir));
    let g = GPIOOutput::default();
    assert_eq!(g.link("x"), Err(FsError::NotDir));
    assert_eq!(g.move_("a", "b"), Err(FsError::NotDir));
    let o = Stdout::default();
    assert_eq!(o.find("x"), Err(FsError::NotDir));
    assert_eq!(o.get_entry(0), Err(FsError::NotDir));
}

#[test]
fn identifiers_name_devices() {
    assert_eq!(device_kind(STDIN_ID), Some(DeviceKind::ConsoleInput));
    assert_eq!(device_kind(STDOUT_ID), Some(DeviceKind::ConsoleOutput));
    assert_eq!(device_kind(STDERR_ID), Some(DeviceKind::ConsoleOutput));
    assert_eq!(device_kind(GPIO_ID), Some(DeviceKind::Gpio));
    assert_eq!(device_kind(DSP_ID), Some(DeviceKind::AudioSink));
    assert_eq!(device_kind(5), None);
}

#[test]
fn registry_starts_in_initial_state() {
    let mut devs = Devices::new();
    assert!(!devs.stdin.can_read());
    assert_eq!(devs.gpio.pin(), 0);
    assert_eq!(devs.dsp.len(), 0);
    devs.stdin.push('q');
    assert_eq!(devs.stdin.pop(), Some('q'));
}
