use core_os::file::{Console, File};
use core_os::print::{StdIO, _print};

#[test]
fn read_fills_the_buffer_when_enough_is_waiting() {
    let mut console = Console::new();
    console.uart.input = vec![1, 2, 3];
    let mut buf = vec![0u8; 2];
    let n = console.read(&mut buf);
    assert_eq!(n, 2);
    assert_eq!(buf, vec![1, 2]);
    assert_eq!(console.uart.input, vec![3]);
}

#[test]
fn read_stops_at_an_empty_queue() {
    let mut console = Console::new();
    console.uart.input = vec![9];
    let mut buf = vec![7u8; 4];
    let n = console.read(&mut buf);
    assert_eq!(n, 1);
    assert_eq!(buf, vec![9, 7, 7, 7]);
    assert!(console.uart.input.is_empty());
}

#[test]
fn read_from_idle_console_reads_nothing() {
    let mut console = Console::new();
    let mut buf = vec![5u8; 3];
    let n = console.read(&mut buf);
    assert_eq!(n, 0);
    assert_eq!(buf, vec![5, 5, 5]);
}

#[test]
fn write_sends_everything_in_order() {
    let mut console = Console::new();
    let n = console.write(b"hello");
    assert_eq!(n, 5);
    assert_eq!(console.uart.output, b"hello".to_vec());
    let n = console.write(b"!");
    assert_eq!(n, 1);
    assert_eq!(console.uart.output, b"hello!".to_vec());
}

#[test]
fn stdio_starts_empty() {
    let io = StdIO::new();
    assert!(io.sent.is_empty());
}

#[test]
fn write_str_sends_every_character_in_order() {
    let mut io = StdIO::new();
    assert_eq!(io.write_str("hi"), Ok(()));
    assert_eq!(io.write_str(" there"), Ok(()));
    let s: String = io.sent.iter().collect();
    assert_eq!(s, "hi there");
}

#[test]
fn print_appends_to_what_was_sent() {
    let mut io = StdIO::new();
    _print(&mut io, "a");
    _print(&mut io, "bc");
    let s: String = io.sent.iter().collect();
    assert_eq!(s, "abc");
}
