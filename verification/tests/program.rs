use avr8rs::program::{load_hex, FLASH};
use avr8rs::runner::AVRRunner;

#[test]
fn empty_text_gives_an_empty_flash() {
    let image = load_hex("");
    assert_eq!(image.len(), FLASH);
    assert_eq!(image.len(), 0x8000);
    assert!(image.iter().all(|b| *b == 0));
}

#[test]
fn data_records_are_stored_at_their_address() {
    let image = load_hex(":100000000C9434000C943E000C943E000C943E0082\n:04001000DEADbeefC4\n:00000001FF\n");
    assert_eq!(&image[0..4], &[0x0c, 0x94, 0x34, 0x00]);
    assert_eq!(&image[12..16], &[0x0c, 0x94, 0x3e, 0x00]);
    assert_eq!(&image[16..20], &[0xde, 0xad, 0xbe, 0xef]);
    assert!(image[20..].iter().all(|b| *b == 0));
}

#[test]
fn reading_stops_at_the_end_of_file_record() {
    let image = load_hex(":0100000011EE\n:00000001FF\n:0100010022DC\n");
    assert_eq!(image[0], 0x11);
    assert_eq!(image[1], 0x00);
}

#[test]
fn other_lines_and_records_are_passed_over() {
    let image = load_hex("; a comment\r\n\r\n:020000021000EC\r\n:02000400AA55FB\r\n:0100070099\r\n");
    assert_eq!(image[4], 0xaa);
    assert_eq!(image[5], 0x55);
    // a record without a checksum is read all the same
    assert_eq!(image[7], 0x99);
    assert_eq!(image.iter().filter(|b| **b != 0).count(), 3);
}

#[test]
fn later_records_overwrite_earlier_ones() {
    let image = load_hex(":020010001122BB\n:0100110033BB");
    assert_eq!(image[0x10], 0x11);
    assert_eq!(image[0x11], 0x33);
}

#[test]
fn last_byte_of_the_flash() {
    let image = load_hex(":017FFF007F02\n");
    assert_eq!(image[0x7fff], 0x7f);
}

#[test]
fn runner_steps_the_program() {
    // ldi r16, 0x2a; rjmp .
    let mut runner = AVRRunner::new(":040000000AE2FFCF00\n:00000001FF\n");
    runner.step(None);
    assert_eq!(runner.atmega328p.cpu.data[16], 0x2a);
    assert_eq!(runner.atmega328p.cpu.pc, 1);
    for _ in 0..10 {
        runner.step(None);
    }
    assert_eq!(runner.atmega328p.cpu.pc, 1);
    assert_eq!(runner.atmega328p.cpu.cycles, 1 + 10 * 2);
    assert_eq!(runner.atmega328p.usart.freq_hz, 16_000_000);
}
