use emu6502::screen::{color, read_screen_state, KEY_CELL};
use emu6502::CPU;

#[test]
fn palette_colours() {
    assert_eq!(color(0), (0, 0, 0));
    assert_eq!(color(1), (255, 255, 255));
    assert_eq!(color(9), (128, 128, 128));
    assert_eq!(color(3), (255, 0, 0));
    assert_eq!(color(11), (0, 255, 0));
    assert_eq!(color(5), (0, 0, 255));
    assert_eq!(color(13), (255, 0, 255));
    assert_eq!(color(7), (255, 255, 0));
    assert_eq!(color(15), (0, 255, 255));
    assert_eq!(color(200), (0, 255, 255));
}

#[test]
fn screen_state_reports_changes() {
    let mut cpu = CPU::new();
    let mut frame = [0u8; 3072];
    // all black already
    assert!(!read_screen_state(&cpu, &mut frame));
    cpu.mem_write(0x0200, 1);
    cpu.mem_write(0x05ff, 4);
    assert!(read_screen_state(&cpu, &mut frame));
    assert_eq!(&frame[0..3], &[255, 255, 255]);
    assert_eq!(&frame[3069..3072], &[0, 255, 0]);
    assert!(!read_screen_state(&cpu, &mut frame));
}

#[test]
fn keys_written_to_key_cell() {
    let mut cpu = CPU::new();
    cpu.handle_key('w');
    assert_eq!(cpu.mem_read(KEY_CELL), 0x77);
    cpu.handle_key('d');
    assert_eq!(cpu.mem_read(KEY_CELL), 0x64);
    cpu.handle_key('q');
    assert_eq!(cpu.mem_read(KEY_CELL), 0x64);
}
