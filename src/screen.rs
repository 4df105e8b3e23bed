use vstd::prelude::*;

use crate::cpu::CPU;
use crate::machine::Machine;

verus! {

/// First byte of the 32 x 32 framebuffer.
pub const SCREEN_START: u16 = 0x0200;

/// Number of pixels in the framebuffer.
pub const SCREEN_PIXELS: usize = 1024;

/// Cell that holds the last key pressed.
pub const KEY_CELL: u16 = 0x00ff;

/// Cell that holds a fresh random byte before each instruction.
pub const RANDOM_CELL: u16 = 0x00fe;

/// Red, green and blue of a palette index: black, white, then grey, red, green,
/// blue, magenta and yellow twice over (2..=8 and 9..=14), cyan for the rest.
pub open spec fn palette(byte: u8) -> (u8, u8, u8) {
    match byte {
        0 => (0, 0, 0),
        1 => (255, 255, 255),
        2 | 9 => (128, 128, 128),
        3 | 10 => (255, 0, 0),
        4 | 11 => (0, 255, 0),
        5 | 12 => (0, 0, 255),
        6 | 13 => (255, 0, 255),
        7 | 14 => (255, 255, 0),
        _ => (0, 255, 255),
    }
}

/// The colour that pixel `i` of the framebuffer shows.
pub open spec fn screen_pixel(s: Machine, i: int) -> (u8, u8, u8) {
    palette(s.read((SCREEN_START + i) as u16))
}

/// The three bytes of pixel `i` in an RGB frame.
pub open spec fn frame_pixel(frame: Seq<u8>, i: int) -> (u8, u8, u8) {
    (frame[3 * i], frame[3 * i + 1], frame[3 * i + 2])
}

/// The byte that a key leaves in `KEY_CELL`: its ASCII code for w, s, a and d.
pub open spec fn key_code(key: char) -> Option<u8> {
    match key {
        'w' => Some(0x77u8),
        's' => Some(0x73u8),
        'a' => Some(0x61u8),
        'd' => Some(0x64u8),
        _ => None,
    }
}

pub fn color(byte: u8) -> (r: (u8, u8, u8))
    ensures
        r == palette(byte),
{
    match byte {
        0 => (0, 0, 0),
        1 => (255, 255, 255),
        2 | 9 => (128, 128, 128),
        3 | 10 => (255, 0, 0),
        4 | 11 => (0, 255, 0),
        5 | 12 => (0, 0, 255),
        6 | 13 => (255, 0, 255),
        7 | 14 => (255, 255, 0),
        _ => (0, 255, 255),
    }
}

/// Renders the framebuffer into `frame`, three bytes per pixel; true when
/// some pixel changed.
pub fn read_screen_state(cpu: &CPU, frame: &mut [u8; 3072]) -> (r: bool)
    ensures
        forall|i: int|
            0 <= i < SCREEN_PIXELS ==> #[trigger] frame_pixel(final(frame)@, i) == screen_pixel(
                cpu@,
                i,
            ),
        r == exists|i: int|
            0 <= i < SCREEN_PIXELS && #[trigger] frame_pixel(old(frame)@, i) != screen_pixel(
                cpu@,
                i,
            ),
{
    let mut frame_idx: usize = 0;
    let mut update = false;
    let mut i: usize = 0;
    while i < SCREEN_PIXELS
        invariant
            i <= SCREEN_PIXELS,
            frame_idx == 3 * i,
            forall|j: int|
                0 <= j < i ==> #[trigger] frame_pixel(frame@, j) == screen_pixel(cpu@, j),
            forall|j: int| 3 * i <= j < 3072 ==> frame@[j] == old(frame)@[j],
            update == exists|j: int|
                0 <= j < i && #[trigger] frame_pixel(old(frame)@, j) != screen_pixel(cpu@, j),
        decreases SCREEN_PIXELS - i,
    {
        let ghost before = frame@;
        let color_idx = cpu.mem_read(SCREEN_START + i as u16);
        let (b1, b2, b3) = color(color_idx);
        assert(frame_pixel(before, i as int) == frame_pixel(old(frame)@, i as int));
        if frame[frame_idx] != b1 || frame[frame_idx + 1] != b2 || frame[frame_idx + 2] != b3 {
            frame[frame_idx] = b1;
            frame[frame_idx + 1] = b2;
            frame[frame_idx + 2] = b3;
            update = true;
        }
        assert forall|j: int| 0 <= j <= i implies #[trigger] frame_pixel(frame@, j)
            == screen_pixel(cpu@, j) by {
            if j < i {
                assert(frame_pixel(frame@, j) == frame_pixel(before, j));
            }
        }
        frame_idx = frame_idx + 3;
        i = i + 1;
    }
    update
}

impl CPU {
    /// Records a key press in `KEY_CELL`; keys other than w, s, a and d change
    /// nothing.
    pub fn handle_key(&mut self, key: char)
        ensures
            final(self)@ == match key_code(key) {
                Some(code) => old(self)@.write(KEY_CELL, code),
                None => old(self)@,
            },
    {
        let code: u8 = match key {
            'w' => 0x77,
            's' => 0x73,
            'a' => 0x61,
            'd' => 0x64,
            _ => {
                return;
            },
        };
        self.mem_write(KEY_CELL, code);
    }
}

} // verus!
