use rpiapptmon::color::Color;
use rpiapptmon::matrix::{DrawError, Matrix, Orientation};

#[test]
fn color_components_clamped() {
    assert_eq!(Color::new(10, 20, 30), Color(10, 20, 30));
    assert_eq!(Color::new(255, 255, 255), Color(31, 63, 31));
    assert_eq!(Color::new(32, 64, 32), Color(31, 63, 31));
}

#[test]
fn new_buffer_is_dark() {
    let m = Matrix::new(String::from("fb"), Orientation::Cw0);
    assert_eq!(m.framebuffer.len(), 384);
    assert!(m.framebuffer.iter().all(|b| *b == 0));
    assert_eq!(m.file_name, "fb");
}

#[test]
fn set_pixel_packs_color() {
    let mut m = Matrix::new(String::from("fb"), Orientation::Cw0);
    m.set_pixel(0, 0, Color(31, 63, 31)).unwrap();
    assert_eq!(m.framebuffer[0], 0xFF);
    assert_eq!(m.framebuffer[1], 0xFF);

    m.set_pixel(2, 1, Color(1, 2, 3)).unwrap();
    // Index 2 * (1 * 8 + 2) = 20; low byte (2 << 5) | 3, high (1 << 3) | 0.
    assert_eq!(m.framebuffer[20], 0x43);
    assert_eq!(m.framebuffer[21], 0x08);
}

#[test]
fn set_pixel_orientations() {
    let c = Color(31, 0, 0);
    let mut m = Matrix::new(String::from("fb"), Orientation::Cw90);
    m.set_pixel(0, 0, c).unwrap();
    // 2 * ((7 - 0) * 8 + 0) = 112.
    assert_ne!(m.framebuffer[113], 0);

    let mut m = Matrix::new(String::from("fb"), Orientation::Cw180);
    m.set_pixel(0, 0, c).unwrap();
    // 2 * ((7 - 0) * 8 + (7 - 0)) = 126.
    assert_ne!(m.framebuffer[127], 0);

    let mut m = Matrix::new(String::from("fb"), Orientation::Cw270);
    m.set_pixel(0, 0, c).unwrap();
    // 2 * (0 * 8 + (7 - 0)) = 14.
    assert_ne!(m.framebuffer[15], 0);
}

#[test]
fn set_pixel_out_of_bounds() {
    let mut m = Matrix::new(String::from("fb"), Orientation::Cw0);
    assert_eq!(m.set_pixel(8, 0, Color(1, 1, 1)), Err(DrawError::OutOfBounds));
    assert_eq!(m.set_pixel(0, 8, Color(1, 1, 1)), Err(DrawError::OutOfBounds));
    assert!(m.framebuffer.iter().all(|b| *b == 0));
}

fn pixel_bytes(m: &Matrix, x: usize, y: usize) -> (u8, u8) {
    let idx = match m.orientation {
        Orientation::Cw0 => 2 * (y * 8 + x),
        Orientation::Cw90 => 2 * ((7 - y) * 8 + x),
        Orientation::Cw180 => 2 * ((7 - y) * 8 + (7 - x)),
        Orientation::Cw270 => 2 * (y * 8 + (7 - x)),
    };
    (m.framebuffer[idx], m.framebuffer[idx + 1])
}

#[test]
fn draw_line_horizontal() {
    let mut m = Matrix::new(String::from("fb"), Orientation::Cw0);
    let c = Color(31, 63, 31);
    m.draw_line(0, 7, 3, 3, c).unwrap();
    for x in 0..8 {
        assert_eq!(pixel_bytes(&m, x, 3), (0xFF, 0xFF));
    }
    // A row off the line is untouched.
    for x in 0..8 {
        assert_eq!(pixel_bytes(&m, x, 4), (0x00, 0x00));
    }
}

#[test]
fn draw_line_diagonal_and_reverse() {
    let c = Color(31, 63, 31);
    let mut m = Matrix::new(String::from("fb"), Orientation::Cw0);
    m.draw_line(0, 7, 0, 7, c).unwrap();
    for i in 0..8 {
        assert_eq!(pixel_bytes(&m, i, i), (0xFF, 0xFF));
    }

    let mut m = Matrix::new(String::from("fb"), Orientation::Cw0);
    m.draw_line(7, 0, 0, 7, c).unwrap();
    for i in 0..8 {
        assert_eq!(pixel_bytes(&m, 7 - i, i), (0xFF, 0xFF));
    }
}

#[test]
fn draw_line_single_point() {
    let c = Color(1, 2, 3);
    let mut m = Matrix::new(String::from("fb"), Orientation::Cw0);
    m.draw_line(5, 5, 2, 2, c).unwrap();
    assert_ne!(pixel_bytes(&m, 5, 2), (0, 0));
}

#[test]
fn draw_line_out_of_bounds() {
    let mut m = Matrix::new(String::from("fb"), Orientation::Cw0);
    assert_eq!(
        m.draw_line(8, 0, 0, 0, Color(1, 1, 1)),
        Err(DrawError::OutOfBounds)
    );
    assert_eq!(
        m.draw_line(0, 0, -1, 0, Color(1, 1, 1)),
        Err(DrawError::OutOfBounds)
    );
}

#[test]
fn set_frame_row_major() {
    let mut m = Matrix::new(String::from("fb"), Orientation::Cw0);
    let mut frame = vec![Color(0, 0, 0); 64];
    frame[3 * 8 + 5] = Color(31, 0, 0); // pixel (5, 3)
    m.set_frame(&frame).unwrap();
    assert_eq!(pixel_bytes(&m, 5, 3), (0x00, 0xF8));
    assert_eq!(pixel_bytes(&m, 3, 5), (0x00, 0x00));
}

#[test]
fn draw_char_renders_glyph_column() {
    let mut m = Matrix::new(String::from("fb"), Orientation::Cw0);
    let fg = Color(31, 63, 31);
    let bg = Color(0, 0, 0);
    m.draw_char('!', fg, bg).unwrap();
    // The '!' glyph is a single bar in column 2: rows 0..5 and 6 lit.
    // Its column byte 0x5F sets bits 0..4 and 6.
    for j in 0..8 {
        let lit = (0x5Fu8 >> j) & 1 != 0;
        let expect = if lit { (0xFF, 0xFF) } else { (0x00, 0x00) };
        assert_eq!(pixel_bytes(&m, 2, j), expect);
    }
    // Column 0 of '!' is empty: all background.
    for j in 0..8 {
        assert_eq!(pixel_bytes(&m, 0, j), (0x00, 0x00));
    }
}

#[test]
fn draw_char_equal_colors_leave_clear_bits() {
    let mut m = Matrix::new(String::from("fb"), Orientation::Cw0);
    let c = Color(31, 63, 31);
    m.set_pixel(0, 0, Color(1, 1, 1)).unwrap();
    let before = pixel_bytes(&m, 0, 0);
    // '!' has nothing in column 0, and fg == bg, so (0, 0) keeps its bytes.
    m.draw_char('!', c, c).unwrap();
    assert_eq!(pixel_bytes(&m, 0, 0), before);
}
