use chip_8_emulator::graphics::{
    GraphicsMemory, BYTES_PER_PIXEL, OFF_PIXEL_COLOR, ON_PIXEL_COLOR, SCREEN_HEIGHT, SCREEN_WIDTH,
    TOTAL_PIXELS,
};

fn blank() -> GraphicsMemory {
    let mut screen = GraphicsMemory::new();
    screen.clear_screen();
    screen
}

fn lit(screen: &GraphicsMemory) -> Vec<(usize, usize)> {
    let mut cells = Vec::new();
    for p in 0..2048 {
        if screen.0[p] {
            cells.push((p % 64, p / 64));
        }
    }
    cells
}

#[test]
fn screen_is_sixty_four_by_thirty_two() {
    assert_eq!(SCREEN_WIDTH, 64);
    assert_eq!(SCREEN_HEIGHT, 32);
    assert_eq!(TOTAL_PIXELS, 2048);
}

#[test]
fn new_screen_shows_the_startup_pattern() {
    let screen = GraphicsMemory::new();
    let on = [0, 1, 2, 3, 4, 5, 10, 15, 20, 21, 22, 23, 24, 63, 127, 191, 255, 319, 383, 447];
    for p in 0..2048 {
        assert_eq!(screen.0[p], on.contains(&p), "cell {}", p);
    }
}

#[test]
fn clear_turns_every_cell_off() {
    let mut screen = GraphicsMemory::new();
    screen.clear_screen();
    assert!(screen.0.iter().all(|cell| !*cell));
}

#[test]
fn clear_twice_is_clear_once() {
    let mut once = GraphicsMemory::new();
    once.clear_screen();
    let mut twice = GraphicsMemory::new();
    twice.clear_screen();
    twice.clear_screen();
    assert_eq!(once.0, twice.0);
    assert!(twice.0.iter().all(|cell| !*cell));
}

#[test]
fn draw_zero_glyph_at_origin() {
    let mut screen = blank();
    let collision = screen.display_sprite(0, 0, &[0xF0, 0x90, 0x90, 0x90, 0xF0]);
    assert!(!collision);
    let expected = vec![
        (0, 0), (1, 0), (2, 0), (3, 0),
        (0, 1), (3, 1),
        (0, 2), (3, 2),
        (0, 3), (3, 3),
        (0, 4), (1, 4), (2, 4), (3, 4),
    ];
    assert_eq!(lit(&screen), expected);
}

#[test]
fn draw_uses_the_most_significant_bit_for_the_left_cell() {
    let mut screen = blank();
    screen.display_sprite(10, 3, &[0b1000_0001]);
    assert_eq!(lit(&screen), vec![(10, 3), (17, 3)]);
}

#[test]
fn draw_twice_restores_the_screen() {
    let mut screen = GraphicsMemory::new();
    let before = screen.0;
    let sprite = [0xFF, 0x81, 0x3C, 0x00, 0xA5];
    let first = screen.display_sprite(2, 0, &sprite);
    assert!(first);
    assert_ne!(screen.0, before);
    let second = screen.display_sprite(2, 0, &sprite);
    assert!(second);
    assert_eq!(screen.0, before);
}

#[test]
fn second_draw_collides_with_what_the_first_left_on() {
    let mut screen = blank();
    assert!(!screen.display_sprite(5, 5, &[0x80]));
    assert!(screen.display_sprite(5, 5, &[0x80]));
    assert!(lit(&screen).is_empty());
    assert!(!screen.display_sprite(5, 5, &[0x80]));
}

#[test]
fn collision_needs_a_lit_cell_under_a_set_bit() {
    let mut screen = blank();
    screen.display_sprite(0, 0, &[0b1010_0000]);
    // set bits fall between the lit cells
    assert!(!screen.display_sprite(0, 0, &[0b0101_0000]));
    assert_eq!(lit(&screen), vec![(0, 0), (1, 0), (2, 0), (3, 0)]);
    // one set bit on a lit cell
    assert!(screen.display_sprite(0, 0, &[0b0001_0000]));
    assert_eq!(lit(&screen), vec![(0, 0), (1, 0), (2, 0)]);
}

#[test]
fn clear_bits_do_not_collide() {
    let mut screen = blank();
    screen.display_sprite(0, 0, &[0xFF]);
    assert!(!screen.display_sprite(0, 0, &[0x00]));
    assert!(!screen.display_sprite(0, 1, &[0xFF]));
}

#[test]
fn origin_wraps_around_the_screen() {
    let mut wrapped = blank();
    wrapped.display_sprite(64 + 3, 32 + 4, &[0xC0, 0x40]);
    let mut direct = blank();
    direct.display_sprite(3, 4, &[0xC0, 0x40]);
    assert_eq!(wrapped.0, direct.0);
    assert_eq!(lit(&wrapped), vec![(3, 4), (4, 4), (4, 5)]);
    let mut far = blank();
    far.display_sprite(255, 255, &[0x80]);
    assert_eq!(lit(&far), vec![(63, 31)]);
}

#[test]
fn columns_past_the_right_edge_are_cut_off() {
    let mut screen = blank();
    let collision = screen.display_sprite(60, 0, &[0xFF]);
    assert!(!collision);
    assert_eq!(lit(&screen), vec![(60, 0), (61, 0), (62, 0), (63, 0)]);
}

#[test]
fn rows_past_the_bottom_edge_are_cut_off() {
    let mut screen = blank();
    screen.display_sprite(0, 30, &[0x80, 0x80, 0x80, 0x80]);
    assert_eq!(lit(&screen), vec![(0, 30), (0, 31)]);
}

#[test]
fn cut_off_cells_cannot_collide() {
    let mut screen = blank();
    // lit cells where a wrapping draw would land
    screen.display_sprite(0, 0, &[0xFF]);
    screen.display_sprite(0, 1, &[0xFF]);
    assert!(!screen.display_sprite(60, 0, &[0x0F]));
    assert!(!screen.display_sprite(0, 31, &[0x00, 0xFF]));
}

#[test]
fn empty_sprite_draws_nothing() {
    let mut screen = GraphicsMemory::new();
    let before = screen.0;
    assert!(!screen.display_sprite(0, 0, &[]));
    assert_eq!(screen.0, before);
}

#[test]
fn sprite_taller_than_the_screen_is_cut_off() {
    let mut screen = blank();
    let sprite = [0x80u8; 40];
    assert!(!screen.display_sprite(0, 0, &sprite));
    let cells = lit(&screen);
    assert_eq!(cells.len(), 32);
    assert!(cells.iter().all(|(x, _)| *x == 0));
}

#[test]
fn negate_inverts_every_cell() {
    let mut screen = GraphicsMemory::new();
    let before = screen.0;
    screen.negate();
    for p in 0..2048 {
        assert_eq!(screen.0[p], !before[p]);
    }
    screen.negate();
    assert_eq!(screen.0, before);
}

#[test]
fn iter_walks_all_cells_row_by_row() {
    let mut screen = blank();
    screen.display_sprite(1, 0, &[0x80]);
    screen.display_sprite(0, 1, &[0x80]);
    let mut cursor = screen.iter();
    let mut seen = Vec::new();
    while let Some(cell) = cursor.next() {
        seen.push(*cell);
    }
    assert_eq!(seen.len(), 2048);
    for p in 0..2048 {
        assert_eq!(seen[p], p == 1 || p == 64);
    }
}

#[test]
fn iter_can_be_started_again() {
    let screen = GraphicsMemory::new();
    let mut first = screen.iter();
    let mut count = 0;
    while first.next().is_some() {
        count += 1;
    }
    assert_eq!(count, 2048);
    let mut second = screen.iter();
    assert_eq!(second.next(), Some(&true));
    assert_eq!(second.index, 1);
    assert_eq!(second.max_index, 2048);
}

#[test]
fn pixel_colors() {
    assert_eq!(BYTES_PER_PIXEL, 4);
    assert_eq!(ON_PIXEL_COLOR, [0xe8, 0xf2, 0x55, 0xff]);
    assert_eq!(OFF_PIXEL_COLOR, [0xb5, 0x83, 0x16, 0xff]);
}

#[test]
fn render_paints_four_bytes_a_cell() {
    let mut screen = blank();
    screen.display_sprite(1, 0, &[0x80]);
    screen.display_sprite(63, 31, &[0x80]);
    let mut frame = vec![0u8; 2048 * 4];
    screen.render_mem(&mut frame);
    for p in 0..2048 {
        let expected = if p == 1 || p == 2047 { ON_PIXEL_COLOR } else { OFF_PIXEL_COLOR };
        assert_eq!(&frame[4 * p..4 * p + 4], &expected, "cell {}", p);
    }
}

#[test]
fn render_into_a_short_frame_paints_whole_cells_only() {
    let mut screen = blank();
    screen.display_sprite(0, 0, &[0xC0]);
    let mut frame = vec![7u8; 11];
    screen.render_mem(&mut frame);
    assert_eq!(
        frame,
        vec![0xe8, 0xf2, 0x55, 0xff, 0xe8, 0xf2, 0x55, 0xff, 7, 7, 7]
    );
    let mut empty: Vec<u8> = Vec::new();
    screen.render_mem(&mut empty);
    assert!(empty.is_empty());
}

#[test]
fn render_into_a_long_frame_leaves_the_rest() {
    let screen = blank();
    let mut frame = vec![9u8; 2048 * 4 + 6];
    screen.render_mem(&mut frame);
    assert_eq!(&frame[2047 * 4..2048 * 4], &OFF_PIXEL_COLOR);
    assert_eq!(&frame[2048 * 4..], &[9, 9, 9, 9, 9, 9]);
}
