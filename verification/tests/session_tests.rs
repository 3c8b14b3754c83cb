use typewriter::command::{Command, Control, Direction, HorizontalDir, Move, PrintChar, Space};
use typewriter::error::TypewriterError;
use typewriter::typewriter::{Bitmap, Typewriter};

fn online_session() -> Typewriter {
    let mut t = Typewriter::new();
    t.on();
    t
}

#[test]
fn initial_state() {
    let t = Typewriter::new();
    assert_eq!(t.pos_x, 0);
    assert_eq!(t.pos_y, 0);
    assert_eq!(t.get_char_width(), 12);
    assert_eq!(t.print_weight, 20);
    assert_eq!(t.line_height, 16);
    assert_eq!(t.feed_direction, Some(HorizontalDir::Right));
    assert!(!t.online);
}

#[test]
fn power_sequences() {
    let mut t = Typewriter::new();
    let on = t.on();
    assert!(t.online);
    assert_eq!(
        on,
        vec![
            Command::Control(Control::Clear),
            Command::Control(Control::Start),
            Command::Control(Control::Enq),
            Command::Control(Control::Stx),
        ]
    );
    let off = t.off();
    assert!(!t.online);
    assert_eq!(
        off,
        vec![
            Command::Control(Control::Etx),
            Command::Control(Control::Clear),
        ]
    );
}

#[test]
fn power_cycle_leaves_cursor_unchanged() {
    let mut t = online_session();
    t.move_to(100, 50).unwrap();
    let before = (t.pos_x, t.pos_y);
    let on = t.on();
    let off = t.off();
    assert_eq!((t.pos_x, t.pos_y), before);
    // neither sequence contains a move
    assert!(on
        .iter()
        .chain(off.iter())
        .all(|c| matches!(c, Command::Control(_))));
}

#[test]
fn operations_require_online() {
    let mut t = Typewriter::new();
    assert_eq!(t.print_char('A'), Err(TypewriterError::InvalidState));
    assert_eq!(t.newline(), Err(TypewriterError::InvalidState));
    assert_eq!(t.carriage_return(), Err(TypewriterError::InvalidState));
    assert_eq!(t.space(), Err(TypewriterError::InvalidState));
    assert_eq!(t.set_char_width(10), Err(TypewriterError::InvalidState));
    assert_eq!(t.move_head(1, 1), Err(TypewriterError::InvalidState));
    assert_eq!(t.move_to(1, 1), Err(TypewriterError::InvalidState));
    assert_eq!(t.print_string("hi"), Err(TypewriterError::InvalidState));
    let bitmap = Bitmap::new(vec![vec![true]]);
    assert_eq!(t.print_image(&bitmap), Err(TypewriterError::InvalidState));
    // nothing changed
    assert_eq!(t.pos_x, 0);
    assert_eq!(t.pos_y, 0);
}

#[test]
fn print_char_advances_cursor() {
    let mut t = online_session();
    let c = t.print_char('A').unwrap();
    assert_eq!(
        c,
        Command::PrintChar(PrintChar::new('A', 20, Some(HorizontalDir::Right)))
    );
    assert_eq!(t.pos_x, 12);
    t.feed_direction = Some(HorizontalDir::Left);
    t.print_char('B').unwrap();
    assert_eq!(t.pos_x, 0);
    t.feed_direction = None;
    t.print_char('C').unwrap();
    assert_eq!(t.pos_x, 0);
}

#[test]
fn set_char_width_changes_advance() {
    let mut t = online_session();
    let c = t.set_char_width(30).unwrap();
    assert_eq!(c.encode(), 0x801E);
    assert_eq!(t.get_char_width(), 30);
    t.space().unwrap();
    assert_eq!(t.pos_x, 30);
}

#[test]
fn newline_moves_down() {
    let mut t = online_session();
    let c = t.newline().unwrap();
    assert_eq!(
        c,
        Command::Move(Move::new(16, Direction::Down).unwrap())
    );
    assert_eq!(t.pos_y, 16);
    // a line height the 12-bit distance cannot carry is rejected
    t.line_height = 4096;
    assert_eq!(t.newline(), Err(TypewriterError::InvalidArgument));
    assert_eq!(t.pos_y, 16);
}

#[test]
fn carriage_return_zeroes_x() {
    let mut t = online_session();
    t.print_char('A').unwrap();
    t.print_char('B').unwrap();
    let c = t.carriage_return().unwrap();
    assert_eq!(
        c,
        Command::Move(Move::new(24, Direction::Left).unwrap())
    );
    assert_eq!(t.pos_x, 0);
}

#[test]
fn carriage_return_rejects_negative_cursor() {
    let mut t = online_session();
    t.move_to(-5, 0).unwrap();
    assert_eq!(t.carriage_return(), Err(TypewriterError::InvalidArgument));
    assert_eq!(t.pos_x, -5);
}

#[test]
fn space_advances_by_char_width() {
    let mut t = online_session();
    let c = t.space().unwrap();
    assert_eq!(c, Command::Space(Space::new(0)));
    assert_eq!(t.pos_x, 12);
}

#[test]
fn move_head_emits_nonzero_components() {
    let mut t = online_session();
    let cmds = t.move_head(3, -4).unwrap();
    assert_eq!(
        cmds,
        vec![
            Command::Move(Move::new(3, Direction::Right).unwrap()),
            Command::Move(Move::new(4, Direction::Up).unwrap()),
        ]
    );
    assert_eq!((t.pos_x, t.pos_y), (3, -4));
    let cmds = t.move_head(0, 5).unwrap();
    assert_eq!(
        cmds,
        vec![Command::Move(Move::new(5, Direction::Down).unwrap())]
    );
    assert_eq!((t.pos_x, t.pos_y), (3, 1));
    let cmds = t.move_head(-3, 0).unwrap();
    assert_eq!(
        cmds,
        vec![Command::Move(Move::new(3, Direction::Left).unwrap())]
    );
    assert_eq!((t.pos_x, t.pos_y), (0, 1));
    assert_eq!(t.move_head(0, 0).unwrap(), Vec::new());
}

#[test]
fn move_head_rejects_wide_moves() {
    let mut t = online_session();
    assert_eq!(t.move_head(4096, 0), Err(TypewriterError::InvalidArgument));
    assert_eq!(t.move_head(0, -4096), Err(TypewriterError::InvalidArgument));
    assert_eq!(t.move_head(i16::MIN, 0), Err(TypewriterError::InvalidArgument));
    assert_eq!((t.pos_x, t.pos_y), (0, 0));
    assert!(t.move_head(4095, 0).is_ok());
}

#[test]
fn move_to_reaches_target_and_is_idempotent() {
    let mut t = online_session();
    t.move_to(10, 20).unwrap();
    assert_eq!((t.pos_x, t.pos_y), (10, 20));
    let again = t.move_to(10, 20).unwrap();
    assert_eq!(again, Vec::new());
    assert_eq!((t.pos_x, t.pos_y), (10, 20));
    // and from another corner of the plane
    t.move_to(-100, -200).unwrap();
    assert_eq!((t.pos_x, t.pos_y), (-100, -200));
}

#[test]
fn cursor_overflow_is_rejected() {
    let mut t = online_session();
    for _ in 0..8 {
        t.move_head(4000, 0).unwrap();
    }
    t.move_head(513, 0).unwrap();
    assert_eq!(t.pos_x, 32513);
    t.set_char_width(255).unwrap();
    assert_eq!(t.print_char('A'), Err(TypewriterError::InvalidArgument));
    assert_eq!(t.space(), Err(TypewriterError::InvalidArgument));
    assert_eq!(t.pos_x, 32513);
    assert_eq!(t.move_head(300, 0), Err(TypewriterError::InvalidArgument));
}

#[test]
fn print_text_scenario() {
    let mut t = online_session();
    let cmds = t.print_string("AB\nCD").unwrap();
    assert_eq!(
        cmds,
        vec![
            Command::PrintChar(PrintChar::new('A', 20, Some(HorizontalDir::Right))),
            Command::PrintChar(PrintChar::new('B', 20, Some(HorizontalDir::Right))),
            Command::Move(Move::new(16, Direction::Down).unwrap()),
            Command::Move(Move::new(24, Direction::Left).unwrap()),
            Command::PrintChar(PrintChar::new('C', 20, Some(HorizontalDir::Right))),
            Command::PrintChar(PrintChar::new('D', 20, Some(HorizontalDir::Right))),
        ]
    );
    assert_eq!(t.pos_y, 16);
    assert_eq!(t.pos_x, 2 * 12);
}

#[test]
fn print_text_with_spaces() {
    let mut t = online_session();
    let cmds = t.print_string("a b").unwrap();
    assert_eq!(cmds.len(), 3);
    assert_eq!(cmds[1], Command::Space(Space::new(0)));
    assert_eq!(t.pos_x, 36);
}

#[test]
fn print_empty_text() {
    let mut t = online_session();
    assert_eq!(t.print_string("").unwrap(), Vec::new());
    assert_eq!((t.pos_x, t.pos_y), (0, 0));
}

#[test]
fn print_text_is_all_or_nothing() {
    let mut t = online_session();
    t.move_to(-5, 0).unwrap();
    t.feed_direction = None;
    // the line feed's carriage return fails on a negative cursor;
    // nothing is emitted and nothing changes
    assert_eq!(t.print_string("x\ny"), Err(TypewriterError::InvalidArgument));
    assert_eq!((t.pos_x, t.pos_y), (-5, 0));
}

#[test]
fn tall_bitmap_is_silently_rejected() {
    let mut t = online_session();
    t.move_to(7, 9).unwrap();
    let bitmap = Bitmap::new(vec![vec![true; 4]; 301]);
    let cmds = t.print_image(&bitmap).unwrap();
    assert_eq!(cmds, Vec::new());
    assert_eq!((t.pos_x, t.pos_y), (7, 9));
    assert_eq!(t.print_weight, 20);
    assert_eq!(t.feed_direction, Some(HorizontalDir::Right));
}

#[test]
fn bitmap_of_300_rows_is_printed() {
    let mut t = online_session();
    let mut rows = vec![vec![false]; 300];
    rows[0][0] = true;
    let bitmap = Bitmap::new(rows);
    let cmds = t.print_image(&bitmap).unwrap();
    // the single dot sits at the origin the print started at: no move
    assert_eq!(cmds.len(), 1);
}

#[test]
fn bitmap_dots_are_scaled_and_scanned_in_order() {
    let mut t = online_session();
    let bitmap = Bitmap::new(vec![vec![false, true], vec![true, false]]);
    let cmds = t.print_image(&bitmap).unwrap();
    let dot = |weight| Command::PrintChar(PrintChar::new('.', weight, None));
    assert_eq!(
        cmds,
        vec![
            // pixel (1, 0): 3 steps right
            Command::Move(Move::new(3, Direction::Right).unwrap()),
            dot(15),
            // pixel (0, 1): back 3, down 2
            Command::Move(Move::new(3, Direction::Left).unwrap()),
            Command::Move(Move::new(2, Direction::Down).unwrap()),
            dot(15),
        ]
    );
    // the cursor rests on the last dot; weight and feed are restored
    assert_eq!((t.pos_x, t.pos_y), (0, 2));
    assert_eq!(t.print_weight, 20);
    assert_eq!(t.feed_direction, Some(HorizontalDir::Right));
}

#[test]
fn bitmap_restores_configuration_after_dots() {
    let mut t = online_session();
    t.set_char_width(9).unwrap();
    t.feed_direction = Some(HorizontalDir::Left);
    t.print_weight = 33;
    let bitmap = Bitmap::new(vec![vec![true, true]]);
    let cmds = t.print_image(&bitmap).unwrap();
    // dots are printed with weight 15 and no feed
    assert_eq!(cmds[0], Command::PrintChar(PrintChar::new('.', 15, None)));
    assert_eq!(t.print_weight, 33);
    assert_eq!(t.feed_direction, Some(HorizontalDir::Left));
    assert_eq!(t.get_char_width(), 9);
}

#[test]
fn empty_bitmap_prints_nothing() {
    let mut t = online_session();
    let bitmap = Bitmap::new(Vec::new());
    assert_eq!(t.print_image(&bitmap).unwrap(), Vec::new());
    let blank = Bitmap::new(vec![vec![false; 10]; 10]);
    assert_eq!(t.print_image(&blank).unwrap(), Vec::new());
}
