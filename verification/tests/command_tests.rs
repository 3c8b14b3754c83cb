use typewriter::command::{
    cmd, command_sequence, Backspace, Command, Control, Direction, HomePosition, HorizontalDir,
    Move, PrintChar, SetCharWidth, Space,
};
use typewriter::error::TypewriterError;
use typewriter::glyphs::{glyph_code, glyph_table};

#[test]
fn move_construction_limit() {
    assert!(Move::new(4095, Direction::Left).is_ok());
    assert_eq!(
        Move::new(4096, Direction::Left),
        Err(TypewriterError::InvalidArgument)
    );
    assert_eq!(
        Move::new(u16::MAX, Direction::Down),
        Err(TypewriterError::InvalidArgument)
    );
    let m = Move::new(5, Direction::Up).unwrap();
    assert_eq!(m.distance, 5);
    assert_eq!(m.direction, Direction::Up);
}

#[test]
fn move_helpers() {
    assert_eq!(
        Move::left(7).unwrap(),
        Move::new(7, Direction::Left).unwrap()
    );
    assert_eq!(
        Move::right(7).unwrap(),
        Move::new(7, Direction::Right).unwrap()
    );
    assert_eq!(Move::up(7).unwrap(), Move::new(7, Direction::Up).unwrap());
    assert_eq!(
        Move::down(7).unwrap(),
        Move::new(7, Direction::Down).unwrap()
    );
    let nl = Move::newline();
    assert_eq!(nl.distance, 16);
    assert_eq!(nl.direction, Direction::Down);
}

#[test]
fn move_encoding() {
    assert_eq!(Move::right(3).unwrap().encode(), 0xC003);
    assert_eq!(Move::left(1).unwrap().encode(), 0xE001);
    assert_eq!(Move::up(0).unwrap().encode(), 0xF000);
    assert_eq!(Move::down(16).unwrap().encode(), 0xD010);
}

#[test]
fn move_roundtrip() {
    for &d in &[0u16, 1, 16, 100, 4095] {
        for &dir in &[
            Direction::Left,
            Direction::Right,
            Direction::Up,
            Direction::Down,
        ] {
            let w = Move::new(d, dir).unwrap().encode();
            assert_eq!(w & 0x0FFF, d);
            let bits = (w >> 12) & 0x3;
            let back = match bits {
                2 => Direction::Left,
                0 => Direction::Right,
                3 => Direction::Up,
                _ => Direction::Down,
            };
            assert_eq!(back, dir);
        }
    }
}

#[test]
fn home_position_encoding() {
    let base = HomePosition {
        carriage: false,
        color_tape: false,
        type_wheel: false,
    };
    assert_eq!(base.encode(), 0x8200);
    let carriage = HomePosition {
        carriage: true,
        ..base
    };
    assert_eq!(carriage.encode(), 0x8300);
    // the base word already carries bit 9, so the colour-tape flag is absorbed
    let tape = HomePosition {
        color_tape: true,
        ..base
    };
    assert_eq!(tape.encode(), 0x8200);
    let wheel = HomePosition {
        type_wheel: true,
        ..base
    };
    assert_eq!(wheel.encode(), 0x8600);
}

#[test]
fn set_char_width_encoding() {
    assert_eq!(SetCharWidth::new(12).encode(), 0x800C);
    assert_eq!(SetCharWidth::new(0).encode(), 0x8000);
    assert_eq!(SetCharWidth::new(255).encode(), 0x80FF);
}

#[test]
fn space_and_backspace_encoding() {
    assert_eq!(Space::new(5).encode(), 0x8305);
    assert_eq!(Space::default().encode(), 0x8300);
    assert_eq!(Backspace::new(0).encode(), 0x8004);
    assert_eq!(Backspace::new(3).encode(), 0x8007);
    assert_eq!(Backspace::default().encode(), 0x8004);
}

#[test]
fn control_encoding() {
    assert_eq!(Control::Clear.encode(), 0xA000);
    assert_eq!(Control::Start.encode(), 0xA100);
    assert_eq!(Control::Stx.encode(), 0xA200);
    assert_eq!(Control::Etx.encode(), 0xA300);
    assert_eq!(Control::Enq.encode(), 0xA400);
}

#[test]
fn print_char_encoding() {
    // 'A' sits at index 35 of the glyph table: code 36 = 0x24
    let p = PrintChar::char('A');
    assert_eq!(p.letter, 36);
    assert_eq!(p.thickness, 42);
    assert_eq!(p.movement, Some(HorizontalDir::Right));
    assert_eq!(p.encode(), 0x24AA);
    // movement field: none = 00, right = 10, left = 11, in bits 6 and 7
    assert_eq!(PrintChar::new('A', 42, None).encode(), 0x242A);
    assert_eq!(
        PrintChar::new('A', 42, Some(HorizontalDir::Left)).encode(),
        0x24EA
    );
}

#[test]
fn print_char_high_byte_is_glyph_code() {
    for (i, c) in glyph_table().into_iter().enumerate() {
        let w = PrintChar::char(c).encode();
        let code = glyph_code(c) as u16;
        assert_eq!(w >> 8, code);
        // a character listed twice takes the later position; every other
        // character's code is one more than its index
        if c != '\'' {
            assert_eq!(w >> 8, i as u16 + 1);
        }
    }
}

#[test]
fn unmapped_char_falls_back_to_one() {
    for c in ['~', '@', 'é', '\t'] {
        let p = PrintChar::char(c);
        assert_eq!(p.letter, 1);
        assert_eq!(p.encode() >> 8, 1);
    }
}

#[test]
fn glyph_table_lookup() {
    let t = glyph_table();
    assert_eq!(t.len(), 100);
    assert_eq!(glyph_code('.'), 1);
    assert_eq!(glyph_code(','), 2);
    assert_eq!(glyph_code('z'), 100);
    assert_eq!(glyph_code('µ'), 10);
    // the apostrophe appears at indices 42 and 55; the later one wins
    assert_eq!(glyph_code('\''), 56);
    assert_eq!(glyph_code('~'), 1);
}

#[test]
fn print_char_string() {
    let cmds = PrintChar::string("ab");
    assert_eq!(cmds.len(), 2);
    assert_eq!(cmds[0], Command::PrintChar(PrintChar::char('a')));
    assert_eq!(cmds[1], Command::PrintChar(PrintChar::char('b')));
}

#[test]
fn direction_conversions() {
    assert_eq!(Direction::from(HorizontalDir::Left), Direction::Left);
    assert_eq!(Direction::from(HorizontalDir::Right), Direction::Right);
    assert_eq!(
        Direction::Left.to_horizontal(),
        Some(HorizontalDir::Left)
    );
    assert_eq!(
        Direction::Right.to_horizontal(),
        Some(HorizontalDir::Right)
    );
    assert_eq!(Direction::Up.to_horizontal(), None);
    assert_eq!(Direction::Down.to_horizontal(), None);
}

#[test]
fn direction_cross_equality() {
    assert!(Direction::Left.eq_horizontal(&HorizontalDir::Left));
    assert!(!Direction::Left.eq_horizontal(&HorizontalDir::Right));
    assert!(!Direction::Up.eq_horizontal(&HorizontalDir::Left));
    assert!(!Direction::Down.eq_horizontal(&HorizontalDir::Right));
    assert!(HorizontalDir::Right.eq_direction(&Direction::Right));
    assert!(!HorizontalDir::Right.eq_direction(&Direction::Left));
    assert!(!HorizontalDir::Left.eq_direction(&Direction::Up));
}

#[test]
fn command_sum_encoding() {
    assert_eq!(
        Command::Move(Move::right(3).unwrap()).encode(),
        0xC003
    );
    assert_eq!(Command::Control(Control::Clear).encode(), 0xA000);
    assert_eq!(Command::Space(Space::new(0)).encode(), 0x8300);
}

#[test]
fn command_sequence_copies() {
    let cmds = [
        Command::Control(Control::Clear),
        Command::Space(Space::new(1)),
    ];
    let v = command_sequence(&cmds);
    assert_eq!(v.len(), 2);
    assert_eq!(v[0], cmds[0]);
    assert_eq!(v[1], cmds[1]);
}

#[test]
fn cmd_lifts_into_sum() {
    assert_eq!(
        cmd(Move::down(2).unwrap()),
        Command::Move(Move::down(2).unwrap())
    );
    assert_eq!(cmd(Control::Stx), Command::Control(Control::Stx));
    assert_eq!(cmd(Space::new(9)), Command::Space(Space::new(9)));
}
