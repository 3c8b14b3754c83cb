//! The typed command model: every operation the device understands,
//! and its bit-exact encoding into a 16-bit wire word.
//!
//! Encoding is pure and total: each command value maps to exactly one
//! 16-bit word.  The only failure is at construction time, when a move
//! distance does not fit the 12 bits the wire format gives it.

use vstd::prelude::*;
use vstd::std_specs::convert::IntoSpec;
use vstd::string::StrSliceExecFns;

use crate::error::TypewriterError;

verus! {

/// A direction the carriage or platen can move in.
#[derive(Clone, Copy, Debug, PartialEq, Eq, Structural)]
pub enum Direction {
    Left,
    Right,
    Up,
    Down,
}

/// The horizontal directions alone: the sense in which the print head may
/// advance after printing a character.
#[derive(Clone, Copy, Debug, PartialEq, Eq, Structural)]
pub enum HorizontalDir {
    Left,
    Right,
}

/// True iff `d` and `h` denote the same horizontal sense.
pub open spec fn same_horizontal_sense(d: Direction, h: HorizontalDir) -> bool {
    match d {
        Direction::Left => h == HorizontalDir::Left,
        Direction::Right => h == HorizontalDir::Right,
        _ => false,
    }
}

impl Direction {
    /// Cross-type equality with the restricted horizontal subtype: holds
    /// iff both denote the same horizontal sense.
    pub fn eq_horizontal(&self, other: &HorizontalDir) -> (r: bool)
        ensures
            r == same_horizontal_sense(*self, *other),
    {
        match self {
            Direction::Left => *other == HorizontalDir::Left,
            Direction::Right => *other == HorizontalDir::Right,
            _ => false,
        }
    }

    /// The horizontal member this direction denotes, if any: the partial
    /// converse of `From<HorizontalDir>`.  Fails exactly on `Up` and `Down`.
    pub fn to_horizontal(&self) -> (r: Option<HorizontalDir>)
        ensures
            match r {
                Some(h) => same_horizontal_sense(*self, h),
                None => *self == Direction::Up || *self == Direction::Down,
            },
    {
        match self {
            Direction::Left => Some(HorizontalDir::Left),
            Direction::Right => Some(HorizontalDir::Right),
            _ => None,
        }
    }
}

impl HorizontalDir {
    /// Cross-type equality with the full direction type: holds iff both
    /// denote the same horizontal sense.
    pub fn eq_direction(&self, other: &Direction) -> (r: bool)
        ensures
            r == same_horizontal_sense(*other, *self),
    {
        match self {
            HorizontalDir::Left => *other == Direction::Left,
            HorizontalDir::Right => *other == Direction::Right,
        }
    }
}

/// The direction a horizontal sense denotes, as a spec-level value.
pub open spec fn spec_direction_of(h: HorizontalDir) -> Direction {
    match h {
        HorizontalDir::Left => Direction::Left,
        HorizontalDir::Right => Direction::Right,
    }
}

impl From<HorizontalDir> for Direction {
    /// Total embedding of the horizontal subtype into `Direction`.
    fn from(direction: HorizontalDir) -> (r: Direction)
        ensures
            r == spec_direction_of(direction),
    {
        match direction {
            HorizontalDir::Left => Direction::Left,
            HorizontalDir::Right => Direction::Right,
        }
    }
}

impl vstd::std_specs::convert::FromSpecImpl<HorizontalDir> for Direction {
    open spec fn obeys_from_spec() -> bool {
        true
    }

    open spec fn from_spec(direction: HorizontalDir) -> Direction {
        spec_direction_of(direction)
    }
}

/// The two-bit field that selects a direction in a `Move` word.
pub open spec fn direction_bits(d: Direction) -> u16 {
    match d {
        Direction::Left => 2,
        Direction::Right => 0,
        Direction::Up => 3,
        Direction::Down => 1,
    }
}

/// The direction a two-bit field denotes; inverse of [`direction_bits`].
pub open spec fn direction_of_bits(b: u16) -> Direction {
    if b == 2 {
        Direction::Left
    } else if b == 0 {
        Direction::Right
    } else if b == 3 {
        Direction::Up
    } else {
        Direction::Down
    }
}

/// Carriage or platen movement by an unsigned distance in device steps.
///
/// The wire format gives the distance 12 bits, so a `Move` is only
/// well-formed when `distance < 4096`; [`Move::new`] enforces that.
#[derive(Clone, Copy, Debug, PartialEq, Eq, Structural)]
pub struct Move {
    pub distance: u16,
    pub direction: Direction,
}

impl Move {
    /// A move is well-formed when its distance fits the 12-bit field.
    pub open spec fn wf(&self) -> bool {
        self.distance < 4096
    }

    /// Word layout: tag `1100` in the top nibble, the direction's two bits
    /// below it, the distance in the low 12 bits.
    pub open spec fn spec_encode(&self) -> u16 {
        0xC000 | (direction_bits(self.direction) << 12) | self.distance
    }

    /// Creates a movement command.  Fails with `InvalidArgument` exactly
    /// when the distance does not fit the wire format's 12-bit field.
    pub fn new(distance: u16, direction: Direction) -> (r: Result<Move, TypewriterError>)
        ensures
            distance < 4096 ==> r == Ok::<Move, TypewriterError>(
                Move { distance, direction },
            ),
            distance >= 4096 ==> r == Err::<Move, TypewriterError>(
                TypewriterError::InvalidArgument,
            ),
    {
        if distance < 4096 {
            Ok(Move { distance, direction })
        } else {
            Err(TypewriterError::InvalidArgument)
        }
    }

    /// A move to the left by `distance` steps.
    pub fn left(distance: u16) -> (r: Result<Move, TypewriterError>)
        ensures
            r == Move::new_spec(distance, Direction::Left),
    {
        Move::new(distance, Direction::Left)
    }

    /// A move to the right by `distance` steps.
    pub fn right(distance: u16) -> (r: Result<Move, TypewriterError>)
        ensures
            r == Move::new_spec(distance, Direction::Right),
    {
        Move::new(distance, Direction::Right)
    }

    /// An upward platen move by `distance` steps.
    pub fn up(distance: u16) -> (r: Result<Move, TypewriterError>)
        ensures
            r == Move::new_spec(distance, Direction::Up),
    {
        Move::new(distance, Direction::Up)
    }

    /// A downward platen move by `distance` steps.
    pub fn down(distance: u16) -> (r: Result<Move, TypewriterError>)
        ensures
            r == Move::new_spec(distance, Direction::Down),
    {
        Move::new(distance, Direction::Down)
    }

    /// The downward move of one default line: 16 steps.
    pub fn newline() -> (r: Move)
        ensures
            r == (Move { distance: 16, direction: Direction::Down }),
            r.wf(),
    {
        Move { distance: 16, direction: Direction::Down }
    }

    /// What [`Move::new`] returns.
    pub open spec fn new_spec(distance: u16, direction: Direction) -> Result<
        Move,
        TypewriterError,
    > {
        if distance < 4096 {
            Ok(Move { distance, direction })
        } else {
            Err(TypewriterError::InvalidArgument)
        }
    }

    /// Encodes the move into its 16-bit wire word.
    pub fn encode(&self) -> (r: u16)
        ensures
            r == self.spec_encode(),
    {
        let bits: u16 = match self.direction {
            Direction::Left => 2,
            Direction::Right => 0,
            Direction::Up => 3,
            Direction::Down => 1,
        };
        0xC000 | (bits << 12) | self.distance
    }
}

/// The encoded word of a well-formed move carries the distance in its low
/// 12 bits and the direction in the two bits above them: decoding the word
/// recovers both fields.
pub proof fn lemma_move_encode_roundtrip(m: Move)
    requires
        m.wf(),
    ensures
        m.spec_encode() & 0x0FFF == m.distance,
        direction_of_bits((m.spec_encode() >> 12) & 0x3) == m.direction,
{
    let b = direction_bits(m.direction);
    let d = m.distance;
    assert(b == 0 || b == 1 || b == 2 || b == 3);
    assert((0xC000u16 | (b << 12) | d) & 0x0FFF == d && ((0xC000u16 | (b << 12) | d) >> 12) & 0x3
        == b) by (bit_vector)
        requires
            d < 4096,
            b == 0 || b == 1 || b == 2 || b == 3,
    ;
}

/// Return the carriage, the colour tape or the type wheel to its home
/// position; one flag per mechanism.
#[derive(Clone, Copy, Debug, PartialEq, Eq, Structural)]
pub struct HomePosition {
    pub carriage: bool,
    pub color_tape: bool,
    pub type_wheel: bool,
}

impl HomePosition {
    /// Word layout: base `0x8200` with bits 8, 9 and 10 set per the
    /// carriage, colour-tape and type-wheel flags respectively.
    pub open spec fn spec_encode(&self) -> u16 {
        0x8200 | (if self.carriage {
            0x0100u16
        } else {
            0u16
        }) | (if self.color_tape {
            0x0200u16
        } else {
            0u16
        }) | (if self.type_wheel {
            0x0400u16
        } else {
            0u16
        })
    }

    /// Encodes the command into its 16-bit wire word.
    pub fn encode(&self) -> (r: u16)
        ensures
            r == self.spec_encode(),
    {
        0x8200 | (if self.carriage {
            0x0100u16
        } else {
            0u16
        }) | (if self.color_tape {
            0x0200u16
        } else {
            0u16
        }) | (if self.type_wheel {
            0x0400u16
        } else {
            0u16
        })
    }
}

/// Sets the horizontal advance, in device steps, that the device applies
/// per printed character.
#[derive(Clone, Copy, Debug, PartialEq, Eq, Structural)]
pub struct SetCharWidth {
    pub width: u8,
}

impl SetCharWidth {
    /// Word layout: base `0x8000` with the width in the low 8 bits.
    pub open spec fn spec_encode(&self) -> u16 {
        0x8000 | (self.width as u16)
    }

    pub fn new(width: u8) -> (r: SetCharWidth)
        ensures
            r == (SetCharWidth { width }),
    {
        SetCharWidth { width }
    }

    /// Encodes the command into its 16-bit wire word.
    pub fn encode(&self) -> (r: u16)
        ensures
            r == self.spec_encode(),
    {
        0x8000 | (self.width as u16)
    }
}

/// The two-bit field that selects the head movement in a `PrintChar` word.
pub open spec fn movement_bits(movement: Option<HorizontalDir>) -> u16 {
    match movement {
        None => 0,
        Some(HorizontalDir::Right) => 2,
        Some(HorizontalDir::Left) => 3,
    }
}

/// Strikes one glyph, with a print thickness and an optional horizontal
/// advance of the head afterwards.
///
/// `letter` is the device's glyph code, resolved through the glyph table;
/// characters absent from the table fall back to glyph code 1.
#[derive(Clone, Copy, Debug, PartialEq, Eq, Structural)]
pub struct PrintChar {
    pub letter: u8,
    pub thickness: u8,
    pub movement: Option<HorizontalDir>,
}

impl PrintChar {
    /// Word layout: glyph code in bits 8 to 15, the movement field in bits
    /// 6 and 7, the thickness in the low 6 bits.
    ///
    /// An earlier protocol iteration instead carried the movement field in
    /// the low two bits with the thickness shifted left by 2; the two
    /// layouts are incompatible on the wire, and this crate implements
    /// only the later one.
    pub open spec fn spec_encode(&self) -> u16 {
        ((self.letter as u16) << 8) | (movement_bits(self.movement) << 6) | (
        self.thickness as u16)
    }

    /// A print command for `letter`, resolved through the glyph table.
    pub fn new(letter: char, thickness: u8, movement: Option<HorizontalDir>) -> (r: PrintChar)
        ensures
            r == (PrintChar {
                letter: crate::glyphs::glyph_code_spec(letter),
                thickness,
                movement,
            }),
    {
        PrintChar { letter: crate::glyphs::glyph_code(letter), thickness, movement }
    }

    /// The default print command for a character: thickness 42, head
    /// advancing to the right.
    pub fn char(letter: char) -> (r: PrintChar)
        ensures
            r == PrintChar::char_spec(letter),
    {
        PrintChar::new(letter, 42, Some(HorizontalDir::Right))
    }

    /// What [`PrintChar::char`] returns.
    pub open spec fn char_spec(letter: char) -> PrintChar {
        PrintChar {
            letter: crate::glyphs::glyph_code_spec(letter),
            thickness: 42,
            movement: Some(HorizontalDir::Right),
        }
    }

    /// One default print command per character of `letters`, in order.
    pub fn string(letters: &str) -> (r: Vec<Command>)
        ensures
            r@.len() == letters@.len(),
            forall|i: int|
                0 <= i < r@.len() ==> r@[i] == Command::PrintChar(
                    PrintChar::char_spec(letters@[i]),
                ),
    {
        let n = letters.unicode_len();
        let mut r: Vec<Command> = Vec::new();
        let mut i: usize = 0;
        while i < n
            invariant
                i <= n,
                n == letters@.len(),
                r@.len() == i,
                forall|j: int|
                    0 <= j < i ==> r@[j] == Command::PrintChar(PrintChar::char_spec(letters@[j])),
            decreases n - i,
        {
            let c = letters.get_char(i);
            r.push(Command::PrintChar(PrintChar::char(c)));
            i = i + 1;
        }
        r
    }

    /// Encodes the command into its 16-bit wire word.
    pub fn encode(&self) -> (r: u16)
        ensures
            r == self.spec_encode(),
    {
        let bits: u16 = match self.movement {
            None => 0,
            Some(HorizontalDir::Right) => 2,
            Some(HorizontalDir::Left) => 3,
        };
        ((self.letter as u16) << 8) | (bits << 6) | (self.thickness as u16)
    }
}

/// The high byte of an encoded `PrintChar` word is exactly the glyph code:
/// the movement and thickness fields never spill into it.
pub proof fn lemma_print_char_high_byte(p: PrintChar)
    ensures
        p.spec_encode() >> 8 == p.letter as u16,
{
    let l = p.letter;
    let t = p.thickness;
    let b = movement_bits(p.movement);
    assert(b == 0 || b == 2 || b == 3);
    assert((((l as u16) << 8) | (b << 6) | (t as u16)) >> 8 == l as u16) by (bit_vector)
        requires
            b == 0 || b == 2 || b == 3,
    ;
}

/// For every character the glyph table offers, the high byte of its
/// encoded default print command is one more than the character's index
/// in the table — the later index, for a character the table lists twice.
pub proof fn lemma_table_char_high_byte(c: char)
    requires
        crate::glyphs::glyph_seq().contains(c),
    ensures
        PrintChar::char_spec(c).spec_encode() >> 8 == crate::glyphs::glyph_index(c) + 1,
{
    crate::glyphs::lemma_last_index_in(crate::glyphs::glyph_seq(), c);
    assert(crate::glyphs::glyph_seq().len() == 100);
    lemma_print_char_high_byte(PrintChar::char_spec(c));
}

/// For any character the glyph table does not offer, the encoded glyph
/// byte is the defined fallback code 1.
pub proof fn lemma_fallback_glyph(c: char)
    requires
        !crate::glyphs::glyph_seq().contains(c),
    ensures
        PrintChar::char_spec(c).spec_encode() >> 8 == 1,
{
    crate::glyphs::lemma_last_index_in(crate::glyphs::glyph_seq(), c);
    lemma_print_char_high_byte(PrintChar::char_spec(c));
}

/// Horizontal whitespace: advances the carriage without striking a glyph.
#[derive(Clone, Copy, Debug, PartialEq, Eq, Structural)]
pub struct Space {
    pub distance: u8,
}

impl Space {
    /// Word layout: base `0x8300` with the distance in the low 8 bits.
    pub open spec fn spec_encode(&self) -> u16 {
        0x8300 | (self.distance as u16)
    }

    pub fn new(distance: u8) -> (r: Space)
        ensures
            r == (Space { distance }),
    {
        Space { distance }
    }

    /// Encodes the command into its 16-bit wire word.
    pub fn encode(&self) -> (r: u16)
        ensures
            r == self.spec_encode(),
    {
        0x8300 | (self.distance as u16)
    }
}

impl Default for Space {
    /// The default space: distance 0, letting the device apply its current
    /// character width.
    fn default() -> (r: Space)
        ensures
            r == (Space { distance: 0 }),
    {
        Space { distance: 0 }
    }
}

/// Moves the carriage backwards without striking a glyph.
#[derive(Clone, Copy, Debug, PartialEq, Eq, Structural)]
pub struct Backspace {
    pub distance: u8,
}

impl Backspace {
    /// Word layout: base `0x8004` with the distance OR-ed into the low 8
    /// bits.  The base deliberately has its low bits already set — that is
    /// what tells a backspace apart from a space on the wire — so the
    /// constant must be kept exactly, not re-derived from a pattern.
    pub open spec fn spec_encode(&self) -> u16 {
        0x8004 | (self.distance as u16)
    }

    pub fn new(distance: u8) -> (r: Backspace)
        ensures
            r == (Backspace { distance }),
    {
        Backspace { distance }
    }

    /// Encodes the command into its 16-bit wire word.
    pub fn encode(&self) -> (r: u16)
        ensures
            r == self.spec_encode(),
    {
        0x8004 | (self.distance as u16)
    }
}

impl Default for Backspace {
    /// The default backspace: distance 0, letting the device apply its
    /// current character width.
    fn default() -> (r: Backspace)
        ensures
            r == (Backspace { distance: 0 }),
    {
        Backspace { distance: 0 }
    }
}

/// The device's control signals.
#[derive(Clone, Copy, Debug, PartialEq, Eq, Structural)]
pub enum Control {
    Clear,
    Start,
    Stx,
    Etx,
    Enq,
}

impl Control {
    /// Each control signal has a fixed word.
    pub open spec fn spec_encode(&self) -> u16 {
        match self {
            Control::Clear => 0xA000,
            Control::Start => 0xA100,
            Control::Stx => 0xA200,
            Control::Etx => 0xA300,
            Control::Enq => 0xA400,
        }
    }

    /// Encodes the signal into its 16-bit wire word.
    pub fn encode(&self) -> (r: u16)
        ensures
            r == self.spec_encode(),
    {
        match self {
            Control::Clear => 0xA000,
            Control::Start => 0xA100,
            Control::Stx => 0xA200,
            Control::Etx => 0xA300,
            Control::Enq => 0xA400,
        }
    }
}

/// The closed set of commands the device understands.  Encoding a command
/// produces exactly one 16-bit wire word.
#[derive(Clone, Copy, Debug, PartialEq, Eq, Structural)]
pub enum Command {
    Move(Move),
    HomePosition(HomePosition),
    SetCharWidth(SetCharWidth),
    PrintChar(PrintChar),
    Space(Space),
    Backspace(Backspace),
    Control(Control),
}

impl Command {
    /// The wire word of each variant, per its own layout.
    pub open spec fn spec_encode(&self) -> u16 {
        match self {
            Command::Move(c) => c.spec_encode(),
            Command::HomePosition(c) => c.spec_encode(),
            Command::SetCharWidth(c) => c.spec_encode(),
            Command::PrintChar(c) => c.spec_encode(),
            Command::Space(c) => c.spec_encode(),
            Command::Backspace(c) => c.spec_encode(),
            Command::Control(c) => c.spec_encode(),
        }
    }

    /// Encodes the command into its 16-bit wire word.
    pub fn encode(&self) -> (r: u16)
        ensures
            r == self.spec_encode(),
    {
        match self {
            Command::Move(c) => c.encode(),
            Command::HomePosition(c) => c.encode(),
            Command::SetCharWidth(c) => c.encode(),
            Command::PrintChar(c) => c.encode(),
            Command::Space(c) => c.encode(),
            Command::Backspace(c) => c.encode(),
            Command::Control(c) => c.encode(),
        }
    }
}

/// The power-on sequence: Clear, Start, Enq, Stx.
pub open spec fn spec_online_sequence() -> Seq<Command> {
    seq![
        Command::Control(Control::Clear),
        Command::Control(Control::Start),
        Command::Control(Control::Enq),
        Command::Control(Control::Stx),
    ]
}

/// The power-off sequence: Etx, Clear.
pub open spec fn spec_offline_sequence() -> Seq<Command> {
    seq![Command::Control(Control::Etx), Command::Control(Control::Clear)]
}

/// The canonical power-on sequence, as command data.
pub fn online_sequence() -> (r: Vec<Command>)
    ensures
        r@ == spec_online_sequence(),
{
    let r = vec![
        Command::Control(Control::Clear),
        Command::Control(Control::Start),
        Command::Control(Control::Enq),
        Command::Control(Control::Stx),
    ];
    proof {
        assert(r@ =~= spec_online_sequence());
    }
    r
}

/// The canonical power-off sequence, as command data.
pub fn offline_sequence() -> (r: Vec<Command>)
    ensures
        r@ == spec_offline_sequence(),
{
    let r = vec![Command::Control(Control::Etx), Command::Control(Control::Clear)];
    proof {
        assert(r@ =~= spec_offline_sequence());
    }
    r
}

/// Copies a slice of commands into an owned sequence.
pub fn command_sequence(commands: &[Command]) -> (r: Vec<Command>)
    ensures
        r@ == commands@,
{
    let mut r: Vec<Command> = Vec::new();
    let mut i: usize = 0;
    while i < commands.len()
        invariant
            i <= commands@.len(),
            r@ =~= commands@.take(i as int),
        decreases commands@.len() - i,
    {
        r.push(commands[i]);
        i = i + 1;
    }
    proof {
        assert(r@ =~= commands@);
    }
    r
}

impl From<Move> for Command {
    fn from(c: Move) -> (r: Command)
        ensures
            r == Command::Move(c),
    {
        Command::Move(c)
    }
}

impl vstd::std_specs::convert::FromSpecImpl<Move> for Command {
    open spec fn obeys_from_spec() -> bool {
        true
    }

    open spec fn from_spec(c: Move) -> Command {
        Command::Move(c)
    }
}

impl From<HomePosition> for Command {
    fn from(c: HomePosition) -> (r: Command)
        ensures
            r == Command::HomePosition(c),
    {
        Command::HomePosition(c)
    }
}

impl vstd::std_specs::convert::FromSpecImpl<HomePosition> for Command {
    open spec fn obeys_from_spec() -> bool {
        true
    }

    open spec fn from_spec(c: HomePosition) -> Command {
        Command::HomePosition(c)
    }
}

impl From<SetCharWidth> for Command {
    fn from(c: SetCharWidth) -> (r: Command)
        ensures
            r == Command::SetCharWidth(c),
    {
        Command::SetCharWidth(c)
    }
}

impl vstd::std_specs::convert::FromSpecImpl<SetCharWidth> for Command {
    open spec fn obeys_from_spec() -> bool {
        true
    }

    open spec fn from_spec(c: SetCharWidth) -> Command {
        Command::SetCharWidth(c)
    }
}

impl From<PrintChar> for Command {
    fn from(c: PrintChar) -> (r: Command)
        ensures
            r == Command::PrintChar(c),
    {
        Command::PrintChar(c)
    }
}

impl vstd::std_specs::convert::FromSpecImpl<PrintChar> for Command {
    open spec fn obeys_from_spec() -> bool {
        true
    }

    open spec fn from_spec(c: PrintChar) -> Command {
        Command::PrintChar(c)
    }
}

impl From<Space> for Command {
    fn from(c: Space) -> (r: Command)
        ensures
            r == Command::Space(c),
    {
        Command::Space(c)
    }
}

impl vstd::std_specs::convert::FromSpecImpl<Space> for Command {
    open spec fn obeys_from_spec() -> bool {
        true
    }

    open spec fn from_spec(c: Space) -> Command {
        Command::Space(c)
    }
}

impl From<Backspace> for Command {
    fn from(c: Backspace) -> (r: Command)
        ensures
            r == Command::Backspace(c),
    {
        Command::Backspace(c)
    }
}

impl vstd::std_specs::convert::FromSpecImpl<Backspace> for Command {
    open spec fn obeys_from_spec() -> bool {
        true
    }

    open spec fn from_spec(c: Backspace) -> Command {
        Command::Backspace(c)
    }
}

impl From<Control> for Command {
    fn from(c: Control) -> (r: Command)
        ensures
            r == Command::Control(c),
    {
        Command::Control(c)
    }
}

impl vstd::std_specs::convert::FromSpecImpl<Control> for Command {
    open spec fn obeys_from_spec() -> bool {
        true
    }

    open spec fn from_spec(c: Control) -> Command {
        Command::Control(c)
    }
}

/// Lifts a typed command into the homogeneous [`Command`] sum.
pub fn cmd<C: Into<Command>>(c: C) -> (r: Command)
    ensures
        C::obeys_into_spec() ==> r == c.into_spec(),
{
    c.into()
}

} // verus!
