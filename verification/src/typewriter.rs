//! The typewriter session: a state machine over the cursor position, the
//! print configuration and the power lifecycle.
//!
//! The session itself is pure: every operation says which commands it
//! emits and how the state changes, and fails — changing nothing and
//! emitting nothing — rather than emit a command the wire format cannot
//! carry.  The program around the library owns the byte channel; it asks
//! the session for the commands of each operation, encodes them, writes
//! them, and reads the replies.
//!
//! The cursor position is a caller-visible invariant: it equals the
//! cumulative signed effect of every command emitted since the session
//! began, assuming every send succeeds.

use vstd::prelude::*;

use crate::command::{
    Command, Control, Direction, HorizontalDir, Move, PrintChar, SetCharWidth, Space,
};
use crate::error::TypewriterError;

verus! {

/// What one session operation yields: the commands to put on the wire and
/// the state after them, or an error with nothing emitted and nothing
/// changed.
pub type StepResult = Result<(Seq<Command>, Typewriter), TypewriterError>;

/// The session state: cursor position in signed device steps, print
/// configuration, and the power state.
#[derive(Clone, Copy, Debug, PartialEq, Eq, Structural)]
pub struct Typewriter {
    /// Horizontal cursor position, in device steps.
    pub pos_x: i16,
    /// Vertical cursor position, in device steps.
    pub pos_y: i16,
    /// Horizontal advance per printed character, in device steps.
    pub char_width: u8,
    /// Print thickness applied to struck glyphs.
    pub print_weight: u8,
    /// Vertical advance of one line, in device steps.
    pub line_height: u16,
    /// The sense in which the head advances after printing, if any.
    pub feed_direction: Option<HorizontalDir>,
    /// Whether the power-on sequence is in effect.
    pub online: bool,
}

/// The signed horizontal advance one printed character causes.
pub open spec fn feed_delta(feed: Option<HorizontalDir>, width: u8) -> int {
    match feed {
        Some(HorizontalDir::Left) => -(width as int),
        Some(HorizontalDir::Right) => width as int,
        None => 0,
    }
}

/// Powering on: emits the canonical power-on sequence and marks the
/// session online.  Always succeeds; the cursor and configuration keep
/// their values.
pub open spec fn power_on_step(st: Typewriter) -> (Seq<Command>, Typewriter) {
    (crate::command::spec_online_sequence(), Typewriter { online: true, ..st })
}

/// Powering off: emits the canonical power-off sequence and marks the
/// session offline.  Always succeeds; the cursor and configuration keep
/// their values.
pub open spec fn power_off_step(st: Typewriter) -> (Seq<Command>, Typewriter) {
    (crate::command::spec_offline_sequence(), Typewriter { online: false, ..st })
}

/// Setting the character width: records it and emits the matching
/// command.  Requires the session to be online.
pub open spec fn set_char_width_step(st: Typewriter, width: u8) -> StepResult {
    if !st.online {
        Err(TypewriterError::InvalidState)
    } else {
        Ok(
            (
                seq![Command::SetCharWidth(SetCharWidth { width })],
                Typewriter { char_width: width, ..st },
            ),
        )
    }
}

/// Printing one character: emits a print command built from the current
/// thickness and feed direction, then advances the cursor by the feed
/// delta.  Fails when the session is offline, or when the advance would
/// leave the signed 16-bit step range.
pub open spec fn print_char_step(st: Typewriter, c: char) -> StepResult {
    if !st.online {
        Err(TypewriterError::InvalidState)
    } else {
        let nx = st.pos_x + feed_delta(st.feed_direction, st.char_width);
        if nx < i16::MIN || nx > i16::MAX {
            Err(TypewriterError::InvalidArgument)
        } else {
            Ok(
                (
                    seq![
                        Command::PrintChar(
                            PrintChar {
                                letter: crate::glyphs::glyph_code_spec(c),
                                thickness: st.print_weight,
                                movement: st.feed_direction,
                            },
                        ),
                    ],
                    Typewriter { pos_x: nx as i16, ..st },
                ),
            )
        }
    }
}

/// Advancing one line: emits a downward move of the line height and moves
/// the cursor down by it.  Fails when the session is offline, when the
/// line height does not fit the move word's 12-bit distance, or when the
/// cursor would leave the signed 16-bit step range.
pub open spec fn newline_step(st: Typewriter) -> StepResult {
    if !st.online {
        Err(TypewriterError::InvalidState)
    } else if st.line_height >= 4096 {
        Err(TypewriterError::InvalidArgument)
    } else if st.pos_y + st.line_height > i16::MAX {
        Err(TypewriterError::InvalidArgument)
    } else {
        Ok(
            (
                seq![Command::Move(Move { distance: st.line_height, direction: Direction::Down })],
                Typewriter { pos_y: (st.pos_y + st.line_height) as i16, ..st },
            ),
        )
    }
}

/// Returning the carriage: emits a leftward move over the whole cursor
/// abscissa and zeroes it.  The move word's distance is unsigned, so this
/// is only defined for a cursor at or right of the origin; a negative
/// abscissa is rejected, as is one the 12-bit distance cannot carry.
pub open spec fn carriage_return_step(st: Typewriter) -> StepResult {
    if !st.online {
        Err(TypewriterError::InvalidState)
    } else if st.pos_x < 0 || st.pos_x >= 4096 {
        Err(TypewriterError::InvalidArgument)
    } else {
        Ok(
            (
                seq![
                    Command::Move(
                        Move { distance: st.pos_x as u16, direction: Direction::Left },
                    ),
                ],
                Typewriter { pos_x: 0, ..st },
            ),
        )
    }
}

/// Printing a space: emits the default space command — distance 0, the
/// device applies its current character width — and advances the cursor
/// by the configured character width.  Fails when the session is offline
/// or when the advance would leave the signed 16-bit step range.
pub open spec fn space_step(st: Typewriter) -> StepResult {
    if !st.online {
        Err(TypewriterError::InvalidState)
    } else if st.pos_x + st.char_width > i16::MAX {
        Err(TypewriterError::InvalidArgument)
    } else {
        Ok(
            (
                seq![Command::Space(Space { distance: 0 })],
                Typewriter { pos_x: (st.pos_x + st.char_width) as i16, ..st },
            ),
        )
    }
}

/// Moving the head by a signed offset: emits up to two moves — the
/// nonzero components only, horizontal first — and shifts the cursor by
/// exactly the offset.  Fails when the session is offline, when a
/// component's magnitude does not fit the move word's 12-bit distance, or
/// when the cursor would leave the signed 16-bit step range; on failure
/// nothing is emitted.
pub open spec fn move_head_step(st: Typewriter, x: int, y: int) -> StepResult {
    if !st.online {
        Err(TypewriterError::InvalidState)
    } else if vstd::math::abs(x) >= 4096 || vstd::math::abs(y) >= 4096 {
        Err(TypewriterError::InvalidArgument)
    } else if st.pos_x + x < i16::MIN || st.pos_x + x > i16::MAX || st.pos_y + y < i16::MIN
        || st.pos_y + y > i16::MAX {
        Err(TypewriterError::InvalidArgument)
    } else {
        let horizontal: Seq<Command> = if x != 0 {
            seq![
                Command::Move(
                    Move {
                        distance: vstd::math::abs(x) as u16,
                        direction: if x > 0 {
                            Direction::Right
                        } else {
                            Direction::Left
                        },
                    },
                ),
            ]
        } else {
            Seq::empty()
        };
        let vertical: Seq<Command> = if y != 0 {
            seq![
                Command::Move(
                    Move {
                        distance: vstd::math::abs(y) as u16,
                        direction: if y > 0 {
                            Direction::Down
                        } else {
                            Direction::Up
                        },
                    },
                ),
            ]
        } else {
            Seq::empty()
        };
        Ok(
            (
                horizontal + vertical,
                Typewriter {
                    pos_x: (st.pos_x + x) as i16,
                    pos_y: (st.pos_y + y) as i16,
                    ..st
                },
            ),
        )
    }
}

/// Moving the head to an absolute position: the move by the difference.
pub open spec fn move_to_step(st: Typewriter, x: int, y: int) -> StepResult {
    move_head_step(st, x - st.pos_x, y - st.pos_y)
}

/// One character of text: a line feed advances the line and returns the
/// carriage; a space prints a default space; anything else prints the
/// character itself.
pub open spec fn char_step(st: Typewriter, c: char) -> StepResult {
    if c == '\n' {
        match newline_step(st) {
            Err(e) => Err(e),
            Ok((c1, st1)) => match carriage_return_step(st1) {
                Err(e) => Err(e),
                Ok((c2, st2)) => Ok((c1 + c2, st2)),
            },
        }
    } else if c == ' ' {
        space_step(st)
    } else {
        print_char_step(st, c)
    }
}

/// Printing the characters of `chars` from position `i` on, in order.
/// The first failing character fails the whole step.
pub open spec fn print_string_from(st: Typewriter, chars: Seq<char>, i: int) -> StepResult
    decreases chars.len() - i,
{
    if i < 0 || i >= chars.len() {
        Ok((Seq::empty(), st))
    } else {
        match char_step(st, chars[i]) {
            Err(e) => Err(e),
            Ok((c1, st1)) => match print_string_from(st1, chars, i + 1) {
                Err(e) => Err(e),
                Ok((c2, st2)) => Ok((c1 + c2, st2)),
            },
        }
    }
}

/// Printing a whole text, character by character.
pub open spec fn print_string_step(st: Typewriter, chars: Seq<char>) -> StepResult {
    print_string_from(st, chars, 0)
}

/// A monochrome bitmap, as the image preprocessing around the library
/// delivers it: a grid of rows of pixels, `true` marking ink.  Rows may
/// differ in length; each pixel is addressed by its (column, row) pair.
pub struct Bitmap {
    pub rows: Vec<Vec<bool>>,
}

impl Bitmap {
    /// The grid as a mathematical sequence of rows.
    pub open spec fn grid(&self) -> Seq<Seq<bool>> {
        self.rows@.map_values(|r: Vec<bool>| r@)
    }

    /// Wraps a grid of rows.
    pub fn new(rows: Vec<Vec<bool>>) -> (b: Bitmap)
        ensures
            b.rows == rows,
    {
        Bitmap { rows }
    }

    /// The number of rows.
    pub fn height(&self) -> (r: usize)
        ensures
            r == self.grid().len(),
    {
        self.rows.len()
    }
}

/// The inked pixels of `grid` from row `y`, column `x` on, in the order
/// the printer visits them — left to right within a row, rows top to
/// bottom — each as its (column, row) coordinates.
pub open spec fn bitmap_dots_from(grid: Seq<Seq<bool>>, y: int, x: int) -> Seq<(int, int)>
    decreases
            grid.len() - y,
            (if 0 <= y < grid.len() && x <= grid[y].len() {
                grid[y].len() - x
            } else {
                0
            }),
    when 0 <= y && 0 <= x
{
    if y >= grid.len() {
        Seq::empty()
    } else if x >= grid[y].len() {
        bitmap_dots_from(grid, y + 1, 0)
    } else {
        (if grid[y][x] {
            seq![(x, y)]
        } else {
            Seq::empty()
        }) + bitmap_dots_from(grid, y, x + 1)
    }
}

/// Printing one dot: move to its device position — the origin the bitmap
/// print started at, plus 3 steps per column and 2 per row, both fixed
/// device-calibration scales — and strike the dot glyph.
pub open spec fn dot_step(st: Typewriter, start_x: int, start_y: int, dot: (int, int)) -> StepResult {
    match move_to_step(st, start_x + 3 * dot.0, start_y + 2 * dot.1) {
        Err(e) => Err(e),
        Ok((c1, st1)) => match print_char_step(st1, '.') {
            Err(e) => Err(e),
            Ok((c2, st2)) => Ok((c1 + c2, st2)),
        },
    }
}

/// Printing a sequence of dots, in order; the first failing dot fails
/// the whole step.
pub open spec fn print_dots(st: Typewriter, start_x: int, start_y: int, dots: Seq<(int, int)>) -> StepResult
    decreases dots.len(),
{
    if dots.len() == 0 {
        Ok((Seq::empty(), st))
    } else {
        match dot_step(st, start_x, start_y, dots[0]) {
            Err(e) => Err(e),
            Ok((c1, st1)) => match print_dots(st1, start_x, start_y, dots.skip(1)) {
                Err(e) => Err(e),
                Ok((c2, st2)) => Ok((c1 + c2, st2)),
            },
        }
    }
}

/// Printing a bitmap.  A bitmap taller than 300 rows is silently
/// rejected: a defined no-op, not an error.  Otherwise the feed direction
/// is parked and the weight set to a fixed low value, every inked pixel
/// is visited — a move to its position, then a dot — and the prior feed
/// direction and weight are restored.
pub open spec fn print_image_step(st: Typewriter, grid: Seq<Seq<bool>>) -> StepResult {
    if grid.len() > 300 {
        Ok((Seq::empty(), st))
    } else if !st.online {
        Err(TypewriterError::InvalidState)
    } else {
        let work = Typewriter { feed_direction: None, print_weight: 15, ..st };
        match print_dots(work, st.pos_x as int, st.pos_y as int, bitmap_dots_from(grid, 0, 0)) {
            Err(e) => Err(e),
            Ok(
                (cs, st2),
            ) => Ok(
                (
                    cs,
                    Typewriter {
                        feed_direction: st.feed_direction,
                        print_weight: st.print_weight,
                        ..st2
                    },
                ),
            ),
        }
    }
}

/// A move to a target outside the signed 16-bit step range is rejected
/// before anything is emitted.
proof fn lemma_move_to_oob(st: Typewriter, tx: int, ty: int)
    requires
        st.online,
        tx < i16::MIN || tx > i16::MAX || ty < i16::MIN || ty > i16::MAX,
    ensures
        move_to_step(st, tx, ty) == Err::<(Seq<Command>, Typewriter), TypewriterError>(
            TypewriterError::InvalidArgument,
        ),
{
    let dx = tx - st.pos_x;
    let dy = ty - st.pos_y;
    if vstd::math::abs(dx) < 4096 && vstd::math::abs(dy) < 4096 {
        assert(st.pos_x + dx == tx);
        assert(st.pos_y + dy == ty);
    }
}

impl Typewriter {
    /// The state a fresh session starts in: cursor at the origin, the
    /// device's default configuration, offline until powered on.
    pub open spec fn initial() -> Typewriter {
        Typewriter {
            pos_x: 0,
            pos_y: 0,
            char_width: 12,
            print_weight: 20,
            line_height: 16,
            feed_direction: Some(HorizontalDir::Right),
            online: false,
        }
    }

    /// Creates a fresh session state.  Powering on — and opening the
    /// channel that carries the commands — is the caller's next step.
    pub fn new() -> (t: Typewriter)
        ensures
            t == Typewriter::initial(),
    {
        Typewriter {
            pos_x: 0,
            pos_y: 0,
            char_width: 12,
            print_weight: 20,
            line_height: 16,
            feed_direction: Some(HorizontalDir::Right),
            online: false,
        }
    }

    /// Powers the session on: returns the power-on sequence to send and
    /// marks the session online.
    pub fn on(&mut self) -> (r: Vec<Command>)
        ensures
            (r@, *final(self)) == power_on_step(*old(self)),
    {
        self.online = true;
        crate::command::online_sequence()
    }

    /// Powers the session off: returns the power-off sequence to send and
    /// marks the session offline.  Issued on every teardown path.
    pub fn off(&mut self) -> (r: Vec<Command>)
        ensures
            (r@, *final(self)) == power_off_step(*old(self)),
    {
        self.online = false;
        crate::command::offline_sequence()
    }

    /// The configured horizontal advance per printed character.
    pub fn get_char_width(&self) -> (r: u8)
        ensures
            r == self.char_width,
    {
        self.char_width
    }

    /// Sets the character width and returns the command that tells the
    /// device.  Fails with `InvalidState` when the session is offline.
    pub fn set_char_width(&mut self, width: u8) -> (r: Result<Command, TypewriterError>)
        ensures
            match set_char_width_step(*old(self), width) {
                Ok((cmds, st)) => r matches Ok(c) && cmds =~= seq![c] && *final(self) == st,
                Err(e) => r == Err::<Command, TypewriterError>(e) && *final(self) == *old(self),
            },
    {
        if !self.online {
            return Err(TypewriterError::InvalidState);
        }
        self.char_width = width;
        Ok(Command::SetCharWidth(SetCharWidth { width }))
    }

    /// Prints one character with the current thickness and feed
    /// direction, advancing the cursor by the feed delta.
    pub fn print_char(&mut self, character: char) -> (r: Result<Command, TypewriterError>)
        ensures
            match print_char_step(*old(self), character) {
                Ok((cmds, st)) => r matches Ok(c) && cmds =~= seq![c] && *final(self) == st,
                Err(e) => r == Err::<Command, TypewriterError>(e) && *final(self) == *old(self),
            },
    {
        if !self.online {
            return Err(TypewriterError::InvalidState);
        }
        let delta: i32 = match self.feed_direction {
            Some(HorizontalDir::Left) => -(self.char_width as i32),
            Some(HorizontalDir::Right) => self.char_width as i32,
            None => 0,
        };
        let nx = self.pos_x as i32 + delta;
        if nx < i16::MIN as i32 || nx > i16::MAX as i32 {
            return Err(TypewriterError::InvalidArgument);
        }
        let command = Command::PrintChar(
            PrintChar {
                letter: crate::glyphs::glyph_code(character),
                thickness: self.print_weight,
                movement: self.feed_direction,
            },
        );
        self.pos_x = nx as i16;
        Ok(command)
    }

    /// Advances one line: a downward move of the line height.
    pub fn newline(&mut self) -> (r: Result<Command, TypewriterError>)
        ensures
            match newline_step(*old(self)) {
                Ok((cmds, st)) => r matches Ok(c) && cmds =~= seq![c] && *final(self) == st,
                Err(e) => r == Err::<Command, TypewriterError>(e) && *final(self) == *old(self),
            },
    {
        if !self.online {
            return Err(TypewriterError::InvalidState);
        }
        if self.line_height >= 4096 {
            return Err(TypewriterError::InvalidArgument);
        }
        let ny = self.pos_y as i32 + self.line_height as i32;
        if ny > i16::MAX as i32 {
            return Err(TypewriterError::InvalidArgument);
        }
        self.pos_y = ny as i16;
        Ok(Command::Move(Move { distance: self.line_height, direction: Direction::Down }))
    }

    /// Returns the carriage to the origin: a leftward move over the whole
    /// cursor abscissa.  Only defined for a cursor at or right of the
    /// origin, within the move word's 12-bit distance.
    pub fn carriage_return(&mut self) -> (r: Result<Command, TypewriterError>)
        ensures
            match carriage_return_step(*old(self)) {
                Ok((cmds, st)) => r matches Ok(c) && cmds =~= seq![c] && *final(self) == st,
                Err(e) => r == Err::<Command, TypewriterError>(e) && *final(self) == *old(self),
            },
    {
        if !self.online {
            return Err(TypewriterError::InvalidState);
        }
        if self.pos_x < 0 || self.pos_x >= 4096 {
            return Err(TypewriterError::InvalidArgument);
        }
        let command = Command::Move(Move { distance: self.pos_x as u16, direction: Direction::Left });
        self.pos_x = 0;
        Ok(command)
    }

    /// Prints a default space, advancing the cursor by the character
    /// width.
    pub fn space(&mut self) -> (r: Result<Command, TypewriterError>)
        ensures
            match space_step(*old(self)) {
                Ok((cmds, st)) => r matches Ok(c) && cmds =~= seq![c] && *final(self) == st,
                Err(e) => r == Err::<Command, TypewriterError>(e) && *final(self) == *old(self),
            },
    {
        if !self.online {
            return Err(TypewriterError::InvalidState);
        }
        let nx = self.pos_x as i32 + self.char_width as i32;
        if nx > i16::MAX as i32 {
            return Err(TypewriterError::InvalidArgument);
        }
        self.pos_x = nx as i16;
        Ok(Command::Space(Space { distance: 0 }))
    }

    /// Moves the head by a signed offset, emitting the nonzero components
    /// as up to two moves, horizontal first.
    pub fn move_head(&mut self, x: i16, y: i16) -> (r: Result<Vec<Command>, TypewriterError>)
        ensures
            match move_head_step(*old(self), x as int, y as int) {
                Ok((cmds, st)) => r matches Ok(v) && v@ =~= cmds && *final(self) == st,
                Err(e) => r == Err::<Vec<Command>, TypewriterError>(e) && *final(self) == *old(
                    self,
                ),
            },
    {
        if !self.online {
            return Err(TypewriterError::InvalidState);
        }
        let xa: i32 = if x >= 0 {
            x as i32
        } else {
            -(x as i32)
        };
        let ya: i32 = if y >= 0 {
            y as i32
        } else {
            -(y as i32)
        };
        if xa >= 4096 || ya >= 4096 {
            return Err(TypewriterError::InvalidArgument);
        }
        let nx = self.pos_x as i32 + x as i32;
        let ny = self.pos_y as i32 + y as i32;
        if nx < i16::MIN as i32 || nx > i16::MAX as i32 || ny < i16::MIN as i32 || ny > i16::MAX
            as i32 {
            return Err(TypewriterError::InvalidArgument);
        }
        let mut commands: Vec<Command> = Vec::new();
        if x != 0 {
            commands.push(
                Command::Move(
                    Move {
                        distance: xa as u16,
                        direction: if x > 0 {
                            Direction::Right
                        } else {
                            Direction::Left
                        },
                    },
                ),
            );
        }
        if y != 0 {
            commands.push(
                Command::Move(
                    Move {
                        distance: ya as u16,
                        direction: if y > 0 {
                            Direction::Down
                        } else {
                            Direction::Up
                        },
                    },
                ),
            );
        }
        self.pos_x = nx as i16;
        self.pos_y = ny as i16;
        proof {
            let step = move_head_step(*old(self), x as int, y as int);
            assert(step matches Ok((cmds, st)) && commands@ =~= cmds && *self == st);
        }
        Ok(commands)
    }

    /// Prints a text, character by character: a line feed advances the
    /// line and returns the carriage, a space prints a default space,
    /// anything else prints the character.  All or nothing: on the first
    /// failing character nothing has been emitted and nothing changed.
    pub fn print_string(&mut self, content: &str) -> (r: Result<Vec<Command>, TypewriterError>)
        ensures
            match print_string_step(*old(self), content@) {
                Ok((cmds, st)) => r matches Ok(v) && v@ =~= cmds && *final(self) == st,
                Err(e) => r == Err::<Vec<Command>, TypewriterError>(e) && *final(self) == *old(
                    self,
                ),
            },
    {
        let ghost st0 = *self;
        let ghost chars = content@;
        let n = content.unicode_len();
        let mut scratch = *self;
        let mut commands: Vec<Command> = Vec::new();
        let mut i: usize = 0;
        while i < n
            invariant
                i <= n,
                n == chars.len(),
                chars == content@,
                st0 == *self,
                ({
                    match print_string_from(scratch, chars, i as int) {
                        Ok((cs, stf)) => print_string_step(st0, chars) == Ok::<
                            (Seq<Command>, Typewriter),
                            TypewriterError,
                        >((commands@ + cs, stf)),
                        Err(e) => print_string_step(st0, chars) == Err::<
                            (Seq<Command>, Typewriter),
                            TypewriterError,
                        >(e),
                    }
                }),
            decreases n - i,
        {
            let ghost pre = scratch;
            let ghost cmds0 = commands@;
            let c = content.get_char(i);
            if c == '\n' {
                match scratch.newline() {
                    Ok(c1) => {
                        match scratch.carriage_return() {
                            Ok(c2) => {
                                commands.push(c1);
                                commands.push(c2);
                                proof {
                                    assert(char_step(pre, chars[i as int]) matches Ok(p) && p.1
                                        == scratch && p.0 =~= seq![c1, c2]);
                                }
                            },
                            Err(e) => {
                                proof {
                                    assert(char_step(pre, chars[i as int]) == Err::<
                                        (Seq<Command>, Typewriter),
                                        TypewriterError,
                                    >(e));
                                }
                                return Err(e);
                            },
                        }
                    },
                    Err(e) => {
                        proof {
                            assert(char_step(pre, chars[i as int]) == Err::<
                                (Seq<Command>, Typewriter),
                                TypewriterError,
                            >(e));
                        }
                        return Err(e);
                    },
                }
            } else if c == ' ' {
                match scratch.space() {
                    Ok(c1) => {
                        commands.push(c1);
                        proof {
                            assert(char_step(pre, chars[i as int]) matches Ok(p) && p.1 == scratch
                                && p.0 =~= seq![c1]);
                        }
                    },
                    Err(e) => {
                        return Err(e);
                    },
                }
            } else {
                match scratch.print_char(c) {
                    Ok(c1) => {
                        commands.push(c1);
                        proof {
                            assert(char_step(pre, chars[i as int]) matches Ok(p) && p.1 == scratch
                                && p.0 =~= seq![c1]);
                        }
                    },
                    Err(e) => {
                        return Err(e);
                    },
                }
            }
            proof {
                let c_spec = chars[i as int];
                match char_step(pre, c_spec) {
                    Ok((sc, s2)) => {
                        assert(commands@ =~= cmds0 + sc);
                        match print_string_from(scratch, chars, i + 1) {
                            Ok((cs, stf)) => {
                                assert(print_string_from(pre, chars, i as int) == Ok::<
                                    (Seq<Command>, Typewriter),
                                    TypewriterError,
                                >((sc + cs, stf)));
                                assert(cmds0 + (sc + cs) =~= commands@ + cs);
                            },
                            Err(e) => {
                                assert(print_string_from(pre, chars, i as int) == Err::<
                                    (Seq<Command>, Typewriter),
                                    TypewriterError,
                                >(e));
                            },
                        }
                    },
                    Err(_) => {
                        assert(false);
                    },
                }
            }
            i = i + 1;
        }
        proof {
            assert(print_string_from(scratch, chars, i as int) == Ok::<
                (Seq<Command>, Typewriter),
                TypewriterError,
            >((Seq::empty(), scratch)));
            assert(commands@ + Seq::<Command>::empty() =~= commands@);
        }
        *self = scratch;
        Ok(commands)
    }

    /// Prints a bitmap: every inked pixel becomes a move to its scaled
    /// position and a dot, with the feed direction parked and a fixed low
    /// weight for the duration.  A bitmap taller than 300 rows is
    /// silently rejected — a defined no-op.  All or nothing: on the first
    /// failing dot nothing has been emitted and nothing changed.
    pub fn print_image(&mut self, bitmap: &Bitmap) -> (r: Result<Vec<Command>, TypewriterError>)
        ensures
            match print_image_step(*old(self), bitmap.grid()) {
                Ok((cmds, st)) => r matches Ok(v) && v@ =~= cmds && *final(self) == st,
                Err(e) => r == Err::<Vec<Command>, TypewriterError>(e) && *final(self) == *old(
                    self,
                ),
            },
            bitmap.grid().len() > 300 ==> (r matches Ok(v) && v@.len() == 0 && *final(self)
                == *old(self)),
    {
        if bitmap.rows.len() > 300 {
            return Ok(Vec::new());
        }
        if !self.online {
            return Err(TypewriterError::InvalidState);
        }
        let ghost st0 = *self;
        let ghost grid = bitmap.grid();
        let start_x = self.pos_x;
        let start_y = self.pos_y;
        let saved_feed = self.feed_direction;
        let saved_weight = self.print_weight;
        let mut scratch = *self;
        scratch.feed_direction = None;
        scratch.print_weight = 15;
        let ghost work0 = scratch;
        let mut commands: Vec<Command> = Vec::new();
        let mut y: usize = 0;
        while y < bitmap.rows.len()
            invariant
                y <= grid.len(),
                grid == bitmap.grid(),
                grid.len() == bitmap.rows@.len(),
                grid.len() <= 300,
                st0 == *self,
                st0.online,
                scratch.online,
                start_x == st0.pos_x,
                start_y == st0.pos_y,
                work0 == (Typewriter { feed_direction: None, print_weight: 15, ..st0 }),
                ({
                    match print_dots(
                        scratch,
                        start_x as int,
                        start_y as int,
                        bitmap_dots_from(grid, y as int, 0),
                    ) {
                        Ok((cs, stf)) => print_dots(
                            work0,
                            start_x as int,
                            start_y as int,
                            bitmap_dots_from(grid, 0, 0),
                        ) == Ok::<(Seq<Command>, Typewriter), TypewriterError>(
                            (commands@ + cs, stf),
                        ),
                        Err(e) => print_dots(
                            work0,
                            start_x as int,
                            start_y as int,
                            bitmap_dots_from(grid, 0, 0),
                        ) == Err::<(Seq<Command>, Typewriter), TypewriterError>(e),
                    }
                }),
            decreases grid.len() - y,
        {
            let row_len = bitmap.rows[y].len();
            let mut x: usize = 0;
            while x < row_len
                invariant
                    x <= row_len,
                    y < grid.len(),
                    row_len == grid[y as int].len(),
                    grid == bitmap.grid(),
                    grid.len() == bitmap.rows@.len(),
                    grid.len() <= 300,
                    st0 == *self,
                    st0.online,
                    scratch.online,
                    start_x == st0.pos_x,
                    start_y == st0.pos_y,
                    work0 == (Typewriter { feed_direction: None, print_weight: 15, ..st0 }),
                    ({
                        match print_dots(
                            scratch,
                            start_x as int,
                            start_y as int,
                            bitmap_dots_from(grid, y as int, x as int),
                        ) {
                            Ok((cs, stf)) => print_dots(
                                work0,
                                start_x as int,
                                start_y as int,
                                bitmap_dots_from(grid, 0, 0),
                            ) == Ok::<(Seq<Command>, Typewriter), TypewriterError>(
                                (commands@ + cs, stf),
                            ),
                            Err(e) => print_dots(
                                work0,
                                start_x as int,
                                start_y as int,
                                bitmap_dots_from(grid, 0, 0),
                            ) == Err::<(Seq<Command>, Typewriter), TypewriterError>(e),
                        }
                    }),
                decreases row_len - x,
            {
                if bitmap.rows[y][x] {
                    let ghost pre = scratch;
                    let ghost cmds0 = commands@;
                    let ghost dot = (x as int, y as int);
                    let ghost dots_here = bitmap_dots_from(grid, y as int, x as int);
                    let ghost dots_rest = bitmap_dots_from(grid, y as int, x as int + 1);
                    proof {
                        assert(grid[y as int][x as int]);
                        assert(dots_here == seq![dot] + dots_rest);
                        assert(dots_here.len() > 0);
                        assert(dots_here[0] == dot);
                        assert(dots_here.skip(1) =~= dots_rest);
                    }
                    if x >= 21846 {
                        proof {
                            let tx = start_x as int + 3 * dot.0;
                            let ty = start_y as int + 2 * dot.1;
                            assert(tx > i16::MAX);
                            lemma_move_to_oob(pre, tx, ty);
                            assert(dot_step(pre, start_x as int, start_y as int, dot) == Err::<
                                (Seq<Command>, Typewriter),
                                TypewriterError,
                            >(TypewriterError::InvalidArgument));
                        }
                        return Err(TypewriterError::InvalidArgument);
                    }
                    let tx = start_x as i32 + 3 * (x as i32);
                    let ty = start_y as i32 + 2 * (y as i32);
                    if tx < i16::MIN as i32 || tx > i16::MAX as i32 || ty < i16::MIN as i32 || ty
                        > i16::MAX as i32 {
                        proof {
                            lemma_move_to_oob(pre, tx as int, ty as int);
                            assert(dot_step(pre, start_x as int, start_y as int, dot) == Err::<
                                (Seq<Command>, Typewriter),
                                TypewriterError,
                            >(TypewriterError::InvalidArgument));
                        }
                        return Err(TypewriterError::InvalidArgument);
                    }
                    match scratch.move_to(tx as i16, ty as i16) {
                        Err(e) => {
                            proof {
                                assert(dot_step(pre, start_x as int, start_y as int, dot) == Err::<
                                    (Seq<Command>, Typewriter),
                                    TypewriterError,
                                >(e));
                            }
                            return Err(e);
                        },
                        Ok(mut moves) => {
                            match scratch.print_char('.') {
                                Err(e) => {
                                    proof {
                                        assert(dot_step(pre, start_x as int, start_y as int, dot)
                                            == Err::<(Seq<Command>, Typewriter), TypewriterError>(
                                            e,
                                        ));
                                    }
                                    return Err(e);
                                },
                                Ok(dot_cmd) => {
                                    let ghost moved = moves@;
                                    commands.append(&mut moves);
                                    commands.push(dot_cmd);
                                    proof {
                                        assert(dot_step(pre, start_x as int, start_y as int, dot)
                                            matches Ok(p) && p.1 == scratch && p.0 =~= moved
                                            + seq![dot_cmd]);
                                        assert(commands@ =~= cmds0 + (moved + seq![dot_cmd]));
                                    }
                                },
                            }
                        },
                    }
                    proof {
                        match dot_step(pre, start_x as int, start_y as int, dot) {
                            Ok((sc, s2)) => {
                                assert(s2 == scratch);
                                assert(commands@ =~= cmds0 + sc);
                                match print_dots(scratch, start_x as int, start_y as int, dots_rest) {
                                    Ok((cs, stf)) => {
                                        assert(print_dots(
                                            pre,
                                            start_x as int,
                                            start_y as int,
                                            dots_here,
                                        ) == Ok::<(Seq<Command>, Typewriter), TypewriterError>(
                                            (sc + cs, stf),
                                        ));
                                        assert(cmds0 + (sc + cs) =~= commands@ + cs);
                                    },
                                    Err(e) => {
                                        assert(print_dots(
                                            pre,
                                            start_x as int,
                                            start_y as int,
                                            dots_here,
                                        ) == Err::<(Seq<Command>, Typewriter), TypewriterError>(e));
                                    },
                                }
                            },
                            Err(_) => {
                                assert(false);
                            },
                        }
                    }
                } else {
                    proof {
                        assert(!grid[y as int][x as int]);
                        assert(bitmap_dots_from(grid, y as int, x as int) =~= bitmap_dots_from(
                            grid,
                            y as int,
                            x as int + 1,
                        ));
                    }
                }
                x = x + 1;
            }
            proof {
                assert(bitmap_dots_from(grid, y as int, row_len as int) == bitmap_dots_from(
                    grid,
                    y as int + 1,
                    0,
                ));
            }
            y = y + 1;
        }
        proof {
            assert(bitmap_dots_from(grid, y as int, 0) =~= Seq::<(int, int)>::empty());
            assert(print_dots(
                scratch,
                start_x as int,
                start_y as int,
                bitmap_dots_from(grid, y as int, 0),
            ) == Ok::<(Seq<Command>, Typewriter), TypewriterError>((Seq::empty(), scratch)));
            assert(commands@ + Seq::<Command>::empty() =~= commands@);
        }
        scratch.feed_direction = saved_feed;
        scratch.print_weight = saved_weight;
        *self = scratch;
        Ok(commands)
    }

    /// Moves the head to an absolute position: the move by the
    /// difference.  On success the cursor lands exactly on the target, so
    /// a second `move_to` to the same target emits no commands.
    pub fn move_to(&mut self, x: i16, y: i16) -> (r: Result<Vec<Command>, TypewriterError>)
        ensures
            match move_to_step(*old(self), x as int, y as int) {
                Ok((cmds, st)) => r matches Ok(v) && v@ =~= cmds && *final(self) == st,
                Err(e) => r == Err::<Vec<Command>, TypewriterError>(e) && *final(self) == *old(
                    self,
                ),
            },
            r is Ok ==> final(self).pos_x == x && final(self).pos_y == y,
    {
        if !self.online {
            return Err(TypewriterError::InvalidState);
        }
        let dx = x as i32 - self.pos_x as i32;
        let dy = y as i32 - self.pos_y as i32;
        if dx >= 4096 || dx <= -4096 || dy >= 4096 || dy <= -4096 {
            return Err(TypewriterError::InvalidArgument);
        }
        self.move_head(dx as i16, dy as i16)
    }
}

/// Powering on and then off emits only control words — in particular no
/// move — and so leaves the cursor position, and the whole configuration,
/// unchanged.
pub proof fn lemma_power_cycle_preserves_cursor(st: Typewriter)
    ensures
        ({
            let (on_cmds, mid) = power_on_step(st);
            let (off_cmds, end) = power_off_step(mid);
            &&& end.pos_x == st.pos_x
            &&& end.pos_y == st.pos_y
            &&& end.char_width == st.char_width
            &&& end.print_weight == st.print_weight
            &&& end.line_height == st.line_height
            &&& end.feed_direction == st.feed_direction
            &&& forall|i: int| 0 <= i < on_cmds.len() ==> on_cmds[i] is Control
            &&& forall|i: int| 0 <= i < off_cmds.len() ==> off_cmds[i] is Control
        }),
{
    let on_cmds = crate::command::spec_online_sequence();
    let off_cmds = crate::command::spec_offline_sequence();
    assert forall|i: int| 0 <= i < on_cmds.len() implies on_cmds[i] is Control by {
        assert(on_cmds.len() == 4);
    }
    assert forall|i: int| 0 <= i < off_cmds.len() implies off_cmds[i] is Control by {
        assert(off_cmds.len() == 2);
    }
}

/// The net signed effect of a command sequence on the cursor, counting
/// the moves alone: right and down positive, left and up negative.
pub open spec fn net_move_effect(cmds: Seq<Command>) -> (int, int)
    decreases cmds.len(),
{
    if cmds.len() == 0 {
        (0, 0)
    } else {
        let rest = net_move_effect(cmds.skip(1));
        let step: (int, int) = match cmds[0] {
            Command::Move(m) => match m.direction {
                Direction::Left => (-(m.distance as int), 0),
                Direction::Right => (m.distance as int, 0),
                Direction::Up => (0, -(m.distance as int)),
                Direction::Down => (0, m.distance as int),
            },
            _ => (0, 0),
        };
        (step.0 + rest.0, step.1 + rest.1)
    }
}

/// A successful `move_to` emits moves whose net signed effect carries the
/// cursor exactly from where it was to the target, where it then stands.
pub proof fn lemma_move_to_net_effect(st: Typewriter, x: int, y: int)
    requires
        move_to_step(st, x, y) is Ok,
    ensures
        ({
            let (cmds, end) = move_to_step(st, x, y).unwrap();
            &&& net_move_effect(cmds) == (x - st.pos_x, y - st.pos_y)
            &&& end.pos_x == x
            &&& end.pos_y == y
        }),
{
    reveal_with_fuel(net_move_effect, 3);
    let (cmds, end) = move_to_step(st, x, y).unwrap();
    let dx = x - st.pos_x;
    let dy = y - st.pos_y;
    let ax = vstd::math::abs(dx);
    let ay = vstd::math::abs(dy);
    let horizontal = Command::Move(
        Move {
            distance: ax as u16,
            direction: if dx > 0 {
                Direction::Right
            } else {
                Direction::Left
            },
        },
    );
    let vertical = Command::Move(
        Move {
            distance: ay as u16,
            direction: if dy > 0 {
                Direction::Down
            } else {
                Direction::Up
            },
        },
    );
    if dx != 0 && dy != 0 {
        assert(cmds =~= seq![horizontal, vertical]);
        assert(cmds.skip(1) =~= seq![vertical]);
        assert(cmds.skip(1).skip(1) =~= Seq::<Command>::empty());
        assert(net_move_effect(cmds.skip(1)) == (0int, dy));
        assert(net_move_effect(cmds) == (dx, dy));
    } else if dx != 0 {
        assert(cmds =~= seq![horizontal]);
        assert(cmds.skip(1) =~= Seq::<Command>::empty());
        assert(net_move_effect(cmds) == (dx, 0int));
    } else if dy != 0 {
        assert(cmds =~= seq![vertical]);
        assert(cmds.skip(1) =~= Seq::<Command>::empty());
        assert(net_move_effect(cmds) == (0int, dy));
    } else {
        assert(cmds =~= Seq::<Command>::empty());
    }
}

/// A successful `move_to` brings the cursor exactly to its target, and a
/// second `move_to` to the same target is a no-op: it succeeds, emits no
/// commands, and leaves the state as it was.
pub proof fn lemma_move_to_idempotent(st: Typewriter, x: int, y: int)
    requires
        move_to_step(st, x, y) is Ok,
    ensures
        ({
            let (cmds, mid) = move_to_step(st, x, y).unwrap();
            &&& mid.pos_x == x
            &&& mid.pos_y == y
            &&& move_to_step(mid, x, y) == Ok::<(Seq<Command>, Typewriter), TypewriterError>(
                (Seq::empty(), mid),
            )
        }),
{
    let (cmds, mid) = move_to_step(st, x, y).unwrap();
    assert(move_to_step(mid, x, y) matches Ok((c2, end)) && c2 =~= Seq::<Command>::empty() && end
        == mid);
}

} // verus!
