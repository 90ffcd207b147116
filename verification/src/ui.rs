use vstd::prelude::*;

use crate::state::GameState;

verus! {

/// The weight of a line's font.
#[derive(Clone, Copy, Debug, PartialEq, Eq, Structural)]
pub enum Weight {
    Bold,
    ExtraBold,
}

/// The colour of a line, an entry of the Tailwind palette.
#[derive(Clone, Copy, Debug, PartialEq, Eq, Structural)]
pub enum Tint {
    Yellow500,
    Yellow300,
    Red600,
    Gray400,
}

/// A line of text of a banner screen: what it says, how it is drawn, whether
/// it blinks, and the state whose end removes it.
#[derive(Clone, Debug, PartialEq, Eq)]
pub struct TextLine {
    pub text: String,
    pub font_size: u32,
    pub weight: Weight,
    pub tint: Tint,
    pub blinks: bool,
    pub shown_in: GameState,
}

/// The font size of a banner's title.
pub const TITLE_SIZE: u32 = 60;

/// The font size of a banner's prompt.
pub const PROMPT_SIZE: u32 = 20;

/// `line` has the given text and look.
pub open spec fn is_line(
    line: TextLine,
    text: Seq<char>,
    font_size: u32,
    weight: Weight,
    tint: Tint,
    blinks: bool,
    shown_in: GameState,
) -> bool {
    &&& line.text@ == text
    &&& line.font_size == font_size
    &&& line.weight == weight
    &&& line.tint == tint
    &&& line.blinks == blinks
    &&& line.shown_in == shown_in
}

fn make_line(
    text: &str,
    font_size: u32,
    weight: Weight,
    tint: Tint,
    blinks: bool,
    shown_in: GameState,
) -> (line: TextLine)
    ensures
        is_line(line, text@, font_size, weight, tint, blinks, shown_in),
{
    TextLine { text: text.to_owned(), font_size, weight, tint, blinks, shown_in }
}

/// The title screen: the game's name, and a blinking prompt to start; both
/// go away once the title screen is left.
pub fn start_msg() -> (lines: Vec<TextLine>)
    ensures
        lines.len() == 2,
        is_line(lines[0], "BREAKOUT"@, TITLE_SIZE, Weight::ExtraBold, Tint::Yellow500, false, GameState::PreGame),
        is_line(lines[1], "Press SPACE to Start"@, PROMPT_SIZE, Weight::Bold, Tint::Gray400, true, GameState::PreGame),
{
    let mut lines: Vec<TextLine> = Vec::new();
    lines.push(make_line("BREAKOUT", TITLE_SIZE, Weight::ExtraBold, Tint::Yellow500, false, GameState::PreGame));
    lines.push(make_line("Press SPACE to Start", PROMPT_SIZE, Weight::Bold, Tint::Gray400, true, GameState::PreGame));
    lines
}

/// The screen shown when every block is destroyed.
pub fn clear_msg() -> (lines: Vec<TextLine>)
    ensures
        lines.len() == 2,
        is_line(lines[0], "GAME CLEAR!"@, TITLE_SIZE, Weight::ExtraBold, Tint::Yellow300, false, GameState::GameClear),
        is_line(lines[1], "Press SPACE to Restart"@, PROMPT_SIZE, Weight::Bold, Tint::Gray400, true, GameState::GameClear),
{
    let mut lines: Vec<TextLine> = Vec::new();
    lines.push(make_line("GAME CLEAR!", TITLE_SIZE, Weight::ExtraBold, Tint::Yellow300, false, GameState::GameClear));
    lines.push(make_line("Press SPACE to Restart", PROMPT_SIZE, Weight::Bold, Tint::Gray400, true, GameState::GameClear));
    lines
}

/// The screen shown when the ball falls past the paddle.
pub fn gameover_msg() -> (lines: Vec<TextLine>)
    ensures
        lines.len() == 2,
        is_line(lines[0], "GAME OVER"@, TITLE_SIZE, Weight::ExtraBold, Tint::Red600, false, GameState::GameOver),
        is_line(lines[1], "Press SPACE to Restart"@, PROMPT_SIZE, Weight::Bold, Tint::Gray400, true, GameState::GameOver),
{
    let mut lines: Vec<TextLine> = Vec::new();
    lines.push(make_line("GAME OVER", TITLE_SIZE, Weight::ExtraBold, Tint::Red600, false, GameState::GameOver));
    lines.push(make_line("Press SPACE to Restart", PROMPT_SIZE, Weight::Bold, Tint::Gray400, true, GameState::GameOver));
    lines
}

/// A line described by `is_line` has exactly the described text, size,
/// weight, colour, blinking and owning state.
pub proof fn lemma_is_line_fields(
    line: TextLine,
    text: Seq<char>,
    font_size: u32,
    weight: Weight,
    tint: Tint,
    blinks: bool,
    shown_in: GameState,
)
    requires
        is_line(line, text, font_size, weight, tint, blinks, shown_in),
    ensures
        line.text@ == text,
        line.font_size == font_size,
        line.weight == weight,
        line.tint == tint,
        line.blinks == blinks,
        line.shown_in == shown_in,
{
}

} // verus!
