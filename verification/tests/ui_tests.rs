use breakout::state::GameState;
use breakout::ui::{clear_msg, gameover_msg, start_msg, TextLine, Tint, Weight, PROMPT_SIZE, TITLE_SIZE};

fn line(text: &str, font_size: u32, weight: Weight, tint: Tint, blinks: bool, shown_in: GameState) -> TextLine {
    TextLine { text: text.to_string(), font_size, weight, tint, blinks, shown_in }
}

#[test]
fn title_screen() {
    assert_eq!(
        start_msg(),
        vec![
            line("BREAKOUT", 60, Weight::ExtraBold, Tint::Yellow500, false, GameState::PreGame),
            line("Press SPACE to Start", 20, Weight::Bold, Tint::Gray400, true, GameState::PreGame),
        ]
    );
}

#[test]
fn clear_screen() {
    assert_eq!(
        clear_msg(),
        vec![
            line("GAME CLEAR!", 60, Weight::ExtraBold, Tint::Yellow300, false, GameState::GameClear),
            line("Press SPACE to Restart", 20, Weight::Bold, Tint::Gray400, true, GameState::GameClear),
        ]
    );
}

#[test]
fn gameover_screen() {
    assert_eq!(
        gameover_msg(),
        vec![
            line("GAME OVER", 60, Weight::ExtraBold, Tint::Red600, false, GameState::GameOver),
            line("Press SPACE to Restart", 20, Weight::Bold, Tint::Gray400, true, GameState::GameOver),
        ]
    );
}

#[test]
fn font_sizes() {
    assert_eq!(TITLE_SIZE, 60);
    assert_eq!(PROMPT_SIZE, 20);
}
