use mercator::game::{Game, Player, PlayerStrategy, TurnAction};
use mercator::rand::RandomStreamForTest;
use mercator::tokens::{Color, ColorCounts};

#[test]
fn test_turnaction_take_distinct() {
    let mut player = Player::new(PlayerStrategy::Random);
    let mut game = Game::new_random_game(&mut RandomStreamForTest::new());
    let action = TurnAction::TakeDistinctTokensAndDiscard(
        ColorCounts::from_colors(&vec![Color::Red, Color::Green, Color::Blue]),
        ColorCounts::zero(),
    );
    assert_eq!(action.apply_to(&mut player, &mut game), Ok(()));
}

#[test]
fn test_turnaction_take_distinct_repeated_colors() {
    let mut player = Player::new(PlayerStrategy::Random);
    let mut game = Game::new_random_game(&mut RandomStreamForTest::new());

    let action = TurnAction::TakeDistinctTokensAndDiscard(
        ColorCounts::from_colors(&vec![Color::Red, Color::Red, Color::Blue]),
        ColorCounts::zero(),
    );
    assert!(action.apply_to(&mut player, &mut game).is_err());

    let action = TurnAction::TakeDistinctTokensAndDiscard(
        ColorCounts::from_colors(&vec![Color::Red, Color::Blue, Color::Blue]),
        ColorCounts::zero(),
    );
    assert!(action.apply_to(&mut player, &mut game).is_err());

    let action = TurnAction::TakeDistinctTokensAndDiscard(
        ColorCounts::from_colors(&vec![Color::Blue, Color::Blue, Color::Blue]),
        ColorCounts::zero(),
    );
    assert!(action.apply_to(&mut player, &mut game).is_err());
}

#[test]
fn test_turnaction_take_distinct_wild() {
    let mut player = Player::new(PlayerStrategy::Random);
    let mut game = Game::new_random_game(&mut RandomStreamForTest::new());

    let action = TurnAction::TakeDistinctTokensAndDiscard(
        ColorCounts::from_colors(&vec![Color::Yellow, Color::Red, Color::Blue]),
        ColorCounts::zero(),
    );
    assert!(action.apply_to(&mut player, &mut game).is_err());

    let action = TurnAction::TakeDistinctTokensAndDiscard(
        ColorCounts::from_colors(&vec![Color::Yellow, Color::Yellow, Color::Blue]),
        ColorCounts::zero(),
    );
    assert!(action.apply_to(&mut player, &mut game).is_err());

    let action = TurnAction::TakeDistinctTokensAndDiscard(
        ColorCounts::from_colors(&vec![Color::Yellow, Color::Yellow, Color::Yellow]),
        ColorCounts::zero(),
    );
    assert!(action.apply_to(&mut player, &mut game).is_err());
}

/// Test behavior when the player requests more tokens of a particular color
/// than they are allowed.
#[test]
fn test_turnaction_take_distinct_until_insufficient() {
    let mut player = Player::new(PlayerStrategy::Random);
    let mut game = Game::new_random_game(&mut RandomStreamForTest::new());

    // Keep taking until zero red tokens remain.
    while game.bank.get(Color::Red) > 0 {
        assert_eq!(
            TurnAction::TakeDistinctTokensAndDiscard(
                ColorCounts::from_color(Color::Red),
                ColorCounts::zero()
            )
            .apply_to(&mut player, &mut game),
            Ok(())
        );
    }

    assert!(
        TurnAction::TakeDistinctTokensAndDiscard(
            ColorCounts::from_color(Color::Red),
            ColorCounts::zero()
        )
        .apply_to(&mut player, &mut game)
        .is_err()
    );
}

/// When the player requests more than three tokens, applying the action
/// should fail.
#[test]
fn test_turnaction_take_distinct_request_too_many() {
    let mut player = Player::new(PlayerStrategy::Random);
    let mut game = Game::new_random_game(&mut RandomStreamForTest::new());

    let action = TurnAction::TakeDistinctTokensAndDiscard(
        ColorCounts::from_colors(&vec![Color::Red, Color::Green, Color::Blue, Color::White]),
        ColorCounts::zero(),
    );
    assert!(action.apply_to(&mut player, &mut game).is_err());
}
