use mercator::cards::{Card, CardRow};
use mercator::game::{Game, Player, PlayerStrategy, Simulation, TurnAction};
use mercator::rand::RandomStreamForTest;
use mercator::tokens::{Color, ColorCounts, Error};

fn cc(red: usize, green: usize, blue: usize, white: usize, black: usize, yellow: usize) -> ColorCounts {
    ColorCounts { red, green, blue, white, black, yellow }
}

fn empty_game() -> Game {
    Game {
        bank: ColorCounts::zero(),
        noble_row: CardRow::new(),
        card_row1: CardRow::new(),
        card_row2: CardRow::new(),
        card_row3: CardRow::new(),
    }
}

#[test]
fn test_take_three_distinct_end_to_end() {
    // Start a fresh game: the bank holds seven of each regular color and
    // five wild tokens. Taking one red, one green, and one blue moves
    // exactly those tokens to the player.
    let mut player = Player::new(PlayerStrategy::Random);
    let mut game = Game::new_random_game(&mut RandomStreamForTest::new());
    assert_eq!(game.bank, cc(7, 7, 7, 7, 7, 5));

    let action = TurnAction::TakeDistinctTokensAndDiscard(
        ColorCounts::from_colors(&vec![Color::Red, Color::Green, Color::Blue]),
        ColorCounts::zero(),
    );
    assert_eq!(action.apply_to(&mut player, &mut game), Ok(()));
    assert_eq!(game.bank, cc(6, 6, 6, 7, 7, 5));
    assert_eq!(player.tokens, cc(1, 1, 1, 0, 0, 0));
}

#[test]
fn test_reserve_end_to_end() {
    // Reserving a visible card puts exactly that card into the player's
    // hidden hand, grants exactly one wild token, and backfills the slot
    // from the tier's hidden deck.
    let mut player = Player::new(PlayerStrategy::Random);
    let mut game = Game::new_random_game(&mut RandomStreamForTest::new());
    let card = game.card_row1.face_up[0];
    let hidden_before = game.card_row1.hidden.len();
    assert_eq!(game.card_row1.face_up.len(), 4);

    let action = TurnAction::Reserve(card);
    assert_eq!(action.apply_to(&mut player, &mut game), Ok(()));
    assert_eq!(player.hand.hidden, vec![card]);
    assert_eq!(player.hand.face_up.len(), 0);
    assert_eq!(player.tokens, cc(0, 0, 0, 0, 0, 1));
    assert_eq!(game.card_row1.face_up.len(), 4);
    assert_eq!(game.card_row1.hidden.len(), hidden_before - 1);
}

#[test]
fn test_reserve_from_exhausted_deck() {
    // With the tier's hidden deck empty, the vacated slot is removed
    // instead of refilled.
    let card = Card {
        points: 2,
        price: cc(0, 0, 1, 0, 0, 0),
        value: Some(Color::Red),
    };
    let mut game = empty_game();
    game.bank = ColorCounts::bank_start();
    game.card_row1.face_up.push(card);
    let mut player = Player::new(PlayerStrategy::Random);

    let action = TurnAction::Reserve(card);
    assert_eq!(action.apply_to(&mut player, &mut game), Ok(()));
    assert_eq!(player.hand.hidden, vec![card]);
    assert_eq!(player.tokens, cc(0, 0, 0, 0, 0, 1));
    assert_eq!(game.card_row1.face_up.len(), 0);
    assert_eq!(game.card_row1.hidden.len(), 0);
}

#[test]
fn test_take_card_refills_and_compacts() {
    // With a hidden card left, taking a visible card keeps the window width
    // and shortens the deck by one; with the deck exhausted, the window
    // shrinks instead.
    let visible = Card { points: 0, price: cc(1, 0, 0, 0, 0, 0), value: Some(Color::Blue) };
    let buried = Card { points: 3, price: cc(0, 2, 0, 0, 0, 0), value: Some(Color::White) };
    let mut game = empty_game();
    game.card_row2.face_up.push(visible);
    game.card_row2.hidden.push(buried);

    game.take_card(visible);
    assert_eq!(game.card_row2.face_up, vec![buried]);
    assert_eq!(game.card_row2.hidden.len(), 0);

    game.take_card(buried);
    assert_eq!(game.card_row2.face_up.len(), 0);
    assert_eq!(game.card_row2.hidden.len(), 0);
}

#[test]
fn test_purchase_moves_card_to_hand() {
    let mut player = Player::new(PlayerStrategy::Random);
    let mut game = Game::new_random_game(&mut RandomStreamForTest::new());
    let card = game.card_row3.face_up[2];
    let hidden_before = game.card_row3.hidden.len();

    let action = TurnAction::Purchase(card);
    assert_eq!(action.apply_to(&mut player, &mut game), Ok(()));
    assert_eq!(player.hand.face_up, vec![card]);
    assert_eq!(player.hand.hidden.len(), 0);
    assert_eq!(player.tokens, ColorCounts::zero());
    assert_eq!(game.card_row3.face_up.len(), 4);
    assert_eq!(game.card_row3.hidden.len(), hidden_before - 1);
}

#[test]
fn test_take_two_tokens() {
    let mut player = Player::new(PlayerStrategy::Random);
    let mut game = Game::new_random_game(&mut RandomStreamForTest::new());

    let action = TurnAction::TakeTwoTokens(Color::Red);
    assert_eq!(action.apply_to(&mut player, &mut game), Ok(()));
    assert_eq!(player.tokens, cc(2, 0, 0, 0, 0, 0));
    assert_eq!(game.bank, cc(5, 7, 7, 7, 7, 5));
}

#[test]
fn test_take_two_tokens_underflow() {
    let mut player = Player::new(PlayerStrategy::Random);
    let mut game = empty_game();
    game.bank = cc(1, 0, 0, 0, 0, 0);

    let action = TurnAction::TakeTwoTokens(Color::Red);
    assert_eq!(action.apply_to(&mut player, &mut game), Err(Error::Underflow));
    // Nothing was committed.
    assert_eq!(game.bank, cc(1, 0, 0, 0, 0, 0));
    assert_eq!(player.tokens, ColorCounts::zero());
}

#[test]
fn test_take_distinct_errors_by_kind() {
    let mut player = Player::new(PlayerStrategy::Random);
    let mut game = Game::new_random_game(&mut RandomStreamForTest::new());

    // A repeated color is an invalid move shape.
    let repeated = TurnAction::TakeDistinctTokensAndDiscard(
        ColorCounts::from_colors(&vec![Color::Red, Color::Red]),
        ColorCounts::zero(),
    );
    assert_eq!(repeated.apply_to(&mut player, &mut game), Err(Error::InvalidMoveShape));

    // Requesting the wild color directly is an invalid move shape.
    let wild = TurnAction::TakeDistinctTokensAndDiscard(
        ColorCounts::from_color(Color::Yellow),
        ColorCounts::zero(),
    );
    assert_eq!(wild.apply_to(&mut player, &mut game), Err(Error::InvalidMoveShape));

    // Overdrawing the bank is an underflow.
    game.bank = ColorCounts::zero();
    let overdraw = TurnAction::TakeDistinctTokensAndDiscard(
        ColorCounts::from_color(Color::Red),
        ColorCounts::zero(),
    );
    assert_eq!(overdraw.apply_to(&mut player, &mut game), Err(Error::Underflow));
    game.bank = ColorCounts::bank_start();

    // A discard that does not fit the tokens held is an invalid move shape.
    let bad_discard = TurnAction::TakeDistinctTokensAndDiscard(
        ColorCounts::from_color(Color::Red),
        ColorCounts::from_color(Color::Green),
    );
    assert_eq!(bad_discard.apply_to(&mut player, &mut game), Err(Error::InvalidMoveShape));

    // Adding to a lane already at the maximum representable count overflows.
    player.tokens = cc(usize::MAX, 0, 0, 0, 0, 0);
    let overflow = TurnAction::TakeDistinctTokensAndDiscard(
        ColorCounts::from_color(Color::Red),
        ColorCounts::zero(),
    );
    assert_eq!(overflow.apply_to(&mut player, &mut game), Err(Error::Overflow));

    // Ending the turn above ten tokens exceeds the hand cap.
    player.tokens = cc(10, 0, 0, 0, 0, 0);
    let over_cap = TurnAction::TakeDistinctTokensAndDiscard(
        ColorCounts::from_colors(&vec![Color::Green, Color::Blue, Color::White]),
        ColorCounts::zero(),
    );
    assert_eq!(over_cap.apply_to(&mut player, &mut game), Err(Error::HandCapExceeded));
}

#[test]
fn test_take_distinct_discard_back_to_cap() {
    // A take that would exceed the cap succeeds when paired with a discard
    // that brings the player back to ten tokens.
    let mut player = Player::new(PlayerStrategy::Random);
    player.tokens = cc(9, 0, 0, 0, 0, 0);
    let mut game = Game::new_random_game(&mut RandomStreamForTest::new());

    let action = TurnAction::TakeDistinctTokensAndDiscard(
        ColorCounts::from_colors(&vec![Color::Green, Color::Blue, Color::White]),
        cc(2, 0, 0, 0, 0, 0),
    );
    assert_eq!(action.apply_to(&mut player, &mut game), Ok(()));
    assert_eq!(player.tokens, cc(7, 1, 1, 1, 0, 0));
    assert_eq!(game.bank, cc(7, 6, 6, 6, 7, 5));
}

#[test]
fn test_select_action_succeeds_on_fresh_game() {
    // With tokens in the bank and cards visible, the random strategy always
    // finds an action, whatever the stream yields.
    let player = Player::new(PlayerStrategy::Random);
    let game = Game::new_random_game(&mut RandomStreamForTest::new());
    let mut stream = RandomStreamForTest::new();
    assert!(player.select_action(&mut stream, &game).is_ok());
}

#[test]
fn test_no_legal_move_with_only_hidden_cards() {
    // With an empty bank and nothing visible, no action shape can be formed
    // even while hidden cards remain, so the bounded retries end in the
    // no-legal-move error.
    let player = Player::new(PlayerStrategy::Random);
    let mut game = empty_game();
    game.card_row1.hidden.push(Card {
        points: 1,
        price: cc(1, 0, 0, 0, 0, 0),
        value: Some(Color::Red),
    });
    let mut stream = RandomStreamForTest::new();
    assert!(matches!(
        player.select_action(&mut stream, &game),
        Err(Error::NoLegalMove)
    ));
}

#[test]
fn test_no_legal_move() {
    // An empty bank, an empty table, and an empty reserve leave no move.
    let player = Player::new(PlayerStrategy::Random);
    let game = empty_game();
    let mut stream = RandomStreamForTest::new();
    assert!(matches!(
        player.select_action(&mut stream, &game),
        Err(Error::NoLegalMove)
    ));
}

#[test]
fn test_shuffled_row_keeps_cards() {
    // Shuffling a deck into a row only rearranges it: the face-up window
    // and the hidden deck together hold exactly the original cards.
    let mut cards: Vec<Card> = Vec::new();
    for points in 0..5usize {
        cards.push(Card { points, price: cc(1, 0, 0, 0, 0, 0), value: None });
    }
    let mut stream = RandomStreamForTest::new();
    let row = CardRow::new_shuffled(&mut stream, &cards, 2);
    assert_eq!(row.face_up.len(), 2);
    assert_eq!(row.hidden.len(), 3);
    let mut points: Vec<usize> = Vec::new();
    for card in row.face_up.iter().chain(row.hidden.iter()) {
        points.push(card.points);
    }
    points.sort();
    assert_eq!(points, vec![0, 1, 2, 3, 4]);
}

#[test]
fn test_simulation_step() {
    let strategies = vec![PlayerStrategy::Random];
    let mut sim = Simulation::new(&strategies, RandomStreamForTest::new());
    assert_eq!(sim.players.len(), 1);
    assert_eq!(sim.turn_index, 0);

    let result = sim.step();
    assert_eq!(result, Ok(()));
    // With one player the turn index cycles straight back.
    assert_eq!(sim.turn_index, 0);
    // The deterministic stream draws the take-two-tokens action, so the
    // player now holds exactly two tokens of one color.
    assert_eq!(sim.players[0].tokens.len(), 2);
}
