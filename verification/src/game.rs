//! The game state and the turn-action state machine: validating a player's
//! chosen move and applying it atomically to the bank, the table, and the
//! player.

use crate::cards::{get_all_cards, get_all_nobles, Card, CardRow};
use crate::rand::RandomStream;
use crate::tokens::{Color, ColorCounts, Error};
use vstd::prelude::*;

verus! {

/// How many cards of each tier lie face up while the deck lasts.
pub const NUM_CARDS_FACE_UP: usize = 4;

/// The most tokens a player may hold once their turn is over.
pub const HAND_CAP: usize = 10;

/// At most this many tokens can be requested in one distinct-token take.
pub const MAX_TAKE: usize = 3;

/// The full table: the bank of tokens, the noble row, and one card row per
/// tier.
pub struct Game {
    /// Quantities of tokens that are available.
    pub bank: ColorCounts,
    /// The prices of cards in the noble row are interpreted as quantities of
    /// owned cards.
    pub noble_row: CardRow,
    /// The lowest tier of regular cards.
    pub card_row1: CardRow,
    /// The middle tier of regular cards.
    pub card_row2: CardRow,
    /// The highest tier of regular cards.
    pub card_row3: CardRow,
}

impl Game {
    /// The machine-level bounds the table keeps: the bank total is
    /// representable and no face-up window exceeds its fixed width.
    pub open spec fn wf(self) -> bool {
        &&& self.bank.total() <= usize::MAX
        &&& self.card_row1.face_up@.len() <= NUM_CARDS_FACE_UP
        &&& self.card_row2.face_up@.len() <= NUM_CARDS_FACE_UP
        &&& self.card_row3.face_up@.len() <= NUM_CARDS_FACE_UP
    }

    /// How many cards are visible across the three tiers.
    pub open spec fn num_visible(self) -> int {
        self.card_row1.face_up@.len() + self.card_row2.face_up@.len()
            + self.card_row3.face_up@.len() as int
    }

    /// The card lies face up in some tier's row.
    pub open spec fn card_on_table(self, card: Card) -> bool {
        ||| self.card_row1.face_up@.contains(card)
        ||| self.card_row2.face_up@.contains(card)
        ||| self.card_row3.face_up@.contains(card)
    }

    /// How the table changes when `card` is taken: the first row (in tier
    /// order) showing the card loses it as [`CardRow::spec_took`] says, and
    /// everything else is untouched.
    pub open spec fn spec_took_card(pre: Game, post: Game, card: Card) -> bool {
        &&& post.bank == pre.bank
        &&& post.noble_row == pre.noble_row
        &&& (pre.card_row1.face_up@.contains(card) ==> CardRow::spec_took(
            pre.card_row1,
            post.card_row1,
            card,
        ) && post.card_row2 == pre.card_row2 && post.card_row3 == pre.card_row3)
        &&& (!pre.card_row1.face_up@.contains(card) && pre.card_row2.face_up@.contains(card)
            ==> post.card_row1 == pre.card_row1 && CardRow::spec_took(
            pre.card_row2,
            post.card_row2,
            card,
        ) && post.card_row3 == pre.card_row3)
        &&& (!pre.card_row1.face_up@.contains(card) && !pre.card_row2.face_up@.contains(card)
            && pre.card_row3.face_up@.contains(card) ==> post.card_row1 == pre.card_row1
            && post.card_row2 == pre.card_row2 && CardRow::spec_took(
            pre.card_row3,
            post.card_row3,
            card,
        ))
    }

    /// A freshly dealt table: the bank at its starting counts, four cards
    /// face up in every row, and each row holding exactly the catalog's
    /// nobles or tier cards — in some order the shuffle chose.
    pub open spec fn fresh_game(self) -> bool {
        &&& self.bank == ColorCounts::spec_bank_start()
        &&& self.noble_row.face_up@.len() == 4 && self.noble_row.hidden@.len() == 3
        &&& self.card_row1.face_up@.len() == 4 && self.card_row1.hidden@.len() == 2
        &&& self.card_row2.face_up@.len() == 4 && self.card_row2.hidden@.len() == 2
        &&& self.card_row3.face_up@.len() == 4 && self.card_row3.hidden@.len() == 2
        &&& (self.noble_row.face_up@ + self.noble_row.hidden@).to_multiset()
            == crate::cards::spec_all_nobles().to_multiset()
        &&& (self.card_row1.face_up@ + self.card_row1.hidden@).to_multiset()
            == crate::cards::spec_tier1_cards().to_multiset()
        &&& (self.card_row2.face_up@ + self.card_row2.hidden@).to_multiset()
            == crate::cards::spec_tier2_cards().to_multiset()
        &&& (self.card_row3.face_up@ + self.card_row3.hidden@).to_multiset()
            == crate::cards::spec_tier3_cards().to_multiset()
    }

    /// Set up a fresh game: the bank at its starting counts, and the nobles
    /// and each tier shuffled into rows with four cards face up.
    pub fn new_random_game<R: RandomStream>(rand: &mut R) -> (g: Game)
        ensures
            g.wf(),
            g.fresh_game(),
    {
        let nobles = get_all_nobles();
        let mut all = get_all_cards();
        let tier1 = all.remove(0);
        let tier2 = all.remove(0);
        let tier3 = all.remove(0);
        Game {
            bank: ColorCounts::bank_start(),
            noble_row: CardRow::new_shuffled(rand, &nobles, NUM_CARDS_FACE_UP),
            card_row1: CardRow::new_shuffled(rand, &tier1, NUM_CARDS_FACE_UP),
            card_row2: CardRow::new_shuffled(rand, &tier2, NUM_CARDS_FACE_UP),
            card_row3: CardRow::new_shuffled(rand, &tier3, NUM_CARDS_FACE_UP),
        }
    }

    /// Select uniformly at random among all currently visible cards; none
    /// when no card is visible.
    pub fn random_card<R: RandomStream>(&self, rand: &mut R) -> (r: Option<Card>)
        requires
            self.wf(),
        ensures
            (r is Some) <==> self.num_visible() > 0,
            r matches Some(card) ==> self.card_on_table(card),
    {
        let l1 = self.card_row1.face_up.len();
        let l2 = self.card_row2.face_up.len();
        let l3 = self.card_row3.face_up.len();
        let total = l1 + l2 + l3;
        if total == 0 {
            return None;
        }
        let idx = rand.read_usize() % total;
        if idx < l1 {
            Some(self.card_row1.face_up[idx])
        } else if idx < l1 + l2 {
            Some(self.card_row2.face_up[idx - l1])
        } else {
            Some(self.card_row3.face_up[idx - l1 - l2])
        }
    }

    /// Remove `card` from the table. If that tier's hidden deck is
    /// non-empty, the vacated slot is refilled from it; otherwise the slot is
    /// removed. The caller must only pass a card that is actually visible;
    /// passing any other card is a programmer error, not a game-rule error.
    pub fn take_card(&mut self, card: Card)
        requires
            old(self).card_on_table(card),
        ensures
            Game::spec_took_card(*old(self), *final(self), card),
    {
        if take_from_row(&mut self.card_row1, card) {
            return ;
        }
        if take_from_row(&mut self.card_row2, card) {
            return ;
        }
        if take_from_row(&mut self.card_row3, card) {
            return ;
        }
        proof {
            assert(false);
        }
    }
}

/// Take `card` out of this row's face-up window if it is present: refill the
/// slot from the hidden deck when possible, otherwise close the window by
/// one. Reports whether the card was found.
fn take_from_row(row: &mut CardRow, card: Card) -> (found: bool)
    ensures
        found == old(row).face_up@.contains(card),
        found ==> CardRow::spec_took(*old(row), *final(row), card),
        !found ==> *final(row) == *old(row),
{
    let mut i: usize = 0;
    while i < row.face_up.len() && row.face_up[i] != card
        invariant
            i <= row.face_up@.len(),
            forall|j: int| 0 <= j < i ==> row.face_up@[j] != card,
            *row == *old(row),
        decreases row.face_up@.len() - i,
    {
        i = i + 1;
    }
    if i < row.face_up.len() {
        match row.hidden.pop() {
            Some(new_card) => {
                row.face_up.set(i, new_card);
            },
            None => {
                row.face_up.remove(i);
            },
        }
        proof {
            assert(old(row).face_up@[i as int] == card);
            assert(CardRow::spec_took(*old(row), *row, card));
        }
        true
    } else {
        proof {
            assert(!old(row).face_up@.contains(card));
        }
        false
    }
}

/// Which decision logic a player uses to pick their move. Only the
/// uniform-random strategy is specified; the others are named placeholders
/// kept so new logic can be added without touching the resolver.
#[derive(Clone, Copy, Debug)]
pub enum PlayerStrategy {
    /// Choose uniformly among the action kinds, retrying (a bounded number
    /// of times) when the drawn kind is impossible in the current state.
    Random,
    /// Placeholder: purchase the highest-value affordable card.
    GreedyPurchase,
    /// Placeholder: reserve high-value single-color cards.
    SelectiveReservation,
}

/// One player: purchased cards face up in the hand, reserved cards hidden,
/// the tokens held, and the strategy tag.
pub struct Player {
    pub hand: CardRow,
    pub tokens: ColorCounts,
    pub strategy: PlayerStrategy,
}

impl Player {
    /// A fresh player with an empty hand and no tokens.
    pub fn new(strategy: PlayerStrategy) -> (p: Player)
        ensures
            p.hand.face_up@.len() == 0,
            p.hand.hidden@.len() == 0,
            p.tokens == ColorCounts::spec_zero(),
            p.strategy == strategy,
    {
        Player { hand: CardRow::new(), tokens: ColorCounts::zero(), strategy }
    }
}

/// A move a player can make on their turn; the variants are mutually
/// exclusive per turn.
#[derive(Clone, Copy, Debug)]
pub enum TurnAction {
    /// Take up to three tokens of distinct regular colors from the bank,
    /// then discard down if the result would exceed the hand cap. Players
    /// may temporarily exceed the cap so long as the discard brings them
    /// back to it within the same action.
    TakeDistinctTokensAndDiscard(ColorCounts, ColorCounts),
    /// Take two tokens of the same color.
    TakeTwoTokens(Color),
    /// Set a visible card aside face down and gain one wild token.
    Reserve(Card),
    /// Acquire a visible card into the permanent hand.
    Purchase(Card),
}

/// The outcome of taking distinct tokens and discarding, on the given bank
/// and player tokens: either the new `(bank, tokens)` pair or the exact
/// error, with the checks made in this order.
pub open spec fn take_distinct_outcome(
    bank: ColorCounts,
    tokens: ColorCounts,
    take: ColorCounts,
    discard: ColorCounts,
) -> Result<(ColorCounts, ColorCounts), Error> {
    if ColorCounts::has_repeat(take) {
        Err(Error::InvalidMoveShape)
    } else if take.spec_get(Color::Yellow) > 0 {
        Err(Error::InvalidMoveShape)
    } else if take.total() > MAX_TAKE {
        Err(Error::InvalidMoveShape)
    } else if !ColorCounts::le(take, bank) {
        Err(Error::Underflow)
    } else if !ColorCounts::sum_fits(tokens, take) {
        Err(Error::Overflow)
    } else if !ColorCounts::le(discard, ColorCounts::spec_plus(tokens, take)) {
        Err(Error::InvalidMoveShape)
    } else if ColorCounts::spec_minus(ColorCounts::spec_plus(tokens, take), discard).total()
        > HAND_CAP {
        Err(Error::HandCapExceeded)
    } else {
        Ok(
            (
                ColorCounts::spec_minus(bank, take),
                ColorCounts::spec_minus(ColorCounts::spec_plus(tokens, take), discard),
            ),
        )
    }
}

/// The outcome of taking two tokens of one color on the given bank and
/// player tokens: either the new `(bank, tokens)` pair or the exact error.
pub open spec fn take_two_outcome(bank: ColorCounts, tokens: ColorCounts, color: Color) -> Result<
    (ColorCounts, ColorCounts),
    Error,
> {
    let two = ColorCounts::two(color);
    if !ColorCounts::le(two, bank) {
        Err(Error::Underflow)
    } else if !ColorCounts::sum_fits(tokens, two) {
        Err(Error::Overflow)
    } else if ColorCounts::spec_plus(tokens, two).total() > HAND_CAP {
        Err(Error::HandCapExceeded)
    } else {
        Ok((ColorCounts::spec_minus(bank, two), ColorCounts::spec_plus(tokens, two)))
    }
}

/// A distinct-token take that repeats any color, or that asks for the wild
/// color at all, is rejected as an invalid move shape, whatever the bank and
/// the player hold.
pub proof fn lemma_take_rejects_repeats_and_wild(
    bank: ColorCounts,
    tokens: ColorCounts,
    take: ColorCounts,
    discard: ColorCounts,
)
    requires
        ColorCounts::has_repeat(take) || take.spec_get(Color::Yellow) > 0,
    ensures
        take_distinct_outcome(bank, tokens, take, discard) == Err::<
            (ColorCounts, ColorCounts),
            Error,
        >(Error::InvalidMoveShape),
{
}

/// A distinct-token take of more than three tokens in total is rejected as
/// an invalid move shape, whatever the bank and the player hold.
pub proof fn lemma_take_rejects_too_many(
    bank: ColorCounts,
    tokens: ColorCounts,
    take: ColorCounts,
    discard: ColorCounts,
)
    requires
        take.total() > MAX_TAKE,
    ensures
        take_distinct_outcome(bank, tokens, take, discard) == Err::<
            (ColorCounts, ColorCounts),
            Error,
        >(Error::InvalidMoveShape),
{
}

/// Taking a single regular token with no discard succeeds exactly while the
/// bank still holds that color (provided the player can absorb one more
/// token), moving one token from the bank lane to the player lane; once the
/// lane is empty, the same request fails with underflow.
pub proof fn lemma_take_single_drains_lane(bank: ColorCounts, tokens: ColorCounts, color: Color)
    requires
        color != Color::Yellow,
    ensures
        bank.spec_get(color) == 0 ==> take_distinct_outcome(
            bank,
            tokens,
            ColorCounts::one(color),
            ColorCounts::spec_zero(),
        ) == Err::<(ColorCounts, ColorCounts), Error>(Error::Underflow),
        bank.spec_get(color) > 0 && tokens.spec_get(color) < usize::MAX && tokens.total() + 1
            <= HAND_CAP ==> take_distinct_outcome(
            bank,
            tokens,
            ColorCounts::one(color),
            ColorCounts::spec_zero(),
        ) == Ok::<(ColorCounts, ColorCounts), Error>(
            (
                ColorCounts::spec_minus(bank, ColorCounts::one(color)),
                ColorCounts::spec_plus(tokens, ColorCounts::one(color)),
            ),
        ),
{
}

/// The action moves something and can be resolved against this player and
/// game without reaching a programmer-error state: any card it names is on
/// the table, a two-token take names a color the bank holds, and a
/// distinct-token take asks for at least one token, is bank-feasible, at
/// most three tokens, with a discard that fits the tokens held plus the
/// take and lands at or below the hand cap. (A distinct take may still be
/// rejected for its shape: a repeat or the wild color.)
pub open spec fn action_well_formed(a: TurnAction, player: Player, game: Game) -> bool {
    match a {
        TurnAction::TakeDistinctTokensAndDiscard(take, discard) => {
            &&& ColorCounts::le(take, game.bank)
            &&& 1 <= take.total() <= MAX_TAKE
            &&& ColorCounts::sum_fits(player.tokens, take)
            &&& ColorCounts::le(discard, ColorCounts::spec_plus(player.tokens, take))
            &&& ColorCounts::spec_minus(
                ColorCounts::spec_plus(player.tokens, take),
                discard,
            ).total() <= HAND_CAP
        },
        TurnAction::TakeTwoTokens(color) => game.bank.spec_get(color) >= 1,
        TurnAction::Reserve(card) => game.card_on_table(card),
        TurnAction::Purchase(card) => game.card_on_table(card),
    }
}

/// How one resolved action carries a player and the game from the `pre`
/// states to the `post` states, with result `r`: exactly the outcome the
/// spec outcome functions give for the token actions, the take-and-push
/// moves for the card actions, and no mutation at all on any error.
pub open spec fn action_applied(
    a: TurnAction,
    pre_p: Player,
    post_p: Player,
    pre_g: Game,
    post_g: Game,
    r: Result<(), Error>,
) -> bool {
    &&& post_p.strategy == pre_p.strategy
    &&& (r is Err ==> post_g == pre_g && post_p == pre_p)
    &&& match a {
        TurnAction::TakeDistinctTokensAndDiscard(take, discard) => {
            &&& post_p.hand == pre_p.hand
            &&& post_g.noble_row == pre_g.noble_row
            &&& post_g.card_row1 == pre_g.card_row1
            &&& post_g.card_row2 == pre_g.card_row2
            &&& post_g.card_row3 == pre_g.card_row3
            &&& match take_distinct_outcome(pre_g.bank, pre_p.tokens, take, discard) {
                Ok(pair) => r == Ok::<(), Error>(()) && post_g.bank == pair.0 && post_p.tokens
                    == pair.1,
                Err(e) => r == Err::<(), Error>(e),
            }
        },
        TurnAction::TakeTwoTokens(color) => {
            &&& post_p.hand == pre_p.hand
            &&& post_g.noble_row == pre_g.noble_row
            &&& post_g.card_row1 == pre_g.card_row1
            &&& post_g.card_row2 == pre_g.card_row2
            &&& post_g.card_row3 == pre_g.card_row3
            &&& match take_two_outcome(pre_g.bank, pre_p.tokens, color) {
                Ok(pair) => r == Ok::<(), Error>(()) && post_g.bank == pair.0 && post_p.tokens
                    == pair.1,
                Err(e) => r == Err::<(), Error>(e),
            }
        },
        TurnAction::Reserve(card) => {
            &&& r == Ok::<(), Error>(())
            &&& Game::spec_took_card(pre_g, post_g, card)
            &&& post_p.hand.face_up == pre_p.hand.face_up
            &&& post_p.hand.hidden@ == pre_p.hand.hidden@.push(card)
            &&& post_p.tokens == ColorCounts::spec_plus(
                pre_p.tokens,
                ColorCounts::one(Color::Yellow),
            )
        },
        TurnAction::Purchase(card) => {
            &&& r == Ok::<(), Error>(())
            &&& Game::spec_took_card(pre_g, post_g, card)
            &&& post_p.hand.face_up@ == pre_p.hand.face_up@.push(card)
            &&& post_p.hand.hidden == pre_p.hand.hidden
            &&& post_p.tokens == pre_p.tokens
        },
    }
}

impl TurnAction {
    /// Validate this action and, only if every check passes, commit its
    /// changes to the player and the game; on any error nothing is mutated.
    pub fn apply_to(self, player: &mut Player, game: &mut Game) -> (r: Result<(), Error>)
        requires
            old(player).tokens.total() + 3 <= usize::MAX,
            old(game).wf(),
            self matches TurnAction::Reserve(card) ==> old(game).card_on_table(card),
            self matches TurnAction::Purchase(card) ==> old(game).card_on_table(card),
        ensures
            final(game).wf(),
            action_applied(self, *old(player), *final(player), *old(game), *final(game), r),
    {
        match self {
            TurnAction::TakeDistinctTokensAndDiscard(take, discard) => {
                if take.red > 1 || take.green > 1 || take.blue > 1 || take.white > 1
                    || take.black > 1 || take.yellow > 1 {
                    return Err(Error::InvalidMoveShape);
                }
                if take.yellow > 0 {
                    return Err(Error::InvalidMoveShape);
                }
                if take.len() > MAX_TAKE {
                    return Err(Error::InvalidMoveShape);
                }
                let new_bank = match game.bank.minus(&take) {
                    Ok(b) => b,
                    Err(e) => return Err(e),
                };
                let mid = match player.tokens.plus(&take) {
                    Ok(t) => t,
                    Err(e) => return Err(e),
                };
                let new_tokens = match mid.minus(&discard) {
                    Ok(t) => t,
                    Err(_) => return Err(Error::InvalidMoveShape),
                };
                if new_tokens.len() > HAND_CAP {
                    return Err(Error::HandCapExceeded);
                }
                game.bank = new_bank;
                player.tokens = new_tokens;
                Ok(())
            },
            TurnAction::TakeTwoTokens(color) => {
                let one = ColorCounts::from_color(color);
                let two = match one.plus(&one) {
                    Ok(v) => v,
                    Err(_) => vstd::pervasive::unreached(),
                };
                let new_bank = match game.bank.minus(&two) {
                    Ok(b) => b,
                    Err(e) => return Err(e),
                };
                let new_tokens = match player.tokens.plus(&two) {
                    Ok(t) => t,
                    Err(e) => return Err(e),
                };
                if new_tokens.len() > HAND_CAP {
                    return Err(Error::HandCapExceeded);
                }
                game.bank = new_bank;
                player.tokens = new_tokens;
                Ok(())
            },
            TurnAction::Reserve(card) => {
                game.take_card(card);
                player.hand.hidden.push(card);
                let one_yellow = ColorCounts::from_color(Color::Yellow);
                player.tokens = match player.tokens.plus(&one_yellow) {
                    Ok(t) => t,
                    Err(_) => vstd::pervasive::unreached(),
                };
                Ok(())
            },
            TurnAction::Purchase(card) => {
                game.take_card(card);
                player.hand.face_up.push(card);
                Ok(())
            },
        }
    }
}

/// How many times the random strategy re-draws an action kind before giving
/// up and reporting that no legal move was found.
pub const MAX_ACTION_ATTEMPTS: usize = 16;

/// Draw tokens to give back at random until the given holding is down to
/// the hand cap; returns the discarded bundle, which fits within the holding
/// and brings it to at most the cap.
fn draw_discard<R: RandomStream>(rand: &mut R, held: ColorCounts) -> (discard: ColorCounts)
    requires
        held.total() <= usize::MAX,
    ensures
        ColorCounts::le(discard, held),
        ColorCounts::spec_minus(held, discard).total() <= HAND_CAP,
{
    if held.len() <= HAND_CAP {
        proof {
            assert(ColorCounts::spec_minus(held, ColorCounts::spec_zero()) == held);
        }
        return ColorCounts::zero();
    }
    let mut discard = ColorCounts::zero();
    let mut cur = held;
    proof {
        assert(ColorCounts::spec_plus(ColorCounts::spec_zero(), cur) == cur);
    }
    while cur.len() > HAND_CAP
        invariant
            ColorCounts::sum_fits(discard, cur),
            ColorCounts::spec_plus(discard, cur) == held,
            cur.total() <= held.total(),
            held.total() <= usize::MAX,
        decreases cur.total(),
    {
        let (rest, picked) = cur.random_choice(rand);
        cur = rest;
        let color = match picked {
            Some(c) => c,
            None => vstd::pervasive::unreached(),
        };
        discard = match discard.plus(&ColorCounts::from_color(color)) {
            Ok(d) => d,
            Err(_) => vstd::pervasive::unreached(),
        };
        proof {
            assert(ColorCounts::spec_plus(discard, cur) == held);
        }
    }
    proof {
        assert(ColorCounts::spec_minus(held, discard) == cur);
    }
    discard
}

impl Player {
    /// Draw a take-up-to-three-distinct-tokens action at random: remove up
    /// to three random tokens from a copy of the bank to form the take, and
    /// draw random discards until the player would be back at the hand cap.
    #[verifier::rlimit(100)]
    fn draw_take_distinct<R: RandomStream>(&self, rand: &mut R, game: &Game) -> (r: TurnAction)
        requires
            game.wf(),
            self.tokens.total() + 3 <= usize::MAX,
            game.bank.total() > 0,
        ensures
            r is TakeDistinctTokensAndDiscard,
            action_well_formed(r, *self, *game),
    {
        let (b1, _color1) = game.bank.random_choice(rand);
        let (b2, _color2) = b1.random_choice(rand);
        let (b3, _color3) = b2.random_choice(rand);
        proof {
            assert(ColorCounts::le(b3, game.bank));
            assert(b3.total() >= game.bank.total() - 3);
        }
        let take = match game.bank.minus(&b3) {
            Ok(t) => t,
            Err(_) => vstd::pervasive::unreached(),
        };
        proof {
            assert(b3.total() <= game.bank.total() - 1);
            assert(take.total() == game.bank.total() - b3.total());
            assert(1 <= take.total() <= MAX_TAKE);
            assert(ColorCounts::sum_fits(self.tokens, take));
        }
        let new_player_tokens = match self.tokens.plus(&take) {
            Ok(t) => t,
            Err(_) => vstd::pervasive::unreached(),
        };
        let discard = draw_discard(rand, new_player_tokens);
        TurnAction::TakeDistinctTokensAndDiscard(take, discard)
    }

    /// Ask this player's strategy for an action given read-only game state.
    /// Only the random strategy is specified; the placeholder strategies
    /// must not be asked for moves. With tokens in the bank and a card
    /// visible, every draw yields an action, so the call succeeds whatever
    /// the stream holds; with neither a bank token nor a visible card no
    /// action shape can be formed and the call reports no legal move.
    pub fn select_action<R: RandomStream>(&self, rand: &mut R, game: &Game) -> (r: Result<
        TurnAction,
        Error,
    >)
        requires
            self.strategy is Random,
            game.wf(),
            self.tokens.total() + 3 <= usize::MAX,
        ensures
            game.bank.total() == 0 && game.num_visible() == 0 ==> r == Err::<TurnAction, Error>(
                Error::NoLegalMove,
            ),
            game.bank.total() > 0 && game.num_visible() > 0 ==> r is Ok,
            r matches Ok(a) ==> action_well_formed(a, *self, *game),
    {
        let no_coins_remain = game.bank.len() == 0;
        let no_cards_remain = game.card_row1.is_empty() && game.card_row2.is_empty()
            && game.card_row3.is_empty();
        let no_reserved_cards = self.hand.hidden.len() == 0;
        if no_coins_remain && no_cards_remain && no_reserved_cards {
            return Err(Error::NoLegalMove);
        }
        match self.strategy {
            PlayerStrategy::Random => {
                let mut attempts: usize = 0;
                while attempts < MAX_ACTION_ATTEMPTS
                    invariant
                        game.wf(),
                        self.tokens.total() + 3 <= usize::MAX,
                        attempts > 0 ==> game.bank.total() == 0 || game.num_visible() == 0,
                    decreases MAX_ACTION_ATTEMPTS - attempts,
                {
                    let kind = rand.read_u8() % 4;
                    if kind == 0 {
                        if game.bank.len() > 0 {
                            return Ok(self.draw_take_distinct(rand, game));
                        }
                    } else if kind == 1 {
                        let (_rest, picked) = game.bank.random_choice(rand);
                        match picked {
                            Some(color) => return Ok(TurnAction::TakeTwoTokens(color)),
                            None => {},
                        }
                    } else if kind == 2 {
                        match game.random_card(rand) {
                            Some(card) => return Ok(TurnAction::Reserve(card)),
                            None => {},
                        }
                    } else {
                        match game.random_card(rand) {
                            Some(card) => return Ok(TurnAction::Purchase(card)),
                            None => {},
                        }
                    }
                    attempts = attempts + 1;
                }
                Err(Error::NoLegalMove)
            },
            PlayerStrategy::GreedyPurchase => vstd::pervasive::unreached(),
            PlayerStrategy::SelectiveReservation => vstd::pervasive::unreached(),
        }
    }
}

/// Drives turn order: the game state, the players, whose turn it is, and the
/// random stream every decision draws from. The winner index is reserved for
/// a win-detection layer and is never set here.
pub struct Simulation<R: RandomStream> {
    pub game: Game,
    pub players: Vec<Player>,
    pub turn_index: usize,
    pub winner_index: Option<usize>,
    pub rand: R,
}

impl<R: RandomStream> Simulation<R> {
    /// There is at least one player, the turn index points at one of them,
    /// and the game keeps its machine-level bounds.
    pub open spec fn wf(self) -> bool {
        &&& self.game.wf()
        &&& self.players@.len() > 0
        &&& self.turn_index < self.players@.len()
    }

    /// Build a simulation with one fresh player per strategy and a freshly
    /// shuffled game. The caller supplies the random stream.
    pub fn new(strategies: &Vec<PlayerStrategy>, rand: R) -> (sim: Simulation<R>)
        ensures
            strategies@.len() > 0 ==> sim.wf(),
            sim.players@.len() == strategies@.len(),
            forall|i: int|
                0 <= i < strategies@.len() ==> {
                    let p = #[trigger] sim.players@[i];
                    p.strategy == strategies@[i] && p.tokens == ColorCounts::spec_zero()
                        && p.hand.face_up@.len() == 0 && p.hand.hidden@.len() == 0
                },
            sim.turn_index == 0,
            sim.winner_index is None,
            sim.game.fresh_game(),
            sim.game.wf(),
    {
        let mut rand = rand;
        let game = Game::new_random_game(&mut rand);
        let mut players: Vec<Player> = Vec::new();
        let mut i: usize = 0;
        while i < strategies.len()
            invariant
                i <= strategies@.len(),
                players@.len() == i,
                forall|k: int|
                    0 <= k < i ==> {
                        let p = #[trigger] players@[k];
                        p.strategy == strategies@[k] && p.tokens == ColorCounts::spec_zero()
                            && p.hand.face_up@.len() == 0 && p.hand.hidden@.len() == 0
                    },
            decreases strategies@.len() - i,
        {
            players.push(Player::new(strategies[i]));
            i = i + 1;
        }
        Simulation { game, players, turn_index: 0, winner_index: None, rand }
    }

    /// Simulate the next player's turn: ask their strategy for an action,
    /// apply it, and advance the turn index cyclically. On success the
    /// acting player and the game have moved by exactly one resolved action
    /// that the strategy could propose against the old state. The first
    /// validation or resource error is returned and leaves the game and
    /// every player's state as it was; only the turn index has advanced.
    pub fn step(&mut self) -> (r: Result<(), Error>)
        requires
            old(self).wf(),
            old(self).players@[old(self).turn_index as int].strategy is Random,
            old(self).players@[old(self).turn_index as int].tokens.total() + 3 <= usize::MAX,
        ensures
            final(self).wf(),
            final(self).players@.len() == old(self).players@.len(),
            final(self).turn_index as int == (old(self).turn_index + 1) % (
            old(self).players@.len() as int),
            final(self).winner_index == old(self).winner_index,
            forall|i: int|
                0 <= i < old(self).players@.len() && i != old(self).turn_index
                    ==> final(self).players@[i] == old(self).players@[i],
            r is Ok ==> exists|a: TurnAction|
                action_well_formed(
                    a,
                    old(self).players@[old(self).turn_index as int],
                    old(self).game,
                ) && #[trigger] action_applied(
                    a,
                    old(self).players@[old(self).turn_index as int],
                    final(self).players@[old(self).turn_index as int],
                    old(self).game,
                    final(self).game,
                    Ok::<(), Error>(()),
                ),
            old(self).game.bank.total() == 0 && old(self).game.num_visible() == 0 ==> r == Err::<
                (),
                Error,
            >(Error::NoLegalMove),
            r is Err ==> final(self).game == old(self).game && final(self).players@ == old(
                self,
            ).players@,
    {
        let num_players = self.players.len();
        let idx = self.turn_index;
        let ghost prev_players = self.players@;
        let mut player = self.players.remove(idx);
        let ghost player_before = player;
        let ghost game_before = self.game;
        let ghost mut chosen: Option<TurnAction> = None;
        let result = match player.select_action(&mut self.rand, &self.game) {
            Ok(action) => {
                proof {
                    chosen = Some(action);
                }
                action.apply_to(&mut player, &mut self.game)
            },
            Err(e) => Err(e),
        };
        let ghost player_after = player;
        self.players.insert(idx, player);
        self.turn_index = (idx + 1) % num_players;
        proof {
            if result is Err {
                assert(self.players@ =~= prev_players);
            }
            assert forall|i: int|
                0 <= i < prev_players.len() && i != idx implies self.players@[i]
                == prev_players[i] by {}
            if result is Ok {
                let a = chosen->Some_0;
                assert(self.players@[idx as int] == player_after);
                assert(action_well_formed(a, player_before, game_before));
                assert(action_applied(
                    a,
                    player_before,
                    player_after,
                    game_before,
                    self.game,
                    Ok::<(), Error>(()),
                ));
            }
        }
        result
    }
}

} // verus!
