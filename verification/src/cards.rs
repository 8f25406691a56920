//! Cards, the face-up/hidden split of a shuffled deck, and the static card
//! catalog.

use crate::rand::{shuffle, RandomStream};
use crate::tokens::{Color, ColorCounts};
use vstd::prelude::*;

verus! {

/// An immutable card: a points value, a purchase price in tokens, and the
/// purchasing power (a single color, if any) the card grants while held.
/// Cards are compared by structural equality of all fields.
#[derive(Clone, Copy, Debug)]
pub struct Card {
    pub points: usize,
    /// The purchase price of this card.
    pub price: ColorCounts,
    /// The purchasing power this card gives when held.
    pub value: Option<Color>,
}

impl PartialEq for Card {
    fn eq(&self, other: &Card) -> (r: bool) {
        self.points == other.points && self.price == other.price && (match (
            self.value,
            other.value,
        ) {
            (None, None) => true,
            (Some(a), Some(b)) => a == b,
            _ => false,
        })
    }
}

impl vstd::std_specs::cmp::PartialEqSpecImpl for Card {
    open spec fn obeys_eq_spec() -> bool {
        true
    }

    open spec fn eq_spec(&self, other: &Card) -> bool {
        *self == *other
    }
}

/// One tier's deck, split into a face-up window and the hidden remainder.
/// The row does not replenish itself; the table owner refills the window
/// from the hidden deck when a face-up card is taken.
#[derive(Clone, Debug)]
pub struct CardRow {
    pub face_up: Vec<Card>,
    pub hidden: Vec<Card>,
}

impl CardRow {
    /// How one row changes when `card` leaves its face-up window: the slot is
    /// refilled from the back of the hidden deck when that deck is non-empty,
    /// and removed (closing the window by one) otherwise.
    pub open spec fn spec_took(pre: CardRow, post: CardRow, card: Card) -> bool {
        exists|i: int|
            {
                &&& 0 <= i < pre.face_up@.len()
                &&& #[trigger] pre.face_up@[i] == card
                &&& if pre.hidden@.len() > 0 {
                    post.face_up@ == pre.face_up@.update(i, pre.hidden@.last())
                        && post.hidden@ == pre.hidden@.drop_last()
                } else {
                    post.face_up@ == pre.face_up@.remove(i) && post.hidden@ == pre.hidden@
                }
            }
    }

    /// An empty row.
    pub fn new() -> (r: CardRow)
        ensures
            r.face_up@.len() == 0,
            r.hidden@.len() == 0,
    {
        CardRow { face_up: Vec::new(), hidden: Vec::new() }
    }

    /// Randomly permute `cards`, turn the first `num_face_up` of them face
    /// up, and keep the rest as the hidden deck. Whatever the random stream
    /// yields, the row holds exactly the given cards.
    pub fn new_shuffled<R: RandomStream>(
        rand: &mut R,
        cards: &Vec<Card>,
        num_face_up: usize,
    ) -> (r: CardRow)
        requires
            num_face_up <= cards@.len(),
        ensures
            r.face_up@.len() == num_face_up,
            r.hidden@.len() == cards@.len() - num_face_up,
            (r.face_up@ + r.hidden@).to_multiset() == cards@.to_multiset(),
    {
        let mut deck: Vec<Card> = Vec::new();
        let mut i: usize = 0;
        while i < cards.len()
            invariant
                i <= cards@.len(),
                deck@ == cards@.take(i as int),
            decreases cards@.len() - i,
        {
            deck.push(cards[i]);
            proof {
                assert(cards@.take(i + 1int) =~= cards@.take(i as int).push(cards@[i as int]));
            }
            i = i + 1;
        }
        proof {
            assert(cards@.take(cards@.len() as int) =~= cards@);
        }
        shuffle(rand, &mut deck);
        let mut face_up: Vec<Card> = Vec::new();
        let mut j: usize = 0;
        while j < num_face_up
            invariant
                j <= num_face_up,
                num_face_up <= deck@.len(),
                face_up@ == deck@.take(j as int),
            decreases num_face_up - j,
        {
            face_up.push(deck[j]);
            proof {
                assert(deck@.take(j + 1int) =~= deck@.take(j as int).push(deck@[j as int]));
            }
            j = j + 1;
        }
        let mut hidden: Vec<Card> = Vec::new();
        let mut k: usize = num_face_up;
        while k < deck.len()
            invariant
                num_face_up <= k <= deck@.len(),
                hidden@ == deck@.subrange(num_face_up as int, k as int),
            decreases deck@.len() - k,
        {
            hidden.push(deck[k]);
            proof {
                assert(deck@.subrange(num_face_up as int, k + 1int) =~= deck@.subrange(
                    num_face_up as int,
                    k as int,
                ).push(deck@[k as int]));
            }
            k = k + 1;
        }
        proof {
            assert(face_up@ + hidden@ =~= deck@);
        }
        CardRow { face_up, hidden }
    }

    /// True exactly when both the face-up window and the hidden deck are
    /// empty.
    pub fn is_empty(&self) -> (r: bool)
        ensures
            r == (self.face_up@.len() == 0 && self.hidden@.len() == 0),
    {
        self.face_up.len() == 0 && self.hidden.len() == 0
    }
}

/// Taking a card from a row whose hidden deck is non-empty leaves the
/// face-up window the same width and shortens the hidden deck by one; with
/// the hidden deck empty, the window shrinks by one and the deck stays
/// empty.
pub proof fn lemma_took_row_sizes(pre: CardRow, post: CardRow, card: Card)
    requires
        CardRow::spec_took(pre, post, card),
    ensures
        pre.hidden@.len() > 0 ==> post.face_up@.len() == pre.face_up@.len() && post.hidden@.len()
            == pre.hidden@.len() - 1,
        pre.hidden@.len() == 0 ==> post.face_up@.len() == pre.face_up@.len() - 1
            && post.hidden@.len() == 0,
{
}

/// The fixed list of noble cards, the same on every call.
pub open spec fn spec_all_nobles() -> Seq<Card> {
    seq![
        Card {
            points: 4,
            price: ColorCounts { red: 4, green: 0, blue: 0, white: 0, black: 3, yellow: 0 },
            value: None,
        },
        Card {
            points: 5,
            price: ColorCounts { red: 7, green: 0, blue: 0, white: 0, black: 0, yellow: 0 },
            value: None,
        },
        Card {
            points: 4,
            price: ColorCounts { red: 5, green: 0, blue: 3, white: 3, black: 0, yellow: 0 },
            value: None,
        },
        Card {
            points: 5,
            price: ColorCounts { red: 0, green: 4, blue: 4, white: 0, black: 0, yellow: 0 },
            value: None,
        },
        Card {
            points: 5,
            price: ColorCounts { red: 3, green: 3, blue: 3, white: 0, black: 0, yellow: 0 },
            value: None,
        },
        Card {
            points: 5,
            price: ColorCounts { red: 5, green: 0, blue: 5, white: 0, black: 0, yellow: 0 },
            value: None,
        },
        Card {
            points: 5,
            price: ColorCounts { red: 5, green: 0, blue: 0, white: 0, black: 5, yellow: 0 },
            value: None,
        },
    ]
}

/// The fixed lowest tier of regular cards, the same on every call.
pub open spec fn spec_tier1_cards() -> Seq<Card> {
    seq![
        Card {
            points: 0,
            price: ColorCounts { red: 0, green: 0, blue: 0, white: 1, black: 1, yellow: 0 },
            value: Some(Color::Black),
        },
        Card {
            points: 1,
            price: ColorCounts { red: 2, green: 2, blue: 0, white: 0, black: 0, yellow: 0 },
            value: Some(Color::Blue),
        },
        Card {
            points: 0,
            price: ColorCounts { red: 2, green: 1, blue: 0, white: 1, black: 1, yellow: 0 },
            value: Some(Color::White),
        },
        Card {
            points: 0,
            price: ColorCounts { red: 0, green: 0, blue: 1, white: 2, black: 0, yellow: 0 },
            value: Some(Color::Green),
        },
        Card {
            points: 0,
            price: ColorCounts { red: 0, green: 0, blue: 1, white: 0, black: 1, yellow: 0 },
            value: Some(Color::Black),
        },
        Card {
            points: 0,
            price: ColorCounts { red: 0, green: 1, blue: 0, white: 0, black: 1, yellow: 0 },
            value: Some(Color::Black),
        },
    ]
}

/// The fixed middle tier of regular cards, the same on every call.
pub open spec fn spec_tier2_cards() -> Seq<Card> {
    seq![
        Card {
            points: 1,
            price: ColorCounts { red: 0, green: 0, blue: 0, white: 2, black: 2, yellow: 0 },
            value: Some(Color::Black),
        },
        Card {
            points: 2,
            price: ColorCounts { red: 3, green: 3, blue: 0, white: 0, black: 0, yellow: 0 },
            value: Some(Color::Blue),
        },
        Card {
            points: 1,
            price: ColorCounts { red: 3, green: 2, blue: 0, white: 2, black: 2, yellow: 0 },
            value: Some(Color::White),
        },
        Card {
            points: 3,
            price: ColorCounts { red: 0, green: 0, blue: 2, white: 3, black: 0, yellow: 0 },
            value: Some(Color::Green),
        },
        Card {
            points: 2,
            price: ColorCounts { red: 0, green: 0, blue: 2, white: 0, black: 2, yellow: 0 },
            value: Some(Color::Green),
        },
        Card {
            points: 1,
            price: ColorCounts { red: 0, green: 4, blue: 0, white: 0, black: 0, yellow: 0 },
            value: Some(Color::Black),
        },
    ]
}

/// The fixed highest tier of regular cards, the same on every call.
pub open spec fn spec_tier3_cards() -> Seq<Card> {
    seq![
        Card {
            points: 5,
            price: ColorCounts { red: 0, green: 4, blue: 0, white: 0, black: 4, yellow: 0 },
            value: Some(Color::Black),
        },
        Card {
            points: 6,
            price: ColorCounts { red: 7, green: 0, blue: 0, white: 0, black: 0, yellow: 0 },
            value: Some(Color::Blue),
        },
        Card {
            points: 5,
            price: ColorCounts { red: 5, green: 5, blue: 0, white: 2, black: 0, yellow: 0 },
            value: Some(Color::White),
        },
        Card {
            points: 7,
            price: ColorCounts { red: 0, green: 0, blue: 7, white: 0, black: 0, yellow: 0 },
            value: Some(Color::Green),
        },
        Card {
            points: 5,
            price: ColorCounts { red: 0, green: 0, blue: 0, white: 5, black: 1, yellow: 0 },
            value: Some(Color::Green),
        },
        Card {
            points: 6,
            price: ColorCounts { red: 0, green: 7, blue: 0, white: 0, black: 0, yellow: 0 },
            value: Some(Color::Black),
        },
    ]
}

/// All noble cards. Nobles grant no ongoing purchasing power, and their
/// prices are read as quantities of owned cards rather than tokens. The data
/// here is placeholder material; the contract pins the exact list.
pub fn get_all_nobles() -> (r: Vec<Card>)
    ensures
        r@ == spec_all_nobles(),
        r@.len() == 7,
        forall|i: int| 0 <= i < r@.len() ==> (#[trigger] r@[i]).value is None,
{
    let mut v: Vec<Card> = Vec::new();
    v.push(
        Card {
            points: 4,
            price: ColorCounts { red: 4, green: 0, blue: 0, white: 0, black: 3, yellow: 0 },
            value: None,
        },
    );
    v.push(
        Card {
            points: 5,
            price: ColorCounts { red: 7, green: 0, blue: 0, white: 0, black: 0, yellow: 0 },
            value: None,
        },
    );
    v.push(
        Card {
            points: 4,
            price: ColorCounts { red: 5, green: 0, blue: 3, white: 3, black: 0, yellow: 0 },
            value: None,
        },
    );
    v.push(
        Card {
            points: 5,
            price: ColorCounts { red: 0, green: 4, blue: 4, white: 0, black: 0, yellow: 0 },
            value: None,
        },
    );
    v.push(
        Card {
            points: 5,
            price: ColorCounts { red: 3, green: 3, blue: 3, white: 0, black: 0, yellow: 0 },
            value: None,
        },
    );
    v.push(
        Card {
            points: 5,
            price: ColorCounts { red: 5, green: 0, blue: 5, white: 0, black: 0, yellow: 0 },
            value: None,
        },
    );
    v.push(
        Card {
            points: 5,
            price: ColorCounts { red: 5, green: 0, blue: 0, white: 0, black: 5, yellow: 0 },
            value: None,
        },
    );
    proof {
        assert(v@ =~= spec_all_nobles());
    }
    v
}

/// All regular cards, grouped by tier: three tiers of six cards each,
/// pinned to the fixed per-tier lists.
pub fn get_all_cards() -> (r: Vec<Vec<Card>>)
    ensures
        r@.len() == 3,
        r@[0]@ == spec_tier1_cards(),
        r@[1]@ == spec_tier2_cards(),
        r@[2]@ == spec_tier3_cards(),
        r@[0]@.len() == 6,
        r@[1]@.len() == 6,
        r@[2]@.len() == 6,
{
    let mut tier1: Vec<Card> = Vec::new();
    tier1.push(
        Card {
            points: 0,
            price: ColorCounts { red: 0, green: 0, blue: 0, white: 1, black: 1, yellow: 0 },
            value: Some(Color::Black),
        },
    );
    tier1.push(
        Card {
            points: 1,
            price: ColorCounts { red: 2, green: 2, blue: 0, white: 0, black: 0, yellow: 0 },
            value: Some(Color::Blue),
        },
    );
    tier1.push(
        Card {
            points: 0,
            price: ColorCounts { red: 2, green: 1, blue: 0, white: 1, black: 1, yellow: 0 },
            value: Some(Color::White),
        },
    );
    tier1.push(
        Card {
            points: 0,
            price: ColorCounts { red: 0, green: 0, blue: 1, white: 2, black: 0, yellow: 0 },
            value: Some(Color::Green),
        },
    );
    tier1.push(
        Card {
            points: 0,
            price: ColorCounts { red: 0, green: 0, blue: 1, white: 0, black: 1, yellow: 0 },
            value: Some(Color::Black),
        },
    );
    tier1.push(
        Card {
            points: 0,
            price: ColorCounts { red: 0, green: 1, blue: 0, white: 0, black: 1, yellow: 0 },
            value: Some(Color::Black),
        },
    );
    let mut tier2: Vec<Card> = Vec::new();
    tier2.push(
        Card {
            points: 1,
            price: ColorCounts { red: 0, green: 0, blue: 0, white: 2, black: 2, yellow: 0 },
            value: Some(Color::Black),
        },
    );
    tier2.push(
        Card {
            points: 2,
            price: ColorCounts { red: 3, green: 3, blue: 0, white: 0, black: 0, yellow: 0 },
            value: Some(Color::Blue),
        },
    );
    tier2.push(
        Card {
            points: 1,
            price: ColorCounts { red: 3, green: 2, blue: 0, white: 2, black: 2, yellow: 0 },
            value: Some(Color::White),
        },
    );
    tier2.push(
        Card {
            points: 3,
            price: ColorCounts { red: 0, green: 0, blue: 2, white: 3, black: 0, yellow: 0 },
            value: Some(Color::Green),
        },
    );
    tier2.push(
        Card {
            points: 2,
            price: ColorCounts { red: 0, green: 0, blue: 2, white: 0, black: 2, yellow: 0 },
            value: Some(Color::Green),
        },
    );
    tier2.push(
        Card {
            points: 1,
            price: ColorCounts { red: 0, green: 4, blue: 0, white: 0, black: 0, yellow: 0 },
            value: Some(Color::Black),
        },
    );
    let mut tier3: Vec<Card> = Vec::new();
    tier3.push(
        Card {
            points: 5,
            price: ColorCounts { red: 0, green: 4, blue: 0, white: 0, black: 4, yellow: 0 },
            value: Some(Color::Black),
        },
    );
    tier3.push(
        Card {
            points: 6,
            price: ColorCounts { red: 7, green: 0, blue: 0, white: 0, black: 0, yellow: 0 },
            value: Some(Color::Blue),
        },
    );
    tier3.push(
        Card {
            points: 5,
            price: ColorCounts { red: 5, green: 5, blue: 0, white: 2, black: 0, yellow: 0 },
            value: Some(Color::White),
        },
    );
    tier3.push(
        Card {
            points: 7,
            price: ColorCounts { red: 0, green: 0, blue: 7, white: 0, black: 0, yellow: 0 },
            value: Some(Color::Green),
        },
    );
    tier3.push(
        Card {
            points: 5,
            price: ColorCounts { red: 0, green: 0, blue: 0, white: 5, black: 1, yellow: 0 },
            value: Some(Color::Green),
        },
    );
    tier3.push(
        Card {
            points: 6,
            price: ColorCounts { red: 0, green: 7, blue: 0, white: 0, black: 0, yellow: 0 },
            value: Some(Color::Black),
        },
    );
    proof {
        assert(tier1@ =~= spec_tier1_cards());
        assert(tier2@ =~= spec_tier2_cards());
        assert(tier3@ =~= spec_tier3_cards());
    }
    let mut all: Vec<Vec<Card>> = Vec::new();
    all.push(tier1);
    all.push(tier2);
    all.push(tier3);
    all
}

} // verus!
