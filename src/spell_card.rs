//! Spell cards: the attacks a boss draws at random, and what each fires.
use crate::construction::ConstructionType;
use crate::movement::MovementType;
use crate::pattern::PatternParams;
use crate::timer::{once_ticked, OnceTimer};
use rand::seq::IteratorRandom;
use vstd::prelude::*;
use vstd::string::StrSliceExecFns;

verus! {

/// A boss attack.
#[derive(Clone, Copy, Debug, PartialEq, Eq, Structural)]
pub enum SpellCard {
    CirclesOfFifth,
}

/// No spell card has the given name.
#[derive(Clone, Copy, Debug, PartialEq, Eq, Structural)]
pub struct NoSuchSpellCard;

/// The card of a name, if any.
pub open spec fn card_named(s: Seq<char>) -> Option<SpellCard> {
    if s == "CirclesOfFifth"@ {
        Some(SpellCard::CirclesOfFifth)
    } else {
        None
    }
}

/// Whether two strings hold the same characters.
fn same_text(a: &str, b: &str) -> (r: bool)
    ensures
        r == (a@ == b@),
{
    let n = a.unicode_len();
    if n != b.unicode_len() {
        return false;
    }
    let mut i: usize = 0;
    while i < n
        invariant
            n == a@.len() == b@.len(),
            i <= n,
            forall|j: int| 0 <= j < i ==> a@[j] == b@[j],
        decreases n - i,
    {
        if a.get_char(i) != b.get_char(i) {
            return false;
        }
        i = i + 1;
    }
    assert(a@ =~= b@);
    true
}

impl SpellCard {
    /// The card called `name`.
    pub fn from_name(name: &str) -> (r: Result<SpellCard, NoSuchSpellCard>)
        ensures
            card_named(name@) matches Some(c) ==> r == Ok::<SpellCard, NoSuchSpellCard>(c),
            card_named(name@) is None ==> r == Err::<SpellCard, NoSuchSpellCard>(NoSuchSpellCard),
    {
        if same_text(name, "CirclesOfFifth") {
            Ok(SpellCard::CirclesOfFifth)
        } else {
            Err(NoSuchSpellCard)
        }
    }
}

impl std::str::FromStr for SpellCard {
    type Err = NoSuchSpellCard;

    fn from_str(string: &str) -> (r: Result<SpellCard, NoSuchSpellCard>)
        ensures
            card_named(string@) matches Some(c) ==> r == Ok::<SpellCard, NoSuchSpellCard>(c),
            card_named(string@) is None ==> r == Err::<SpellCard, NoSuchSpellCard>(NoSuchSpellCard),
    {
        SpellCard::from_name(string)
    }
}

/// Relies on rand's `IteratorRandom::choose` on the range `0..len` with the
/// thread's generator: none for an empty range, otherwise some index in it.
#[verifier::external_body]
fn random_index(len: usize) -> (r: Option<usize>)
    ensures
        len == 0 <==> r is None,
        r matches Some(i) ==> i < len,
{
    (0..len).choose(&mut rand::rng())
}

/// The cards a boss has left to play.
#[derive(Debug)]
pub struct SpellCardList(pub Vec<SpellCard>);

impl SpellCardList {
    /// Draws a card at random and takes it out of the list (the last card
    /// takes its place); none when the list is empty.
    pub fn random(&mut self) -> (r: Option<SpellCard>)
        ensures
            old(self).0@.len() == 0 <==> r is None,
            r is None ==> final(self).0@ == old(self).0@,
            r matches Some(c) ==> exists|i: int|
                0 <= i < old(self).0@.len() && c == old(self).0@[i] && #[trigger] final(self).0@
                    == old(self).0@.update(i, old(self).0@.last()).drop_last(),
    {
        match random_index(self.0.len()) {
            None => None,
            Some(i) => {
                let c = self.0.swap_remove(i);
                assert(final(self).0@ == old(self).0@.update(i as int, old(self).0@.last()).drop_last());
                Some(c)
            },
        }
    }
}

/// The timer of a spell card: the card ends when it finishes.
pub type SpellCardTimer = OnceTimer;

/// One shot of a spell card's turret, before its bullets' offsets are laid
/// out.
#[derive(Clone, Copy, Debug, PartialEq, Eq, Structural)]
pub struct ShotSpec {
    pub params: PatternParams,
    pub construction: ConstructionType,
    pub speed: i64,
    pub accel: i64,
}

/// How a spell card plays: its turret fires every `frequency` nanoseconds
/// through `shots`, and the card lasts `length` nanoseconds.
#[derive(Debug)]
pub struct SpellCardSetup {
    pub frequency: u64,
    pub length: u64,
    pub shots: Vec<ShotSpec>,
}

/// A shot of a formation of `amount` bullets laid out as `construction`, 40
/// pixels in radius, whose bullets circle by the given speed and
/// acceleration once complete; the formation flies at `speed`, accelerating
/// by `accel`.
pub open spec fn circling_shot(
    amount: u64,
    circle_speed: i64,
    circle_accel: i64,
    cadence: u64,
    construction: ConstructionType,
    speed: i64,
    accel: i64,
) -> ShotSpec {
    ShotSpec {
        params: PatternParams {
            scale: 40_000,
            bullet_amount: amount,
            bullet_movement: MovementType::Circle { speed: circle_speed, accel: circle_accel },
            construction_frequency: cadence,
        },
        construction,
        speed,
        accel,
    }
}

/// The shots of Circles of Fifth, in order: three rings, four polygons and
/// stars, and a slow ring that stays in place.
pub open spec fn circles_of_fifth_shots() -> Seq<ShotSpec> {
    let ring = circling_shot(24, 40_000, 40_000, 10_000_000, ConstructionType::Circle, 200_000, 10);
    seq![
        ring,
        ring,
        ring,
        circling_shot(48, 60_000, 300_000, 8_000_000, ConstructionType::RegularPolygon(6), 200_000, 10),
        circling_shot(96, 30_000, 300_000, 8_000_000, ConstructionType::RegularPolygon(4), 160_000, 10),
        circling_shot(128, 30_000, 300_000, 7_000_000, ConstructionType::Shuriken(3), 160_000, 10),
        circling_shot(128, 60_000, 300_000, 7_000_000, ConstructionType::Shuriken(4), 160_000, 10),
        circling_shot(24, 25_000, 10, 10_000_000, ConstructionType::Circle, 0, 0),
    ]
}

fn circling(
    amount: u64,
    circle_speed: i64,
    circle_accel: i64,
    cadence: u64,
    construction: ConstructionType,
    speed: i64,
    accel: i64,
) -> (r: ShotSpec)
    ensures
        r == circling_shot(amount, circle_speed, circle_accel, cadence, construction, speed, accel),
{
    ShotSpec {
        params: PatternParams {
            scale: 40_000,
            bullet_amount: amount,
            bullet_movement: MovementType::Circle { speed: circle_speed, accel: circle_accel },
            construction_frequency: cadence,
        },
        construction,
        speed,
        accel,
    }
}

/// How long a card lasts, in nanoseconds.
pub open spec fn card_length(c: SpellCard) -> u64 {
    match c {
        SpellCard::CirclesOfFifth => 100_000_000_000,
    }
}

impl SpellCard {
    /// How the card plays.
    pub fn setup(&self) -> (r: SpellCardSetup)
        ensures
            r.length == card_length(*self),
            *self == SpellCard::CirclesOfFifth ==> r.frequency == 1_000_000_000 && r.shots@
                == circles_of_fifth_shots(),
    {
        match self {
            SpellCard::CirclesOfFifth => {
                let ring = circling(24, 40_000, 40_000, 10_000_000, ConstructionType::Circle, 200_000, 10);
                let shots = vec![
                    ring,
                    ring,
                    ring,
                    circling(48, 60_000, 300_000, 8_000_000, ConstructionType::RegularPolygon(6), 200_000, 10),
                    circling(96, 30_000, 300_000, 8_000_000, ConstructionType::RegularPolygon(4), 160_000, 10),
                    circling(128, 30_000, 300_000, 7_000_000, ConstructionType::Shuriken(3), 160_000, 10),
                    circling(128, 60_000, 300_000, 7_000_000, ConstructionType::Shuriken(4), 160_000, 10),
                    circling(24, 25_000, 10, 10_000_000, ConstructionType::Circle, 0, 0),
                ];
                assert(shots@ =~= circles_of_fifth_shots());
                SpellCardSetup { frequency: 1_000_000_000, length: 100_000_000_000, shots }
            },
        }
    }
}

/// What a step of a boss fight did.
#[derive(Clone, Copy, Debug, PartialEq, Eq, Structural)]
pub enum FightEvent {
    /// A card was drawn and put in play.
    Started(SpellCard),
    /// The card in play goes on.
    Continued,
    /// The card in play ran out of time and left play.
    Ended,
    /// No card is in play and none is left to draw.
    Exhausted,
}

/// A boss fight: the cards left, the card in play and its timer.
#[derive(Debug)]
pub struct BossFight {
    pub cards: SpellCardList,
    pub active: Option<SpellCard>,
    pub timer: SpellCardTimer,
}

/// A fight before and after a step of `delta` nanoseconds that returned `e`.
pub open spec fn fought(old: BossFight, new: BossFight, delta: nat, e: FightEvent) -> bool {
    match old.active {
        None => if old.cards.0@.len() == 0 {
            &&& e == FightEvent::Exhausted
            &&& new.cards.0@ == old.cards.0@
            &&& new.active is None
            &&& new.timer == old.timer
        } else {
            &&& e matches FightEvent::Started(c)
            &&& new.active == Some(c)
            &&& exists|i: int|
                0 <= i < old.cards.0@.len() && c == old.cards.0@[i] && #[trigger] new.cards.0@
                    == old.cards.0@.update(i, old.cards.0@.last()).drop_last()
            &&& new.timer == OnceTimer { duration: card_length(c), elapsed: 0, finished: false }
        },
        Some(c) => {
            &&& new.cards.0@ == old.cards.0@
            &&& once_ticked(old.timer, new.timer, delta)
            &&& if new.timer.finished {
                e == FightEvent::Ended && new.active is None
            } else {
                e == FightEvent::Continued && new.active == Some(c)
            }
        },
    }
}

impl BossFight {
    /// A fight with `cards` to play and none in play yet.
    pub fn new(cards: SpellCardList) -> (r: BossFight)
        ensures
            r.cards.0@ == cards.0@,
            r.active is None,
    {
        BossFight { cards, active: None, timer: OnceTimer::new(0) }
    }

    /// One step of `delta` nanoseconds. With no card in play, a card is
    /// drawn at random and started, or the fight reports that none is left.
    /// With a card in play, its timer advances, and the card leaves play
    /// once the timer finishes.
    pub fn step(&mut self, delta: u64) -> (e: FightEvent)
        ensures
            fought(*old(self), *final(self), delta as nat, e),
    {
        match self.active {
            None => match self.cards.random() {
                None => FightEvent::Exhausted,
                Some(c) => {
                    self.active = Some(c);
                    self.timer = OnceTimer::new(c.setup().length);
                    FightEvent::Started(c)
                },
            },
            Some(c) => {
                if self.timer.tick(delta) {
                    self.active = None;
                    FightEvent::Ended
                } else {
                    FightEvent::Continued
                }
            },
        }
    }
}

} // verus!
