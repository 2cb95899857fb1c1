use vstd::prelude::*;
use crate::tags::{Element, Loot, Outcome, ShopItem};

verus! {

/// A notification for outside observers. Each names the owner it concerns.
#[derive(Clone, Debug)]
pub enum Event {
    /// A pet was minted; `id` is the identifier handed to the caller.
    Mint { owner: String, id: u64 },
    /// A grant moved the pet up to `level`.
    LevelUp { owner: String, level: u32 },
    /// The pet's design was changed to `design`.
    DesignChanged { owner: String, design: String },
    /// `item` was bought.
    Shop { owner: String, item: ShopItem },
    /// A battle was fought.
    Battle { owner: String, player: Element, opponent: Element, outcome: Outcome },
    /// A hunt ended; `results` holds its loot in the order of the moves.
    Hunt { owner: String, results: Vec<Loot> },
    /// A gem was found; `gold` is the balance after it.
    DebugGold { owner: String, gold: u32 },
    /// A game score was turned into `gold_reward` gold.
    GameEnd { owner: String, game_id: String, score: u32, gold_reward: u32 },
    /// A badge was claimed.
    Badge { owner: String, badge_id: String },
}

/// An event as a mathematical value.
pub enum EventView {
    Mint { owner: Seq<char>, id: nat },
    LevelUp { owner: Seq<char>, level: nat },
    DesignChanged { owner: Seq<char>, design: Seq<char> },
    Shop { owner: Seq<char>, item: ShopItem },
    Battle { owner: Seq<char>, player: Element, opponent: Element, outcome: Outcome },
    Hunt { owner: Seq<char>, results: Seq<Loot> },
    DebugGold { owner: Seq<char>, gold: nat },
    GameEnd { owner: Seq<char>, game_id: Seq<char>, score: nat, gold_reward: nat },
    Badge { owner: Seq<char>, badge_id: Seq<char> },
}

impl View for Event {
    type V = EventView;

    open spec fn view(&self) -> EventView {
        match *self {
            Event::Mint { owner, id } => EventView::Mint { owner: owner@, id: id as nat },
            Event::LevelUp { owner, level } => EventView::LevelUp {
                owner: owner@,
                level: level as nat,
            },
            Event::DesignChanged { owner, design } => EventView::DesignChanged {
                owner: owner@,
                design: design@,
            },
            Event::Shop { owner, item } => EventView::Shop { owner: owner@, item },
            Event::Battle { owner, player, opponent, outcome } => EventView::Battle {
                owner: owner@,
                player,
                opponent,
                outcome,
            },
            Event::Hunt { owner, results } => EventView::Hunt { owner: owner@, results: results@ },
            Event::DebugGold { owner, gold } => EventView::DebugGold {
                owner: owner@,
                gold: gold as nat,
            },
            Event::GameEnd { owner, game_id, score, gold_reward } => EventView::GameEnd {
                owner: owner@,
                game_id: game_id@,
                score: score as nat,
                gold_reward: gold_reward as nat,
            },
            Event::Badge { owner, badge_id } => EventView::Badge {
                owner: owner@,
                badge_id: badge_id@,
            },
        }
    }
}

impl EventView {
    /// The topic under which the event is published.
    pub open spec fn topic_text(self) -> Seq<char> {
        match self {
            EventView::Mint { .. } => "mint"@,
            EventView::LevelUp { .. } => "level_up"@,
            EventView::DesignChanged { .. } => "design_ch"@,
            EventView::Shop { .. } => "shop"@,
            EventView::Battle { .. } => "battle"@,
            EventView::Hunt { .. } => "hunt"@,
            EventView::DebugGold { .. } => "dbg_gold"@,
            EventView::GameEnd { .. } => "game_end"@,
            EventView::Badge { .. } => "badge"@,
        }
    }
}

impl Event {
    /// The topic under which the event is published.
    pub fn topic(&self) -> (text: &'static str)
        ensures
            text@ == self@.topic_text(),
    {
        match self {
            Event::Mint { .. } => "mint",
            Event::LevelUp { .. } => "level_up",
            Event::DesignChanged { .. } => "design_ch",
            Event::Shop { .. } => "shop",
            Event::Battle { .. } => "battle",
            Event::Hunt { .. } => "hunt",
            Event::DebugGold { .. } => "dbg_gold",
            Event::GameEnd { .. } => "game_end",
            Event::Badge { .. } => "badge",
        }
    }
}

/// The views of a log of events.
pub open spec fn event_views(log: Seq<Event>) -> Seq<EventView> {
    log.map_values(|event: Event| event@)
}

/// Appends `event` to the log.
pub fn publish(log: &mut Vec<Event>, event: Event)
    ensures
        final(log)@ == old(log)@.push(event),
        event_views(final(log)@) == event_views(old(log)@).push(event@),
{
    log.push(event);
    assert(event_views(log@) =~= event_views(old(log)@).push(event@));
}

} // verus!
