use vstd::prelude::*;
use crate::admin::{check_gate, AdminConfig, AdminView};
use crate::effect::Effect;
use crate::error::GameError;
use crate::events::{event_views, publish, Event, EventView};
use crate::stats::update_stats;
use crate::tags::ShopItem;
use crate::types::{Account, AccountView, Call, StatsView, MAX_ENERGY};

verus! {

/// The energy a small potion restores.
pub const SMALL_POTION_ENERGY: u32 = 20;

impl StatsView {
    /// The stats after `item` was paid for and drunk: a potion fills the
    /// energy up, a small potion adds `SMALL_POTION_ENERGY`, up to the cap.
    pub open spec fn bought(self, item: ShopItem) -> StatsView {
        StatsView {
            gold: (self.gold - item.price()) as nat,
            energy: match item {
                ShopItem::Potion => MAX_ENERGY as nat,
                ShopItem::SmallPotion => if self.energy + SMALL_POTION_ENERGY <= MAX_ENERGY {
                    self.energy + SMALL_POTION_ENERGY as nat
                } else {
                    MAX_ENERGY as nat
                },
            },
            ..self
        }
    }
}

/// What buying `item` does. It is gated by the pause flag and the owner's
/// authorization. It needs stats that were written before; no default
/// stands in for them. They are regenerated first, and must hold the price.
pub open spec fn purchase_effect(
    config: AdminView,
    call: Call,
    account: AccountView,
    item: ShopItem,
) -> Effect<()> {
    if let Some(error) = config.gate_error(call.authorized) {
        Effect::refused(account, error)
    } else if account.stats is None {
        Effect::refused(account, GameError::NoStatsFound)
    } else if account.stats->0.regenerated(call.timestamp as nat).gold < item.price() {
        Effect::refused(account, GameError::InsufficientGold)
    } else {
        Effect {
            account: AccountView {
                stats: Some(account.stats->0.regenerated(call.timestamp as nat).bought(item)),
                ..account
            },
            events: seq![EventView::Shop { owner: account.owner, item }],
            result: Ok(()),
        }
    }
}

/// Buys `item` for the owner.
pub fn purchase(
    config: &AdminConfig,
    call: &Call,
    account: &mut Account,
    log: &mut Vec<Event>,
    item: ShopItem,
) -> (res: Result<(), GameError>)
    ensures
        ({
            let effect = purchase_effect(config@, *call, old(account)@, item);
            &&& final(account)@ == effect.account
            &&& event_views(final(log)@) == event_views(old(log)@) + effect.events
            &&& res == effect.result
        }),
        old(account)@.wf() ==> final(account)@.wf(),
        final(account)@.owner == old(account)@.owner,
{
    assert(event_views(log@) + Seq::empty() =~= event_views(log@));
    if let Err(error) = check_gate(config, call.authorized) {
        return Err(error);
    }
    let mut stats = match account.stats {
        Some(stats) => stats,
        None => {
            return Err(GameError::NoStatsFound);
        },
    };
    update_stats(&mut stats, call.timestamp);
    let price = item.cost();
    if stats.gold < price {
        return Err(GameError::InsufficientGold);
    }
    stats.gold = stats.gold - price;
    match item {
        ShopItem::Potion => {
            stats.energy = MAX_ENERGY;
        },
        ShopItem::SmallPotion => {
            if stats.energy >= MAX_ENERGY - SMALL_POTION_ENERGY {
                stats.energy = MAX_ENERGY;
            } else {
                stats.energy = stats.energy + SMALL_POTION_ENERGY;
            }
        },
    }
    account.stats = Some(stats);
    publish(log, Event::Shop { owner: account.owner.clone(), item });
    assert(event_views(log@) =~= event_views(old(log)@) + seq![
        EventView::Shop { owner: account@.owner, item },
    ]);
    Ok(())
}

/// Buys a potion for 50 gold. It restores all energy.
pub fn buy_potion(
    config: &AdminConfig,
    call: &Call,
    account: &mut Account,
    log: &mut Vec<Event>,
) -> (res: Result<(), GameError>)
    ensures
        ({
            let effect = purchase_effect(config@, *call, old(account)@, ShopItem::Potion);
            &&& final(account)@ == effect.account
            &&& event_views(final(log)@) == event_views(old(log)@) + effect.events
            &&& res == effect.result
        }),
        old(account)@.wf() ==> final(account)@.wf(),
        final(account)@.owner == old(account)@.owner,
{
    purchase(config, call, account, log, ShopItem::Potion)
}

/// Buys a small potion for 10 gold. It restores `SMALL_POTION_ENERGY`
/// energy, up to the cap.
pub fn buy_small_potion(
    config: &AdminConfig,
    call: &Call,
    account: &mut Account,
    log: &mut Vec<Event>,
) -> (res: Result<(), GameError>)
    ensures
        ({
            let effect = purchase_effect(config@, *call, old(account)@, ShopItem::SmallPotion);
            &&& final(account)@ == effect.account
            &&& event_views(final(log)@) == event_views(old(log)@) + effect.events
            &&& res == effect.result
        }),
        old(account)@.wf() ==> final(account)@.wf(),
        final(account)@.owner == old(account)@.owner,
{
    purchase(config, call, account, log, ShopItem::SmallPotion)
}

/// A purchase that goes through takes exactly the price and leaves the
/// energy within its cap, whatever it was.
pub proof fn lemma_purchase_pays_the_price(
    config: AdminView,
    call: Call,
    account: AccountView,
    item: ShopItem,
)
    requires
        purchase_effect(config, call, account, item).result is Ok,
    ensures
        ({
            let before = account.stats->0.regenerated(call.timestamp as nat);
            let after = purchase_effect(config, call, account, item).account.stats->0;
            &&& before.gold >= item.price()
            &&& after.gold + item.price() == before.gold
            &&& after.energy <= MAX_ENERGY
            &&& item == ShopItem::Potion ==> after.energy == MAX_ENERGY
        }),
{
}

} // verus!
