use vstd::prelude::*;
use crate::admin::{check_gate, AdminConfig, AdminView};
use crate::effect::Effect;
use crate::error::GameError;
use crate::events::{event_views, Event};
use crate::pet::{can_grant, grant};
use crate::tags::Attribute;
use crate::types::{Account, AccountView, Call, PetStats, StatsView, MAX_ENERGY, REGEN_PERIOD};

verus! {

/// The energy one training session costs.
pub const TRAIN_COST: u32 = 10;

/// The experience one training session gives the pet.
pub const TRAIN_XP: u64 = 10;

impl StatsView {
    /// The stats after `attribute` is raised by one.
    pub open spec fn trained(self, attribute: Attribute) -> StatsView {
        match attribute {
            Attribute::Strength => StatsView { strength: self.strength + 1, ..self },
            Attribute::Agility => StatsView { agility: self.agility + 1, ..self },
            Attribute::Intelligence => StatsView { intelligence: self.intelligence + 1, ..self },
        }
    }
}

/// Brings the stats up to `now`: one point of energy for each full period
/// since the last update, up to the cap. Where nothing was regained, the
/// stats are left as they are, time stamp included.
pub fn update_stats(stats: &mut PetStats, now: u64)
    ensures
        final(stats)@ == old(stats)@.regenerated(now as nat),
        old(stats)@.wf() ==> final(stats)@.wf(),
{
    let elapsed: u64 = now.saturating_sub(stats.last_update);
    let gained: u64 = elapsed / REGEN_PERIOD;
    if gained > 0 {
        if stats.energy >= MAX_ENERGY || gained >= (MAX_ENERGY - stats.energy) as u64 {
            stats.energy = MAX_ENERGY;
        } else {
            stats.energy = stats.energy + (gained as u32);
        }
        stats.last_update = now;
    }
}

/// The stats of the account as of `now`: those stored, regenerated, or the
/// default where none are stored. Nothing is written back.
pub fn get_stats(account: &Account, now: u64) -> (stats: PetStats)
    ensures
        stats@ == account@.current_stats(now as nat),
        account@.wf() ==> stats@.wf(),
{
    match account.stats {
        Some(stored) => {
            let mut stats = stored;
            update_stats(&mut stats, now);
            stats
        },
        None => PetStats::default_at(now),
    }
}

/// What training does. It is gated by the pause flag and the owner's
/// authorization; it works on the current stats, needs `TRAIN_COST` energy,
/// and only then looks at the tag. The stats are written, also where none
/// were written before.
pub open spec fn train_effect(
    config: AdminView,
    call: Call,
    account: AccountView,
    stat: Seq<char>,
) -> Effect<()> {
    let stats = account.current_stats(call.timestamp as nat);
    if let Some(error) = config.gate_error(call.authorized) {
        Effect::refused(account, error)
    } else if stats.energy < TRAIN_COST {
        Effect::refused(account, GameError::InsufficientEnergy)
    } else if let Some(attribute) = Attribute::parse(stat) {
        let trained = AccountView {
            stats: Some(stats.spend(TRAIN_COST as nat).trained(attribute)),
            ..account
        };
        Effect {
            account: trained.granted(TRAIN_XP as nat),
            events: trained.grant_events(TRAIN_XP as nat),
            result: Ok(()),
        }
    } else {
        Effect::refused(account, GameError::InvalidStat)
    }
}

/// Whether `train_stat` can be called with these arguments: whether the
/// machine types can hold what it would write.
pub fn can_train_stat(config: &AdminConfig, call: &Call, account: &Account, stat: &str) -> (room:
    bool)
    ensures
        room == train_effect(config@, *call, account@, stat@).account.fits(),
{
    if check_gate(config, call.authorized).is_err() {
        return true;
    }
    let stats = get_stats(account, call.timestamp);
    if stats.energy < TRAIN_COST {
        return true;
    }
    let trained: u32 = match Attribute::from_tag(stat) {
        Some(Attribute::Strength) => stats.strength,
        Some(Attribute::Agility) => stats.agility,
        Some(Attribute::Intelligence) => stats.intelligence,
        None => {
            return true;
        },
    };
    trained < u32::MAX && can_grant(account, TRAIN_XP)
}

/// Trains the attribute that `stat` names (`"str"`, `"agi"` or `"int"`):
/// spends energy, raises the attribute by one, writes the stats, and grants
/// the pet, if there is one, some experience.
pub fn train_stat(
    config: &AdminConfig,
    call: &Call,
    account: &mut Account,
    log: &mut Vec<Event>,
    stat: &str,
) -> (res: Result<(), GameError>)
    requires
        train_effect(config@, *call, old(account)@, stat@).account.fits(),
    ensures
        ({
            let effect = train_effect(config@, *call, old(account)@, stat@);
            &&& final(account)@ == effect.account
            &&& event_views(final(log)@) == event_views(old(log)@) + effect.events
            &&& res == effect.result
        }),
        old(account)@.wf() ==> final(account)@.wf(),
        final(account)@.owner == old(account)@.owner,
{
    assert(event_views(log@) + Seq::empty() =~= event_views(log@));
    if let Err(error) = check_gate(config, call.authorized) {
        return Err(error);
    }
    let mut stats = get_stats(account, call.timestamp);
    if stats.energy < TRAIN_COST {
        return Err(GameError::InsufficientEnergy);
    }
    let attribute = match Attribute::from_tag(stat) {
        Some(attribute) => attribute,
        None => {
            return Err(GameError::InvalidStat);
        },
    };
    stats.energy = stats.energy - TRAIN_COST;
    match attribute {
        Attribute::Strength => {
            stats.strength = stats.strength + 1;
        },
        Attribute::Agility => {
            stats.agility = stats.agility + 1;
        },
        Attribute::Intelligence => {
            stats.intelligence = stats.intelligence + 1;
        },
    }
    account.stats = Some(stats);
    grant(account, log, TRAIN_XP);
    Ok(())
}

/// Bringing stats up to a time is idempotent: a second time with the same
/// `now` changes nothing.
pub proof fn lemma_regenerate_idempotent(stats: StatsView, now: nat)
    ensures
        stats.regenerated(now).regenerated(now) == stats.regenerated(now),
{
}

/// Bringing stats up to a time keeps the energy within its cap, brings it
/// back under the cap wherever any energy was regained, and never lowers
/// energy that was within the cap.
pub proof fn lemma_regenerate_capped(stats: StatsView, now: nat)
    ensures
        stats.wf() ==> stats.regenerated(now).wf(),
        stats.regained(now) > 0 ==> stats.regenerated(now).wf(),
        stats.wf() ==> stats.regenerated(now).energy >= stats.energy,
{
}

} // verus!
