use vstd::prelude::*;
use vstd::arithmetic::div_mod::{lemma_add_mod_noop, lemma_mul_mod_noop_left, lemma_small_mod};
use crate::admin::{check_gate, AdminConfig, AdminView};
use crate::effect::{loot_result, text_result, Effect};
use crate::error::GameError;
use crate::events::{event_views, publish, Event, EventView};
use crate::pet::{can_grant, grant};
use crate::stats::get_stats;
use crate::tags::{same_text, Element, Loot, Outcome};
use crate::types::{texts, Account, AccountView, Call, StatsView};

verus! {

/// The energy one battle costs.
pub const BATTLE_COST: u32 = 20;

/// The energy each move of a hunt costs.
pub const HUNT_COST: u32 = 5;

/// The most moves one hunt may hold.
pub const MAX_MOVES: usize = 9;

/// The gold a gem is worth.
pub const GEM_GOLD: u32 = 1000;

/// The experience a pinch of dust gives.
pub const DUST_XP: u64 = 100;

/// The multiplier of the congruential step that mixes the entropy.
pub const LCG_MULTIPLIER: u64 = 6364136223846793005;

/// The increment of the congruential step that mixes the entropy.
pub const LCG_INCREMENT: u64 = 1442695040888963407;

/// The energy it costs to hand in a game score.
pub const GAME_COST: u32 = 20;

/// The energy it costs to hand in a pool score.
pub const POOL_COST: u32 = 5;

/// The score from which the tile-merge game pays its bonus.
pub const BONUS_SCORE: u32 = 2048;

/// The bonus of the tile-merge game, in gold.
pub const BONUS_GOLD: u32 = 500;

impl StatsView {
    /// The stats after a battle with this outcome is entered in the record:
    /// a win counts as a win, a loss as a loss, a draw as neither.
    pub open spec fn scored(self, outcome: Outcome) -> StatsView {
        match outcome {
            Outcome::Draw => self,
            Outcome::Win => StatsView { wins: self.wins + 1, ..self },
            Outcome::Loss => StatsView { losses: self.losses + 1, ..self },
        }
    }

    /// The stats stamped `now`, whatever was regained.
    pub open spec fn stamped(self, now: nat) -> StatsView {
        StatsView { last_update: now, ..self }
    }
}

/// What a battle does. It is gated by the pause flag and the owner's
/// authorization. The move must name an element; the current stats must
/// hold `BATTLE_COST` energy; there must be a pet. The opponent's move
/// follows from the time alone. The outcome pays gold and experience.
pub open spec fn battle_effect(
    config: AdminView,
    call: Call,
    account: AccountView,
    move_choice: Seq<char>,
) -> Effect<Outcome> {
    let stats = account.current_stats(call.timestamp as nat);
    if let Some(error) = config.gate_error(call.authorized) {
        Effect::refused(account, error)
    } else if Element::parse(move_choice) is None {
        Effect::refused(account, GameError::InvalidMove)
    } else if stats.energy < BATTLE_COST {
        Effect::refused(account, GameError::InsufficientEnergy)
    } else if account.pet is None {
        Effect::refused(account, GameError::NoPet)
    } else {
        let player = Element::parse(move_choice)->0;
        let opponent = Element::opponent_at(call.timestamp);
        let outcome = Outcome::of(player, opponent);
        let xp = outcome.xp(stats.intelligence);
        let paid = AccountView {
            stats: Some(stats.spend(BATTLE_COST as nat).scored(outcome).earn(outcome.gold())),
            ..account
        };
        Effect {
            account: paid.granted(xp),
            events: paid.grant_events(xp).push(
                EventView::Battle { owner: account.owner, player, opponent, outcome },
            ),
            result: Ok(outcome),
        }
    }
}

/// Whether `battle` can be called with these arguments: whether the
/// machine types can hold what it would write.
pub fn can_battle(
    config: &AdminConfig,
    call: &Call,
    account: &Account,
    move_choice: &str,
) -> (room: bool)
    ensures
        room == battle_effect(config@, *call, account@, move_choice@).account.fits(),
{
    if check_gate(config, call.authorized).is_err() {
        return true;
    }
    let player = match Element::from_tag(move_choice) {
        Some(player) => player,
        None => {
            return true;
        },
    };
    let stats = get_stats(account, call.timestamp);
    if stats.energy < BATTLE_COST || account.pet.is_none() {
        return true;
    }
    let outcome = Outcome::resolve(player, Element::opponent(call.timestamp));
    let counted: u32 = match outcome {
        Outcome::Draw => 0,
        Outcome::Win => stats.wins,
        Outcome::Loss => stats.losses,
    };
    counted < u32::MAX && stats.gold <= u32::MAX - outcome.gold_reward() && can_grant(
        account,
        outcome.xp_reward(stats.intelligence),
    )
}

/// Fights one round against the opponent of the moment and returns how it
/// ended. Both the pet and the stats are written.
pub fn battle(
    config: &AdminConfig,
    call: &Call,
    account: &mut Account,
    log: &mut Vec<Event>,
    move_choice: &str,
) -> (res: Result<Outcome, GameError>)
    requires
        battle_effect(config@, *call, old(account)@, move_choice@).account.fits(),
    ensures
        ({
            let effect = battle_effect(config@, *call, old(account)@, move_choice@);
            &&& final(account)@ == effect.account
            &&& event_views(final(log)@) == event_views(old(log)@) + effect.events
            &&& res == effect.result
        }),
        old(account)@.wf() ==> final(account)@.wf(),
        final(account)@.owner == old(account)@.owner,
{
    assert(event_views(log@) + Seq::empty() =~= event_views(log@));
    if let Err(error) = check_gate(config, call.authorized) {
        return Err(error);
    }
    let player = match Element::from_tag(move_choice) {
        Some(player) => player,
        None => {
            return Err(GameError::InvalidMove);
        },
    };
    let mut stats = get_stats(account, call.timestamp);
    if stats.energy < BATTLE_COST {
        return Err(GameError::InsufficientEnergy);
    }
    if account.pet.is_none() {
        return Err(GameError::NoPet);
    }
    stats.energy = stats.energy - BATTLE_COST;
    let opponent = Element::opponent(call.timestamp);
    let outcome = Outcome::resolve(player, opponent);
    match outcome {
        Outcome::Draw => {},
        Outcome::Win => {
            stats.wins = stats.wins + 1;
        },
        Outcome::Loss => {
            stats.losses = stats.losses + 1;
        },
    }
    stats.gold = stats.gold + outcome.gold_reward();
    let xp = outcome.xp_reward(stats.intelligence);
    account.stats = Some(stats);
    let ghost before = event_views(log@);
    let ghost paid = account@;
    grant(account, log, xp);
    publish(log, Event::Battle { owner: account.owner.clone(), player, opponent, outcome });
    assert(event_views(log@) =~= before + paid.grant_events(xp as nat).push(
        EventView::Battle { owner: account@.owner, player, opponent, outcome },
    ));
    Ok(outcome)
}

/// The entropy behind one move of a hunt: the time, the ledger's sequence
/// number and the move's value are added up and put through one
/// congruential step, all modulo 2^64. Anybody who knows the three can
/// compute it.
pub open spec fn entropy(call: Call, value: u32) -> nat {
    (((call.timestamp + call.sequence + value) * LCG_MULTIPLIER + LCG_INCREMENT)
        % 0x1_0000_0000_0000_0000) as nat
}

/// What the move with this value turns up: its entropy modulo 100 decides.
pub open spec fn loot_of(call: Call, value: u32) -> Loot {
    Loot::of_roll(entropy(call, value) % 100)
}

/// What the move with this value turns up.
pub fn draw_loot(call: &Call, value: u32) -> (loot: Loot)
    ensures
        loot == loot_of(*call, value),
{
    let timed: u64 = call.timestamp.wrapping_add(call.sequence as u64);
    let mixed: u64 = timed.wrapping_add(value as u64);
    let scaled: u64 = mixed.wrapping_mul(LCG_MULTIPLIER);
    let entropy: u64 = scaled.wrapping_add(LCG_INCREMENT);
    proof {
        let m: int = 0x1_0000_0000_0000_0000;
        let sum: int = call.timestamp + call.sequence + value;
        assert(timed == (call.timestamp + call.sequence) % m);
        assert(mixed == (timed + value) % m);
        lemma_add_mod_noop(call.timestamp + call.sequence, value as int, m);
        lemma_small_mod(value as nat, m as nat);
        assert(mixed == sum % m);
        assert(scaled == (mixed * LCG_MULTIPLIER) % m);
        lemma_mul_mod_noop_left(sum, LCG_MULTIPLIER as int, m);
        assert(scaled == (sum * LCG_MULTIPLIER) % m);
        assert(entropy == (scaled + LCG_INCREMENT) % m);
        lemma_add_mod_noop(sum * LCG_MULTIPLIER, LCG_INCREMENT as int, m);
        lemma_small_mod(LCG_INCREMENT as nat, m as nat);
        assert(entropy == (sum * LCG_MULTIPLIER + LCG_INCREMENT) % m);
    }
    Loot::from_roll(entropy % 100)
}

impl AccountView {
    /// The account after one move of a hunt turned up `loot`. A trap gives
    /// nothing. A gem adds `GEM_GOLD` gold. Dust grants the pet, if there is
    /// one, `DUST_XP` experience.
    pub open spec fn looted(self, loot: Loot) -> AccountView {
        match loot {
            Loot::Trap => self,
            Loot::Gem => match self.stats {
                Some(stats) => AccountView { stats: Some(stats.earn(GEM_GOLD as nat)), ..self },
                None => self,
            },
            Loot::Dust => self.granted(DUST_XP as nat),
        }
    }

    /// The events of one move of a hunt that turned up `loot`: a gem
    /// reports the new balance, dust reports a level-up if there is one.
    pub open spec fn loot_events(self, loot: Loot) -> Seq<EventView> {
        match loot {
            Loot::Trap => Seq::empty(),
            Loot::Gem => match self.stats {
                Some(stats) => seq![
                    EventView::DebugGold {
                        owner: self.owner,
                        gold: stats.earn(GEM_GOLD as nat).gold,
                    },
                ],
                None => Seq::empty(),
            },
            Loot::Dust => self.grant_events(DUST_XP as nat),
        }
    }
}

/// A hunt under way: the account so far, the events so far, and the loot so
/// far, in the order of the moves.
pub struct HuntView {
    pub account: AccountView,
    pub events: Seq<EventView>,
    pub results: Seq<Loot>,
}

impl HuntView {
    /// The hunt after one more move turned up `loot`.
    pub open spec fn found(self, loot: Loot) -> HuntView {
        HuntView {
            account: self.account.looted(loot),
            events: self.events + self.account.loot_events(loot),
            results: self.results.push(loot),
        }
    }

    /// The hunt after all of `moves` were played in order.
    pub open spec fn after(self, call: Call, moves: Seq<u32>) -> HuntView
        decreases moves.len(),
    {
        if moves.len() == 0 {
            self
        } else {
            self.after(call, moves.drop_last()).found(loot_of(call, moves.last()))
        }
    }
}

/// The error with which a hunt is refused, if it is: pause and
/// authorization first, then the number of moves, then the energy for all
/// of them.
pub open spec fn hunt_error(
    config: AdminView,
    call: Call,
    account: AccountView,
    moves: Seq<u32>,
) -> Option<GameError> {
    if let Some(error) = config.gate_error(call.authorized) {
        Some(error)
    } else if moves.len() > MAX_MOVES {
        Some(GameError::TooManyMoves)
    } else if moves.len() == 0 {
        Some(GameError::NoMoves)
    } else if account.current_stats(call.timestamp as nat).energy < HUNT_COST * moves.len() {
        Some(GameError::InsufficientEnergy)
    } else {
        None
    }
}

/// A hunt that was not refused, before its first move: the energy for the
/// whole batch is already spent.
pub open spec fn hunt_start(call: Call, account: AccountView, moves: Seq<u32>) -> HuntView {
    HuntView {
        account: AccountView {
            stats: Some(
                account.current_stats(call.timestamp as nat).spend(HUNT_COST as nat * moves.len()),
            ),
            ..account
        },
        events: Seq::empty(),
        results: Seq::empty(),
    }
}

/// What a hunt does. A hunt that is refused charges nothing. One that is
/// not plays every move, publishes the events of the moves in order and
/// then one event with all the loot, and returns the loot.
pub open spec fn hunt_effect(
    config: AdminView,
    call: Call,
    account: AccountView,
    moves: Seq<u32>,
) -> Effect<Seq<Loot>> {
    if let Some(error) = hunt_error(config, call, account, moves) {
        Effect::refused(account, error)
    } else {
        let end = hunt_start(call, account, moves).after(call, moves);
        Effect {
            account: end.account,
            events: end.events.push(
                EventView::Hunt { owner: account.owner, results: end.results },
            ),
            result: Ok(end.results),
        }
    }
}

/// Whether the machine types can hold the account after each move of the
/// hunt.
pub open spec fn hunt_fits(
    config: AdminView,
    call: Call,
    account: AccountView,
    moves: Seq<u32>,
) -> bool {
    hunt_error(config, call, account, moves) is None ==> forall|k: int|
        0 <= k <= moves.len() ==> (#[trigger] hunt_start(call, account, moves).after(
            call,
            moves.take(k),
        )).account.fits()
}

/// One more move on a hunt.
proof fn lemma_hunt_next(start: HuntView, call: Call, moves: Seq<u32>, i: int)
    requires
        0 <= i < moves.len(),
    ensures
        start.after(call, moves.take(i + 1)) == start.after(call, moves.take(i)).found(
            loot_of(call, moves[i]),
        ),
{
    assert(moves.take(i + 1).drop_last() =~= moves.take(i));
    assert(moves.take(i + 1).last() == moves[i]);
}

/// How far a hunt can have moved the account after `k` moves: the gold by
/// at most `GEM_GOLD` a move, the pet by at most one level and `DUST_XP`
/// experience a move, and nothing else.
proof fn lemma_hunt_bounds(start: HuntView, call: Call, moves: Seq<u32>, k: int)
    requires
        0 <= k <= moves.len(),
        start.account.stats is Some,
    ensures
        ({
            let account = start.after(call, moves.take(k)).account;
            &&& account.stats is Some
            &&& account.stats->0 == (StatsView {
                gold: account.stats->0.gold,
                ..start.account.stats->0
            })
            &&& account.stats->0.gold <= start.account.stats->0.gold + GEM_GOLD * k
            &&& account.pet is Some <==> start.account.pet is Some
            &&& account.pet matches Some(pet) ==> {
                &&& pet.birth_date == start.account.pet->0.birth_date
                &&& pet.level <= start.account.pet->0.level + k
                &&& pet.xp <= start.account.pet->0.xp + DUST_XP * k
            }
        }),
    decreases k,
{
    if k == 0 {
        assert(moves.take(0) =~= Seq::empty());
    } else {
        lemma_hunt_bounds(start, call, moves, k - 1);
        lemma_hunt_next(start, call, moves, k - 1);
    }
}

/// A hunt fits wherever there is headroom for the most it can give: a gem
/// for every move in the purse, and a level and a pinch of dust for every
/// move in the pet.
pub proof fn lemma_hunt_fits_with_headroom(
    config: AdminView,
    call: Call,
    account: AccountView,
    moves: Seq<u32>,
)
    requires
        account.fits(),
        account.current_stats(call.timestamp as nat).gold + GEM_GOLD * moves.len() <= u32::MAX,
        account.pet matches Some(pet) ==> pet.level + moves.len() <= u32::MAX && pet.xp + DUST_XP
            * moves.len() <= u64::MAX,
    ensures
        hunt_fits(config, call, account, moves),
{
    if hunt_error(config, call, account, moves) is None {
        let start = hunt_start(call, account, moves);
        assert forall|k: int| 0 <= k <= moves.len() implies (#[trigger] start.after(
            call,
            moves.take(k),
        )).account.fits() by {
            lemma_hunt_bounds(start, call, moves, k);
            assert(GEM_GOLD * k <= GEM_GOLD * moves.len()) by (nonlinear_arith)
                requires
                    0 <= k <= moves.len(),
            ;
            assert(DUST_XP * k <= DUST_XP * moves.len()) by (nonlinear_arith)
                requires
                    0 <= k <= moves.len(),
            ;
        }
    }
}

/// Whether the move with this value can be played on the account: whether
/// the machine types can hold the account after it.
fn can_play_move(call: &Call, account: &Account, value: u32) -> (room: bool)
    ensures
        room == account@.looted(loot_of(*call, value)).fits(),
{
    match draw_loot(call, value) {
        Loot::Trap => true,
        Loot::Gem => match account.stats {
            Some(stats) => stats.gold <= u32::MAX - GEM_GOLD,
            None => true,
        },
        Loot::Dust => can_grant(account, DUST_XP),
    }
}

/// Plays the move with this value.
fn play_move(call: &Call, account: &mut Account, log: &mut Vec<Event>, value: u32) -> (loot: Loot)
    requires
        old(account)@.looted(loot_of(*call, value)).fits(),
    ensures
        loot == loot_of(*call, value),
        final(account)@ == old(account)@.looted(loot),
        event_views(final(log)@) == event_views(old(log)@) + old(account)@.loot_events(loot),
{
    let loot = draw_loot(call, value);
    match loot {
        Loot::Trap => {
            assert(event_views(log@) + Seq::empty() =~= event_views(log@));
        },
        Loot::Gem => {
            let mut found = false;
            let mut gold: u32 = 0;
            match &mut account.stats {
                Some(stats) => {
                    stats.gold = stats.gold + GEM_GOLD;
                    gold = stats.gold;
                    found = true;
                },
                None => {},
            }
            if found {
                publish(log, Event::DebugGold { owner: account.owner.clone(), gold });
            }
            assert(event_views(log@) =~= event_views(old(log)@) + old(account)@.loot_events(loot));
        },
        Loot::Dust => {
            grant(account, log, DUST_XP);
        },
    }
    loot
}

/// Whether `play_hunt` can be called with these arguments: whether the
/// machine types can hold the account after each move. The hunt is played
/// on a copy to find out.
pub fn can_play_hunt(
    config: &AdminConfig,
    call: &Call,
    account: &Account,
    moves: &[u32],
) -> (room: bool)
    ensures
        room == hunt_fits(config@, *call, account@, moves@),
{
    if check_gate(config, call.authorized).is_err() || moves.len() > MAX_MOVES || moves.len() == 0 {
        return true;
    }
    let mut stats = get_stats(account, call.timestamp);
    let cost: u32 = HUNT_COST * (moves.len() as u32);
    if stats.energy < cost {
        return true;
    }
    stats.energy = stats.energy - cost;
    let mut trial = account.duplicate();
    trial.stats = Some(stats);
    let mut scratch: Vec<Event> = Vec::new();
    let ghost start = hunt_start(*call, account@, moves@);
    assert(trial@ == start.account);
    assert(moves@.take(0) =~= Seq::empty());
    let mut room = true;
    let mut i: usize = 0;
    while room && i < moves.len()
        invariant
            0 <= i <= moves.len(),
            room ==> trial@ == start.after(*call, moves@.take(i as int)).account,
            room ==> forall|k: int|
                0 <= k <= i ==> (#[trigger] start.after(*call, moves@.take(k))).account.fits(),
            !room ==> i < moves.len() && !start.after(
                *call,
                moves@.take(i + 1),
            ).account.fits(),
        decreases moves.len() - i + (if room { 1int } else { 0int }),
    {
        proof {
            lemma_hunt_next(start, *call, moves@, i as int);
        }
        if can_play_move(call, &trial, moves[i]) {
            play_move(call, &mut trial, &mut scratch, moves[i]);
            i = i + 1;
            assert forall|k: int| 0 <= k <= i implies (#[trigger] start.after(
                *call,
                moves@.take(k),
            )).account.fits() by {
                if k < i {
                    assert(k <= i - 1);
                }
            }
        } else {
            room = false;
        }
    }
    room
}

/// Plays a batch of moves. Only the value of a move matters, as entropy.
/// The energy for the whole batch is charged up front or not at all.
pub fn play_hunt(
    config: &AdminConfig,
    call: &Call,
    account: &mut Account,
    log: &mut Vec<Event>,
    moves: &[u32],
) -> (res: Result<Vec<Loot>, GameError>)
    requires
        hunt_fits(config@, *call, old(account)@, moves@),
    ensures
        ({
            let effect = hunt_effect(config@, *call, old(account)@, moves@);
            &&& final(account)@ == effect.account
            &&& event_views(final(log)@) == event_views(old(log)@) + effect.events
            &&& loot_result(res) == effect.result
        }),
        old(account)@.wf() ==> final(account)@.wf(),
        final(account)@.owner == old(account)@.owner,
{
    assert(event_views(log@) + Seq::empty() =~= event_views(log@));
    if let Err(error) = check_gate(config, call.authorized) {
        return Err(error);
    }
    if moves.len() > MAX_MOVES {
        return Err(GameError::TooManyMoves);
    }
    if moves.len() == 0 {
        return Err(GameError::NoMoves);
    }
    let mut stats = get_stats(account, call.timestamp);
    let cost: u32 = HUNT_COST * (moves.len() as u32);
    if stats.energy < cost {
        return Err(GameError::InsufficientEnergy);
    }
    stats.energy = stats.energy - cost;
    account.stats = Some(stats);

    let ghost start = hunt_start(*call, old(account)@, moves@);
    let ghost before = event_views(log@);
    let ghost mut hunt = start;
    assert(start.account == account@);
    assert(moves@.take(0) =~= Seq::empty());
    let mut results: Vec<Loot> = Vec::new();
    let mut told: Vec<Loot> = Vec::new();
    let mut i: usize = 0;
    while i < moves.len()
        invariant
            0 <= i <= moves.len(),
            hunt == start.after(*call, moves@.take(i as int)),
            hunt.account == account@,
            hunt.results == results@,
            told@ == results@,
            account@.owner == start.account.owner,
            account@.badges == start.account.badges,
            start.account.wf() ==> account@.wf(),
            event_views(log@) == before + hunt.events,
            forall|k: int|
                0 <= k <= moves.len() ==> (#[trigger] start.after(
                    *call,
                    moves@.take(k),
                )).account.fits(),
        decreases moves.len() - i,
    {
        let ghost next = start.after(*call, moves@.take(i + 1));
        proof {
            lemma_hunt_next(start, *call, moves@, i as int);
            assert(next.account.fits());
        }
        let loot = play_move(call, account, log, moves[i]);
        results.push(loot);
        told.push(loot);
        i = i + 1;
        proof {
            assert(before + hunt.events + hunt.account.loot_events(loot) =~= before + (hunt.events
                + hunt.account.loot_events(loot)));
            hunt = next;
        }
    }
    assert(moves@.take(moves@.len() as int) =~= moves@);
    publish(log, Event::Hunt { owner: account.owner.clone(), results: told });
    assert(before + hunt.events.push(
        EventView::Hunt { owner: old(account)@.owner, results: hunt.results },
    ) =~= (before + hunt.events).push(
        EventView::Hunt { owner: old(account)@.owner, results: hunt.results },
    ));
    Ok(results)
}

/// The gold a game score pays: one for every full hundred points, and the
/// bonus where the game is `"2048"` and the score reaches `BONUS_SCORE`.
pub open spec fn game_gold(score: u32, game_id: Seq<char>) -> nat {
    if game_id == "2048"@ && score >= BONUS_SCORE {
        (score / 100 + BONUS_GOLD) as nat
    } else {
        (score / 100) as nat
    }
}

/// The experience a game score gives: one for every full fifty points.
pub open spec fn game_xp(score: u32) -> nat {
    (score / 50) as nat
}

/// The marker that a score was taken.
pub open spec fn success_marker() -> Seq<Seq<char>> {
    seq!["success"@]
}

/// The marker that a score was taken.
fn success() -> (marker: Vec<String>)
    ensures
        texts(marker@) == success_marker(),
{
    let mut marker: Vec<String> = Vec::new();
    marker.push("success".to_owned());
    assert(texts(marker@) =~= success_marker());
    marker
}

/// The gold a game score pays.
pub fn game_reward(score: u32, game_id: &str) -> (gold: u32)
    ensures
        gold == game_gold(score, game_id@),
{
    if same_text(game_id, "2048") && score >= BONUS_SCORE {
        score / 100 + BONUS_GOLD
    } else {
        score / 100
    }
}

/// What handing in a game score does. Only the owner's authorization gates
/// it, not the pause flag. It needs stats that were written before, as they
/// stand, with `GAME_COST` energy; nothing is regenerated.
pub open spec fn game_effect(
    call: Call,
    account: AccountView,
    score: u32,
    game_id: Seq<char>,
) -> Effect<Seq<Seq<char>>> {
    if !call.authorized {
        Effect::refused(account, GameError::Unauthorized)
    } else if account.stats is None {
        Effect::refused(account, GameError::NoStatsFound)
    } else if account.stats->0.energy < GAME_COST {
        Effect::refused(account, GameError::InsufficientEnergy)
    } else {
        let gold = game_gold(score, game_id);
        let paid = AccountView {
            stats: Some(account.stats->0.spend(GAME_COST as nat).earn(gold)),
            ..account
        };
        Effect {
            account: paid.granted(game_xp(score)),
            events: paid.grant_events(game_xp(score)).push(
                EventView::GameEnd {
                    owner: account.owner,
                    game_id,
                    score: score as nat,
                    gold_reward: gold,
                },
            ),
            result: Ok(success_marker()),
        }
    }
}

/// Whether `submit_game_score` can be called with these arguments: whether
/// the machine types can hold what it would write.
pub fn can_submit_game_score(
    call: &Call,
    account: &Account,
    score: u32,
    game_id: &str,
) -> (room: bool)
    ensures
        room == game_effect(*call, account@, score, game_id@).account.fits(),
{
    if !call.authorized {
        return true;
    }
    match account.stats {
        Some(stats) => stats.energy < GAME_COST || (stats.gold <= u32::MAX - game_reward(
            score,
            game_id,
        ) && can_grant(account, (score / 50) as u64)),
        None => true,
    }
}

/// Turns the score of an arcade game into gold for the owner and
/// experience for the pet.
pub fn submit_game_score(
    call: &Call,
    account: &mut Account,
    log: &mut Vec<Event>,
    score: u32,
    game_id: &str,
) -> (res: Result<Vec<String>, GameError>)
    requires
        game_effect(*call, old(account)@, score, game_id@).account.fits(),
    ensures
        ({
            let effect = game_effect(*call, old(account)@, score, game_id@);
            &&& final(account)@ == effect.account
            &&& event_views(final(log)@) == event_views(old(log)@) + effect.events
            &&& text_result(res) == effect.result
        }),
        old(account)@.wf() ==> final(account)@.wf(),
        final(account)@.owner == old(account)@.owner,
{
    assert(event_views(log@) + Seq::empty() =~= event_views(log@));
    if !call.authorized {
        return Err(GameError::Unauthorized);
    }
    let mut stats = match account.stats {
        Some(stats) => stats,
        None => {
            return Err(GameError::NoStatsFound);
        },
    };
    if stats.energy < GAME_COST {
        return Err(GameError::InsufficientEnergy);
    }
    stats.energy = stats.energy - GAME_COST;
    let gold_reward = game_reward(score, game_id);
    let xp_reward: u64 = (score / 50) as u64;
    stats.gold = stats.gold + gold_reward;
    account.stats = Some(stats);
    let ghost before = event_views(log@);
    let ghost paid = account@;
    grant(account, log, xp_reward);
    publish(
        log,
        Event::GameEnd {
            owner: account.owner.clone(),
            game_id: game_id.to_owned(),
            score,
            gold_reward,
        },
    );
    assert(event_views(log@) =~= before + paid.grant_events(xp_reward as nat).push(
        EventView::GameEnd {
            owner: account@.owner,
            game_id: game_id@,
            score: score as nat,
            gold_reward: gold_reward as nat,
        },
    ));
    Ok(success())
}

/// What handing in a pool score does. Only the owner's authorization gates
/// it. It needs stats that were written before, as they stand, with
/// `POOL_COST` energy; it pays two gold and five experience for each ball,
/// and stamps the stats with the time of the call.
pub open spec fn pool_effect(call: Call, account: AccountView, score: u32) -> Effect<
    Seq<Seq<char>>,
> {
    if !call.authorized {
        Effect::refused(account, GameError::Unauthorized)
    } else if account.stats is None {
        Effect::refused(account, GameError::NoStatsFound)
    } else if account.stats->0.energy < POOL_COST {
        Effect::refused(account, GameError::InsufficientEnergy)
    } else {
        let paid = AccountView {
            stats: Some(
                account.stats->0.spend(POOL_COST as nat).earn(2 * score as nat).stamped(
                    call.timestamp as nat,
                ),
            ),
            ..account
        };
        Effect {
            account: paid.granted(5 * score as nat),
            events: paid.grant_events(5 * score as nat),
            result: Ok(success_marker()),
        }
    }
}

/// Whether `submit_pool_score` can be called with these arguments: whether
/// the machine types can hold what it would write.
pub fn can_submit_pool_score(call: &Call, account: &Account, score: u32) -> (room: bool)
    ensures
        room == pool_effect(*call, account@, score).account.fits(),
{
    if !call.authorized {
        return true;
    }
    match account.stats {
        Some(stats) => stats.energy < POOL_COST || ((stats.gold as u64) + 2 * (score as u64) <= (
        u32::MAX as u64) && can_grant(account, 5 * (score as u64))),
        None => true,
    }
}

/// Turns the score of a pool game into gold for the owner and experience
/// for the pet.
pub fn submit_pool_score(
    call: &Call,
    account: &mut Account,
    log: &mut Vec<Event>,
    score: u32,
) -> (res: Result<Vec<String>, GameError>)
    requires
        pool_effect(*call, old(account)@, score).account.fits(),
    ensures
        ({
            let effect = pool_effect(*call, old(account)@, score);
            &&& final(account)@ == effect.account
            &&& event_views(final(log)@) == event_views(old(log)@) + effect.events
            &&& text_result(res) == effect.result
        }),
        old(account)@.wf() ==> final(account)@.wf(),
        final(account)@.owner == old(account)@.owner,
{
    assert(event_views(log@) + Seq::empty() =~= event_views(log@));
    if !call.authorized {
        return Err(GameError::Unauthorized);
    }
    let mut stats = match account.stats {
        Some(stats) => stats,
        None => {
            return Err(GameError::NoStatsFound);
        },
    };
    if stats.energy < POOL_COST {
        return Err(GameError::InsufficientEnergy);
    }
    stats.energy = stats.energy - POOL_COST;
    let gold_reward: u64 = 2 * (score as u64);
    let xp_reward: u64 = 5 * (score as u64);
    stats.gold = ((stats.gold as u64) + gold_reward) as u32;
    stats.last_update = call.timestamp;
    account.stats = Some(stats);
    grant(account, log, xp_reward);
    Ok(success())
}

} // verus!
