use vstd::prelude::*;
use crate::admin::{check_gate, AdminConfig, AdminView};
use crate::effect::Effect;
use crate::error::GameError;
use crate::events::{event_views, publish, Event, EventView};
use crate::types::{Account, AccountView, Call, Pet, PetStats, PetView, StatsView};

verus! {

/// The identifier a mint hands back. Every owner's only pet has it.
pub const PET_ID: u64 = 1;

impl Pet {
    /// Grants `amount` experience and says whether that moved the pet up a
    /// level. At most one level is gained by one grant.
    pub fn grant_xp(&mut self, amount: u64) -> (leveled: bool)
        requires
            old(self)@.gain(amount as nat).fits(),
        ensures
            final(self)@ == old(self)@.gain(amount as nat),
            leveled == old(self)@.levels_up(amount as nat),
    {
        let needed: u64 = (self.level as u64) * 100;
        if self.xp >= needed {
            self.xp = (self.xp - needed) + amount;
            self.level = self.level + 1;
            true
        } else if amount >= needed - self.xp {
            self.xp = amount - (needed - self.xp);
            self.level = self.level + 1;
            true
        } else {
            self.xp = self.xp + amount;
            false
        }
    }

    /// Whether the pet can take a grant of `amount`: whether its level and
    /// experience after the grant are within what a `Pet` can hold.
    pub fn can_gain(&self, amount: u64) -> (room: bool)
        ensures
            room == self@.gain(amount as nat).fits(),
    {
        let needed: u64 = (self.level as u64) * 100;
        if self.xp >= needed {
            self.level < u32::MAX && amount <= u64::MAX - (self.xp - needed)
        } else if amount >= needed - self.xp {
            self.level < u32::MAX
        } else {
            true
        }
    }
}

/// The view of a pet that may be absent.
pub open spec fn pet_view(pet: Option<Pet>) -> Option<PetView> {
    match pet {
        Some(pet) => Some(pet@),
        None => None,
    }
}

impl AccountView {
    /// The events of a grant of `amount`: a level-up notice with the new
    /// level where the pet moved up, nothing otherwise.
    pub open spec fn grant_events(self, amount: nat) -> Seq<EventView> {
        match self.pet {
            Some(pet) if pet.levels_up(amount) => seq![
                EventView::LevelUp { owner: self.owner, level: pet.level + 1 },
            ],
            _ => Seq::empty(),
        }
    }
}

/// The routine behind every reward: grants the account's pet `amount`
/// experience and publishes a level-up notice where it moved up. An account
/// without a pet is left as it is, silently.
pub fn grant(account: &mut Account, log: &mut Vec<Event>, amount: u64)
    requires
        old(account)@.granted(amount as nat).fits(),
    ensures
        final(account)@ == old(account)@.granted(amount as nat),
        event_views(final(log)@) == event_views(old(log)@) + old(account)@.grant_events(
            amount as nat,
        ),
{
    let mut leveled = false;
    let mut level: u32 = 0;
    match &mut account.pet {
        Some(pet) => {
            leveled = pet.grant_xp(amount);
            level = pet.level;
        },
        None => {},
    }
    if leveled {
        publish(log, Event::LevelUp { owner: account.owner.clone(), level });
    }
    assert(event_views(log@) =~= event_views(old(log)@) + old(account)@.grant_events(
        amount as nat,
    ));
}

/// Whether the account's pet, if there is one, can take a grant of
/// `amount`.
pub fn can_grant(account: &Account, amount: u64) -> (room: bool)
    ensures
        room == account@.granted(amount as nat).fits(),
{
    match &account.pet {
        Some(pet) => pet.can_gain(amount),
        None => true,
    }
}

/// What a mint does. It is gated by the pause flag and the owner's
/// authorization, and refused where the owner has a pet. Otherwise the
/// owner gets a pet named `name` and stats as of a mint, whatever stats
/// were there before.
pub open spec fn mint_effect(
    config: AdminView,
    call: Call,
    account: AccountView,
    name: Seq<char>,
) -> Effect<u64> {
    if let Some(error) = config.gate_error(call.authorized) {
        Effect::refused(account, error)
    } else if account.pet is Some {
        Effect::refused(account, GameError::AlreadyOwned)
    } else {
        Effect {
            account: AccountView {
                pet: Some(PetView::hatched(account.owner, name, call.timestamp as nat)),
                stats: Some(StatsView::fresh(call.timestamp as nat, 0)),
                ..account
            },
            events: seq![EventView::Mint { owner: account.owner, id: PET_ID as nat }],
            result: Ok(PET_ID),
        }
    }
}

/// Mints the owner's pet: level 1, no experience, an egg, born at the time
/// of the call.
pub fn mint_pet(
    config: &AdminConfig,
    call: &Call,
    account: &mut Account,
    log: &mut Vec<Event>,
    name: &str,
) -> (res: Result<u64, GameError>)
    ensures
        ({
            let effect = mint_effect(config@, *call, old(account)@, name@);
            &&& final(account)@ == effect.account
            &&& event_views(final(log)@) == event_views(old(log)@) + effect.events
            &&& res == effect.result
        }),
        old(account)@.wf() ==> final(account)@.wf(),
        final(account)@.owner == old(account)@.owner,
{
    assert(event_views(log@) + Seq::empty() =~= event_views(log@));
    if let Err(error) = check_gate(config, call.authorized) {
        return Err(error);
    }
    if account.pet.is_some() {
        return Err(GameError::AlreadyOwned);
    }
    let pet = Pet {
        name: name.to_owned(),
        owner: account.owner.clone(),
        birth_date: call.timestamp,
        level: 1,
        xp: 0,
        design: "egg".to_owned(),
    };
    account.stats = Some(PetStats::minted_at(call.timestamp));
    account.pet = Some(pet);
    publish(log, Event::Mint { owner: account.owner.clone(), id: PET_ID });
    assert(event_views(log@) =~= event_views(old(log)@) + seq![
        EventView::Mint { owner: account@.owner, id: PET_ID as nat },
    ]);
    Ok(PET_ID)
}

/// The owner's pet, if there is one.
pub fn get_pet(account: &Account) -> (pet: Option<Pet>)
    ensures
        pet_view(pet) == account@.pet,
{
    match &account.pet {
        Some(pet) => Some(pet.duplicate()),
        None => None,
    }
}

/// What a grant of experience from outside does. It is gated by the pause
/// flag and the owner's authorization. Without a pet nothing happens, and
/// that is no error.
pub open spec fn add_xp_effect(
    config: AdminView,
    call: Call,
    account: AccountView,
    amount: u64,
) -> Effect<()> {
    if let Some(error) = config.gate_error(call.authorized) {
        Effect::refused(account, error)
    } else {
        Effect {
            account: account.granted(amount as nat),
            events: account.grant_events(amount as nat),
            result: Ok(()),
        }
    }
}

/// Whether `add_xp` can be called with these arguments: whether the machine
/// types can hold what it would write.
pub fn can_add_xp(config: &AdminConfig, call: &Call, account: &Account, amount: u64) -> (room:
    bool)
    ensures
        room == add_xp_effect(config@, *call, account@, amount).account.fits(),
{
    check_gate(config, call.authorized).is_err() || can_grant(account, amount)
}

/// Grants the owner's pet `amount` experience.
pub fn add_xp(
    config: &AdminConfig,
    call: &Call,
    account: &mut Account,
    log: &mut Vec<Event>,
    amount: u64,
) -> (res: Result<(), GameError>)
    requires
        add_xp_effect(config@, *call, old(account)@, amount).account.fits(),
    ensures
        ({
            let effect = add_xp_effect(config@, *call, old(account)@, amount);
            &&& final(account)@ == effect.account
            &&& event_views(final(log)@) == event_views(old(log)@) + effect.events
            &&& res == effect.result
        }),
        old(account)@.wf() ==> final(account)@.wf(),
        final(account)@.owner == old(account)@.owner,
{
    assert(event_views(log@) + Seq::empty() =~= event_views(log@));
    if let Err(error) = check_gate(config, call.authorized) {
        return Err(error);
    }
    grant(account, log, amount);
    Ok(())
}

/// What a change of design does. It is gated by the pause flag and the
/// owner's authorization. Without a pet nothing happens, and that is no
/// error.
pub open spec fn change_design_effect(
    config: AdminView,
    call: Call,
    account: AccountView,
    new_design: Seq<char>,
) -> Effect<()> {
    if let Some(error) = config.gate_error(call.authorized) {
        Effect::refused(account, error)
    } else {
        match account.pet {
            Some(pet) => Effect {
                account: AccountView {
                    pet: Some(PetView { design: new_design, ..pet }),
                    ..account
                },
                events: seq![
                    EventView::DesignChanged { owner: account.owner, design: new_design },
                ],
                result: Ok(()),
            },
            None => Effect { account, events: Seq::empty(), result: Ok(()) },
        }
    }
}

/// Gives the owner's pet a new design.
pub fn change_design(
    config: &AdminConfig,
    call: &Call,
    account: &mut Account,
    log: &mut Vec<Event>,
    new_design: &str,
) -> (res: Result<(), GameError>)
    ensures
        ({
            let effect = change_design_effect(config@, *call, old(account)@, new_design@);
            &&& final(account)@ == effect.account
            &&& event_views(final(log)@) == event_views(old(log)@) + effect.events
            &&& res == effect.result
        }),
        old(account)@.wf() ==> final(account)@.wf(),
        final(account)@.owner == old(account)@.owner,
{
    assert(event_views(log@) + Seq::empty() =~= event_views(log@));
    if let Err(error) = check_gate(config, call.authorized) {
        return Err(error);
    }
    let mut changed = false;
    match &mut account.pet {
        Some(pet) => {
            pet.design = new_design.to_owned();
            changed = true;
        },
        None => {},
    }
    if changed {
        publish(
            log,
            Event::DesignChanged { owner: account.owner.clone(), design: new_design.to_owned() },
        );
        assert(event_views(log@) =~= event_views(old(log)@) + seq![
            EventView::DesignChanged { owner: account@.owner, design: new_design@ },
        ]);
    }
    Ok(())
}

/// What a release does. It is gated by the pause flag and the owner's
/// authorization. The pet is gone afterwards; stats and badges stay. Where
/// there was no pet nothing happens, and that is no error. Nothing is
/// published.
pub open spec fn release_effect(config: AdminView, call: Call, account: AccountView) -> Effect<
    (),
> {
    if let Some(error) = config.gate_error(call.authorized) {
        Effect::refused(account, error)
    } else {
        Effect {
            account: AccountView { pet: None, ..account },
            events: Seq::empty(),
            result: Ok(()),
        }
    }
}

/// Releases the owner's pet, so that the owner may mint again.
pub fn release_pet(config: &AdminConfig, call: &Call, account: &mut Account) -> (res: Result<
    (),
    GameError,
>)
    ensures
        final(account)@ == release_effect(config@, *call, old(account)@).account,
        res == release_effect(config@, *call, old(account)@).result,
        old(account)@.wf() ==> final(account)@.wf(),
        final(account)@.owner == old(account)@.owner,
{
    if let Err(error) = check_gate(config, call.authorized) {
        return Err(error);
    }
    account.pet = None;
    Ok(())
}

impl PetView {
    /// The pet after the grants of `amounts`, one after the other.
    pub open spec fn gain_all(self, amounts: Seq<nat>) -> PetView
        decreases amounts.len(),
    {
        if amounts.len() == 0 {
            self
        } else {
            self.gain_all(amounts.drop_last()).gain(amounts.last())
        }
    }

    /// Whether a grant of `amount` stays below the threshold of the next
    /// level, so that one level-up is enough to settle it.
    pub open spec fn absorbs(self, amount: nat) -> bool {
        self.xp + amount < (2 * self.level + 1) * 100
    }

    /// Whether each grant of `amounts`, at the time it comes, can be settled
    /// by one level-up.
    pub open spec fn absorbs_all(self, amounts: Seq<nat>) -> bool {
        forall|k: int|
            0 <= k < amounts.len() ==> (#[trigger] self.gain_all(amounts.take(k))).absorbs(
                amounts[k],
            )
    }
}

/// After a grant the experience is below the threshold of the level exactly
/// when the grant stayed below the threshold of the next level: a grant
/// moves the pet up one level at most, and a larger one leaves experience
/// beyond the new threshold.
pub proof fn lemma_grant_settles(pet: PetView, amount: nat)
    ensures
        pet.gain(amount).settled() <==> pet.absorbs(amount),
{
    assert((pet.level + 1) * 100 == pet.level * 100 + 100) by (nonlinear_arith);
    assert((2 * pet.level + 1) * 100 == 2 * (pet.level * 100) + 100) by (nonlinear_arith);
}

/// A grant never lowers the level, and adds exactly its amount to the
/// experience earned in all.
pub proof fn lemma_grant_progress(pet: PetView, amount: nat)
    ensures
        pet.gain(amount).level >= pet.level,
        pet.gain(amount).progress() == pet.progress() + amount,
{
    let l = pet.level as int;
    assert(50 * l * (l - 1) >= 0) by (nonlinear_arith)
        requires
            l >= 0,
    ;
    assert(50 * (l + 1) * ((l + 1) - 1) == 50 * l * (l - 1) + l * 100) by (nonlinear_arith);
}

/// Over any sequence of grants of which each can be settled by one
/// level-up, the experience is below the threshold of the level after every
/// grant, the level never goes down, and the experience earned in all grows
/// by each amount.
pub proof fn lemma_grants_keep_settled(pet: PetView, amounts: Seq<nat>)
    requires
        pet.absorbs_all(amounts),
    ensures
        forall|k: int|
            0 < k <= amounts.len() ==> (#[trigger] pet.gain_all(amounts.take(k))).settled(),
        forall|k: int|
            0 <= k < amounts.len() ==> {
                &&& pet.gain_all(amounts.take(k + 1)).level >= (#[trigger] pet.gain_all(
                    amounts.take(k),
                )).level
                &&& pet.gain_all(amounts.take(k + 1)).progress() == pet.gain_all(
                    amounts.take(k),
                ).progress() + amounts[k]
            },
{
    assert forall|k: int| 0 <= k < amounts.len() implies {
        &&& (#[trigger] pet.gain_all(amounts.take(k + 1))).settled()
        &&& pet.gain_all(amounts.take(k + 1)).level >= pet.gain_all(amounts.take(k)).level
        &&& pet.gain_all(amounts.take(k + 1)).progress() == pet.gain_all(
            amounts.take(k),
        ).progress() + amounts[k]
    } by {
        let before = pet.gain_all(amounts.take(k));
        assert(amounts.take(k + 1).drop_last() =~= amounts.take(k));
        assert(amounts.take(k + 1).last() == amounts[k]);
        assert(pet.gain_all(amounts.take(k + 1)) == before.gain(amounts[k]));
        assert(before.absorbs(amounts[k]));
        lemma_grant_settles(before, amounts[k]);
        lemma_grant_progress(before, amounts[k]);
    }
    assert forall|k: int| 0 < k <= amounts.len() implies (#[trigger] pet.gain_all(
        amounts.take(k),
    )).settled() by {
        assert(pet.gain_all(amounts.take((k - 1) + 1)).settled());
    }
}

/// Minting is once per owner: after a mint that went through, no further
/// mint for the same owner does, and one that is neither paused nor
/// unauthorized is refused with `AlreadyOwned`.
pub proof fn lemma_mint_is_once(
    config: AdminView,
    first: Call,
    account: AccountView,
    name: Seq<char>,
    later_config: AdminView,
    second: Call,
    other_name: Seq<char>,
)
    requires
        mint_effect(config, first, account, name).result is Ok,
    ensures
        ({
            let minted = mint_effect(config, first, account, name).account;
            let again = mint_effect(later_config, second, minted, other_name);
            &&& again.result is Err
            &&& again.account == minted
            &&& later_config.gate_error(second.authorized) is None ==> again.result == Err::<
                u64,
                GameError,
            >(GameError::AlreadyOwned)
        }),
{
}

/// After a release that went through, a mint that is neither paused nor
/// unauthorized goes through, whether or not the owner had a pet before.
pub proof fn lemma_mint_after_release(
    config: AdminView,
    release: Call,
    account: AccountView,
    later_config: AdminView,
    mint: Call,
    name: Seq<char>,
)
    requires
        release_effect(config, release, account).result is Ok,
        later_config.gate_error(mint.authorized) is None,
    ensures
        ({
            let released = release_effect(config, release, account).account;
            let minted = mint_effect(later_config, mint, released, name);
            &&& minted.result == Ok::<u64, GameError>(PET_ID)
            &&& minted.account.pet == Some(
                PetView::hatched(account.owner, name, mint.timestamp as nat),
            )
        }),
{
}

} // verus!
