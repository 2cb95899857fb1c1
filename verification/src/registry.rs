use vstd::prelude::*;
use crate::academy::claim_effect;
use crate::admin::{AdminConfig, AdminView};
use crate::battle::{battle_effect, game_effect, hunt_effect, hunt_fits, pool_effect};
use crate::effect::{loot_result, text_result, Effect};
use crate::error::GameError;
use crate::events::{event_views, Event, EventView};
use crate::pet::{add_xp_effect, change_design_effect, mint_effect, pet_view, release_effect};
use crate::shop::purchase_effect;
use crate::stats::train_effect;
use crate::tags::{same_text, Loot, Outcome, ShopItem};
use crate::types::{texts, Account, AccountView, Call, Pet, PetStats, MAX_ENERGY};

verus! {

/// The whole game in memory: the configuration, the account of every owner
/// who ever did anything, and the log of the events published so far.
pub struct PetRegistry {
    config: AdminConfig,
    accounts: Vec<Account>,
    log: Vec<Event>,
}

/// Whether every owner's account in `after` is as it is in `before`.
pub open spec fn same_accounts(before: PetRegistry, after: PetRegistry) -> bool {
    forall|owner: Seq<char>| #[trigger] after.account(owner) == before.account(owner)
}

/// Whether `after` is `before` with `effect` applied to the account of
/// `owner`: that account is as the effect says, every other owner's account
/// and the configuration are as they were, and the effect's events are at
/// the end of the log.
pub open spec fn applied<T>(
    before: PetRegistry,
    after: PetRegistry,
    owner: Seq<char>,
    effect: Effect<T>,
) -> bool {
    &&& after.wf()
    &&& after.config() == before.config()
    &&& after.account(owner) == effect.account
    &&& forall|other: Seq<char>|
        other != owner ==> #[trigger] after.account(other) == before.account(other)
    &&& after.log() == before.log() + effect.events
}

impl PetRegistry {
    /// The configuration.
    pub closed spec fn config(&self) -> AdminView {
        self.config@
    }

    /// The events published so far, oldest first.
    pub closed spec fn log(&self) -> Seq<EventView> {
        event_views(self.log@)
    }

    /// Whether the account at place `i` is that of `owner`.
    spec fn kept_at(&self, owner: Seq<char>, i: int) -> bool {
        0 <= i < self.accounts@.len() && self.accounts@[i].owner@ == owner
    }

    /// Whether an account is kept for `owner`.
    spec fn keeps(&self, owner: Seq<char>) -> bool {
        exists|i: int| self.kept_at(owner, i)
    }

    /// The account of `owner`; that of an owner who never did anything is
    /// empty.
    pub closed spec fn account(&self, owner: Seq<char>) -> AccountView {
        if self.keeps(owner) {
            self.accounts@[choose|i: int| self.kept_at(owner, i)]@
        } else {
            AccountView::empty(owner)
        }
    }

    /// No owner has two accounts.
    pub closed spec fn inv(&self) -> bool {
        forall|i: int, j: int|
            0 <= i < j < self.accounts@.len() ==> (#[trigger] self.accounts@[i]).owner@ != (
            #[trigger] self.accounts@[j]).owner@
    }

    /// Every account belongs to the owner it is kept for, no stored energy
    /// exceeds the cap, and nobody holds a badge twice.
    pub open spec fn wf(&self) -> bool {
        &&& self.inv()
        &&& forall|owner: Seq<char>|
            (#[trigger] self.account(owner)).owner == owner && self.account(owner).wf()
    }

    /// An empty registry: nobody administers it, it is not paused, nobody
    /// has anything, nothing was published.
    pub fn new() -> (registry: PetRegistry)
        ensures
            registry.wf(),
            registry.config() == AdminView::initial(),
            registry.log() == Seq::<EventView>::empty(),
            forall|owner: Seq<char>|
                #[trigger] registry.account(owner) == AccountView::empty(owner),
    {
        let registry = PetRegistry {
            config: AdminConfig::new(),
            accounts: Vec::new(),
            log: Vec::new(),
        };
        assert(registry.log() =~= Seq::<EventView>::empty());
        registry
    }

    /// Where an account of `owner` is kept at place `i`, it is the account
    /// of `owner`.
    proof fn lemma_kept(&self, owner: Seq<char>, i: int)
        requires
            self.inv(),
            self.kept_at(owner, i),
        ensures
            self.keeps(owner),
            self.account(owner) == self.accounts@[i]@,
    {
        let chosen = choose|j: int| self.kept_at(owner, j);
        assert(self.accounts@[chosen].owner@ == self.accounts@[i].owner@);
    }

    /// Where the accounts are kept as they were, every owner's account is
    /// as it was.
    proof fn lemma_same_accounts(before: PetRegistry, after: PetRegistry)
        requires
            before.wf(),
            after.accounts == before.accounts,
            after.log == before.log,
        ensures
            after.wf(),
            same_accounts(before, after),
            after.log() == before.log(),
    {
        assert forall|owner: Seq<char>| after.account(owner) == before.account(owner) by {
            assert forall|i: int| after.kept_at(owner, i) == before.kept_at(owner, i) by {}
            assert(after.keeps(owner) == before.keeps(owner));
        }
    }

    /// Where one account was replaced by another of the same owner, that
    /// owner's account is the new one and all others are as before.
    proof fn lemma_replaced(before: PetRegistry, after: PetRegistry, i: int)
        requires
            before.inv(),
            0 <= i < before.accounts@.len(),
            after.accounts@.len() == before.accounts@.len(),
            after.accounts@[i].owner@ == before.accounts@[i].owner@,
            forall|j: int|
                0 <= j < before.accounts@.len() && j != i ==> after.accounts@[j]
                    == before.accounts@[j],
        ensures
            after.inv(),
            after.account(before.accounts@[i].owner@) == after.accounts@[i]@,
            forall|other: Seq<char>|
                other != before.accounts@[i].owner@ ==> after.account(other) == before.account(
                    other,
                ),
    {
        let owner = before.accounts@[i].owner@;
        assert forall|a: int, b: int| 0 <= a < b < after.accounts@.len() implies (
        #[trigger] after.accounts@[a]).owner@ != (#[trigger] after.accounts@[b]).owner@ by {
            assert(after.accounts@[a].owner@ == before.accounts@[a].owner@);
            assert(after.accounts@[b].owner@ == before.accounts@[b].owner@);
        }
        assert(after.kept_at(owner, i));
        after.lemma_kept(owner, i);
        assert forall|other: Seq<char>| other != owner implies after.account(other)
            == before.account(other) by {
            if before.keeps(other) {
                let j = choose|j: int| before.kept_at(other, j);
                assert(after.kept_at(other, j));
                after.lemma_kept(other, j);
            } else if after.keeps(other) {
                let j = choose|j: int| after.kept_at(other, j);
                assert(before.kept_at(other, j));
            }
        }
    }

    /// The place of the account of `owner`, if one is kept.
    fn find(&self, owner: &str) -> (place: Option<usize>)
        requires
            self.inv(),
        ensures
            match place {
                Some(i) => self.kept_at(owner@, i as int) && self.account(owner@)
                    == self.accounts@[i as int]@,
                None => !self.keeps(owner@) && self.account(owner@) == AccountView::empty(
                    owner@,
                ),
            },
    {
        let mut i: usize = 0;
        while i < self.accounts.len()
            invariant
                self.inv(),
                0 <= i <= self.accounts@.len(),
                forall|j: int| 0 <= j < i ==> !self.kept_at(owner@, j),
            decreases self.accounts@.len() - i,
        {
            if same_text(self.accounts[i].owner.as_str(), owner) {
                proof {
                    self.lemma_kept(owner@, i as int);
                }
                return Some(i);
            }
            i = i + 1;
        }
        None
    }

    /// The place of the account of `owner`; an empty one is made where none
    /// is kept. Nobody's account changes by that.
    fn locate(&mut self, owner: &str) -> (i: usize)
        requires
            old(self).inv(),
        ensures
            final(self).inv(),
            final(self).config == old(self).config,
            final(self).log == old(self).log,
            final(self).kept_at(owner@, i as int),
            final(self).accounts@[i as int]@ == old(self).account(owner@),
            forall|other: Seq<char>| final(self).account(other) == old(self).account(other),
    {
        match self.find(owner) {
            Some(i) => i,
            None => {
                let i = self.accounts.len();
                self.accounts.push(Account::new(owner.to_owned()));
                proof {
                    let before = *old(self);
                    let after = *self;
                    assert(after.kept_at(owner@, i as int));
                    assert forall|a: int, b: int|
                        0 <= a < b < after.accounts@.len() implies (
                    #[trigger] after.accounts@[a]).owner@ != (
                    #[trigger] after.accounts@[b]).owner@ by {
                        assert(after.accounts@[a] == before.accounts@[a]);
                        if b == i {
                            assert(!before.kept_at(owner@, a));
                        } else {
                            assert(after.accounts@[b] == before.accounts@[b]);
                        }
                    }
                    assert forall|other: Seq<char>| after.account(other) == before.account(
                        other,
                    ) by {
                        if other == owner@ {
                            after.lemma_kept(other, i as int);
                        } else if before.keeps(other) {
                            let j = choose|j: int| before.kept_at(other, j);
                            assert(after.accounts@[j] == before.accounts@[j]);
                            assert(after.kept_at(other, j));
                            after.lemma_kept(other, j);
                        } else if after.keeps(other) {
                            let j = choose|j: int| after.kept_at(other, j);
                            assert(before.accounts@[j] == after.accounts@[j]);
                            assert(before.kept_at(other, j));
                        }
                    }
                }
                i
            },
        }
    }

    /// Records the administrator of the registry. Nobody is asked to
    /// authorize it; whoever asks first is recorded.
    pub fn initialize(&mut self, admin: &str) -> (res: Result<(), GameError>)
        requires
            old(self).wf(),
        ensures
            final(self).wf(),
            same_accounts(*old(self), *final(self)),
            final(self).log() == old(self).log(),
            match old(self).config().initialize_error() {
                Some(error) => res == Err::<(), GameError>(error) && final(self).config() == old(
                    self,
                ).config(),
                None => res is Ok && final(self).config() == (AdminView {
                    admin: Some(admin@),
                    ..old(self).config()
                }),
            },
    {
        let res = crate::admin::initialize(&mut self.config, admin.to_owned());
        proof {
            Self::lemma_same_accounts(*old(self), *self);
        }
        res
    }

    /// Sets the pause flag. `authorized` tells whether the administrator
    /// authorized the call.
    pub fn set_paused(&mut self, authorized: bool, paused: bool) -> (res: Result<(), GameError>)
        requires
            old(self).wf(),
        ensures
            final(self).wf(),
            same_accounts(*old(self), *final(self)),
            final(self).log() == old(self).log(),
            match old(self).config().set_paused_error(authorized) {
                Some(error) => res == Err::<(), GameError>(error) && final(self).config() == old(
                    self,
                ).config(),
                None => res is Ok && final(self).config() == (AdminView {
                    paused,
                    ..old(self).config()
                }),
            },
    {
        let res = crate::admin::set_paused(&mut self.config, authorized, paused);
        proof {
            Self::lemma_same_accounts(*old(self), *self);
        }
        res
    }

    /// Whether the registry is paused.
    pub fn is_paused(&self) -> (paused: bool)
        ensures
            paused == self.config().paused,
    {
        crate::admin::is_paused(&self.config)
    }

    /// Mints a pet named `name` for `owner` and returns its identifier.
    pub fn mint_pet(&mut self, call: &Call, owner: &str, name: &str) -> (res: Result<
        u64,
        GameError,
    >)
        requires
            old(self).wf(),
        ensures
            ({
                let effect = mint_effect(
                    old(self).config(),
                    *call,
                    old(self).account(owner@),
                    name@,
                );
                applied(*old(self), *final(self), owner@, effect) && res == effect.result
            }),
    {
        let i = self.locate(owner);
        let ghost mid = *self;
        let res = crate::pet::mint_pet(
            &self.config,
            call,
            &mut self.accounts[i],
            &mut self.log,
            name,
        );
        proof {
            Self::lemma_replaced(mid, *self, i as int);
        }
        res
    }

    /// The pet of `owner`, if there is one.
    pub fn get_pet(&self, owner: &str) -> (pet: Option<Pet>)
        requires
            self.wf(),
        ensures
            pet_view(pet) == self.account(owner@).pet,
    {
        match self.find(owner) {
            Some(i) => crate::pet::get_pet(&self.accounts[i]),
            None => None,
        }
    }

    /// Whether `add_xp` can be called with these arguments: whether the
    /// machine types can hold what it would write.
    pub fn can_add_xp(&self, call: &Call, owner: &str, amount: u64) -> (room: bool)
        requires
            self.wf(),
        ensures
            room == add_xp_effect(
                self.config(),
                *call,
                self.account(owner@),
                amount,
            ).account.fits(),
    {
        match self.find(owner) {
            Some(i) => crate::pet::can_add_xp(&self.config, call, &self.accounts[i], amount),
            None => true,
        }
    }

    /// Grants the pet of `owner` `amount` experience.
    pub fn add_xp(&mut self, call: &Call, owner: &str, amount: u64) -> (res: Result<
        (),
        GameError,
    >)
        requires
            old(self).wf(),
            add_xp_effect(
                old(self).config(),
                *call,
                old(self).account(owner@),
                amount,
            ).account.fits(),
        ensures
            ({
                let effect = add_xp_effect(
                    old(self).config(),
                    *call,
                    old(self).account(owner@),
                    amount,
                );
                applied(*old(self), *final(self), owner@, effect) && res == effect.result
            }),
    {
        let i = self.locate(owner);
        let ghost mid = *self;
        let res = crate::pet::add_xp(
            &self.config,
            call,
            &mut self.accounts[i],
            &mut self.log,
            amount,
        );
        proof {
            Self::lemma_replaced(mid, *self, i as int);
        }
        res
    }

    /// Gives the pet of `owner` a new design.
    pub fn change_design(&mut self, call: &Call, owner: &str, new_design: &str) -> (res: Result<
        (),
        GameError,
    >)
        requires
            old(self).wf(),
        ensures
            ({
                let effect = change_design_effect(
                    old(self).config(),
                    *call,
                    old(self).account(owner@),
                    new_design@,
                );
                applied(*old(self), *final(self), owner@, effect) && res == effect.result
            }),
    {
        let i = self.locate(owner);
        let ghost mid = *self;
        let res = crate::pet::change_design(
            &self.config,
            call,
            &mut self.accounts[i],
            &mut self.log,
            new_design,
        );
        proof {
            Self::lemma_replaced(mid, *self, i as int);
        }
        res
    }

    /// Releases the pet of `owner`, so that the owner may mint again.
    pub fn release_pet(&mut self, call: &Call, owner: &str) -> (res: Result<(), GameError>)
        requires
            old(self).wf(),
        ensures
            ({
                let effect = release_effect(
                    old(self).config(),
                    *call,
                    old(self).account(owner@),
                );
                applied(*old(self), *final(self), owner@, effect) && res == effect.result
            }),
    {
        let i = self.locate(owner);
        let ghost mid = *self;
        let res = crate::pet::release_pet(&self.config, call, &mut self.accounts[i]);
        proof {
            Self::lemma_replaced(mid, *self, i as int);
            assert(self.log() + Seq::<EventView>::empty() =~= self.log());
        }
        res
    }

    /// The stats of `owner` as of `now`: those stored, regenerated, or the
    /// default. Nothing is written.
    pub fn get_stats(&self, owner: &str, now: u64) -> (stats: PetStats)
        requires
            self.wf(),
        ensures
            stats@ == self.account(owner@).current_stats(now as nat),
            stats@.wf(),
    {
        match self.find(owner) {
            Some(i) => {
                assert(self.account(owner@).wf());
                crate::stats::get_stats(&self.accounts[i], now)
            },
            None => PetStats::default_at(now),
        }
    }

    /// Whether `train_stat` can be called with these arguments: whether the
    /// machine types can hold what it would write.
    pub fn can_train_stat(&self, call: &Call, owner: &str, stat: &str) -> (room: bool)
        requires
            self.wf(),
        ensures
            room == train_effect(
                self.config(),
                *call,
                self.account(owner@),
                stat@,
            ).account.fits(),
    {
        match self.find(owner) {
            Some(i) => crate::stats::can_train_stat(&self.config, call, &self.accounts[i], stat),
            None => {
                let fresh = Account::new(owner.to_owned());
                crate::stats::can_train_stat(&self.config, call, &fresh, stat)
            },
        }
    }

    /// Trains the attribute of `owner` that `stat` names.
    pub fn train_stat(&mut self, call: &Call, owner: &str, stat: &str) -> (res: Result<
        (),
        GameError,
    >)
        requires
            old(self).wf(),
            train_effect(
                old(self).config(),
                *call,
                old(self).account(owner@),
                stat@,
            ).account.fits(),
        ensures
            ({
                let effect = train_effect(
                    old(self).config(),
                    *call,
                    old(self).account(owner@),
                    stat@,
                );
                applied(*old(self), *final(self), owner@, effect) && res == effect.result
            }),
    {
        let i = self.locate(owner);
        let ghost mid = *self;
        let res = crate::stats::train_stat(
            &self.config,
            call,
            &mut self.accounts[i],
            &mut self.log,
            stat,
        );
        proof {
            Self::lemma_replaced(mid, *self, i as int);
        }
        res
    }

    /// Buys a potion for `owner`.
    pub fn buy_potion(&mut self, call: &Call, owner: &str) -> (res: Result<(), GameError>)
        requires
            old(self).wf(),
        ensures
            ({
                let effect = purchase_effect(
                    old(self).config(),
                    *call,
                    old(self).account(owner@),
                    ShopItem::Potion,
                );
                applied(*old(self), *final(self), owner@, effect) && res == effect.result
            }),
    {
        let i = self.locate(owner);
        let ghost mid = *self;
        let res = crate::shop::buy_potion(
            &self.config,
            call,
            &mut self.accounts[i],
            &mut self.log,
        );
        proof {
            Self::lemma_replaced(mid, *self, i as int);
        }
        res
    }

    /// Buys a small potion for `owner`.
    pub fn buy_small_potion(&mut self, call: &Call, owner: &str) -> (res: Result<(), GameError>)
        requires
            old(self).wf(),
        ensures
            ({
                let effect = purchase_effect(
                    old(self).config(),
                    *call,
                    old(self).account(owner@),
                    ShopItem::SmallPotion,
                );
                applied(*old(self), *final(self), owner@, effect) && res == effect.result
            }),
    {
        let i = self.locate(owner);
        let ghost mid = *self;
        let res = crate::shop::buy_small_potion(
            &self.config,
            call,
            &mut self.accounts[i],
            &mut self.log,
        );
        proof {
            Self::lemma_replaced(mid, *self, i as int);
        }
        res
    }

    /// Whether `battle` can be called with these arguments: whether the
    /// machine types can hold what it would write.
    pub fn can_battle(&self, call: &Call, owner: &str, move_choice: &str) -> (room: bool)
        requires
            self.wf(),
        ensures
            room == battle_effect(
                self.config(),
                *call,
                self.account(owner@),
                move_choice@,
            ).account.fits(),
    {
        match self.find(owner) {
            Some(i) => crate::battle::can_battle(
                &self.config,
                call,
                &self.accounts[i],
                move_choice,
            ),
            None => true,
        }
    }

    /// Fights one round for `owner` and returns how it ended.
    pub fn battle(&mut self, call: &Call, owner: &str, move_choice: &str) -> (res: Result<
        Outcome,
        GameError,
    >)
        requires
            old(self).wf(),
            battle_effect(
                old(self).config(),
                *call,
                old(self).account(owner@),
                move_choice@,
            ).account.fits(),
        ensures
            ({
                let effect = battle_effect(
                    old(self).config(),
                    *call,
                    old(self).account(owner@),
                    move_choice@,
                );
                applied(*old(self), *final(self), owner@, effect) && res == effect.result
            }),
    {
        let i = self.locate(owner);
        let ghost mid = *self;
        let res = crate::battle::battle(
            &self.config,
            call,
            &mut self.accounts[i],
            &mut self.log,
            move_choice,
        );
        proof {
            Self::lemma_replaced(mid, *self, i as int);
        }
        res
    }

    /// Whether `play_hunt` can be called with these arguments: whether the
    /// machine types can hold the account after each move.
    pub fn can_play_hunt(&self, call: &Call, owner: &str, moves: &[u32]) -> (room: bool)
        requires
            self.wf(),
        ensures
            room == hunt_fits(self.config(), *call, self.account(owner@), moves@),
    {
        match self.find(owner) {
            Some(i) => crate::battle::can_play_hunt(&self.config, call, &self.accounts[i], moves),
            None => {
                let fresh = Account::new(owner.to_owned());
                crate::battle::can_play_hunt(&self.config, call, &fresh, moves)
            },
        }
    }

    /// Plays a batch of moves for `owner` and returns the loot in their
    /// order.
    pub fn play_hunt(&mut self, call: &Call, owner: &str, moves: &[u32]) -> (res: Result<
        Vec<Loot>,
        GameError,
    >)
        requires
            old(self).wf(),
            hunt_fits(old(self).config(), *call, old(self).account(owner@), moves@),
        ensures
            ({
                let effect = hunt_effect(
                    old(self).config(),
                    *call,
                    old(self).account(owner@),
                    moves@,
                );
                applied(*old(self), *final(self), owner@, effect) && loot_result(res)
                    == effect.result
            }),
    {
        let i = self.locate(owner);
        let ghost mid = *self;
        let res = crate::battle::play_hunt(
            &self.config,
            call,
            &mut self.accounts[i],
            &mut self.log,
            moves,
        );
        proof {
            Self::lemma_replaced(mid, *self, i as int);
        }
        res
    }

    /// Whether `submit_game_score` can be called with these arguments:
    /// whether the machine types can hold what it would write.
    pub fn can_submit_game_score(
        &self,
        call: &Call,
        owner: &str,
        score: u32,
        game_id: &str,
    ) -> (room: bool)
        requires
            self.wf(),
        ensures
            room == game_effect(*call, self.account(owner@), score, game_id@).account.fits(),
    {
        match self.find(owner) {
            Some(i) => crate::battle::can_submit_game_score(
                call,
                &self.accounts[i],
                score,
                game_id,
            ),
            None => true,
        }
    }

    /// Hands in the score `owner` made in the game `game_id`.
    pub fn submit_game_score(
        &mut self,
        call: &Call,
        owner: &str,
        score: u32,
        game_id: &str,
    ) -> (res: Result<Vec<String>, GameError>)
        requires
            old(self).wf(),
            game_effect(*call, old(self).account(owner@), score, game_id@).account.fits(),
        ensures
            ({
                let effect = game_effect(*call, old(self).account(owner@), score, game_id@);
                applied(*old(self), *final(self), owner@, effect) && text_result(res)
                    == effect.result
            }),
    {
        let i = self.locate(owner);
        let ghost mid = *self;
        let res = crate::battle::submit_game_score(
            call,
            &mut self.accounts[i],
            &mut self.log,
            score,
            game_id,
        );
        proof {
            Self::lemma_replaced(mid, *self, i as int);
        }
        res
    }

    /// Whether `submit_pool_score` can be called with these arguments:
    /// whether the machine types can hold what it would write.
    pub fn can_submit_pool_score(&self, call: &Call, owner: &str, score: u32) -> (room: bool)
        requires
            self.wf(),
        ensures
            room == pool_effect(*call, self.account(owner@), score).account.fits(),
    {
        match self.find(owner) {
            Some(i) => crate::battle::can_submit_pool_score(call, &self.accounts[i], score),
            None => true,
        }
    }

    /// Hands in the score `owner` made at pool.
    pub fn submit_pool_score(&mut self, call: &Call, owner: &str, score: u32) -> (res: Result<
        Vec<String>,
        GameError,
    >)
        requires
            old(self).wf(),
            pool_effect(*call, old(self).account(owner@), score).account.fits(),
        ensures
            ({
                let effect = pool_effect(*call, old(self).account(owner@), score);
                applied(*old(self), *final(self), owner@, effect) && text_result(res)
                    == effect.result
            }),
    {
        let i = self.locate(owner);
        let ghost mid = *self;
        let res = crate::battle::submit_pool_score(
            call,
            &mut self.accounts[i],
            &mut self.log,
            score,
        );
        proof {
            Self::lemma_replaced(mid, *self, i as int);
        }
        res
    }

    /// Whether `claim_badge` can be called with these arguments: whether
    /// the machine types can hold what it would write.
    pub fn can_claim_badge(&self, call: &Call, owner: &str, badge_id: &str) -> (room: bool)
        requires
            self.wf(),
        ensures
            room == claim_effect(*call, self.account(owner@), badge_id@).account.fits(),
    {
        match self.find(owner) {
            Some(i) => crate::academy::can_claim_badge(call, &self.accounts[i], badge_id),
            None => true,
        }
    }

    /// Claims a badge for `owner` and returns the badges held afterwards.
    pub fn claim_badge(&mut self, call: &Call, owner: &str, badge_id: &str) -> (res: Result<
        Vec<String>,
        GameError,
    >)
        requires
            old(self).wf(),
            claim_effect(*call, old(self).account(owner@), badge_id@).account.fits(),
        ensures
            ({
                let effect = claim_effect(*call, old(self).account(owner@), badge_id@);
                applied(*old(self), *final(self), owner@, effect) && text_result(res)
                    == effect.result
            }),
    {
        let i = self.locate(owner);
        let ghost mid = *self;
        let res = crate::academy::claim_badge(
            call,
            &mut self.accounts[i],
            &mut self.log,
            badge_id,
        );
        proof {
            Self::lemma_replaced(mid, *self, i as int);
        }
        res
    }

    /// The badges `owner` holds, oldest first.
    pub fn get_badges(&self, owner: &str) -> (badges: Vec<String>)
        requires
            self.wf(),
        ensures
            texts(badges@) == self.account(owner@).badges,
    {
        match self.find(owner) {
            Some(i) => crate::academy::get_badges(&self.accounts[i]),
            None => {
                let badges: Vec<String> = Vec::new();
                assert(texts(badges@) =~= Seq::<Seq<char>>::empty());
                badges
            },
        }
    }

    /// The events published so far, oldest first.
    pub fn events(&self) -> (events: &Vec<Event>)
        ensures
            event_views(events@) == self.log(),
    {
        &self.log
    }
}

/// An owner is concerned by nothing that is done for another: an effect
/// applied to one account leaves every other account as it was.
pub proof fn lemma_owners_are_apart<T>(
    before: PetRegistry,
    after: PetRegistry,
    owner: Seq<char>,
    effect: Effect<T>,
    other: Seq<char>,
)
    requires
        applied(before, after, owner, effect),
        other != owner,
    ensures
        after.account(other) == before.account(other),
{
}

/// In a well-formed registry the energy of every owner is within the cap,
/// stored or regenerated at any time, and no owner holds a badge twice.
pub proof fn lemma_energy_within_cap(registry: PetRegistry, owner: Seq<char>, now: nat)
    requires
        registry.wf(),
    ensures
        registry.account(owner).stats matches Some(stats) ==> stats.energy <= MAX_ENERGY,
        registry.account(owner).current_stats(now).energy <= MAX_ENERGY,
        registry.account(owner).badges.no_duplicates(),
{
    assert(registry.account(owner).wf());
}

} // verus!
