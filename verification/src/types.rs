use vstd::prelude::*;

verus! {

/// The pet of one owner.
#[derive(Clone, Debug)]
pub struct Pet {
    pub name: String,
    pub owner: String,
    pub birth_date: u64,
    pub level: u32,
    pub xp: u64,
    /// The cosmetic tag; a new pet is an `"egg"`.
    pub design: String,
}

/// A pet as a mathematical value.
pub struct PetView {
    pub name: Seq<char>,
    pub owner: Seq<char>,
    pub birth_date: nat,
    pub level: nat,
    pub xp: nat,
    pub design: Seq<char>,
}

impl View for Pet {
    type V = PetView;

    open spec fn view(&self) -> PetView {
        PetView {
            name: self.name@,
            owner: self.owner@,
            birth_date: self.birth_date as nat,
            level: self.level as nat,
            xp: self.xp as nat,
            design: self.design@,
        }
    }
}

impl PetView {
    /// The experience at which a pet of this level moves up.
    pub open spec fn threshold(self) -> nat {
        self.level * 100
    }

    /// Whether a grant of `amount` moves the pet up a level.
    pub open spec fn levels_up(self, amount: nat) -> bool {
        self.xp + amount >= self.threshold()
    }

    /// The pet after a grant of `amount` experience. A grant that reaches the
    /// threshold moves the pet up one level, never more, and carries the
    /// excess over.
    pub open spec fn gain(self, amount: nat) -> PetView {
        if self.levels_up(amount) {
            PetView {
                level: self.level + 1,
                xp: (self.xp + amount - self.threshold()) as nat,
                ..self
            }
        } else {
            PetView { xp: self.xp + amount, ..self }
        }
    }

    /// Whether the experience is below the threshold of the level.
    pub open spec fn settled(self) -> bool {
        self.xp < self.threshold()
    }

    /// All the experience the pet has earned: what the levels it has passed
    /// took, a hundred times the level each, and what it holds now.
    pub open spec fn progress(self) -> nat {
        (50 * self.level * (self.level - 1) + self.xp) as nat
    }

    /// Whether the machine types of a `Pet` can hold these values.
    pub open spec fn fits(self) -> bool {
        &&& self.birth_date <= u64::MAX
        &&& self.level <= u32::MAX
        &&& self.xp <= u64::MAX
    }

    /// The pet a mint creates.
    pub open spec fn hatched(owner: Seq<char>, name: Seq<char>, now: nat) -> PetView {
        PetView { name, owner, birth_date: now, level: 1, xp: 0, design: "egg"@ }
    }
}

/// The attributes, energy, battle record and gold of one owner.
#[derive(Clone, Copy, Debug, PartialEq, Eq, Structural)]
pub struct PetStats {
    pub strength: u32,
    pub agility: u32,
    pub intelligence: u32,
    pub energy: u32,
    pub last_update: u64,
    pub wins: u32,
    pub losses: u32,
    pub gold: u32,
}

/// A block of stats as a mathematical value.
pub struct StatsView {
    pub strength: nat,
    pub agility: nat,
    pub intelligence: nat,
    pub energy: nat,
    pub last_update: nat,
    pub wins: nat,
    pub losses: nat,
    pub gold: nat,
}

impl View for PetStats {
    type V = StatsView;

    open spec fn view(&self) -> StatsView {
        StatsView {
            strength: self.strength as nat,
            agility: self.agility as nat,
            intelligence: self.intelligence as nat,
            energy: self.energy as nat,
            last_update: self.last_update as nat,
            wins: self.wins as nat,
            losses: self.losses as nat,
            gold: self.gold as nat,
        }
    }
}

/// The most energy a pet can hold.
pub const MAX_ENERGY: u32 = 100;

/// The time it takes to regain one point of energy.
pub const REGEN_PERIOD: u64 = 30;

impl StatsView {
    /// Energy never exceeds its cap.
    pub open spec fn wf(self) -> bool {
        self.energy <= MAX_ENERGY
    }

    /// Whether the machine types of a `PetStats` can hold these values.
    pub open spec fn fits(self) -> bool {
        &&& self.strength <= u32::MAX
        &&& self.agility <= u32::MAX
        &&& self.intelligence <= u32::MAX
        &&& self.energy <= u32::MAX
        &&& self.last_update <= u64::MAX
        &&& self.wins <= u32::MAX
        &&& self.losses <= u32::MAX
        &&& self.gold <= u32::MAX
    }

    /// Untrained stats with full energy, stamped `now`, holding `gold`.
    pub open spec fn fresh(now: nat, gold: nat) -> StatsView {
        StatsView {
            strength: 1,
            agility: 1,
            intelligence: 1,
            energy: MAX_ENERGY as nat,
            last_update: now,
            wins: 0,
            losses: 0,
            gold,
        }
    }

    /// The energy regained between the last update and `now`: one point for
    /// each full period, none if the clock went backwards.
    pub open spec fn regained(self, now: nat) -> nat {
        if now >= self.last_update {
            ((now - self.last_update) / (REGEN_PERIOD as int)) as nat
        } else {
            0
        }
    }

    /// The stats brought up to `now`: where any energy was regained it is
    /// added, up to the cap, and the stats are stamped `now`.
    pub open spec fn regenerated(self, now: nat) -> StatsView {
        if self.regained(now) > 0 {
            StatsView {
                energy: if self.energy + self.regained(now) <= MAX_ENERGY {
                    self.energy + self.regained(now)
                } else {
                    MAX_ENERGY as nat
                },
                last_update: now,
                ..self
            }
        } else {
            self
        }
    }

    /// The stats after `cost` energy is spent; `cost` is at most the energy.
    pub open spec fn spend(self, cost: nat) -> StatsView {
        StatsView { energy: (self.energy - cost) as nat, ..self }
    }

    /// The stats after `amount` gold is earned.
    pub open spec fn earn(self, amount: nat) -> StatsView {
        StatsView { gold: self.gold + amount, ..self }
    }
}

impl PetStats {
    /// The stats an owner has who never had any written: untrained, full of
    /// energy, with 10 gold.
    pub fn default_at(now: u64) -> (stats: PetStats)
        ensures
            stats@ == StatsView::fresh(now as nat, 10),
    {
        PetStats {
            strength: 1,
            agility: 1,
            intelligence: 1,
            energy: MAX_ENERGY,
            last_update: now,
            wins: 0,
            losses: 0,
            gold: 10,
        }
    }

    /// The stats written when a pet is minted: as the default, but with no
    /// gold.
    pub fn minted_at(now: u64) -> (stats: PetStats)
        ensures
            stats@ == StatsView::fresh(now as nat, 0),
    {
        PetStats {
            strength: 1,
            agility: 1,
            intelligence: 1,
            energy: MAX_ENERGY,
            last_update: now,
            wins: 0,
            losses: 0,
            gold: 0,
        }
    }
}

/// The views of a list of texts.
pub open spec fn texts(list: Seq<String>) -> Seq<Seq<char>> {
    list.map_values(|text: String| text@)
}

/// What the host reports of the call being served: whether the acting
/// principal authorized it, the ledger's time and its sequence number.
#[derive(Clone, Copy, Debug, PartialEq, Eq, Structural)]
pub struct Call {
    pub authorized: bool,
    pub timestamp: u64,
    pub sequence: u32,
}

/// Everything one owner has: at most one pet, stats once any were written,
/// and the badges claimed so far, oldest first.
#[derive(Clone, Debug)]
pub struct Account {
    pub owner: String,
    pub pet: Option<Pet>,
    pub stats: Option<PetStats>,
    pub badges: Vec<String>,
}

/// An account as a mathematical value.
pub struct AccountView {
    pub owner: Seq<char>,
    pub pet: Option<PetView>,
    pub stats: Option<StatsView>,
    pub badges: Seq<Seq<char>>,
}

impl View for Account {
    type V = AccountView;

    open spec fn view(&self) -> AccountView {
        AccountView {
            owner: self.owner@,
            pet: match self.pet {
                Some(pet) => Some(pet@),
                None => None,
            },
            stats: match self.stats {
                Some(stats) => Some(stats@),
                None => None,
            },
            badges: texts(self.badges@),
        }
    }
}

impl AccountView {
    /// The account of an owner who has done nothing yet.
    pub open spec fn empty(owner: Seq<char>) -> AccountView {
        AccountView { owner, pet: None, stats: None, badges: Seq::empty() }
    }

    /// Stored energy is within its cap, and no badge is held twice.
    pub open spec fn wf(self) -> bool {
        &&& self.stats matches Some(stats) ==> stats.wf()
        &&& self.badges.no_duplicates()
    }

    /// Whether the machine types of an `Account` can hold these values.
    pub open spec fn fits(self) -> bool {
        &&& self.pet matches Some(pet) ==> pet.fits()
        &&& self.stats matches Some(stats) ==> stats.fits()
    }

    /// The stats to work on: those stored, brought up to `now`, or the
    /// default where none are stored.
    pub open spec fn current_stats(self, now: nat) -> StatsView {
        match self.stats {
            Some(stats) => stats.regenerated(now),
            None => StatsView::fresh(now, 10),
        }
    }

    /// The account after its pet, if it has one, is granted `amount`
    /// experience.
    pub open spec fn granted(self, amount: nat) -> AccountView {
        match self.pet {
            Some(pet) => AccountView { pet: Some(pet.gain(amount)), ..self },
            None => self,
        }
    }

    /// Whether a grant of `amount` moves the account's pet up a level.
    pub open spec fn grant_levels_up(self, amount: nat) -> bool {
        self.pet matches Some(pet) && pet.levels_up(amount)
    }
}

impl Pet {
    /// A copy of the pet.
    pub fn duplicate(&self) -> (pet: Pet)
        ensures
            pet@ == self@,
    {
        Pet {
            name: self.name.clone(),
            owner: self.owner.clone(),
            birth_date: self.birth_date,
            level: self.level,
            xp: self.xp,
            design: self.design.clone(),
        }
    }
}

/// A copy of a list of texts.
pub fn copy_texts(list: &Vec<String>) -> (copy: Vec<String>)
    ensures
        texts(copy@) == texts(list@),
{
    let mut copy: Vec<String> = Vec::new();
    let mut i: usize = 0;
    while i < list.len()
        invariant
            0 <= i <= list.len(),
            copy@.len() == i,
            forall|j: int| 0 <= j < i ==> (#[trigger] copy@[j])@ == list@[j]@,
        decreases list.len() - i,
    {
        copy.push(list[i].clone());
        i = i + 1;
    }
    assert(texts(copy@) =~= texts(list@));
    copy
}

impl Account {
    /// A copy of the account.
    pub fn duplicate(&self) -> (account: Account)
        ensures
            account@ == self@,
    {
        Account {
            owner: self.owner.clone(),
            pet: match &self.pet {
                Some(pet) => Some(pet.duplicate()),
                None => None,
            },
            stats: self.stats,
            badges: copy_texts(&self.badges),
        }
    }

    /// The account of an owner who has done nothing yet.
    pub fn new(owner: String) -> (account: Account)
        ensures
            account@ == AccountView::empty(owner@),
    {
        let account = Account { owner, pet: None, stats: None, badges: Vec::new() };
        assert(account@.badges =~= Seq::empty());
        account
    }
}

} // verus!
