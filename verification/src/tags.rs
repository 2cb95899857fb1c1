use vstd::prelude::*;

verus! {

/// Whether two texts hold the same characters.
pub fn same_text(a: &str, b: &str) -> (same: bool)
    ensures
        same == (a@ == b@),
{
    a.to_owned() == b.to_owned()
}

/// One of the three elemental moves of a battle.
#[derive(Clone, Copy, Debug, PartialEq, Eq, Structural)]
pub enum Element {
    Fire,
    Water,
    Grass,
}

impl Element {
    /// The tag that names this move.
    pub open spec fn tag_text(self) -> Seq<char> {
        match self {
            Element::Fire => "Fire"@,
            Element::Water => "Water"@,
            Element::Grass => "Grass"@,
        }
    }

    /// The move that a tag names, if it names one.
    pub open spec fn parse(tag: Seq<char>) -> Option<Element> {
        if tag == "Fire"@ {
            Some(Element::Fire)
        } else if tag == "Water"@ {
            Some(Element::Water)
        } else if tag == "Grass"@ {
            Some(Element::Grass)
        } else {
            None
        }
    }

    /// The move that this one defeats: fire burns grass, grass drinks water,
    /// water douses fire.
    pub open spec fn beats(self) -> Element {
        match self {
            Element::Fire => Element::Grass,
            Element::Grass => Element::Water,
            Element::Water => Element::Fire,
        }
    }

    /// The move the opponent plays at time `now`.
    pub open spec fn opponent_at(now: u64) -> Element {
        if now % 3 == 0 {
            Element::Fire
        } else if now % 3 == 1 {
            Element::Water
        } else {
            Element::Grass
        }
    }

    /// The tag that names this move.
    pub fn tag(&self) -> (text: &'static str)
        ensures
            text@ == self.tag_text(),
    {
        match self {
            Element::Fire => "Fire",
            Element::Water => "Water",
            Element::Grass => "Grass",
        }
    }

    /// The move that `tag` names, if it names one. Tags are matched to the
    /// letter.
    pub fn from_tag(tag: &str) -> (parsed: Option<Element>)
        ensures
            parsed == Element::parse(tag@),
    {
        if same_text(tag, "Fire") {
            Some(Element::Fire)
        } else if same_text(tag, "Water") {
            Some(Element::Water)
        } else if same_text(tag, "Grass") {
            Some(Element::Grass)
        } else {
            None
        }
    }

    /// The move the opponent plays at time `now`: fire, water and grass in
    /// turn, as the time counts up.
    pub fn opponent(now: u64) -> (element: Element)
        ensures
            element == Element::opponent_at(now),
    {
        let r: u64 = now % 3;
        if r == 0 {
            Element::Fire
        } else if r == 1 {
            Element::Water
        } else {
            Element::Grass
        }
    }
}

/// How a battle ended for the player.
#[derive(Clone, Copy, Debug, PartialEq, Eq, Structural)]
pub enum Outcome {
    Draw,
    Win,
    Loss,
}

impl Outcome {
    /// The tag that names this outcome.
    pub open spec fn tag_text(self) -> Seq<char> {
        match self {
            Outcome::Draw => "Draw"@,
            Outcome::Win => "Win"@,
            Outcome::Loss => "Loss"@,
        }
    }

    /// How `player` fares against `opponent`: equal moves draw, a move wins
    /// against the one it beats and loses against the other.
    pub open spec fn of(player: Element, opponent: Element) -> Outcome {
        if player == opponent {
            Outcome::Draw
        } else if player.beats() == opponent {
            Outcome::Win
        } else {
            Outcome::Loss
        }
    }

    /// The gold a battle with this outcome pays.
    pub open spec fn gold(self) -> nat {
        match self {
            Outcome::Draw => 5,
            Outcome::Win => 25,
            Outcome::Loss => 1,
        }
    }

    /// The experience a battle with this outcome gives a pet whose owner has
    /// trained `intelligence`.
    pub open spec fn xp(self, intelligence: nat) -> nat {
        match self {
            Outcome::Draw => 10,
            Outcome::Win => 30 + intelligence,
            Outcome::Loss => 5,
        }
    }

    /// The tag that names this outcome.
    pub fn tag(&self) -> (text: &'static str)
        ensures
            text@ == self.tag_text(),
    {
        match self {
            Outcome::Draw => "Draw",
            Outcome::Win => "Win",
            Outcome::Loss => "Loss",
        }
    }

    /// The gold a battle with this outcome pays.
    pub fn gold_reward(&self) -> (gold: u32)
        ensures
            gold == self.gold(),
    {
        match self {
            Outcome::Draw => 5,
            Outcome::Win => 25,
            Outcome::Loss => 1,
        }
    }

    /// The experience a battle with this outcome gives a pet whose owner has
    /// trained `intelligence`.
    pub fn xp_reward(&self, intelligence: u32) -> (xp: u64)
        ensures
            xp == self.xp(intelligence as nat),
    {
        match self {
            Outcome::Draw => 10,
            Outcome::Win => 30 + (intelligence as u64),
            Outcome::Loss => 5,
        }
    }

    /// How `player` fares against `opponent`.
    pub fn resolve(player: Element, opponent: Element) -> (outcome: Outcome)
        ensures
            outcome == Outcome::of(player, opponent),
    {
        match (player, opponent) {
            (Element::Fire, Element::Fire) => Outcome::Draw,
            (Element::Water, Element::Water) => Outcome::Draw,
            (Element::Grass, Element::Grass) => Outcome::Draw,
            (Element::Fire, Element::Grass) => Outcome::Win,
            (Element::Grass, Element::Water) => Outcome::Win,
            (Element::Water, Element::Fire) => Outcome::Win,
            _ => Outcome::Loss,
        }
    }
}

/// What one step of a hunt turned up.
#[derive(Clone, Copy, Debug, PartialEq, Eq, Structural)]
pub enum Loot {
    Trap,
    Gem,
    Dust,
}

impl Loot {
    /// The tag that names this loot.
    pub open spec fn tag_text(self) -> Seq<char> {
        match self {
            Loot::Trap => "trap"@,
            Loot::Gem => "gem"@,
            Loot::Dust => "dust"@,
        }
    }

    /// The loot for a roll between 0 and 99: a trap below 10, a gem below 90,
    /// dust above.
    pub open spec fn of_roll(roll: nat) -> Loot {
        if roll < 10 {
            Loot::Trap
        } else if roll < 90 {
            Loot::Gem
        } else {
            Loot::Dust
        }
    }

    /// The tag that names this loot.
    pub fn tag(&self) -> (text: &'static str)
        ensures
            text@ == self.tag_text(),
    {
        match self {
            Loot::Trap => "trap",
            Loot::Gem => "gem",
            Loot::Dust => "dust",
        }
    }

    /// The loot for a roll.
    pub fn from_roll(roll: u64) -> (loot: Loot)
        ensures
            loot == Loot::of_roll(roll as nat),
    {
        if roll < 10 {
            Loot::Trap
        } else if roll < 90 {
            Loot::Gem
        } else {
            Loot::Dust
        }
    }
}

/// An attribute that training raises.
#[derive(Clone, Copy, Debug, PartialEq, Eq, Structural)]
pub enum Attribute {
    Strength,
    Agility,
    Intelligence,
}

impl Attribute {
    /// The tag that names this attribute.
    pub open spec fn tag_text(self) -> Seq<char> {
        match self {
            Attribute::Strength => "str"@,
            Attribute::Agility => "agi"@,
            Attribute::Intelligence => "int"@,
        }
    }

    /// The attribute that a tag names, if it names one.
    pub open spec fn parse(tag: Seq<char>) -> Option<Attribute> {
        if tag == "str"@ {
            Some(Attribute::Strength)
        } else if tag == "agi"@ {
            Some(Attribute::Agility)
        } else if tag == "int"@ {
            Some(Attribute::Intelligence)
        } else {
            None
        }
    }

    /// The tag that names this attribute.
    pub fn tag(&self) -> (text: &'static str)
        ensures
            text@ == self.tag_text(),
    {
        match self {
            Attribute::Strength => "str",
            Attribute::Agility => "agi",
            Attribute::Intelligence => "int",
        }
    }

    /// The attribute that `tag` names, if it names one. Tags are matched to
    /// the letter.
    pub fn from_tag(tag: &str) -> (parsed: Option<Attribute>)
        ensures
            parsed == Attribute::parse(tag@),
    {
        if same_text(tag, "str") {
            Some(Attribute::Strength)
        } else if same_text(tag, "agi") {
            Some(Attribute::Agility)
        } else if same_text(tag, "int") {
            Some(Attribute::Intelligence)
        } else {
            None
        }
    }
}

/// Something the shop sells.
#[derive(Clone, Copy, Debug, PartialEq, Eq, Structural)]
pub enum ShopItem {
    Potion,
    SmallPotion,
}

impl ShopItem {
    /// The tag that names this item.
    pub open spec fn tag_text(self) -> Seq<char> {
        match self {
            ShopItem::Potion => "potion"@,
            ShopItem::SmallPotion => "s_potion"@,
        }
    }

    /// The price in gold.
    pub open spec fn price(self) -> nat {
        match self {
            ShopItem::Potion => 50,
            ShopItem::SmallPotion => 10,
        }
    }

    /// The price in gold.
    pub fn cost(&self) -> (gold: u32)
        ensures
            gold == self.price(),
    {
        match self {
            ShopItem::Potion => 50,
            ShopItem::SmallPotion => 10,
        }
    }

    /// The tag that names this item.
    pub fn tag(&self) -> (text: &'static str)
        ensures
            text@ == self.tag_text(),
    {
        match self {
            ShopItem::Potion => "potion",
            ShopItem::SmallPotion => "s_potion",
        }
    }
}

/// Parsing a move's own tag gives the move back.
pub proof fn lemma_element_tag_round_trip(element: Element)
    ensures
        Element::parse(element.tag_text()) == Some(element),
{
    reveal_strlit("Fire");
    reveal_strlit("Water");
    reveal_strlit("Grass");
    assert("Fire"@[0] == 'F');
    assert("Water"@[0] == 'W');
    assert("Grass"@[0] == 'G');
}

/// Parsing an attribute's own tag gives the attribute back.
pub proof fn lemma_attribute_tag_round_trip(attribute: Attribute)
    ensures
        Attribute::parse(attribute.tag_text()) == Some(attribute),
{
    reveal_strlit("str");
    reveal_strlit("agi");
    reveal_strlit("int");
    assert("str"@[0] == 's');
    assert("agi"@[0] == 'a');
    assert("int"@[0] == 'i');
}

} // verus!
