use pet_registry::admin::{check_gate, check_paused, initialize, is_paused, set_paused};
use pet_registry::{
    AdminConfig, Attribute, Call, Element, GameError, Loot, Outcome, PetRegistry, ShopItem,
};

#[test]
fn a_new_configuration_is_not_paused() {
    let config = AdminConfig::new();
    assert!(config.admin.is_none());
    assert!(!is_paused(&config));
    assert_eq!(check_paused(&config), Ok(()));
    assert!(!PetRegistry::new().is_paused());
}

#[test]
fn the_first_to_initialize_is_the_administrator() {
    let mut config = AdminConfig::new();
    assert_eq!(initialize(&mut config, "alice".to_string()), Ok(()));
    assert_eq!(config.admin.as_deref(), Some("alice"));
    assert_eq!(initialize(&mut config, "bob".to_string()), Err(GameError::AlreadyInitialized));
    assert_eq!(initialize(&mut config, "alice".to_string()), Err(GameError::AlreadyInitialized));
    assert_eq!(config.admin.as_deref(), Some("alice"));
}

#[test]
fn pausing_needs_an_administrator_and_its_authorization() {
    let mut config = AdminConfig::new();
    assert_eq!(set_paused(&mut config, true, true), Err(GameError::NotInitialized));
    assert_eq!(set_paused(&mut config, false, true), Err(GameError::NotInitialized));
    initialize(&mut config, "alice".to_string()).unwrap();
    assert_eq!(set_paused(&mut config, false, true), Err(GameError::Unauthorized));
    assert!(!is_paused(&config));
    assert_eq!(set_paused(&mut config, true, true), Ok(()));
    assert!(is_paused(&config));
    assert_eq!(check_paused(&config), Err(GameError::ContractPaused));
    // The flag does not stand in the way of clearing it.
    assert_eq!(set_paused(&mut config, true, false), Ok(()));
    assert!(!is_paused(&config));
}

#[test]
fn the_pause_flag_is_looked_at_before_the_authorization() {
    let mut config = AdminConfig::new();
    assert_eq!(check_gate(&config, true), Ok(()));
    assert_eq!(check_gate(&config, false), Err(GameError::Unauthorized));
    config.paused = true;
    assert_eq!(check_gate(&config, true), Err(GameError::ContractPaused));
    assert_eq!(check_gate(&config, false), Err(GameError::ContractPaused));
}

#[test]
fn a_paused_registry_refuses_every_paused_operation() {
    let mut registry = PetRegistry::new();
    let call = Call { authorized: true, timestamp: 0, sequence: 0 };
    registry.initialize("admin").unwrap();
    assert_eq!(registry.initialize("other"), Err(GameError::AlreadyInitialized));
    registry.mint_pet(&call, "A", "Spark").unwrap();
    assert_eq!(registry.set_paused(false, true), Err(GameError::Unauthorized));
    registry.set_paused(true, true).unwrap();
    assert!(registry.is_paused());
    assert_eq!(registry.mint_pet(&call, "B", "Ember"), Err(GameError::ContractPaused));
    assert_eq!(registry.add_xp(&call, "A", 10), Err(GameError::ContractPaused));
    assert_eq!(registry.change_design(&call, "A", "x"), Err(GameError::ContractPaused));
    assert_eq!(registry.release_pet(&call, "A"), Err(GameError::ContractPaused));
    assert_eq!(registry.train_stat(&call, "A", "str"), Err(GameError::ContractPaused));
    assert_eq!(registry.buy_potion(&call, "A"), Err(GameError::ContractPaused));
    assert_eq!(registry.buy_small_potion(&call, "A"), Err(GameError::ContractPaused));
    assert_eq!(registry.battle(&call, "A", "Fire"), Err(GameError::ContractPaused));
    assert_eq!(registry.play_hunt(&call, "A", &[1]), Err(GameError::ContractPaused));
    // Reading goes on.
    assert_eq!(registry.get_pet("A").unwrap().name, "Spark");
    assert_eq!(registry.get_stats("A", 0).energy, 100);
    assert!(registry.get_badges("A").is_empty());
    assert_eq!(registry.events().len(), 1);
}

#[test]
fn set_paused_in_a_registry_without_administrator() {
    let mut registry = PetRegistry::new();
    assert_eq!(registry.set_paused(true, true), Err(GameError::NotInitialized));
    assert!(!registry.is_paused());
}

#[test]
fn every_error_has_its_message() {
    let messages = [
        (GameError::AlreadyInitialized, "Already initialized"),
        (GameError::NotInitialized, "Not initialized"),
        (GameError::Unauthorized, "Unauthorized"),
        (GameError::ContractPaused, "Contract is paused"),
        (GameError::AlreadyOwned, "User already has a pet"),
        (GameError::NoPet, "No pet found"),
        (GameError::NoStatsFound, "No stats found"),
        (GameError::InsufficientEnergy, "Not enough energy"),
        (GameError::InsufficientGold, "Not enough gold"),
        (GameError::InvalidMove, "Invalid move"),
        (GameError::InvalidStat, "Invalid stat"),
        (GameError::TooManyMoves, "Too many moves"),
        (GameError::NoMoves, "No moves provided"),
    ];
    for (error, message) in messages {
        assert_eq!(error.message(), message);
    }
}

#[test]
fn tags_parse_back_to_what_they_name() {
    for element in [Element::Fire, Element::Water, Element::Grass] {
        assert_eq!(Element::from_tag(element.tag()), Some(element));
    }
    assert_eq!(Element::from_tag("Fire"), Some(Element::Fire));
    assert_eq!(Element::from_tag("Water"), Some(Element::Water));
    assert_eq!(Element::from_tag("Grass"), Some(Element::Grass));
    assert_eq!(Element::from_tag("grass"), None);
    for attribute in [Attribute::Strength, Attribute::Agility, Attribute::Intelligence] {
        assert_eq!(Attribute::from_tag(attribute.tag()), Some(attribute));
    }
    assert_eq!(Attribute::from_tag("str"), Some(Attribute::Strength));
    assert_eq!(Attribute::from_tag("agi"), Some(Attribute::Agility));
    assert_eq!(Attribute::from_tag("int"), Some(Attribute::Intelligence));
    assert_eq!(Attribute::from_tag("Int"), None);
    assert_eq!(Outcome::Draw.tag(), "Draw");
    assert_eq!(Outcome::Win.tag(), "Win");
    assert_eq!(Outcome::Loss.tag(), "Loss");
    assert_eq!(Loot::Trap.tag(), "trap");
    assert_eq!(Loot::Gem.tag(), "gem");
    assert_eq!(Loot::Dust.tag(), "dust");
    assert_eq!(ShopItem::Potion.tag(), "potion");
    assert_eq!(ShopItem::SmallPotion.tag(), "s_potion");
}

#[test]
fn owners_do_not_touch_each_other() {
    let mut registry = PetRegistry::new();
    let call = Call { authorized: true, timestamp: 2, sequence: 0 };
    registry.mint_pet(&call, "A", "Spark").unwrap();
    registry.mint_pet(&call, "B", "Ember").unwrap();
    registry.battle(&call, "A", "Fire").unwrap();
    registry.claim_badge(&call, "B", "wallet").unwrap();
    registry.train_stat(&call, "C", "int").unwrap();
    let a = registry.get_stats("A", 2);
    let b = registry.get_stats("B", 2);
    let c = registry.get_stats("C", 2);
    assert_eq!((a.energy, a.gold, a.wins, a.intelligence), (80, 25, 1, 1));
    assert_eq!((b.energy, b.gold, b.wins, b.intelligence), (100, 0, 0, 1));
    assert_eq!((c.energy, c.gold, c.wins, c.intelligence), (90, 10, 0, 2));
    assert_eq!(registry.get_pet("A").unwrap().xp, 31);
    assert_eq!(registry.get_pet("B").unwrap().xp, 50);
    assert!(registry.get_pet("C").is_none());
    assert!(registry.get_badges("A").is_empty());
    assert_eq!(registry.get_badges("B"), vec!["wallet".to_string()]);
}
