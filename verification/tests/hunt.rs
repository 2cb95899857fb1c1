use pet_registry::battle::{can_play_hunt, draw_loot, play_hunt};
use pet_registry::{Account, AdminConfig, Call, Event, GameError, Loot, Pet, PetRegistry, PetStats};

fn call(timestamp: u64, sequence: u32) -> Call {
    Call { authorized: true, timestamp, sequence }
}

fn tags(loot: &[Loot]) -> Vec<&'static str> {
    loot.iter().map(|found| found.tag()).collect()
}

#[test]
fn nine_moves_reproduce_the_congruential_sequence() {
    let mut registry = PetRegistry::new();
    registry.mint_pet(&call(1000, 7), "A", "Spark").unwrap();
    let loot = registry.play_hunt(&call(1000, 7), "A", &[0, 1, 2, 3, 4, 5, 6, 7, 8]).unwrap();
    assert_eq!(tags(&loot), ["dust", "dust", "gem", "gem", "dust", "gem", "gem", "dust", "gem"]);
    let stats = registry.get_stats("A", 1000);
    assert_eq!(stats.energy, 55);
    assert_eq!(stats.gold, 5000);
    // Four pinches of dust: 100 each, one level at a time.
    let pet = registry.get_pet("A").unwrap();
    assert_eq!((pet.level, pet.xp), (3, 100));
}

#[test]
fn hunt_events_come_in_the_order_of_the_moves() {
    let mut registry = PetRegistry::new();
    registry.mint_pet(&call(1000, 7), "A", "Spark").unwrap();
    registry.play_hunt(&call(1000, 7), "A", &[0, 1, 2, 3, 4, 5, 6, 7, 8]).unwrap();
    let events = registry.events();
    let topics: Vec<&str> = events.iter().map(|event| event.topic()).collect();
    assert_eq!(
        topics,
        [
            "mint", "level_up", "dbg_gold", "dbg_gold", "level_up", "dbg_gold", "dbg_gold",
            "dbg_gold", "hunt"
        ]
    );
    assert!(matches!(&events[1], Event::LevelUp { level: 2, .. }));
    assert!(matches!(&events[2], Event::DebugGold { gold: 1000, .. }));
    assert!(matches!(&events[3], Event::DebugGold { gold: 2000, .. }));
    assert!(matches!(&events[4], Event::LevelUp { level: 3, .. }));
    assert!(matches!(&events[7], Event::DebugGold { gold: 5000, .. }));
    match &events[8] {
        Event::Hunt { owner, results } => {
            assert_eq!(owner, "A");
            assert_eq!(
                tags(results),
                ["dust", "dust", "gem", "gem", "dust", "gem", "gem", "dust", "gem"]
            );
        }
        other => panic!("unexpected event {:?}", other),
    }
}

#[test]
fn loot_follows_from_time_sequence_and_value() {
    assert_eq!(draw_loot(&call(0, 0), 0), Loot::Trap);
    assert_eq!(draw_loot(&call(1000, 7), 0), Loot::Dust);
    assert_eq!(draw_loot(&call(1000, 7), 2), Loot::Gem);
    // Only the sum of the three matters.
    assert_eq!(draw_loot(&call(1007, 0), 0), Loot::Dust);
    assert_eq!(draw_loot(&call(0, 1007), 0), Loot::Dust);
    assert_eq!(draw_loot(&call(0, 0), 1007), Loot::Dust);
    // The sum wraps around.
    assert_eq!(draw_loot(&call(u64::MAX, u32::MAX), u32::MAX), Loot::Gem);
    assert_eq!(draw_loot(&call(u64::MAX, u32::MAX), 5), Loot::Gem);
    assert_eq!(draw_loot(&call(u64::MAX, 1), 0), Loot::Trap);
    assert_eq!(Loot::from_roll(9), Loot::Trap);
    assert_eq!(Loot::from_roll(10), Loot::Gem);
    assert_eq!(Loot::from_roll(89), Loot::Gem);
    assert_eq!(Loot::from_roll(90), Loot::Dust);
    assert_eq!(Loot::from_roll(99), Loot::Dust);
}

#[test]
fn a_trap_gives_nothing() {
    let mut registry = PetRegistry::new();
    registry.mint_pet(&call(0, 0), "A", "Spark").unwrap();
    let loot = registry.play_hunt(&call(0, 0), "A", &[0]).unwrap();
    assert_eq!(loot, vec![Loot::Trap]);
    let stats = registry.get_stats("A", 0);
    assert_eq!((stats.energy, stats.gold), (95, 0));
    assert_eq!(registry.get_pet("A").unwrap().xp, 0);
    let events = registry.events();
    assert_eq!(events.len(), 2);
    assert!(matches!(&events[1], Event::Hunt { .. }));
}

#[test]
fn ten_moves_are_too_many() {
    let mut registry = PetRegistry::new();
    registry.mint_pet(&call(0, 0), "A", "Spark").unwrap();
    assert_eq!(
        registry.play_hunt(&call(0, 0), "A", &[0, 1, 2, 3, 4, 5, 6, 7, 8, 9]),
        Err(GameError::TooManyMoves)
    );
    assert_eq!(registry.play_hunt(&call(0, 0), "A", &[]), Err(GameError::NoMoves));
    assert_eq!(registry.get_stats("A", 0).energy, 100);
    assert_eq!(registry.events().len(), 1);
}

#[test]
fn the_whole_batch_is_charged_or_nothing() {
    let config = AdminConfig::new();
    let mut account = Account::new("A".to_string());
    let stats = PetStats {
        strength: 1,
        agility: 1,
        intelligence: 1,
        energy: 14,
        last_update: 1000,
        wins: 0,
        losses: 0,
        gold: 3,
    };
    account.stats = Some(stats);
    let mut log = Vec::new();
    assert_eq!(
        play_hunt(&config, &call(1000, 7), &mut account, &mut log, &[2, 3, 5]),
        Err(GameError::InsufficientEnergy)
    );
    assert_eq!(account.stats, Some(stats));
    assert!(log.is_empty());
    let loot = play_hunt(&config, &call(1000, 7), &mut account, &mut log, &[2, 3]).unwrap();
    assert_eq!(loot, vec![Loot::Gem, Loot::Gem]);
    assert_eq!(account.stats.unwrap().energy, 4);
    assert_eq!(account.stats.unwrap().gold, 2003);
}

#[test]
fn hunt_without_a_pet_loses_the_dust() {
    let mut registry = PetRegistry::new();
    let loot = registry.play_hunt(&call(1000, 7), "B", &[0, 2]).unwrap();
    assert_eq!(loot, vec![Loot::Dust, Loot::Gem]);
    assert!(registry.get_pet("B").is_none());
    // The default stats were written, with their 10 gold.
    let stats = registry.get_stats("B", 1000);
    assert_eq!((stats.energy, stats.gold, stats.last_update), (90, 1010, 1000));
    let topics: Vec<&str> = registry.events().iter().map(|event| event.topic()).collect();
    assert_eq!(topics, ["dbg_gold", "hunt"]);
}

#[test]
fn hunt_is_refused_while_paused_and_to_strangers() {
    let mut config = AdminConfig::new();
    let mut account = Account::new("A".to_string());
    let mut log = Vec::new();
    let stranger = Call { authorized: false, timestamp: 0, sequence: 0 };
    assert_eq!(
        play_hunt(&config, &stranger, &mut account, &mut log, &[1]),
        Err(GameError::Unauthorized)
    );
    config.paused = true;
    assert_eq!(
        play_hunt(&config, &call(0, 0), &mut account, &mut log, &[]),
        Err(GameError::ContractPaused)
    );
    assert!(account.stats.is_none());
}

#[test]
fn can_play_hunt_plays_the_hunt_on_a_copy() {
    let config = AdminConfig::new();
    let mut account = Account::new("A".to_string());
    account.pet = Some(Pet {
        name: "Spark".to_string(),
        owner: "A".to_string(),
        birth_date: 0,
        level: u32::MAX,
        xp: 0,
        design: "egg".to_string(),
    });
    let mut stats = PetStats::default_at(1000);
    stats.gold = u32::MAX - 2000;
    account.stats = Some(stats);
    // Moves 2 and 3 find gems: two fit, a third does not.
    assert!(can_play_hunt(&config, &call(1000, 7), &account, &[2, 3]));
    assert!(!can_play_hunt(&config, &call(1000, 7), &account, &[2, 3, 5]));
    // Dust below the threshold fits even at the highest level.
    assert!(can_play_hunt(&config, &call(1000, 7), &account, &[0, 1]));
    account.pet.as_mut().unwrap().xp = 429_496_729_500 - 100;
    assert!(!can_play_hunt(&config, &call(1000, 7), &account, &[0]));
    // A hunt that is refused fits.
    assert!(can_play_hunt(&config, &call(1000, 7), &account, &[]));
    assert_eq!(account.stats, Some(stats));
}
