use pet_registry::battle::{
    can_submit_game_score, can_submit_pool_score, submit_game_score, submit_pool_score,
};
use pet_registry::{Account, Call, Event, GameError, Pet, PetRegistry, PetStats};

fn call_at(timestamp: u64) -> Call {
    Call { authorized: true, timestamp, sequence: 0 }
}

fn stats_of(energy: u32, gold: u32) -> PetStats {
    PetStats {
        strength: 1,
        agility: 1,
        intelligence: 1,
        energy,
        last_update: 100,
        wins: 0,
        losses: 0,
        gold,
    }
}

fn player(energy: u32, gold: u32) -> Account {
    let mut account = Account::new("A".to_string());
    account.stats = Some(stats_of(energy, gold));
    account.pet = Some(Pet {
        name: "Spark".to_string(),
        owner: "A".to_string(),
        birth_date: 0,
        level: 1,
        xp: 0,
        design: "egg".to_string(),
    });
    account
}

#[test]
fn game_score_pays_gold_and_experience() {
    let mut account = player(100, 0);
    let mut log = Vec::new();
    let marker = submit_game_score(&call_at(100), &mut account, &mut log, 1234, "snake");
    assert_eq!(marker, Ok(vec!["success".to_string()]));
    let stats = account.stats.unwrap();
    assert_eq!(stats.gold, 12);
    assert_eq!(stats.energy, 80);
    let pet = account.pet.as_ref().unwrap();
    assert_eq!((pet.level, pet.xp), (1, 24));
    assert_eq!(log.len(), 1);
    match &log[0] {
        Event::GameEnd { owner, game_id, score, gold_reward } => {
            assert_eq!(owner, "A");
            assert_eq!(game_id, "snake");
            assert_eq!(*score, 1234);
            assert_eq!(*gold_reward, 12);
        }
        other => panic!("unexpected event {:?}", other),
    }
    assert_eq!(log[0].topic(), "game_end");
}

#[test]
fn tile_game_pays_a_bonus_from_2048() {
    let mut account = player(100, 0);
    let mut log = Vec::new();
    submit_game_score(&call_at(100), &mut account, &mut log, 2048, "2048").unwrap();
    assert_eq!(account.stats.unwrap().gold, 520);
    // 40 experience: below the threshold of level 1.
    assert_eq!(account.pet.as_ref().unwrap().xp, 40);
    assert!(matches!(&log[0], Event::GameEnd { gold_reward: 520, score: 2048, .. }));

    let mut account = player(100, 0);
    submit_game_score(&call_at(100), &mut account, &mut log, 2047, "2048").unwrap();
    assert_eq!(account.stats.unwrap().gold, 20);

    let mut account = player(100, 0);
    submit_game_score(&call_at(100), &mut account, &mut log, 5000, "pool").unwrap();
    assert_eq!(account.stats.unwrap().gold, 50);
}

#[test]
fn game_score_can_level_the_pet_up() {
    let mut account = player(100, 0);
    let mut log = Vec::new();
    submit_game_score(&call_at(100), &mut account, &mut log, 6000, "snake").unwrap();
    let pet = account.pet.as_ref().unwrap();
    assert_eq!((pet.level, pet.xp), (2, 20));
    assert_eq!(log.len(), 2);
    assert!(matches!(&log[0], Event::LevelUp { level: 2, .. }));
    assert!(matches!(&log[1], Event::GameEnd { .. }));
}

#[test]
fn game_score_does_not_regenerate() {
    let mut account = player(19, 0);
    let mut log = Vec::new();
    // Much time has passed, but the stats are taken as they stand.
    assert_eq!(
        submit_game_score(&call_at(100_000), &mut account, &mut log, 100, "snake"),
        Err(GameError::InsufficientEnergy)
    );
    account.stats = Some(stats_of(20, 0));
    submit_game_score(&call_at(100_000), &mut account, &mut log, 100, "snake").unwrap();
    let stats = account.stats.unwrap();
    assert_eq!((stats.energy, stats.last_update, stats.gold), (0, 100, 1));
}

#[test]
fn game_score_needs_written_stats() {
    let mut account = Account::new("A".to_string());
    let mut log = Vec::new();
    assert_eq!(
        submit_game_score(&call_at(0), &mut account, &mut log, 100, "snake"),
        Err(GameError::NoStatsFound)
    );
    assert_eq!(
        submit_pool_score(&call_at(0), &mut account, &mut log, 100),
        Err(GameError::NoStatsFound)
    );
    assert!(account.stats.is_none());
}

#[test]
fn games_are_open_while_paused() {
    let mut registry = PetRegistry::new();
    registry.initialize("admin").unwrap();
    registry.mint_pet(&call_at(0), "A", "Spark").unwrap();
    registry.set_paused(true, true).unwrap();
    assert_eq!(
        registry.submit_game_score(&call_at(0), "A", 300, "snake"),
        Ok(vec!["success".to_string()])
    );
    assert_eq!(registry.submit_pool_score(&call_at(0), "A", 3), Ok(vec!["success".to_string()]));
    assert_eq!(registry.claim_badge(&call_at(0), "A", "first"), Ok(vec!["first".to_string()]));
    assert_eq!(registry.train_stat(&call_at(0), "A", "str"), Err(GameError::ContractPaused));
    let stranger = Call { authorized: false, timestamp: 0, sequence: 0 };
    assert_eq!(
        registry.submit_game_score(&stranger, "A", 300, "snake"),
        Err(GameError::Unauthorized)
    );
    assert_eq!(registry.submit_pool_score(&stranger, "A", 3), Err(GameError::Unauthorized));
    assert_eq!(registry.claim_badge(&stranger, "A", "second"), Err(GameError::Unauthorized));
    let stats = registry.get_stats("A", 0);
    assert_eq!((stats.energy, stats.gold), (75, 9));
}

#[test]
fn pool_score_pays_two_gold_and_five_experience_a_ball() {
    let mut account = player(5, 1);
    let mut log = Vec::new();
    let marker = submit_pool_score(&call_at(5000), &mut account, &mut log, 7);
    assert_eq!(marker, Ok(vec!["success".to_string()]));
    let stats = account.stats.unwrap();
    assert_eq!(stats.gold, 15);
    assert_eq!(stats.energy, 0);
    // The stats are stamped, though nothing was regenerated.
    assert_eq!(stats.last_update, 5000);
    assert_eq!(account.pet.as_ref().unwrap().xp, 35);
    assert!(log.is_empty());
    assert_eq!(
        submit_pool_score(&call_at(5000), &mut account, &mut log, 7),
        Err(GameError::InsufficientEnergy)
    );
}

#[test]
fn pool_score_can_level_the_pet_up() {
    let mut account = player(100, 0);
    let mut log = Vec::new();
    submit_pool_score(&call_at(100), &mut account, &mut log, 25).unwrap();
    let pet = account.pet.as_ref().unwrap();
    assert_eq!((pet.level, pet.xp), (2, 25));
    assert_eq!(log.len(), 1);
    assert!(matches!(&log[0], Event::LevelUp { level: 2, .. }));
}

#[test]
fn scores_without_a_pet_pay_gold_only() {
    let mut account = Account::new("A".to_string());
    account.stats = Some(stats_of(100, 0));
    let mut log = Vec::new();
    submit_game_score(&call_at(100), &mut account, &mut log, 1000, "snake").unwrap();
    submit_pool_score(&call_at(100), &mut account, &mut log, 10).unwrap();
    assert_eq!(account.stats.unwrap().gold, 30);
    assert!(account.pet.is_none());
    assert_eq!(log.len(), 1);
}

#[test]
fn can_submit_tells_when_the_purse_is_full() {
    let account = player(100, u32::MAX - 20);
    assert!(can_submit_game_score(&call_at(0), &account, 2047, "2048"));
    assert!(!can_submit_game_score(&call_at(0), &account, 2048, "2048"));
    assert!(can_submit_game_score(&call_at(0), &account, 2048, "snake"));
    assert!(can_submit_pool_score(&call_at(0), &account, 10));
    assert!(!can_submit_pool_score(&call_at(0), &account, 11));
    assert!(!can_submit_pool_score(&call_at(0), &account, u32::MAX));
    let stranger = Call { authorized: false, timestamp: 0, sequence: 0 };
    assert!(can_submit_pool_score(&stranger, &account, u32::MAX));
}
