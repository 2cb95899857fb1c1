use pet_registry::shop::{buy_potion, buy_small_potion};
use pet_registry::{Account, AdminConfig, Call, Event, GameError, PetRegistry, PetStats, ShopItem};

fn stats_with(energy: u32, gold: u32) -> PetStats {
    PetStats {
        strength: 1,
        agility: 1,
        intelligence: 1,
        energy,
        last_update: 0,
        wins: 0,
        losses: 0,
        gold,
    }
}

fn account_with(energy: u32, gold: u32) -> Account {
    let mut account = Account::new("A".to_string());
    account.stats = Some(stats_with(energy, gold));
    account
}

fn now() -> Call {
    Call { authorized: true, timestamp: 0, sequence: 0 }
}

#[test]
fn potion_with_40_gold_is_refused() {
    let config = AdminConfig::new();
    let mut account = account_with(30, 40);
    let mut log = Vec::new();
    assert_eq!(
        buy_potion(&config, &now(), &mut account, &mut log),
        Err(GameError::InsufficientGold)
    );
    assert_eq!(account.stats, Some(stats_with(30, 40)));
    assert!(log.is_empty());
}

#[test]
fn potion_with_50_gold_leaves_none_and_full_energy() {
    let config = AdminConfig::new();
    let mut account = account_with(30, 50);
    let mut log = Vec::new();
    assert_eq!(buy_potion(&config, &now(), &mut account, &mut log), Ok(()));
    assert_eq!(account.stats, Some(stats_with(100, 0)));
    assert_eq!(log.len(), 1);
    match &log[0] {
        Event::Shop { owner, item } => {
            assert_eq!(owner, "A");
            assert_eq!(*item, ShopItem::Potion);
            assert_eq!(item.tag(), "potion");
        }
        other => panic!("unexpected event {:?}", other),
    }
    assert_eq!(log[0].topic(), "shop");
}

#[test]
fn small_potion_costs_ten_and_restores_twenty() {
    let config = AdminConfig::new();
    let mut account = account_with(30, 25);
    let mut log = Vec::new();
    assert_eq!(buy_small_potion(&config, &now(), &mut account, &mut log), Ok(()));
    assert_eq!(account.stats, Some(stats_with(50, 15)));
    assert_eq!(buy_small_potion(&config, &now(), &mut account, &mut log), Ok(()));
    assert_eq!(account.stats, Some(stats_with(70, 5)));
    assert_eq!(
        buy_small_potion(&config, &now(), &mut account, &mut log),
        Err(GameError::InsufficientGold)
    );
    assert_eq!(account.stats, Some(stats_with(70, 5)));
    assert_eq!(log.len(), 2);
    match &log[1] {
        Event::Shop { item, .. } => assert_eq!(item.tag(), "s_potion"),
        other => panic!("unexpected event {:?}", other),
    }
}

#[test]
fn small_potion_stops_at_the_cap() {
    let config = AdminConfig::new();
    for (energy, after) in [(79u32, 99u32), (80, 100), (81, 100), (100, 100), (0, 20)] {
        let mut account = account_with(energy, 10);
        let mut log = Vec::new();
        assert_eq!(buy_small_potion(&config, &now(), &mut account, &mut log), Ok(()));
        assert_eq!(account.stats, Some(stats_with(after, 0)));
    }
}

#[test]
fn shop_needs_written_stats() {
    let config = AdminConfig::new();
    let mut account = Account::new("A".to_string());
    let mut log = Vec::new();
    assert_eq!(buy_potion(&config, &now(), &mut account, &mut log), Err(GameError::NoStatsFound));
    assert_eq!(
        buy_small_potion(&config, &now(), &mut account, &mut log),
        Err(GameError::NoStatsFound)
    );
    assert!(account.stats.is_none());
    let mut registry = PetRegistry::new();
    assert_eq!(registry.buy_potion(&now(), "A"), Err(GameError::NoStatsFound));
    assert_eq!(registry.buy_small_potion(&now(), "A"), Err(GameError::NoStatsFound));
}

#[test]
fn shop_regenerates_before_it_sells() {
    let config = AdminConfig::new();
    let mut account = account_with(30, 10);
    let mut log = Vec::new();
    let later = Call { authorized: true, timestamp: 300, sequence: 0 };
    assert_eq!(buy_small_potion(&config, &later, &mut account, &mut log), Ok(()));
    let stats = account.stats.unwrap();
    assert_eq!(stats.energy, 60);
    assert_eq!(stats.last_update, 300);
    assert_eq!(stats.gold, 0);
}

#[test]
fn shop_is_closed_while_paused_and_to_strangers() {
    let mut config = AdminConfig::new();
    let mut account = account_with(30, 100);
    let mut log = Vec::new();
    let stranger = Call { authorized: false, timestamp: 0, sequence: 0 };
    assert_eq!(
        buy_potion(&config, &stranger, &mut account, &mut log),
        Err(GameError::Unauthorized)
    );
    config.paused = true;
    assert_eq!(buy_potion(&config, &now(), &mut account, &mut log), Err(GameError::ContractPaused));
    assert_eq!(
        buy_small_potion(&config, &stranger, &mut account, &mut log),
        Err(GameError::ContractPaused)
    );
    assert_eq!(account.stats, Some(stats_with(30, 100)));
}

#[test]
fn buying_in_the_registry() {
    let mut registry = PetRegistry::new();
    registry.mint_pet(&now(), "A", "Spark").unwrap();
    // 50 points at pool pay 100 gold and cost 5 energy.
    registry.submit_pool_score(&now(), "A", 50).unwrap();
    assert_eq!(registry.buy_potion(&now(), "A"), Ok(()));
    assert_eq!(registry.buy_small_potion(&now(), "A"), Ok(()));
    let stats = registry.get_stats("A", 0);
    assert_eq!(stats.gold, 40);
    assert_eq!(stats.energy, 100);
    assert_eq!(registry.buy_potion(&now(), "A"), Err(GameError::InsufficientGold));
}
