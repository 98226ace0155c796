use api::{weigh, CachePolicy, CrownLevel, Player, TrophyData};
use moka::future::Cache;
use std::time::Duration;

fn player(uuid: &str) -> Player {
    Player {
        uuid: uuid.to_string(),
        username: Some("Notch".to_string()),
        ranks: vec![],
        crown_level: CrownLevel {
            level: 7,
            next_evolution_level: None,
            next_level_progress: None,
            trophies: TrophyData { obtained: 1, obtainable: 2, bonus: 3 },
        },
        status: None,
        collections: None,
        social: None,
    }
}

/// A cache with the bounds of `policy`, in which an entry weighs what the
/// library says.
fn cache(policy: CachePolicy) -> Cache<String, Player> {
    Cache::builder()
        .max_capacity(policy.max_capacity)
        .time_to_live(Duration::from_secs(policy.time_to_live_secs))
        .weigher(|key: &String, profile: &Player| weigh(key, profile))
        .build()
}

fn runtime() -> tokio::runtime::Runtime {
    tokio::runtime::Builder::new_current_thread().enable_time().build().unwrap()
}

#[test]
fn stored_profile_comes_back_unchanged() {
    runtime().block_on(async {
        let cache = cache(CachePolicy::default());
        let notch = player("069a79f4-44e9-4726-a5be-fca90e38aaf5");
        cache.insert("notch".to_string(), notch.clone()).await;
        assert_eq!(cache.get("notch").await, Some(notch));
        assert_eq!(cache.get("Notch").await, None);
    });
}

#[test]
fn storing_again_replaces_the_profile() {
    runtime().block_on(async {
        let cache = cache(CachePolicy::default());
        cache.insert("notch".to_string(), player("a")).await;
        cache.insert("notch".to_string(), player("b")).await;
        assert_eq!(cache.get("notch").await, Some(player("b")));
    });
}

#[test]
fn entry_is_gone_once_its_time_to_live_is_over() {
    runtime().block_on(async {
        let policy = CachePolicy { time_to_live_secs: 2, ..CachePolicy::default() };
        let cache = cache(policy);
        let notch = player("069a79f4-44e9-4726-a5be-fca90e38aaf5");
        cache.insert("notch".to_string(), notch.clone()).await;
        assert_eq!(cache.get("notch").await, Some(notch));
        tokio::time::sleep(Duration::from_millis(2100)).await;
        assert_eq!(cache.get("notch").await, None);
    });
}

#[test]
fn entries_never_outweigh_the_capacity() {
    runtime().block_on(async {
        let policy = CachePolicy { max_capacity: 200, ..CachePolicy::default() };
        let cache = cache(policy);
        let mut inserted: u64 = 0;
        for i in 0..50 {
            let key = format!("player-{i:02}");
            let profile = player("069a79f4-44e9-4726-a5be-fca90e38aaf5");
            inserted += u64::from(weigh(&key, &profile));
            cache.insert(key, profile).await;
            cache.run_pending_tasks().await;
            assert!(cache.weighted_size() <= policy.max_capacity);
        }
        assert!(inserted > policy.max_capacity);
        assert!(cache.weighted_size() <= policy.max_capacity);
    });
}
