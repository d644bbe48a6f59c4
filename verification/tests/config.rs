use snowflake::config::{
    epoch_ms_of, parse_epoch, parse_worker_id, select_mode, ConfigError, EnvConfig, InitPlan,
    Mode, StateError,
};
use snowflake::encoder::State;

#[test]
fn mode_comes_off_the_store_list() {
    let urls = vec!["redis://a".to_string(), "redis://b".to_string()];
    assert_eq!(select_mode(Some(urls.clone())), Ok(Mode::Cluster(urls)));
    assert_eq!(select_mode(Some(Vec::new())), Err(ConfigError::EmptyRedisUrls));
    assert_eq!(select_mode(None), Ok(Mode::Standalone));
}

#[test]
fn worker_id_text_is_validated() {
    assert_eq!(parse_worker_id(None), Ok(0));
    assert_eq!(parse_worker_id(Some("5")), Ok(5));
    assert_eq!(parse_worker_id(Some("1023")), Ok(1023));
    assert_eq!(parse_worker_id(Some("1024")), Err(ConfigError::WorkerIdTooLarge));
    assert_eq!(parse_worker_id(Some("65536")), Err(ConfigError::NonNumeric));
    assert_eq!(parse_worker_id(Some("abc")), Err(ConfigError::NonNumeric));
    assert_eq!(parse_worker_id(Some("")), Err(ConfigError::NonNumeric));
}

#[test]
fn epoch_text_is_validated_against_now() {
    assert_eq!(parse_epoch(None, 200), Err(ConfigError::MissingEpoch));
    assert_eq!(parse_epoch(Some("100"), 200), Ok(100));
    assert_eq!(parse_epoch(Some("200"), 200), Ok(200));
    assert_eq!(parse_epoch(Some("201"), 200), Err(ConfigError::FutureEpoch));
    assert_eq!(parse_epoch(Some("12x"), 200), Err(ConfigError::NonNumeric));
}

#[test]
fn epoch_seconds_become_milliseconds() {
    assert_eq!(epoch_ms_of(0), 0);
    assert_eq!(epoch_ms_of(1_600_000_000), 1_600_000_000_000);
}

#[test]
fn standalone_plan_defaults() {
    assert_eq!(State::new_from_epoch(5, Some(3)), (3, 5_000));
    assert_eq!(State::new_from_epoch(7, None), (0, 7_000));
}

#[test]
fn cluster_mode_requires_a_past_epoch() {
    let base = || EnvConfig {
        port: None,
        master_url: Some("ws://master".to_string()),
        epoch: Some(100),
        worker_id: None,
    };
    let plan = State::new_from_ecfg(base(), 200).unwrap();
    assert_eq!(
        plan,
        InitPlan::Cluster { master_url: "ws://master".to_string(), epoch_ms: 100_000 }
    );
    let mut cfg = base();
    cfg.epoch = Some(201);
    assert_eq!(State::new_from_ecfg(cfg, 200), Err(StateError::FutureEpoch));
    let mut cfg = base();
    cfg.epoch = None;
    assert_eq!(State::new_from_ecfg(cfg, 200), Err(StateError::IoError));
}

#[test]
fn standalone_mode_defaults_epoch_and_id() {
    let cfg = EnvConfig { port: Some(8080), master_url: None, epoch: None, worker_id: Some(4) };
    assert_eq!(
        State::new_from_ecfg(cfg, 200),
        Ok(InitPlan::Standalone { epoch_ms: 0, worker_id: 4 })
    );
    let cfg = EnvConfig { port: None, master_url: None, epoch: Some(150), worker_id: None };
    assert_eq!(
        State::new_from_ecfg(cfg, 200),
        Ok(InitPlan::Standalone { epoch_ms: 150_000, worker_id: 0 })
    );
    let cfg = EnvConfig { port: None, master_url: None, epoch: Some(201), worker_id: None };
    assert_eq!(State::new_from_ecfg(cfg, 200), Err(StateError::FutureEpoch));
}
