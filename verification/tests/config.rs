use std::path::PathBuf;

use sshub::config::merge::merge_config_text;
use sshub::config::paths::{
    advance_migration, choose_dir, config_file_path, config_temp_path, env_dir, migration_warning,
    start_migration, DirChoice, DirKind, Environment, JoinedPath, Migration,
};
use sshub::config::save::{advance_saving, Saving};
use sshub::config::{
    default_date_format, invalid_config_message, tunnel_backoff_base, tunnel_failure_attempt,
    tunnel_jitter_step, AppConfig, AppearanceConfig, SessionLoggingConfig, TunnelReconnectConfig,
};

fn path(p: &JoinedPath) -> PathBuf {
    p.parts.iter().fold(PathBuf::from(&p.base), |whole, part| whole.join(part))
}

fn delay_ms(attempt: u32, tunnel_id: i64, cfg: &TunnelReconnectConfig) -> u64 {
    let base = tunnel_backoff_base(attempt, cfg);
    let ratio = f64::from_bits(cfg.jitter_ratio_bits);
    let factor = 1.0 + ratio * (tunnel_jitter_step(tunnel_id, attempt) as f64 / 1000.0 - 1.0);
    ((base as f64) * factor).max(1.0) as u64
}

#[test]
fn tunnel_failure_attempt_counts_flaps_and_resets_after_stable() {
    assert_eq!(tunnel_failure_attempt(0, 0, 5), 1);
    assert_eq!(tunnel_failure_attempt(1, 2, 5), 2);
    assert_eq!(tunnel_failure_attempt(2, 5, 5), 0);
    assert_eq!(tunnel_failure_attempt(4, 10, 5), 0);
}

#[test]
fn tunnel_failure_attempt_saturates() {
    assert_eq!(tunnel_failure_attempt(u32::MAX, 0, 5), u32::MAX);
}

#[test]
fn tunnel_backoff_grows_and_caps() {
    let cfg = TunnelReconnectConfig::default();
    let d1 = delay_ms(1, 1, &cfg);
    let d2 = delay_ms(2, 1, &cfg);
    let d10 = delay_ms(10, 1, &cfg);
    assert!(d2 >= d1);
    assert!(d10 <= (cfg.max_delay_ms as f64 * 1.26) as u64);
}

#[test]
fn tunnel_backoff_jitter_bounded() {
    let cfg = TunnelReconnectConfig {
        jitter_ratio_bits: 0.25f64.to_bits(),
        ..Default::default()
    };
    for attempt in 1..=5u32 {
        let d = delay_ms(attempt, 42, &cfg);
        let base = cfg
            .initial_delay_ms
            .saturating_mul(1u64 << (attempt - 1).min(20));
        let capped = base.min(cfg.max_delay_ms);
        let min = (capped as f64 * 0.75) as u64;
        let max = (capped as f64 * 1.25) as u64;
        assert!(d >= min.saturating_sub(1), "attempt {attempt}: {d:?} below {min}");
        assert!(d <= max + 1, "attempt {attempt}: {d:?} above {max}");
    }
}

#[test]
fn tunnel_backoff_base_values() {
    let cfg = TunnelReconnectConfig::default();
    assert_eq!(tunnel_backoff_base(0, &cfg), 1_000);
    assert_eq!(tunnel_backoff_base(1, &cfg), 1_000);
    assert_eq!(tunnel_backoff_base(3, &cfg), 4_000);
    assert_eq!(tunnel_backoff_base(7, &cfg), 60_000);
    assert_eq!(tunnel_backoff_base(u32::MAX, &cfg), 60_000);
    let wide = TunnelReconnectConfig {
        initial_delay_ms: 3,
        max_delay_ms: u64::MAX,
        ..Default::default()
    };
    assert_eq!(tunnel_backoff_base(21, &wide), 3 << 20);
    assert_eq!(tunnel_backoff_base(900, &wide), 3 << 20);
    let huge = TunnelReconnectConfig {
        initial_delay_ms: u64::MAX,
        max_delay_ms: u64::MAX,
        ..Default::default()
    };
    assert_eq!(tunnel_backoff_base(5, &huge), u64::MAX);
}

#[test]
fn tunnel_jitter_matches_the_wrapping_hash() {
    for (id, attempt) in [(1i64, 1u32), (42, 5), (-7, 3), (i64::MIN, 9), (i64::MAX, u32::MAX)] {
        let hash = (id as u64)
            .wrapping_mul(31)
            .wrapping_add(attempt as u64)
            .wrapping_mul(1_103_515_245);
        assert_eq!(tunnel_jitter_step(id, attempt), hash % 2000);
    }
    assert_eq!(tunnel_jitter_step(5, 0), tunnel_jitter_step(5, 1));
}

#[test]
fn tunnel_reconnect_display_uses_seconds_for_delays() {
    let cfg = TunnelReconnectConfig::default();
    assert_eq!(cfg.display_field(1), "1 s");
    assert_eq!(cfg.display_field(2), "60 s");
}

#[test]
fn tunnel_reconnect_adjust_keeps_delay_order() {
    let mut cfg = TunnelReconnectConfig::default();
    for _ in 0..200 {
        cfg.adjust_field(1, 1);
    }
    assert!(cfg.initial_delay_ms <= cfg.max_delay_ms);
    for _ in 0..200 {
        cfg.adjust_field(2, -1);
    }
    assert!(cfg.initial_delay_ms <= cfg.max_delay_ms);
    assert_eq!(cfg.display_field(0), "12");
    cfg.adjust_field(0, -20);
    assert_eq!(cfg.max_attempts, 0);
    assert_eq!(cfg.display_field(0), "unlimited");
}

#[test]
fn adjust_and_reset_every_row() {
    let mut cfg = TunnelReconnectConfig::default();
    cfg.adjust_field(3, 500);
    assert_eq!(cfg.stable_secs, 120);
    assert_eq!(cfg.display_field(3), "120 s");
    cfg.reset_field(3);
    assert_eq!(cfg.stable_secs, 5);
    cfg.adjust_field(0, 5_000);
    assert_eq!(cfg.max_attempts, 999);
    cfg.reset_field(0);
    cfg.jitter_ratio_bits = 0;
    cfg.reset_field(4);
    assert!((f64::from_bits(cfg.jitter_ratio_bits) - 0.25).abs() < f64::EPSILON);
    cfg.adjust_field(9, 1);
    cfg.reset_field(9);
    assert_eq!(cfg.display_field(9), "");
    assert_eq!(cfg.max_attempts, 12);
    // A pattern beyond the signed range reads as negative and is bounded upwards.
    cfg.stable_secs = u64::MAX;
    cfg.adjust_field(3, 1);
    assert_eq!(cfg.stable_secs, 1);
}

#[test]
fn built_in_settings() {
    let config = AppConfig::default();
    assert!(config.appearance.show_detail_panel);
    assert_eq!(config.appearance.date_format, "%Y-%m-%d %H:%M");
    assert_eq!(default_date_format(), "%Y-%m-%d %H:%M");
    assert!(!config.appearance.disable_animation);
    assert!(config.appearance.confirm_quit);
    assert_eq!(AppearanceConfig::default().identity_columns, 0);
    assert!(!config.session_logging.enabled);
    assert_eq!(config.session_logging.max_file_bytes, 10 * 1024 * 1024);
    assert_eq!(SessionLoggingConfig::default().retention_files, 50);
    assert_eq!(config.tunnel_reconnect.max_attempts, 12);
    assert_eq!(config.tunnel_reconnect.initial_delay_ms, 1000);
    assert_eq!(config.tunnel_reconnect.max_delay_ms, 60_000);
    assert_eq!(config.tunnel_reconnect.stable_secs, 5);
    assert!((f64::from_bits(config.tunnel_reconnect.jitter_ratio_bits) - 0.25).abs() < f64::EPSILON);
}

#[test]
fn save_config_preserves_comments_and_unknown_keys() {
    let existing = "# my hand-written note\nfuture_option = true  # keep me\n\n[appearance]\ndate_format = \"%Y-%m-%d %H:%M\"\n";
    let generated = "[appearance]\nshow_detail_panel = true\ndate_format = \"%d/%m/%Y\"\n\n[session_logging]\nenabled = false\n";
    let after = merge_config_text(Some(existing), generated).unwrap();
    assert!(after.contains("# my hand-written note"), "comment lost: {after}");
    assert!(after.contains("future_option = true"), "unknown key lost: {after}");
    assert!(after.contains("# keep me"), "comment behind a value lost: {after}");
    assert!(after.contains("%d/%m/%Y"), "our change not written: {after}");
    assert!(!after.contains("%Y-%m-%d"), "old value kept: {after}");
    assert!(after.contains("show_detail_panel = true"));
    assert!(after.contains("[session_logging]"));
    // Writing the same settings again changes nothing.
    assert_eq!(merge_config_text(Some(&after), generated).unwrap(), after);
}

#[test]
fn merging_keeps_comments_of_settings_that_change() {
    let existing = "# above\n[a]  # mine\n# why\nx = 1\n# trailing\n";
    let after = merge_config_text(Some(existing), "[a]\nx = 2\n").unwrap();
    assert!(after.contains("# above\n[a]  # mine\n"), "{after}");
    assert!(after.contains("# why\nx = 2"), "{after}");
    assert!(after.contains("# trailing"), "{after}");
}

#[test]
fn merging_replaces_what_changed_its_kind() {
    let after = merge_config_text(Some("[a]\nx = 1\n"), "a = 3\n").unwrap();
    assert!(after.replace(' ', "").contains("a=3"), "{after}");
    assert!(!after.contains("x = 1"), "{after}");
    let after = merge_config_text(Some("a = 3\n"), "[a]\nx = 1\n").unwrap();
    assert!(after.replace(' ', "").contains("[a]\nx=1"), "{after}");
    assert!(!after.contains("3"), "{after}");
}

#[test]
fn merging_into_nothing_or_into_rubbish() {
    let generated = "x = 1\n";
    assert_eq!(merge_config_text(None, generated).unwrap(), "x = 1\n");
    assert_eq!(merge_config_text(Some("x = [[["), generated).unwrap(), "x = 1\n");
    let err = merge_config_text(None, "x = [[[").unwrap_err();
    assert!(err.starts_with("failed to parse serialized config: "), "{err}");
}

#[test]
fn invalid_settings_are_named() {
    assert_eq!(invalid_config_message("oops"), "invalid config.toml: oops");
}

fn environment<'a>(current: Option<&'a str>, older: Option<&'a str>) -> Environment<'a> {
    Environment {
        current,
        older,
        platform: Some("C:\\Users\\me\\AppData"),
        home: Some("/home/me"),
        user_profile: Some("/profile"),
        windows: false,
    }
}

#[test]
fn directories_follow_the_environment() {
    match choose_dir(DirKind::Config, &environment(Some("/x"), Some("/y"))) {
        DirChoice::Override(d) => assert_eq!(path(&d), PathBuf::from("/x")),
        other => panic!("{other:?}"),
    }
    match choose_dir(DirKind::Config, &environment(Some("  "), Some("/y"))) {
        DirChoice::Override(d) => assert_eq!(path(&d), PathBuf::from("/y")),
        other => panic!("{other:?}"),
    }
    match choose_dir(DirKind::Config, &environment(None, None)) {
        DirChoice::Home { dir, legacy, staging } => {
            assert_eq!(path(&staging), PathBuf::from("/home/me/.config/sshub.migrating"));
            assert_eq!(path(&dir), PathBuf::from("/home/me/.config/sshub"));
            assert_eq!(path(&legacy), PathBuf::from("/home/me/.config/ssh-launcher"));
        }
        other => panic!("{other:?}"),
    }
    let mut env = environment(None, None);
    env.home = None;
    match choose_dir(DirKind::Data, &env) {
        DirChoice::Home { dir, legacy, staging } => {
            assert_eq!(path(&staging), PathBuf::from("/profile/.local/share/sshub.migrating"));
            assert_eq!(path(&dir), PathBuf::from("/profile/.local/share/sshub"));
            assert_eq!(path(&legacy), PathBuf::from("/profile/.local/share/ssh-launcher"));
        }
        other => panic!("{other:?}"),
    }
    env.windows = true;
    match choose_dir(DirKind::Data, &env) {
        DirChoice::Platform(d) => {
            assert_eq!(d.base, "C:\\Users\\me\\AppData");
            assert_eq!(d.parts, ["sshub"]);
        }
        other => panic!("{other:?}"),
    }
    env.windows = false;
    env.user_profile = None;
    let none = choose_dir(DirKind::Data, &env);
    assert!(matches!(none, DirChoice::NoHome));
    assert_eq!(none.error(), Some("HOME/USERPROFILE not set"));
    assert_eq!(choose_dir(DirKind::Config, &environment(None, None)).error(), None);
    assert_eq!(env_dir(Some("")), None);
    assert_eq!(DirKind::Config.override_vars().0, "SSHUB_CONFIG_DIR");
    assert_eq!(DirKind::Data.platform_var(), "LOCALAPPDATA");
}

#[test]
fn paths_are_joined_once() {
    let dir = JoinedPath::new("/c/");
    assert_eq!(path(&dir), PathBuf::from("/c"));
    assert_eq!(path(&config_file_path(&dir)), PathBuf::from("/c/config.toml"));
    assert_eq!(path(&config_temp_path(&dir)), PathBuf::from("/c/config.toml.tmp"));
    assert_eq!(path(&JoinedPath::new("").joined("x")), PathBuf::from("x"));
    let deep = dir.joined("a").joined("b");
    assert_eq!((deep.base.as_str(), deep.parts.join("|")), ("/c/", "a|b".to_string()));
    assert!(dir.parts.is_empty());
}

#[test]
fn migration_renames_only_a_complete_copy() {
    assert_eq!(
        migration_warning("/old", "disk full"),
        "Warning: failed to migrate data from /old: disk full"
    );
    assert_eq!(start_migration(true, true), Migration::Done);
    assert_eq!(start_migration(false, false), Migration::Done);
    let at = start_migration(false, true);
    assert_eq!(at, Migration::Clearing);
    let at = advance_migration(at, false);
    assert_eq!(at, Migration::Copying);
    assert_eq!(advance_migration(at, false), Migration::Abandoning);
    let at = advance_migration(at, true);
    assert_eq!(at, Migration::Placing);
    assert_eq!(advance_migration(at, false), Migration::Abandoning);
    assert_eq!(advance_migration(at, true), Migration::Restricting);
    assert_eq!(advance_migration(Migration::Restricting, true), Migration::Done);
    assert_eq!(advance_migration(Migration::Abandoning, true), Migration::Done);
}

#[test]
fn settings_are_replaced_step_by_step() {
    let mut at = Saving::Preparing;
    for next in [Saving::Merging, Saving::Writing, Saving::Replacing, Saving::Saved] {
        assert_eq!(advance_saving(at, false), Saving::Failed);
        at = advance_saving(at, true);
        assert_eq!(at, next);
    }
    assert_eq!(advance_saving(at, false), Saving::Saved);
    assert_eq!(advance_saving(Saving::Failed, true), Saving::Failed);
}

#[test]
fn a_nudge_changes_its_row_only() {
    let mut cfg = TunnelReconnectConfig::default();
    cfg.adjust_field(3, 500);
    assert_eq!(cfg.stable_secs, 120);
    assert_eq!((cfg.max_attempts, cfg.initial_delay_ms, cfg.max_delay_ms), (12, 1_000, 60_000));
    cfg.adjust_field(2, -100);
    assert_eq!((cfg.initial_delay_ms, cfg.max_delay_ms), (1_000, 5_000));
    cfg.adjust_field(1, 9);
    assert_eq!((cfg.initial_delay_ms, cfg.max_delay_ms), (10_000, 10_000));
    cfg.adjust_field(5, 7);
    assert_eq!((cfg.max_attempts, cfg.stable_secs), (12, 120));
}
