use persona::config::{BotConfig, Config, ConfigError, MultiConfig};

fn plain_bot(name: &str, token: &str) -> BotConfig {
    BotConfig {
        application_id: None,
        name: name.to_string(),
        discord_token: token.to_string(),
        default_persona: None,
        discord_guild_id: None,
        openai_model: None,
        conflict_mediation_enabled: None,
        conflict_sensitivity: None,
        mediation_cooldown_minutes: None,
        commands: None,
        startup_notification_enabled: Some(true),
    }
}

fn plain_multi(bots: Vec<BotConfig>) -> MultiConfig {
    MultiConfig {
        bots,
        openai_api_key: "key".to_string(),
        database_path: "db".to_string(),
        log_level: "info".to_string(),
        openai_model: "gpt-4".to_string(),
        conflict_mediation_enabled: true,
        conflict_sensitivity: "medium".to_string(),
        mediation_cooldown_minutes: 5,
    }
}

#[test]
fn test_config_from_env_missing_required() {
    let result = Config::from_env(None, None, None, None, None, None, None, None, None);
    assert!(result.is_err());
}

#[test]
fn test_config_with_defaults() {
    let config = Config::from_env(
        Some("test_discord_token".to_string()),
        Some("test_openai_key".to_string()),
        None,
        None,
        None,
        None,
        None,
        None,
        None,
    )
    .unwrap();
    assert_eq!(config.discord_token, "test_discord_token");
    assert_eq!(config.openai_api_key, "test_openai_key");
    assert_eq!(config.database_path, "persona.db");
    assert_eq!(config.log_level, "info");
}

#[test]
fn test_config_remaining_defaults() {
    let config = Config::from_env(
        Some("t".to_string()),
        Some("k".to_string()),
        None,
        None,
        None,
        None,
        None,
        None,
        None,
    )
    .unwrap();
    assert_eq!(config.openai_model, "gpt-4o-mini");
    assert!(config.conflict_mediation_enabled);
    assert_eq!(config.conflict_sensitivity, "medium");
    assert_eq!(config.mediation_cooldown_minutes, 5);
}

#[test]
fn test_config_parses_cooldown_and_flag() {
    let config = Config::from_env(
        Some("t".to_string()),
        Some("k".to_string()),
        None,
        None,
        None,
        None,
        Some("FALSE".to_string()),
        Some("high".to_string()),
        Some("42".to_string()),
    )
    .unwrap();
    assert!(!config.conflict_mediation_enabled);
    assert_eq!(config.conflict_sensitivity, "high");
    assert_eq!(config.mediation_cooldown_minutes, 42);

    let config = Config::from_env(
        Some("t".to_string()),
        Some("k".to_string()),
        None,
        None,
        None,
        None,
        Some("TrUe".to_string()),
        None,
        Some("not-a-number".to_string()),
    )
    .unwrap();
    assert!(config.conflict_mediation_enabled);
    assert_eq!(config.mediation_cooldown_minutes, 5);
}

#[test]
fn test_bot_config_effective_values() {
    let bot = BotConfig {
        application_id: Some("123456789".to_string()),
        name: "test".to_string(),
        discord_token: "token".to_string(),
        default_persona: None,
        discord_guild_id: None,
        openai_model: Some("gpt-4".to_string()),
        conflict_mediation_enabled: Some(false),
        conflict_sensitivity: Some("high".to_string()),
        mediation_cooldown_minutes: Some(15),
        commands: None,
        startup_notification_enabled: Some(true),
    };

    assert_eq!(bot.bot_id(), "123456789");
    assert_eq!(bot.effective_model("gpt-3.5-turbo"), "gpt-4");
    assert!(!bot.effective_conflict_enabled(true));
    assert_eq!(bot.effective_conflict_sensitivity("low"), "high");
    assert_eq!(bot.effective_mediation_cooldown(5), 15);
}

#[test]
fn test_bot_config_fallback_to_global() {
    let bot = BotConfig {
        application_id: None,
        name: "test".to_string(),
        discord_token: "token".to_string(),
        default_persona: None,
        discord_guild_id: None,
        openai_model: None,
        conflict_mediation_enabled: None,
        conflict_sensitivity: None,
        mediation_cooldown_minutes: None,
        commands: None,
        startup_notification_enabled: Some(true),
    };

    // Should fall back to name when no application_id
    assert_eq!(bot.bot_id(), "test");
    // Should fall back to global defaults
    assert_eq!(bot.effective_model("gpt-3.5-turbo"), "gpt-3.5-turbo");
    assert!(bot.effective_conflict_enabled(true));
    assert_eq!(bot.effective_conflict_sensitivity("low"), "low");
    assert_eq!(bot.effective_mediation_cooldown(5), 5);
}

#[test]
fn test_multi_config_validation_empty_bots() {
    let config = MultiConfig {
        bots: vec![],
        openai_api_key: "key".to_string(),
        database_path: "db".to_string(),
        log_level: "info".to_string(),
        openai_model: "gpt-4".to_string(),
        conflict_mediation_enabled: true,
        conflict_sensitivity: "medium".to_string(),
        mediation_cooldown_minutes: 5,
    };

    let result = config.validate();
    assert!(result.is_err());
    assert!(result.unwrap_err().message().contains("At least one bot"));
}

#[test]
fn test_multi_config_validation_invalid_sensitivity() {
    let config = MultiConfig {
        bots: vec![BotConfig {
            application_id: None,
            name: "test".to_string(),
            discord_token: "token".to_string(),
            default_persona: None,
            discord_guild_id: None,
            openai_model: None,
            conflict_mediation_enabled: None,
            conflict_sensitivity: Some("invalid".to_string()),
            mediation_cooldown_minutes: None,
            commands: None,
            startup_notification_enabled: Some(true),
        }],
        openai_api_key: "key".to_string(),
        database_path: "db".to_string(),
        log_level: "info".to_string(),
        openai_model: "gpt-4".to_string(),
        conflict_mediation_enabled: true,
        conflict_sensitivity: "medium".to_string(),
        mediation_cooldown_minutes: 5,
    };

    let result = config.validate();
    assert!(result.is_err());
    assert!(result.unwrap_err().message().contains("invalid conflict_sensitivity"));
}

#[test]
fn test_to_legacy_config() {
    let bot = BotConfig {
        application_id: Some("123".to_string()),
        name: "test".to_string(),
        discord_token: "bot_token".to_string(),
        default_persona: Some("chef".to_string()),
        discord_guild_id: Some("guild_123".to_string()),
        openai_model: Some("gpt-4".to_string()),
        conflict_mediation_enabled: Some(false),
        conflict_sensitivity: Some("high".to_string()),
        mediation_cooldown_minutes: Some(10),
        commands: None,
        startup_notification_enabled: Some(true),
    };

    let multi = MultiConfig {
        bots: vec![bot.clone()],
        openai_api_key: "openai_key".to_string(),
        database_path: "test.db".to_string(),
        log_level: "debug".to_string(),
        openai_model: "gpt-3.5-turbo".to_string(),
        conflict_mediation_enabled: true,
        conflict_sensitivity: "low".to_string(),
        mediation_cooldown_minutes: 5,
    };

    let legacy = multi.to_legacy_config(&bot);

    assert_eq!(legacy.discord_token, "bot_token");
    assert_eq!(legacy.openai_api_key, "openai_key");
    assert_eq!(legacy.database_path, "test.db");
    assert_eq!(legacy.discord_guild_id, Some("guild_123".to_string()));
    // Per-bot overrides should be used
    assert_eq!(legacy.openai_model, "gpt-4");
    assert!(!legacy.conflict_mediation_enabled);
    assert_eq!(legacy.conflict_sensitivity, "high");
    assert_eq!(legacy.mediation_cooldown_minutes, 10);
}

#[test]
fn test_multi_config_multiple_bots() {
    let config = MultiConfig {
        bots: vec![
            BotConfig {
                application_id: Some("app1".to_string()),
                name: "Bot One".to_string(),
                discord_token: "token1".to_string(),
                default_persona: Some("muppet".to_string()),
                discord_guild_id: None,
                openai_model: Some("gpt-4".to_string()),
                conflict_mediation_enabled: Some(true),
                conflict_sensitivity: Some("high".to_string()),
                mediation_cooldown_minutes: Some(10),
                commands: None,
                startup_notification_enabled: Some(true),
            },
            BotConfig {
                application_id: Some("app2".to_string()),
                name: "Bot Two".to_string(),
                discord_token: "token2".to_string(),
                default_persona: Some("chef".to_string()),
                discord_guild_id: None,
                openai_model: None, // Uses global default
                conflict_mediation_enabled: None,
                conflict_sensitivity: None,
                mediation_cooldown_minutes: None,
                commands: None,
                startup_notification_enabled: Some(true),
            },
        ],
        openai_api_key: "sk-test".to_string(),
        database_path: ":memory:".to_string(),
        log_level: "info".to_string(),
        openai_model: "gpt-4o-mini".to_string(),
        conflict_mediation_enabled: true,
        conflict_sensitivity: "medium".to_string(),
        mediation_cooldown_minutes: 5,
    };

    assert!(config.validate().is_ok());
    assert_eq!(config.bots.len(), 2);

    // Test effective values with overrides
    let bot1 = &config.bots[0];
    assert_eq!(bot1.effective_model(&config.openai_model), "gpt-4");
    assert_eq!(bot1.effective_conflict_sensitivity(&config.conflict_sensitivity), "high");

    // Test effective values with defaults
    let bot2 = &config.bots[1];
    assert_eq!(bot2.effective_model(&config.openai_model), "gpt-4o-mini");
    assert_eq!(bot2.effective_conflict_sensitivity(&config.conflict_sensitivity), "medium");
}

#[test]
fn test_bot_id_accessor() {
    // With application_id set
    let bot_with_id = BotConfig {
        application_id: Some("123456789".to_string()),
        name: "Test Bot".to_string(),
        discord_token: "token".to_string(),
        default_persona: None,
        discord_guild_id: None,
        openai_model: None,
        conflict_mediation_enabled: None,
        conflict_sensitivity: None,
        mediation_cooldown_minutes: None,
        commands: None,
        startup_notification_enabled: Some(true),
    };
    assert_eq!(bot_with_id.bot_id(), "123456789");

    // Without application_id (falls back to name)
    let bot_without_id = BotConfig {
        application_id: None,
        name: "Fallback Bot".to_string(),
        discord_token: "token".to_string(),
        default_persona: None,
        discord_guild_id: None,
        openai_model: None,
        conflict_mediation_enabled: None,
        conflict_sensitivity: None,
        mediation_cooldown_minutes: None,
        commands: None,
        startup_notification_enabled: Some(true),
    };
    assert_eq!(bot_without_id.bot_id(), "Fallback Bot");
}

#[test]
fn test_allows_command() {
    let mut bot = plain_bot("b", "t");
    assert!(bot.allows_command("ping"));
    bot.commands = Some(vec!["ping".to_string(), "help".to_string()]);
    assert!(bot.allows_command("ping"));
    assert!(!bot.allows_command("forget"));
}

#[test]
fn test_validation_missing_allowlist() {
    let mut a = plain_bot("a", "t1");
    a.discord_guild_id = Some("g".to_string());
    a.commands = Some(vec!["ping".to_string()]);
    let mut b = plain_bot("b", "t2");
    b.discord_guild_id = Some("g".to_string());
    let config = plain_multi(vec![a, b]);
    let err = config.validate().unwrap_err();
    assert!(matches!(err, ConfigError::MissingCommandAllowlist { index: 1 }));
}

#[test]
fn test_validation_command_overlap() {
    let mut a = plain_bot("a", "t1");
    a.discord_guild_id = Some("g".to_string());
    a.commands = Some(vec!["ping".to_string(), "help".to_string()]);
    let mut b = plain_bot("b", "t2");
    b.discord_guild_id = Some("g".to_string());
    b.commands = Some(vec!["status".to_string(), "ping".to_string()]);
    let config = plain_multi(vec![a, b]);
    let err = config.validate().unwrap_err();
    assert!(matches!(err, ConfigError::CommandOverlap { first: 0, second: 1 }));
    assert!(err.message().contains("Command overlap"));
}

#[test]
fn test_validation_disjoint_commands_ok() {
    let mut a = plain_bot("a", "t1");
    a.discord_guild_id = Some("g".to_string());
    a.commands = Some(vec!["ping".to_string()]);
    let mut b = plain_bot("b", "t2");
    b.discord_guild_id = Some("g".to_string());
    b.commands = Some(vec!["status".to_string()]);
    let config = plain_multi(vec![a, b]);
    assert!(config.validate().is_ok());
}

#[test]
fn test_get_bot_by_name() {
    let mut config = plain_multi(vec![plain_bot("alpha", "t1"), plain_bot("beta", "t2")]);
    assert_eq!(config.get_bot("beta").unwrap().discord_token, "t2");
    assert!(config.get_bot("gamma").is_none());
    let bot = config.get_bot_mut("alpha").unwrap();
    bot.default_persona = Some("chef".to_string());
    assert_eq!(config.bots[0].default_persona, Some("chef".to_string()));
}

#[test]
fn test_from_env_single_bot() {
    let legacy = Config::from_env(
        Some("tok".to_string()),
        Some("key".to_string()),
        None,
        None,
        Some("guild9".to_string()),
        None,
        None,
        None,
        None,
    )
    .unwrap();
    let multi = MultiConfig::from_env_single_bot(legacy);
    assert_eq!(multi.bots.len(), 1);
    assert_eq!(multi.bots[0].name, "default");
    assert_eq!(multi.bots[0].discord_token, "tok");
    assert_eq!(multi.bots[0].discord_guild_id, Some("guild9".to_string()));
    assert_eq!(multi.openai_api_key, "key");
    assert_eq!(multi.database_path, "persona.db");
    assert!(multi.validate().is_ok());
}

#[test]
fn test_parse_u64_forms() {
    assert_eq!(persona::config::parse_u64("0"), Some(0));
    assert_eq!(persona::config::parse_u64("42"), Some(42));
    assert_eq!(persona::config::parse_u64("+42"), Some(42));
    assert_eq!(persona::config::parse_u64("18446744073709551615"), Some(u64::MAX));
    assert_eq!(persona::config::parse_u64("18446744073709551616"), None);
    assert_eq!(persona::config::parse_u64(""), None);
    assert_eq!(persona::config::parse_u64("+"), None);
    assert_eq!(persona::config::parse_u64("-1"), None);
    assert_eq!(persona::config::parse_u64("12a"), None);
}
