use semaine::config::{Config, ConfigError};
use semaine::schema::{semaine, OptionKind};
use semaine::text::{role_mention_string, u64_dec};

#[test]
fn decimal_rendering_exact_values() {
    assert_eq!(u64_dec(0), "0");
    assert_eq!(u64_dec(7), "7");
    assert_eq!(u64_dec(10), "10");
    assert_eq!(u64_dec(90061), "90061");
    assert_eq!(u64_dec(1234567890), "1234567890");
    assert_eq!(u64_dec(u64::MAX), "18446744073709551615");
}

#[test]
fn role_mention_text() {
    assert_eq!(role_mention_string(42), "<@&42>");
    assert_eq!(role_mention_string(0), "<@&0>");
}

#[test]
fn schema_describes_the_weekly_poll_command() {
    let command = semaine();
    assert_eq!(command.name, "semaine");
    assert_eq!(
        command.description,
        "Crée un sondage pour un ou plusieurs jours de la semaine"
    );
    assert_eq!(command.options.len(), 2);
    assert_eq!(command.options[0].kind, OptionKind::Text);
    assert_eq!(command.options[0].name, "intitulé");
    assert_eq!(command.options[0].description, "Intitulé du sondage");
    assert!(!command.options[0].required);
    assert_eq!(command.options[1].kind, OptionKind::Role);
    assert_eq!(command.options[1].name, "rôle");
    assert_eq!(command.options[1].description, "Rôle à notifier");
    assert!(!command.options[1].required);
}

#[test]
fn zero_application_id_is_rejected() {
    assert_eq!(
        Config::new(0, "token".to_string()),
        Err(ConfigError::ZeroApplicationId)
    );
}

#[test]
fn non_zero_application_id_is_accepted() {
    let config = Config::new(123, "token".to_string()).expect("non-zero id is accepted");
    assert_eq!(config.application_id, 123);
    assert_eq!(config.token, "token");
}
