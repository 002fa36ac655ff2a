use dolph_cli::database::Database;
use dolph_cli::errors::ServerFileError;
use dolph_cli::properties::{DefaultConfig, Generator};

fn s(text: &str) -> String {
    String::from(text)
}

#[test]
fn database_from_str_known_flavours() {
    assert_eq!(Database::from_str("mysql"), Some(Database::MySQL));
    assert_eq!(Database::from_str("mongo"), Some(Database::MongoDB));
    assert_eq!(Database::from_str("other"), Some(Database::PostgreSQL));
    assert_eq!(Database::from_str("postgresql"), Some(Database::NoDatabase));
}

#[test]
fn database_from_str_is_case_insensitive() {
    assert_eq!(Database::from_str("MySQL"), Some(Database::MySQL));
    assert_eq!(Database::from_str("MONGO"), Some(Database::MongoDB));
}

#[test]
fn database_from_str_rejects_unknown() {
    assert_eq!(Database::from_str("sqlite"), None);
    assert_eq!(Database::from_str(""), None);
}

#[test]
fn server_file_error_messages() {
    assert_eq!(
        ServerFileError::BaseDirectoryNotFound.message(),
        s("Base directory not found")
    );
    assert_eq!(
        ServerFileError::InvalidDatabase(s("sqlite")).message(),
        s("Invalid database type: sqlite")
    );
    assert_eq!(
        ServerFileError::IoError(s("permission denied")).message(),
        s("IO error: permission denied")
    );
}

#[test]
fn default_config_new_copies_every_field() {
    let config = DefaultConfig {
        language: s("ts"),
        database: s("mongo"),
        routing: s("spring"),
        api: s("rest"),
    };
    let copy = DefaultConfig::new(config);
    assert_eq!(copy.language, s("ts"));
    assert_eq!(copy.database, s("mongo"));
    assert_eq!(copy.routing, s("spring"));
    assert_eq!(copy.api, s("rest"));
}

#[test]
fn generator_keeps_its_configuration() {
    let config = DefaultConfig {
        language: s("js"),
        database: s("mysql"),
        routing: s("express"),
        api: s("graphql"),
    };
    let generator = Generator::new(config);
    assert_eq!(generator.config().database, s("mysql"));
    assert_eq!(generator.config().api, s("graphql"));
}
