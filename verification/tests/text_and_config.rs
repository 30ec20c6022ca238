use poem_api::file_reader::{mongo_uri, redis_url, Config};
use poem_api::text::{decimal_string, signed_decimal_string, text_is};

#[test]
fn decimal_of_small_and_large_numbers() {
    assert_eq!(decimal_string(0), "0");
    assert_eq!(decimal_string(9), "9");
    assert_eq!(decimal_string(10), "10");
    assert_eq!(decimal_string(1234567890), "1234567890");
    assert_eq!(decimal_string(u128::MAX), u128::MAX.to_string());
}

#[test]
fn signed_decimal_matches_display() {
    for n in [0i16, 1, -1, 6379, -6379, i16::MAX, i16::MIN, 27017] {
        assert_eq!(signed_decimal_string(n), n.to_string());
    }
}

#[test]
fn connection_addresses() {
    assert_eq!(redis_url("localhost", 6379), "redis://localhost:6379/");
    assert_eq!(mongo_uri("db.local", 27017), "mongodb://db.local:27017");
    assert_eq!(redis_url("h", -1), "redis://h:-1/");
}

#[test]
fn config_addresses() {
    let c = Config {
        redis_host: String::from("127.0.0.1"),
        redis_port: 6379,
        mongo_host: String::from("mongo"),
        mongo_port: 27017,
        mongo_db_name: String::from("chat"),
    };
    assert_eq!(c.redis_url(), "redis://127.0.0.1:6379/");
    assert_eq!(c.mongo_uri(), "mongodb://mongo:27017");
}

#[test]
fn text_is_compares_exactly() {
    assert!(text_is(&String::from("txt"), "txt"));
    assert!(!text_is(&String::from("txt "), "txt"));
    assert!(!text_is(&String::from(""), "txt"));
}
