use ruuvi_mqtt::broker::{connect_options, KEEP_ALIVE_SECS, REQUEST_CAPACITY};
use std::time::Duration;

#[test]
fn options_carry_the_broker_and_the_fixed_settings() {
    let options = connect_options("ruuvi-client", "broker.local", 1883, None, None);
    assert_eq!(options.client_id(), "ruuvi-client");
    assert_eq!(options.broker_address(), ("broker.local".to_string(), 1883));
    assert_eq!(options.keep_alive(), Duration::from_secs(5));
    assert_eq!(KEEP_ALIVE_SECS, 5);
    assert_eq!(REQUEST_CAPACITY, 10);
    assert!(options.credentials().is_none());
}

#[test]
fn credentials_need_a_user_name_and_default_to_an_empty_password() {
    let both = connect_options("c", "h", 1, Some("user"), Some("secret"));
    let login = both.credentials().unwrap();
    assert_eq!(login.username, "user");
    assert_eq!(login.password, "secret");
    let name_only = connect_options("c", "h", 1, Some("user"), None);
    let login = name_only.credentials().unwrap();
    assert_eq!(login.username, "user");
    assert_eq!(login.password, "");
    let password_only = connect_options("c", "h", 1, None, Some("secret"));
    assert!(password_only.credentials().is_none());
    assert_eq!(password_only.keep_alive(), Duration::from_secs(KEEP_ALIVE_SECS));
}
