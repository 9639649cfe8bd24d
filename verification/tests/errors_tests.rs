use wednesday::config::AdminUserId;
use wednesday::errors::MyError;
use wednesday::fetch::FetchError;

#[test]
fn config_lock_error_message() {
    assert_eq!(MyError::ConfigLockError.message(), "Config lock error");
}

#[test]
fn admin_chat_check() {
    let admin = AdminUserId(42);
    assert!(admin.is_admin_chat(42));
    assert!(!admin.is_admin_chat(7));
}

#[test]
fn only_network_errors_are_transient() {
    assert!(FetchError::Network.is_transient());
    assert!(!FetchError::InvalidJson.is_transient());
    assert!(!FetchError::UnexpectedFormat.is_transient());
    assert!(!FetchError::MissingField("price".to_owned()).is_transient());
    assert!(!FetchError::NotANumber("usd".to_owned()).is_transient());
    assert!(!FetchError::Upstream { code: 429, message: "limit".to_owned() }.is_transient());
}
