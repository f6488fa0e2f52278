use infinidash::Application;
use infinidash::Backend;
use infinidash::Client;
use infinidash::InfiniConfigBuilder;
use infinidash::InifinidashError;

#[test]
fn it_works() {
    let config = InfiniConfigBuilder::new()
        .name("infini.config".to_string())
        .region("us-east-1".to_string())
        .account("".to_string())
        .build();
    assert!(config.name == "infini.config".to_string());
    assert!(config.region == "us-east-1".to_string())
}

#[test]
fn defaults_when_nothing_set() {
    let config = InfiniConfigBuilder::new().build();
    assert_eq!(config.name, "infini.config");
    assert_eq!(config.region, "us-east-1");
    assert_eq!(config.account, "");
    assert!(config.access_key.is_none());
    assert!(config.secret_key.is_none());
}

#[test]
fn explicit_name_and_region() {
    let config = InfiniConfigBuilder::new()
        .name("x".to_string())
        .region("eu-west-1".to_string())
        .build();
    assert_eq!(config.name, "x");
    assert_eq!(config.region, "eu-west-1");
    assert_eq!(config.account, "");
    assert!(config.access_key.is_none());
    assert!(config.secret_key.is_none());
}

#[test]
fn last_name_write_wins() {
    let config = InfiniConfigBuilder::new()
        .name("first".to_string())
        .name("second".to_string())
        .build();
    assert_eq!(config.name, "second");
}

#[test]
fn last_region_write_wins() {
    let config = InfiniConfigBuilder::new()
        .region("eu-west-1".to_string())
        .region("ap-south-1".to_string())
        .build();
    assert_eq!(config.region, "ap-south-1");
}

#[test]
fn last_account_write_wins() {
    let config = InfiniConfigBuilder::new()
        .account("111".to_string())
        .account("222".to_string())
        .build();
    assert_eq!(config.account, "222");
}

#[test]
fn setter_order_does_not_matter() {
    let left = InfiniConfigBuilder::new()
        .name("n".to_string())
        .region("r".to_string())
        .build();
    let right = InfiniConfigBuilder::new()
        .region("r".to_string())
        .name("n".to_string())
        .build();
    assert_eq!(left.name, right.name);
    assert_eq!(left.region, right.region);
    assert_eq!(left.account, right.account);
}

#[test]
fn built_config_fields_read_back() {
    let config = InfiniConfigBuilder::new()
        .name("x".to_string())
        .region("eu-west-1".to_string())
        .build();
    assert_eq!(config.name, "x");
    assert_eq!(config.region, "eu-west-1");
    assert_eq!(config.account, "");
    assert_eq!(config.access_key, None);
    assert_eq!(config.secret_key, None);
}

#[test]
fn run_always_succeeds() {
    let config = InfiniConfigBuilder::new()
        .name("anything".to_string())
        .region("nowhere-7".to_string())
        .account("42".to_string())
        .build();
    assert_eq!(Application::run(config), Ok(()));
}

#[test]
fn run_succeeds_on_defaults() {
    let config = InfiniConfigBuilder::new().build();
    assert!(Application::run(config).is_ok());
}

#[test]
fn backend_runs_twice() {
    let config = InfiniConfigBuilder::new().build();
    let mut backend = Backend::with_app(config);
    assert_eq!(backend.run(), Ok(()));
    assert_eq!(backend.run(), Ok(()));
}

#[test]
fn greeting_is_fixed() {
    assert_eq!(Backend::greeting(), "Hello world!");
}

#[test]
fn client_holds_any_config() {
    let config = InfiniConfigBuilder::new()
        .account("123456789012".to_string())
        .build();
    let _client = Client::new(config);
}

#[test]
fn error_variants_are_distinct() {
    assert_ne!(InifinidashError::Error, InifinidashError::Timeout);
    assert_ne!(InifinidashError::Error, InifinidashError::Canceled);
    assert_ne!(InifinidashError::Error, InifinidashError::Interrupted);
    assert_ne!(InifinidashError::Timeout, InifinidashError::Canceled);
    assert_ne!(InifinidashError::Timeout, InifinidashError::Interrupted);
    assert_ne!(InifinidashError::Canceled, InifinidashError::Interrupted);
    assert_eq!(InifinidashError::Timeout, InifinidashError::Timeout);
}
