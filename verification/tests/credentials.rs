use openai::credentials::{parse_base_url, set_base_url, set_key, ApiProvider, Credentials};

#[test]
fn separator_is_appended_once() {
    assert_eq!(parse_base_url("https://api.openai.com/v1".to_string()), "https://api.openai.com/v1/");
    assert_eq!(parse_base_url("https://api.openai.com/v1/".to_string()), "https://api.openai.com/v1/");
    assert_eq!(parse_base_url(String::new()), "/");
    assert_eq!(parse_base_url("/".to_string()), "/");
}

#[test]
fn normalizing_twice_is_normalizing_once() {
    for url in ["https://api.anthropic.com/v1", "https://api.openai.com/v1/", "", "a//", "é"] {
        let once = parse_base_url(url.to_string());
        let twice = parse_base_url(once.clone());
        assert_eq!(once, twice);
        assert!(once.ends_with('/'));
    }
}

#[test]
fn marker_names_the_provider() {
    assert_eq!(
        Credentials::infer_provider("https://api.openai.com/v1/").unwrap(),
        ApiProvider::OpenAI
    );
    assert_eq!(
        Credentials::infer_provider("https://api.anthropic.com/v1/").unwrap(),
        ApiProvider::Anthropic
    );
    assert_eq!(Credentials::infer_provider("xxopenaixx").unwrap(), ApiProvider::OpenAI);
}

#[test]
fn first_marker_wins_where_both_occur() {
    assert_eq!(
        Credentials::infer_provider("https://anthropic.openai.example/").unwrap(),
        ApiProvider::OpenAI
    );
}

#[test]
fn address_without_marker_is_refused() {
    let error = Credentials::infer_provider("https://example.com/v1/").unwrap_err();
    assert_eq!(error.message, "Unrecognized base URL: https://example.com/v1/");
    assert_eq!(error.error_type, "configuration_error");
    assert_eq!(error.param, None);
    assert_eq!(error.code, None);
    assert!(Credentials::infer_provider("").is_err());
    assert!(Credentials::infer_provider("OpenAI").is_err());
    assert!(Credentials::infer_provider("open-ai").is_err());
}

#[test]
fn new_credentials_carry_key_address_and_provider() {
    let c = Credentials::new("sk-1".to_string(), "https://api.anthropic.com/v1".to_string()).unwrap();
    assert_eq!(c.api_key(), "sk-1");
    assert_eq!(c.base_url(), "https://api.anthropic.com/v1/");
    assert_eq!(*c.provider(), ApiProvider::Anthropic);
    let c = Credentials::new("sk-2".to_string(), "https://api.openai.com/v1/".to_string()).unwrap();
    assert_eq!(c.base_url(), "https://api.openai.com/v1/");
    assert_eq!(*c.provider(), ApiProvider::OpenAI);
}

#[test]
fn new_credentials_need_a_known_address() {
    let error = Credentials::new("sk-1".to_string(), "http://localhost:8080".to_string()).unwrap_err();
    assert_eq!(error.message, "Unrecognized base URL: http://localhost:8080/");
    assert_eq!(error.error_type, "configuration_error");
}

#[test]
fn variables_of_each_provider() {
    assert_eq!(Credentials::env_names(ApiProvider::OpenAI), ("OPENAI_KEY", "OPENAI_BASE_URL"));
    assert_eq!(Credentials::env_names(ApiProvider::Anthropic), ("ANTHROPIC_KEY", "ANTHROPIC_URL"));
}

#[test]
fn credentials_from_what_the_variables_hold() {
    let c = Credentials::from_env(
        ApiProvider::Anthropic,
        Some("key".to_string()),
        Some("http://localhost:1234".to_string()),
    )
    .unwrap();
    assert_eq!(c.api_key(), "key");
    assert_eq!(c.base_url(), "http://localhost:1234/");
    assert_eq!(*c.provider(), ApiProvider::Anthropic);
}

#[test]
fn unset_variable_is_a_configuration_error() {
    let error =
        Credentials::from_env(ApiProvider::OpenAI, None, Some("https://api.openai.com".to_string()))
            .unwrap_err();
    assert_eq!(error.message, "Environment variable OPENAI_KEY is not set");
    assert_eq!(error.error_type, "configuration_error");
    let error = Credentials::from_env(ApiProvider::OpenAI, None, None).unwrap_err();
    assert_eq!(error.message, "Environment variable OPENAI_KEY is not set");
    let error =
        Credentials::from_env(ApiProvider::Anthropic, Some("k".to_string()), None).unwrap_err();
    assert_eq!(error.message, "Environment variable ANTHROPIC_URL is not set");
    let error = Credentials::from_env(ApiProvider::OpenAI, Some("k".to_string()), None).unwrap_err();
    assert_eq!(error.message, "Environment variable OPENAI_BASE_URL is not set");
    let error = Credentials::from_env(ApiProvider::Anthropic, None, None).unwrap_err();
    assert_eq!(error.message, "Environment variable ANTHROPIC_KEY is not set");
}

#[test]
fn key_is_replaced() {
    let mut c = Credentials::new("old".to_string(), "https://api.openai.com/v1/".to_string()).unwrap();
    set_key(&mut c, "new".to_string());
    assert_eq!(c.api_key(), "new");
    assert_eq!(c.base_url(), "https://api.openai.com/v1/");
    assert_eq!(*c.provider(), ApiProvider::OpenAI);
}

#[test]
fn base_address_is_replaced_and_normalized() {
    let mut c = Credentials::new("k".to_string(), "https://api.openai.com/v1/".to_string()).unwrap();
    set_base_url(&mut c, "http://localhost:9000".to_string());
    assert_eq!(c.base_url(), "http://localhost:9000/");
    assert_eq!(c.api_key(), "k");
    assert_eq!(*c.provider(), ApiProvider::OpenAI);
    set_base_url(&mut c, "http://other/".to_string());
    assert_eq!(c.base_url(), "http://other/");
}

#[test]
fn empty_base_address_changes_nothing() {
    let mut c = Credentials::new("k".to_string(), "https://api.openai.com/v1/".to_string()).unwrap();
    set_base_url(&mut c, String::new());
    assert_eq!(c.base_url(), "https://api.openai.com/v1/");
}

#[test]
fn explicit_credentials_come_before_the_default() {
    let default = Credentials::new("d".to_string(), "https://api.openai.com/".to_string()).unwrap();
    let explicit = Credentials::new("e".to_string(), "https://api.anthropic.com/".to_string()).unwrap();
    let r = Credentials::resolve(Some(explicit), || panic!("the default is not needed"));
    assert_eq!(r.api_key(), "e");
    assert_eq!(*r.provider(), ApiProvider::Anthropic);
    let r = Credentials::resolve(None, || default.clone());
    assert_eq!(r, default);
    assert_eq!(r.clone(), default);
}
