use chat_relay::config::Config;

fn config(webhook: &str, cluster: &str, region: &str, token: &str) -> Config {
    Config::from_parts(
        webhook.to_string(),
        cluster.to_string(),
        region.to_string(),
        token.to_string(),
    )
}

#[test]
fn new_config_is_empty() {
    let c = Config::new();
    assert!(c.is_empty());
    assert_eq!(c.webhook_url(), "");
    assert_eq!(c.cluster_url(), "");
    assert_eq!(c.region(), "");
    assert_eq!(c.token(), "");
    assert_eq!(c, config("", "", "", ""));
}

#[test]
fn config_is_empty_if_a_connection_setting_is_missing() {
    assert!(!config("", "wss://cluster", "region-1", "secret").is_empty());
    assert!(!config("https://hook", "wss://cluster", "region-1", "secret").is_empty());
    assert!(config("https://hook", "", "region-1", "secret").is_empty());
    assert!(config("https://hook", "wss://cluster", "", "secret").is_empty());
    assert!(config("https://hook", "wss://cluster", "region-1", "").is_empty());
    assert!(config("https://hook", "", "", "").is_empty());
}

#[test]
fn config_hands_out_its_values() {
    let c = config("https://hook", "wss://cluster", "region-1", "secret");
    assert_eq!(c.webhook_url(), "https://hook");
    assert_eq!(c.cluster_url(), "wss://cluster");
    assert_eq!(c.region(), "region-1");
    assert_eq!(c.token(), "secret");
}
