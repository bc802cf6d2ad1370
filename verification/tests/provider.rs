use zerofs::expand::LookupFailure;
use zerofs::provider::{
    expand_section, options_of, provider_option, AwsConfig, AzureConfig, GcsConfig, Section,
    WalConfig,
};
use zerofs::settings::Settings;

fn pairs(entries: &[(&str, &str)]) -> Vec<(String, String)> {
    entries.iter().map(|(k, v)| (k.to_string(), v.to_string())).collect()
}

fn section(entries: &[(&str, &str)]) -> Section {
    let mut section = Section::new();
    for (key, value) in pairs(entries) {
        section.insert(key, value);
    }
    section
}

#[test]
fn options_carry_the_prefix_of_their_provider() {
    let options = options_of(
        &Some(AwsConfig(section(&[("Access_Key_ID", "A"), ("endpoint", "E")]))),
        &Some(AzureConfig(section(&[("STORAGE_ACCOUNT_KEY", "K")]))),
        &Some(GcsConfig(section(&[("service_account", "S")]))),
    );
    assert_eq!(
        options,
        pairs(&[
            ("aws_access_key_id", "A"),
            ("aws_endpoint", "E"),
            ("azure_storage_account_key", "K"),
            ("google_service_account", "S"),
        ])
    );
    assert_eq!(options_of(&None, &None, &None), Vec::new());
}

#[test]
fn keys_are_lowered_as_unicode_has_it() {
    let options = options_of(&Some(AwsConfig(section(&[("\u{c4}\u{130}\u{3a3}", "v")]))), &None, &None);
    assert_eq!(options[0].0, format!("aws_{}", "\u{c4}\u{130}\u{3a3}".to_lowercase()));
    assert_ne!(options[0].0, "aws_\u{c4}\u{130}\u{3a3}");
    assert_eq!(provider_option("aws_", "region", "us"), ("aws_region".to_string(), "us".to_string()));
}

#[test]
fn the_wal_store_has_options_of_its_own() {
    let wal = WalConfig {
        url: "s3://bucket/wal".to_string(),
        storage_class: None,
        aws: None,
        azure: None,
        gcp: Some(GcsConfig(section(&[("Application_Credentials", "/key.json")]))),
    };
    assert_eq!(
        wal.cloud_provider_env_vars(),
        pairs(&[("google_application_credentials", "/key.json")])
    );
}

#[test]
fn fresh_settings_name_the_aws_keys() {
    assert_eq!(
        Settings::generate_default().cloud_provider_env_vars(),
        pairs(&[
            ("aws_access_key_id", "${AWS_ACCESS_KEY_ID}"),
            ("aws_secret_access_key", "${AWS_SECRET_ACCESS_KEY}"),
        ])
    );
}

#[test]
fn values_are_expanded_and_keys_are_not() {
    assert_eq!(
        expand_section(&section(&[("$key", "pa$$word"), ("allow_http", "true")])).unwrap().to_vec(),
        pairs(&[("$key", "pa$word"), ("allow_http", "true")])
    );
    let failure: LookupFailure =
        expand_section(&section(&[("a", "1"), ("b", "${ZEROFS_TEST_NONE}")])).unwrap_err();
    assert_eq!(failure.var_name, "ZEROFS_TEST_NONE");
    let first = expand_section(&section(&[
        ("a", "1"),
        ("b", "$ZEROFS_TEST_NONE_B"),
        ("c", "$ZEROFS_TEST_NONE_C"),
    ]));
    assert_eq!(first.unwrap_err().var_name, "ZEROFS_TEST_NONE_B");
}

#[test]
fn a_section_holds_a_key_once() {
    let mut section = section(&[("a", "1"), ("b", "2"), ("a", "3")]);
    assert_eq!(section.to_vec(), pairs(&[("a", "3"), ("b", "2")]));
    assert_eq!(section.len(), 2);
    let copy = section.clone();
    section.insert("c".to_string(), "4".to_string());
    assert_eq!(section.get("a").map(|v| v.as_str()), Some("3"));
    assert_eq!(section.get("c").map(|v| v.as_str()), Some("4"));
    assert_eq!(section.get("A"), None);
    assert_eq!(copy.get("c"), None);
}
