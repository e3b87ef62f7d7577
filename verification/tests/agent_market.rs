use ironclaw::agent_market::{
    accepts, bundle, checked_server_url, manifest_toml, schema_asset_paths, validated_server_url,
    ServerUrlRejection, ID, SERVER_URL_ENV, SERVER_URL_PLACEHOLDER,
};
use ironclaw::capability::EffectKind;
use ironclaw::web::UrlParts;

const SHIPPED: &str = "[mcp]\nserver = \"https://MARKET_PUBLIC_HOST/mcp\"\n";

fn schemas() -> Vec<Vec<u8>> {
    (0..8u8).map(|i| vec![b'{', i, b'}']).collect()
}

#[test]
fn accepts_a_plain_https_url() {
    assert_eq!(
        validated_server_url(" https://market.example.com/mcp "),
        "https://market.example.com/mcp"
    );
}

#[test]
fn rejects_toml_string_breakout() {
    assert_eq!(
        checked_server_url("https://market.example.com/mcp\"\nhack = \"1"),
        Err(ServerUrlRejection::NotPlain {
            text: "https://market.example.com/mcp\"\nhack = \"1".to_string()
        })
    );
}

#[test]
fn rejects_comment_truncation() {
    assert_eq!(
        checked_server_url("https://market.example.com/mcp#"),
        Err(ServerUrlRejection::NotPlain {
            text: "https://market.example.com/mcp#".to_string()
        })
    );
}

#[test]
fn rejects_non_https() {
    assert_eq!(
        checked_server_url("http://market.example.com/mcp"),
        Err(ServerUrlRejection::NotPlain {
            text: "http://market.example.com/mcp".to_string()
        })
    );
}

#[test]
fn rejects_what_is_no_url() {
    assert_eq!(
        checked_server_url("  market  "),
        Err(ServerUrlRejection::NotAUrl {
            text: "market".to_string()
        })
    );
}

#[test]
fn checked_url_is_trimmed() {
    assert_eq!(
        checked_server_url("\thttps://market.example.com/mcp\n"),
        Ok("https://market.example.com/mcp".to_string())
    );
}

#[test]
fn escapes_and_credentials_are_not_accepted() {
    let parts = Some(UrlParts {
        scheme: "https".to_string(),
        username: String::new(),
        password: None,
        host: Some("market.example.com".to_string()),
        port: None,
        path: "/mcp".to_string(),
        query: None,
        fragment: None,
    });
    assert!(accepts("https://market.example.com/mcp", &parts));
    assert!(!accepts("https://market.example.com\\mcp", &parts));
    assert!(!accepts("https://market.example.com/m cp", &parts));
    assert!(!accepts("https://market.example.com/mcp", &None));
    assert!(checked_server_url("https://me:pw@market.example.com/mcp").is_err());
    assert!(checked_server_url("https://market.example.com/mcp?x=1").is_err());
}

#[test]
fn manifest_is_retargeted_at_the_server() {
    assert_eq!(
        manifest_toml(SHIPPED, Some(" https://market.example.com/mcp ".to_string())),
        Ok("[mcp]\nserver = \"https://market.example.com/mcp\"\n".to_string())
    );
    assert_eq!(manifest_toml(SHIPPED, None), Ok(SHIPPED.to_string()));
    assert!(manifest_toml(SHIPPED, Some("  ".to_string())).is_err());
    assert!(manifest_toml(SHIPPED, Some("ftp://x".to_string())).is_err());
}

#[test]
fn a_server_that_is_set_but_blank_is_refused() {
    assert_eq!(
        bundle(SHIPPED, Some("   ".to_string()), &schemas()),
        Err(ServerUrlRejection::NotAUrl {
            text: String::new()
        })
    );
    let unset = bundle(SHIPPED, None, &schemas()).expect("bundle");
    assert_eq!(unset.manifest_toml, SHIPPED);
}

#[test]
fn bundle_carries_the_manifest_bytes_it_validates_with() {
    let package = bundle(
        SHIPPED,
        Some("https://market.example.com/mcp".to_string()),
        &schemas(),
    )
    .expect("bundle");
    assert_eq!(package.id, "agent-market");
    assert_eq!(package.display_name, "Agent Market");
    assert_eq!(package.assets.len(), 9);
    assert_eq!(package.assets[0].path, "manifest.toml");
    assert_eq!(package.assets[0].bytes, package.manifest_toml.as_bytes());
    assert_eq!(package.assets[1].path, "schemas/search_agents.input.v1.json");
    assert_eq!(package.assets[8].path, "schemas/cancel_job.input.v1.json");
    assert_eq!(package.assets[8].bytes, vec![b'{', 7, b'}']);
    assert_eq!(
        package.trust_effects,
        Some(vec![
            EffectKind::DispatchCapability,
            EffectKind::Network,
            EffectKind::UseSecret,
            EffectKind::ExternalWrite
        ])
    );
    let onboarding = package.onboarding.expect("onboarding");
    assert!(onboarding.instructions.starts_with("Agent Market needs"));
    assert_eq!(onboarding.setup_url, None);
    assert_eq!(schema_asset_paths().len(), 8);
    assert_eq!(ID, "agent-market");
    assert_eq!(SERVER_URL_ENV, "AGENT_MARKET_MCP_URL");
    assert_eq!(SERVER_URL_PLACEHOLDER, "https://MARKET_PUBLIC_HOST/mcp");
}
