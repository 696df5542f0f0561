use grok_build::endpoint_trust::{
    is_prod_cli_chat_proxy_url, is_third_party_base_url, is_trusted_cli_chat_proxy_url,
    is_trusted_xai_https_url,
};

const PROXY_BASE: &str = "https://cli-chat-proxy.grok.com/v1";

#[test]
fn first_party_urls_are_not_third_party() {
    assert!(!is_third_party_base_url("https://api.x.ai/v1", PROXY_BASE));
    assert!(!is_third_party_base_url("https://api.x.ai/v1/chat/completions", PROXY_BASE));
    assert!(!is_third_party_base_url("https://sub.api.x.ai/v1", PROXY_BASE));
    assert!(!is_third_party_base_url(PROXY_BASE, PROXY_BASE));
}

#[test]
fn lookalikes_and_cleartext_are_third_party() {
    assert!(is_third_party_base_url("https://evil-x.ai.example/v1", PROXY_BASE));
    assert!(is_third_party_base_url("https://x.ai.evil.com/v1", PROXY_BASE));
    assert!(is_third_party_base_url("http://api.x.ai/v1", PROXY_BASE));
    assert!(is_third_party_base_url("http://localhost:8080/v1", PROXY_BASE));
    assert!(is_third_party_base_url("http://127.0.0.1:8080/v1", PROXY_BASE));
    assert!(is_third_party_base_url("not a url", PROXY_BASE));
}

#[test]
fn third_party_gateways_are_third_party() {
    assert!(is_third_party_base_url("https://api.anthropic.com/v1", PROXY_BASE));
    assert!(is_third_party_base_url("https://api.example.com/v1", PROXY_BASE));
    assert!(is_third_party_base_url("https://gateway.example.com/v1", PROXY_BASE));
}

#[test]
fn the_proxy_covers_what_lies_under_it() {
    assert!(is_prod_cli_chat_proxy_url("https://cli-chat-proxy.grok.com/v1/chat", PROXY_BASE));
    assert!(is_prod_cli_chat_proxy_url("https://CLI-chat-proxy.grok.com:443/v1", PROXY_BASE));
    assert!(!is_prod_cli_chat_proxy_url("https://cli-chat-proxy.grok.com/v10", PROXY_BASE));
    assert!(!is_prod_cli_chat_proxy_url("https://cli-chat-proxy.grok.com:8443/v1", PROXY_BASE));
    assert!(!is_prod_cli_chat_proxy_url("http://cli-chat-proxy.grok.com/v1", PROXY_BASE));
    assert!(!is_prod_cli_chat_proxy_url("https://cli-chat-proxy.grok.com/v1", "not a url"));
    assert!(is_trusted_cli_chat_proxy_url("https://cli-chat-proxy.grok.com/v1/x", PROXY_BASE));
}

#[test]
fn xai_hosts_need_https() {
    assert!(is_trusted_xai_https_url("https://x.ai", PROXY_BASE));
    assert!(is_trusted_xai_https_url("https://api.x.ai:8443/v1", PROXY_BASE));
    assert!(!is_trusted_xai_https_url("http://x.ai", PROXY_BASE));
    assert!(!is_trusted_xai_https_url("https://notx.ai", PROXY_BASE));
}
