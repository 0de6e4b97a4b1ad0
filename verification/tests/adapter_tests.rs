use openmusic::adapters::{CLIProxyAPIProvider, VendorCliProvider, GeminiCLIProvider};
use openmusic::adapters::OpenAIProvider;
use openmusic::credentials::{vendor_cli_available, is_token_expired, load_vendor_credentials};
use openmusic::credentials::first_gemini_token;
use openmusic::types::ChatMessage;

fn msg(role: &str, content: &str) -> ChatMessage {
    ChatMessage { role: role.to_string(), content: content.to_string() }
}

#[test]
fn expiry_boundary_is_strict() {
    let now: i64 = 1_700_000_000;
    assert!(is_token_expired(now + 299, now));
    assert!(!is_token_expired(now + 301, now));
}

#[test]
fn vendor_credentials_parse_and_gate_availability() {
    let now: i64 = 1_700_000_000;
    let text = format!(
        "{{\"vendorCliOauth\":{{\"accessToken\":\"SECRET-REDACTED\",\
         \"refreshToken\":\"SECRET-REDACTED\",\"expiresAt\":{}}}}}",
        now + 3600
    );
    let rec = load_vendor_credentials(Some(text.as_str()), "vendorCliOauth")
        .expect("full record parses");
    assert_eq!(rec.access_token, "SECRET-REDACTED");
    assert_eq!(rec.expires_at, now + 3600);
    assert!(vendor_cli_available(Some(text.as_str()), "vendorCliOauth", now));
    assert!(!vendor_cli_available(Some(text.as_str()), "vendorCliOauth", now + 3600));
}

#[test]
fn vendor_credentials_errors_are_actionable() {
    let err = load_vendor_credentials(None, "vendorCliOauth").expect_err("no cache file");
    assert_eq!(
        err.message(),
        "Invalid configuration: Vendor CLI not logged in. Run the vendor's CLI and login first."
    );
    let err = load_vendor_credentials(Some("{}"), "vendorCliOauth").expect_err("no oauth member");
    assert_eq!(
        err.message(),
        "Invalid configuration: No OAuth tokens found. Please login with the vendor's CLI."
    );
    let err = load_vendor_credentials(Some("not json"), "vendorCliOauth").expect_err("malformed");
    assert!(err.message().starts_with("Invalid configuration: Invalid credentials format: "));
}

#[test]
fn gemini_token_comes_from_first_readable_cache() {
    let texts = vec![
        None,
        Some("not json".to_string()),
        Some("{\"access_token\":\"SECRET-REDACTED\"}".to_string()),
        Some("{\"access_token\":\"SECRET-REDACTED-2\"}".to_string()),
    ];
    assert_eq!(first_gemini_token(&texts).as_deref(), Some("SECRET-REDACTED"));
    let texts = vec![Some("{}".to_string()), Some("{\"access_token\":\"t\"}".to_string())];
    // The first cache parses and decides the answer, even without a token.
    assert_eq!(first_gemini_token(&texts), None);
    // A wrong-typed member fails that cache's parse, so the walk falls
    // through to the next candidate.
    let texts = vec![
        Some("{\"access_token\":42}".to_string()),
        Some("{\"access_token\":\"t2\"}".to_string()),
    ];
    assert_eq!(first_gemini_token(&texts).as_deref(), Some("t2"));
}

#[test]
fn proxy_adapter_resolves_configuration_in_order() {
    let p = CLIProxyAPIProvider::new(
        Some("http://10.0.0.1:9000/".to_string()),
        None,
        Some("http://ignored".to_string()),
        Some("env-model".to_string()),
    );
    assert_eq!(p.base_url, "http://10.0.0.1:9000/");
    assert_eq!(p.model, "env-model");
    assert_eq!(p.endpoint_url(), "http://10.0.0.1:9000/v1/chat/completions");
    assert_eq!(p.models_url(), "http://10.0.0.1:9000/v1/models");
    let p = CLIProxyAPIProvider::new(None, None, None, None);
    assert_eq!(p.base_url, "http://localhost:8080");
    assert_eq!(p.model, "vendor-model-1");
    assert_eq!(p.name(), "cliproxyapi");
}

#[test]
fn proxy_request_keeps_messages_and_overrides_model() {
    let p = CLIProxyAPIProvider::new(None, Some("base".to_string()), None, None);
    let messages = vec![msg("system", "be brief"), msg("user", "hi")];
    let req = p.prepare_request(messages.clone(), Some("override".to_string()));
    assert_eq!(req.model, "override");
    assert_eq!(req.messages.len(), 2);
    assert_eq!(req.messages[0].role, "system");
    assert_eq!(req.messages[1].content, "hi");
    assert_eq!(req.max_tokens, 4096);
    let req = p.prepare_request(messages, None);
    assert_eq!(req.model, "base");
}

#[test]
fn proxy_response_parsing() {
    let body = "{\"choices\":[{\"message\":{\"role\":\"assistant\",\"content\":\"hello\"}}],\
                \"usage\":{\"total_tokens\":7}}";
    let got = CLIProxyAPIProvider::parse_response("gpt-5", 200, "200 OK", body).expect("well-formed reply");
    assert_eq!(got.content, "hello");
    assert_eq!(got.provider, "cliproxyapi:gpt-5");
    assert_eq!(got.tokens, Some(7));

    let err = CLIProxyAPIProvider::parse_response("gpt-5", 503, "503 Service Unavailable", "down").expect_err("non-2xx");
    assert_eq!(err.message(), "API error: CLIProxyAPI error (503 Service Unavailable): down");

    let err = CLIProxyAPIProvider::parse_response("gpt-5", 200, "200 OK", "{\"choices\":[]}")
        .expect_err("no choices");
    assert_eq!(err.message(), "API error: No choices in response");

    let err = CLIProxyAPIProvider::parse_response("gpt-5", 200, "200 OK", "garbage").expect_err("bad json");
    assert!(err.message().starts_with("Serialization error: "));

    let body = "{\"choices\":[{\"message\":{\"role\":\"assistant\",\"content\":\"x\"}}]}";
    let got = CLIProxyAPIProvider::parse_response("m", 200, "200 OK", body).expect("usage is optional");
    assert_eq!(got.tokens, None);
}

#[test]
fn proxy_probe_needs_a_success_status() {
    assert!(CLIProxyAPIProvider::is_available(Some(200)));
    assert!(!CLIProxyAPIProvider::is_available(Some(500)));
    assert!(!CLIProxyAPIProvider::is_available(None));
}

#[test]
fn openai_adapter_requires_a_key() {
    let err = OpenAIProvider::new(String::new(), None).expect_err("empty key");
    assert_eq!(err.message(), "Invalid configuration: OpenAI API key is required");
    let p = OpenAIProvider::new("sk-1".to_string(), None).expect("key given");
    assert_eq!(p.model, "gpt-4o-mini");
    assert_eq!(p.endpoint_url(), "https://api.openai.com/v1/chat/completions");
    assert_eq!(p.auth_header(), "Bearer sk-1");
    assert!(p.is_available());
    assert_eq!(p.name(), "openai");
}

#[test]
fn openai_response_parsing() {
    let body = "{\"choices\":[{\"message\":{\"role\":\"assistant\",\"content\":\"fine\"}}],\
                \"usage\":{\"total_tokens\":12}}";
    let got = OpenAIProvider::parse_response(200, "200 OK", body).expect("well-formed reply");
    assert_eq!(got.content, "fine");
    assert_eq!(got.provider, "openai");
    assert_eq!(got.tokens, Some(12));
    let err = OpenAIProvider::parse_response(401, "401 Unauthorized", "denied").expect_err("non-2xx");
    assert_eq!(err.message(), "API error: OpenAI API error (401 Unauthorized): denied");
}

#[test]
fn vendor_adapter_converts_roles_and_reads_blocks() {
    let p = VendorCliProvider::new_with_home(Some("/home/u".to_string()), None);
    assert_eq!(p.credentials_path, "/home/u/.vendorcli/.credentials.json");
    assert_eq!(p.model, "vendor-model-1");
    assert_eq!(p.oauth_member, "vendorCliOauth");
    assert_eq!(p.name(), "vendor-cli");
    let req = p.prepare_request(vec![msg("user", "hi"), msg("system", "rules")]);
    assert_eq!(req.messages[0].role, "user");
    assert_eq!(req.messages[1].role, "assistant");
    assert_eq!(req.messages[1].content, "rules");
    assert_eq!(req.max_tokens, 4096);

    let body = "{\"content\":[{\"text\":\"answer\"}],\
                \"usage\":{\"input_tokens\":3,\"output_tokens\":4}}";
    let got = VendorCliProvider::parse_response(200, "200 OK", body).expect("well-formed reply");
    assert_eq!(got.content, "answer");
    assert_eq!(got.provider, "vendor-cli");
    assert_eq!(got.tokens, Some(7));

    let got = VendorCliProvider::parse_response(200, "200 OK", "{\"content\":[]}").expect("empty blocks");
    assert_eq!(got.content, "");
    assert_eq!(got.tokens, None);

    let err = VendorCliProvider::parse_response(429, "429 Too Many Requests", "slow down").expect_err("non-2xx");
    assert_eq!(err.message(), "API error: Vendor API error (429 Too Many Requests): slow down");
}

#[test]
fn vendor_expired_token_is_rejected_with_guidance() {
    let now: i64 = 1_700_000_000;
    let text = format!(
        "{{\"vendorCliOauth\":{{\"accessToken\":\"SECRET-REDACTED\",\
         \"refreshToken\":\"SECRET-REDACTED\",\"expiresAt\":{}}}}}",
        now + 100
    );
    let p = VendorCliProvider::new_with_home(Some("/home/u".to_string()), None);
    let err = p.usable_credentials(Some(text.as_str()), now).expect_err("inside the safety buffer");
    assert_eq!(
        err.message(),
        "Invalid configuration: Vendor CLI token expired. Please re-login with the vendor's CLI."
    );
}

#[test]
fn gemini_adapter_resolves_auth_and_urls() {
    let p = GeminiCLIProvider::new(Some("k1".to_string()), Some("k2".to_string()), None);
    assert_eq!(p.api_key.as_deref(), Some("k1"));
    assert_eq!(p.model, "gemini-2.0-flash");
    assert_eq!(p.name(), "gemini");
    assert_eq!(
        p.get_endpoint(),
        "https://generativelanguage.googleapis.com/v1beta/models/gemini-2.0-flash:generateContent"
    );
    assert_eq!(
        p.request_url("k1"),
        "https://generativelanguage.googleapis.com/v1beta/models/gemini-2.0-flash:generateContent?key=k1"
    );
    let auth = p.resolve_auth(&Vec::new()).expect("key configured");
    assert_eq!(auth, "k1");

    let p = GeminiCLIProvider::new(None, None, None);
    let err = p.resolve_auth(&Vec::new()).expect_err("nothing to resolve");
    assert_eq!(
        err.message(),
        "Invalid configuration: No Gemini API key or OAuth tokens. \
         Set GEMINI_API_KEY or login via 'gemini' CLI."
    );
    assert!(!p.is_available(&Vec::new()));

    let caches = vec![Some("{\"access_token\":\"tok\"}".to_string())];
    assert!(p.is_available(&caches));
    assert_eq!(p.resolve_auth(&caches).expect("cached token"), "tok");

    let paths = GeminiCLIProvider::credential_paths("/home/u");
    assert_eq!(paths[0], "/home/u/.config/gemini-cli/credentials.json");
    assert_eq!(paths[1], "/home/u/.gemini/credentials.json");
    assert_eq!(paths[2], "/home/u/AppData/Local/gemini-cli/credentials.json");
}

#[test]
fn gemini_requests_and_responses() {
    let p = GeminiCLIProvider::new(None, None, Some("g".to_string()));
    let req = p.prepare_request(vec![msg("user", "hi"), msg("assistant", "yes")]);
    assert_eq!(req.contents[0].role, "user");
    assert_eq!(req.contents[1].role, "model");
    assert_eq!(req.contents[1].parts, vec!["yes".to_string()]);
    assert_eq!(req.max_output_tokens, 4096);

    let body = "{\"candidates\":[{\"content\":{\"parts\":[{\"text\":\"pong\"}]}}],\
                \"usageMetadata\":{\"totalTokenCount\":9}}";
    let got = GeminiCLIProvider::parse_response(200, "200 OK", body).expect("well-formed reply");
    assert_eq!(got.content, "pong");
    assert_eq!(got.provider, "gemini");
    assert_eq!(got.tokens, Some(9));

    let got = GeminiCLIProvider::parse_response(200, "200 OK", "{}").expect("everything optional");
    assert_eq!(got.content, "");
    assert_eq!(got.tokens, None);

    let err = GeminiCLIProvider::parse_response(500, "500 Internal Server Error", "oops").expect_err("non-2xx");
    assert_eq!(err.message(), "API error: Gemini API error (500 Internal Server Error): oops");
}
