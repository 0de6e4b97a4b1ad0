//! Value types shared by the provider router and its adapters.

use vstd::prelude::*;

verus! {

/// One message of a chat conversation. The order of messages inside a
/// request is significant and is preserved end-to-end.
#[derive(Debug, Clone)]
pub struct ChatMessage {
    /// The role of the message sender ("user", "assistant" or "system").
    pub role: String,
    /// The text of the message.
    pub content: String,
}

/// The mathematical shape of a [`ChatMessage`].
pub ghost struct MessageView {
    pub role: Seq<char>,
    pub content: Seq<char>,
}

impl View for ChatMessage {
    type V = MessageView;

    open spec fn view(&self) -> MessageView {
        MessageView { role: self.role@, content: self.content@ }
    }
}

/// The result of one successful completion attempt.
#[derive(Debug, Clone)]
pub struct AIResponse {
    /// The generated text.
    pub content: String,
    /// Which adapter produced the response, optionally qualified with the
    /// model that was used.
    pub provider: String,
    /// Total token count, when the backend reported one.
    pub tokens: Option<u32>,
}

/// The mathematical shape of an [`AIResponse`].
pub ghost struct ResponseView {
    pub content: Seq<char>,
    pub provider: Seq<char>,
    pub tokens: Option<u32>,
}

impl View for AIResponse {
    type V = ResponseView;

    open spec fn view(&self) -> ResponseView {
        ResponseView { content: self.content@, provider: self.provider@, tokens: self.tokens }
    }
}

/// Configuration handed to the provider router at construction.
#[derive(Debug, Clone)]
pub struct AIConfig {
    /// Name of the adapter to try first.
    pub default_provider: String,
    /// Base URL of the locally supervised proxy server.
    pub cliproxyapi_url: Option<String>,
    /// Model requested through the proxy server.
    pub cliproxyapi_model: Option<String>,
    /// API key for the direct-vendor fallback adapter.
    pub openai_api_key: Option<String>,
    /// Model requested from the direct vendor.
    pub openai_model: Option<String>,
}

impl Default for AIConfig {
    /// The stock configuration: the proxy-relay adapter on the local
    /// default port is the default provider; no vendor key is set.
    fn default() -> (c: AIConfig)
        ensures
            c.default_provider@ == "cliproxyapi"@,
            c.cliproxyapi_url matches Some(u) && u@ == "http://localhost:8080"@,
            c.cliproxyapi_model matches Some(m) && m@ == "gpt-5"@,
            c.openai_api_key is None,
            c.openai_model matches Some(m) && m@ == "gpt-4o-mini"@,
    {
        AIConfig {
            default_provider: "cliproxyapi".to_owned(),
            cliproxyapi_url: Some("http://localhost:8080".to_owned()),
            cliproxyapi_model: Some("gpt-5".to_owned()),
            openai_api_key: None,
            openai_model: Some("gpt-4o-mini".to_owned()),
        }
    }
}

} // verus!
