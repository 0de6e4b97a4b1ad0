//! The backend adapters' decision logic: credential resolution, request
//! preparation, and response interpretation, each a function from plain
//! values to plain values. The network calls between a prepared request
//! and the response text are the caller's; everything either side of
//! them is verified here.

use vstd::prelude::*;

use crate::credentials::{spec_first_gemini_token, CredentialRecord, first_gemini_token};
use crate::credentials::{load_vendor_credentials, vendor_credentials_of, spec_expired};
use crate::error::{AIError, ErrorView};
use crate::text::{opt_text_view, spec_trim_end_slashes, str_eq, trim_end_slashes};
use crate::types::{AIResponse, ChatMessage};
use crate::wire::{chat_reply_of, http_success, parse_chat_reply};
use crate::wire::{ChatRequest, VendorRequest, GeminiContent, GeminiRequest};
use crate::wire::{vendor_reply_of, parse_vendor_reply};
use crate::wire::{GeminiReplyView, gemini_reply_of, parse_gemini_reply};
use crate::wire::{sat_add_u32, spec_http_success, spec_sat_add_u32};

verus! {

/// `v` when present, else the default.
pub open spec fn spec_or_default(v: Option<Seq<char>>, d: Seq<char>) -> Seq<char> {
    match v {
        Some(x) => x,
        None => d,
    }
}

/// Resolve a configuration value: the explicit value first, then the
/// environment's, then the built-in default.
pub open spec fn spec_resolve(
    explicit: Option<Seq<char>>,
    env: Option<Seq<char>>,
    d: Seq<char>,
) -> Seq<char> {
    spec_or_default(explicit, spec_or_default(env, d))
}

/// Take `v` when present, else an owned copy of the default.
fn or_default(v: Option<String>, d: &str) -> (r: String)
    ensures
        r@ == spec_or_default(opt_text_view(v), d@),
{
    match v {
        Some(x) => x,
        None => d.to_owned(),
    }
}

/// The zero-defaulted value of an optional token count.
pub open spec fn spec_opt_zero(v: Option<u32>) -> u32 {
    match v {
        Some(x) => x,
        None => 0,
    }
}

/// The proxy-relay adapter: it speaks the OpenAI-compatible protocol to
/// the locally supervised server.
#[derive(Debug)]
pub struct CLIProxyAPIProvider {
    pub base_url: String,
    pub model: String,
}

impl CLIProxyAPIProvider {
    /// Configure the adapter. Each setting falls back from the explicit
    /// value to the environment's (handed in by the caller, which owns
    /// environment access) to the built-in default.
    pub fn new(
        base_url: Option<String>,
        model: Option<String>,
        env_url: Option<String>,
        env_model: Option<String>,
    ) -> (p: CLIProxyAPIProvider)
        ensures
            p.base_url@ == spec_resolve(
                opt_text_view(base_url),
                opt_text_view(env_url),
                "http://localhost:8080"@,
            ),
            p.model@ == spec_resolve(
                opt_text_view(model),
                opt_text_view(env_model),
                "vendor-model-1"@,
            ),
    {
        let url = match base_url {
            Some(u) => u,
            None => or_default(env_url, "http://localhost:8080"),
        };
        let model = match model {
            Some(m) => m,
            None => or_default(env_model, "vendor-model-1"),
        };
        CLIProxyAPIProvider { base_url: url, model }
    }

    /// The adapter's name in the router.
    pub fn name(&self) -> (r: &'static str)
        ensures
            r@ == "cliproxyapi"@,
    {
        "cliproxyapi"
    }

    /// The OpenAI-compatible chat-completions endpoint under the
    /// configured base URL.
    pub fn endpoint_url(&self) -> (r: String)
        ensures
            r@ == spec_trim_end_slashes(self.base_url@) + "/v1/chat/completions"@,
    {
        let mut r = trim_end_slashes(self.base_url.as_str());
        r.append("/v1/chat/completions");
        r
    }

    /// The models endpoint the availability probe contacts.
    pub fn models_url(&self) -> (r: String)
        ensures
            r@ == spec_trim_end_slashes(self.base_url@) + "/v1/models"@,
    {
        let mut r = trim_end_slashes(self.base_url.as_str());
        r.append("/v1/models");
        r
    }

    /// The request body for one completion call: the configured model,
    /// or the override when one is given, with the messages passed on
    /// unchanged and in order.
    pub fn prepare_request(&self, messages: Vec<ChatMessage>, model: Option<String>) -> (r:
        ChatRequest)
        ensures
            r.model@ == spec_or_default(opt_text_view(model), self.model@),
            r.messages@ == messages@,
            r.temperature_tenths == 7u32,
            r.max_tokens == 4096u32,
    {
        let m = match model {
            Some(m) => m,
            None => self.model.clone(),
        };
        ChatRequest { model: m, messages, temperature_tenths: 7, max_tokens: 4096 }
    }

    /// The provider identifier carried in a successful response:
    /// the adapter's name qualified with the model that was used.
    pub fn provider_label(model_used: &str) -> (r: String)
        ensures
            r@ == "cliproxyapi:"@ + model_used@,
    {
        let mut r = "cliproxyapi:".to_owned();
        r.append(model_used);
        r
    }

    /// Interpret the backend's answer: a non-2xx status is an API
    /// error carrying the status line as the HTTP layer displays it
    /// (code and reason phrase) and the body; a body that does not
    /// decode is a serialization error; a decoded reply without choices
    /// is an API error; otherwise the first choice's content, the
    /// qualified provider label, and the reported token count.
    pub fn parse_response(model_used: &str, status: u16, status_text: &str, body: &str) -> (r:
        Result<AIResponse, AIError>)
        ensures
            !spec_http_success(status) ==> (r matches Err(e) && e@ == ErrorView::ApiError(
                "CLIProxyAPI error ("@ + status_text@ + "): "@ + body@,
            )),
            spec_http_success(status) ==> match chat_reply_of(body@) {
                Err(msg) => r matches Err(e) && e@ == ErrorView::Serialization(msg),
                Ok(rep) => if rep.contents.len() == 0 {
                    r matches Err(e) && e@ == ErrorView::ApiError("No choices in response"@)
                } else {
                    r matches Ok(a) && a@.content == rep.contents[0] && a@.provider
                        == "cliproxyapi:"@ + model_used@ && a@.tokens == rep.total_tokens
                },
            },
    {
        if !http_success(status) {
            let mut msg = "CLIProxyAPI error (".to_owned();
            msg.append(status_text);
            msg.append("): ");
            msg.append(body);
            return Err(AIError::ApiError(msg));
        }
        match parse_chat_reply(body) {
            Err(m) => Err(AIError::Serialization(m)),
            Ok(rep) => {
                if rep.contents.len() == 0 {
                    Err(AIError::ApiError("No choices in response".to_owned()))
                } else {
                    Ok(
                        AIResponse {
                            content: rep.contents[0].clone(),
                            provider: Self::provider_label(model_used),
                            tokens: rep.total_tokens,
                        },
                    )
                }
            },
        }
    }

    /// The availability decision over the probe's observation: the
    /// models endpoint answered with a success status.
    pub fn is_available(probe_status: Option<u16>) -> (r: bool)
        ensures
            r == (probe_status matches Some(s) && spec_http_success(s)),
    {
        match probe_status {
            Some(s) => http_success(s),
            None => false,
        }
    }
}

/// The direct-vendor adapter for the OpenAI-compatible vendor API,
/// gated by a constructor-supplied API key.
#[derive(Debug)]
pub struct OpenAIProvider {
    pub base_url: String,
    pub model: String,
    pub api_key: String,
}

impl OpenAIProvider {
    /// Configure the adapter; an empty API key is rejected with the
    /// actionable error.
    pub fn new(api_key: String, model: Option<String>) -> (r: Result<OpenAIProvider, AIError>)
        ensures
            api_key@.len() == 0 ==> (r matches Err(e) && e@ == ErrorView::InvalidConfig(
                "OpenAI API key is required"@,
            )),
            api_key@.len() > 0 ==> (r matches Ok(p) && p.api_key@ == api_key@ && p.base_url@
                == "https://api.openai.com/v1"@ && p.model@ == spec_or_default(
                opt_text_view(model),
                "gpt-4o-mini"@,
            )),
    {
        if api_key.as_str().is_empty() {
            return Err(AIError::InvalidConfig("OpenAI API key is required".to_owned()));
        }
        Ok(
            OpenAIProvider {
                base_url: "https://api.openai.com/v1".to_owned(),
                model: or_default(model, "gpt-4o-mini"),
                api_key,
            },
        )
    }

    /// The adapter's name in the router.
    pub fn name(&self) -> (r: &'static str)
        ensures
            r@ == "openai"@,
    {
        "openai"
    }

    /// The chat-completions endpoint under the configured base URL.
    pub fn endpoint_url(&self) -> (r: String)
        ensures
            r@ == spec_trim_end_slashes(self.base_url@) + "/chat/completions"@,
    {
        let mut r = trim_end_slashes(self.base_url.as_str());
        r.append("/chat/completions");
        r
    }

    /// The authorization header value sent with each request.
    pub fn auth_header(&self) -> (r: String)
        ensures
            r@ == "Bearer "@ + self.api_key@,
    {
        let mut r = "Bearer ".to_owned();
        r.append(self.api_key.as_str());
        r
    }

    /// The request body for one completion call, with the messages
    /// passed on unchanged and in order.
    pub fn prepare_request(&self, messages: Vec<ChatMessage>) -> (r: ChatRequest)
        ensures
            r.model@ == self.model@,
            r.messages@ == messages@,
            r.temperature_tenths == 7u32,
            r.max_tokens == 1000u32,
    {
        ChatRequest {
            model: self.model.clone(),
            messages,
            temperature_tenths: 7,
            max_tokens: 1000,
        }
    }

    /// Interpret the vendor's answer, as the proxy-relay adapter does,
    /// under this adapter's own error prefix and fixed provider name.
    pub fn parse_response(status: u16, status_text: &str, body: &str) -> (r: Result<
        AIResponse,
        AIError,
    >)
        ensures
            !spec_http_success(status) ==> (r matches Err(e) && e@ == ErrorView::ApiError(
                "OpenAI API error ("@ + status_text@ + "): "@ + body@,
            )),
            spec_http_success(status) ==> match chat_reply_of(body@) {
                Err(msg) => r matches Err(e) && e@ == ErrorView::Serialization(msg),
                Ok(rep) => if rep.contents.len() == 0 {
                    r matches Err(e) && e@ == ErrorView::ApiError("No choices in response"@)
                } else {
                    r matches Ok(a) && a@.content == rep.contents[0] && a@.provider == "openai"@
                        && a@.tokens == rep.total_tokens
                },
            },
    {
        if !http_success(status) {
            let mut msg = "OpenAI API error (".to_owned();
            msg.append(status_text);
            msg.append("): ");
            msg.append(body);
            return Err(AIError::ApiError(msg));
        }
        match parse_chat_reply(body) {
            Err(m) => Err(AIError::Serialization(m)),
            Ok(rep) => {
                if rep.contents.len() == 0 {
                    Err(AIError::ApiError("No choices in response".to_owned()))
                } else {
                    Ok(
                        AIResponse {
                            content: rep.contents[0].clone(),
                            provider: "openai".to_owned(),
                            tokens: rep.total_tokens,
                        },
                    )
                }
            },
        }
    }

    /// Availability is purely local: a key is configured. No network
    /// round trip is spent on the probe.
    pub fn is_available(&self) -> (r: bool)
        ensures
            r == (self.api_key@.len() > 0),
    {
        !self.api_key.as_str().is_empty()
    }
}

/// The role relabelling of the nested-content vendor: its protocol
/// knows "user" and "assistant" only.
pub open spec fn spec_vendor_role(role: Seq<char>) -> Seq<char> {
    if role == "user"@ {
        "user"@
    } else {
        "assistant"@
    }
}

/// The first content block's text, or empty when the block list is
/// empty or its first block carries none.
pub open spec fn spec_first_block_text(texts: Seq<Option<Seq<char>>>) -> Seq<char> {
    if texts.len() > 0 {
        match texts[0] {
            Some(t) => t,
            None => Seq::empty(),
        }
    } else {
        Seq::empty()
    }
}

/// The token count reported by the nested-content vendor: the sum of
/// the input and output counts when a usage block is present, each
/// missing count read as zero.
pub open spec fn spec_vendor_tokens(usage: Option<(Option<u32>, Option<u32>)>) -> Option<u32> {
    match usage {
        Some((i, o)) => Some(spec_sat_add_u32(spec_opt_zero(i), spec_opt_zero(o))),
        None => None,
    }
}

/// The direct-vendor adapter that rides on the OAuth tokens cached by
/// the companion CLI's login flow. Credentials are re-read from the
/// cache for every probe and every attempt; the cache file's text is
/// handed in by the caller, which owns file access. The cache path,
/// the OAuth member name and the model are configuration: a deployment
/// points them at its vendor's actual CLI layout.
#[derive(Debug)]
pub struct VendorCliProvider {
    pub model: String,
    pub credentials_path: String,
    /// The member of the cache document the tokens nest under.
    pub oauth_member: String,
}

impl VendorCliProvider {
    /// Configure the adapter against an explicit home directory
    /// (`None` falls back to the current directory).
    pub fn new_with_home(home: Option<String>, model: Option<String>) -> (p: VendorCliProvider)
        ensures
            p.model@ == spec_or_default(opt_text_view(model), "vendor-model-1"@),
            p.credentials_path@ == spec_or_default(opt_text_view(home), "."@)
                + "/.vendorcli/.credentials.json"@,
            p.oauth_member@ == "vendorCliOauth"@,
    {
        let mut path = or_default(home, ".");
        path.append("/.vendorcli/.credentials.json");
        VendorCliProvider {
            model: or_default(model, "vendor-model-1"),
            credentials_path: path,
            oauth_member: "vendorCliOauth".to_owned(),
        }
    }

    /// Configure the adapter; the credential cache sits under the
    /// user's home directory, wherever the platform puts it.
    pub fn new(model: Option<String>) -> (p: VendorCliProvider)
        ensures
            p.model@ == spec_or_default(opt_text_view(model), "vendor-model-1"@),
            exists|h: Seq<char>| p.credentials_path@ == h + "/.vendorcli/.credentials.json"@,
            p.oauth_member@ == "vendorCliOauth"@,
    {
        let home = crate::osdirs::home_dir_string();
        let p = Self::new_with_home(home, model);
        proof {
            let h = spec_or_default(opt_text_view(home), "."@);
            assert(p.credentials_path@ == h + "/.vendorcli/.credentials.json"@);
        }
        p
    }

    /// The adapter's name in the router.
    pub fn name(&self) -> (r: &'static str)
        ensures
            r@ == "vendor-cli"@,
    {
        "vendor-cli"
    }

    /// The credentials a completion attempt may use: loaded from the
    /// cache text under this adapter's OAuth member and still valid at
    /// time `now`, with the actionable error otherwise.
    pub fn usable_credentials(&self, text: Option<&str>, now: i64) -> (r: Result<
        CredentialRecord,
        AIError,
    >)
        ensures
            match text {
                None => r matches Err(e) && e@ == ErrorView::InvalidConfig(
                    "Vendor CLI not logged in. Run the vendor's CLI and login first."@,
                ),
                Some(t) => match vendor_credentials_of(t@, self.oauth_member@) {
                    Ok(Some(c)) => if spec_expired(c.expires_at as int, now as int) {
                        r matches Err(e) && e@ == ErrorView::InvalidConfig(
                            "Vendor CLI token expired. Please re-login with the vendor's CLI."@,
                        )
                    } else {
                        r matches Ok(rec) && rec@ == c
                    },
                    Ok(None) => r matches Err(e) && e@ == ErrorView::InvalidConfig(
                        "No OAuth tokens found. Please login with the vendor's CLI."@,
                    ),
                    Err(msg) => r matches Err(e) && e@ == ErrorView::InvalidConfig(
                        "Invalid credentials format: "@ + msg,
                    ),
                },
            },
    {
        let rec = match load_vendor_credentials(text, self.oauth_member.as_str()) {
            Ok(rec) => rec,
            Err(e) => {
                return Err(e);
            },
        };
        if rec.is_expired(now) {
            Err(
                AIError::InvalidConfig(
                    "Vendor CLI token expired. Please re-login with the vendor's CLI.".to_owned(),
                ),
            )
        } else {
            Ok(rec)
        }
    }

    /// The request body for one completion call: every message keeps
    /// its place and its content, and its role is relabelled into the
    /// vendor's two-role vocabulary.
    pub fn prepare_request(&self, messages: Vec<ChatMessage>) -> (r: VendorRequest)
        ensures
            r.model@ == self.model@,
            r.max_tokens == 4096u32,
            r.messages@.len() == messages@.len(),
            forall|i: int|
                0 <= i < messages@.len() ==> (#[trigger] r.messages@[i]).content@
                    == messages@[i].content@ && r.messages@[i].role@ == spec_vendor_role(
                    messages@[i].role@,
                ),
    {
        let mut converted: Vec<ChatMessage> = Vec::new();
        let mut i: usize = 0;
        while i < messages.len()
            invariant
                i <= messages@.len(),
                converted@.len() == i,
                forall|k: int|
                    0 <= k < i ==> (#[trigger] converted@[k]).content@ == messages@[k].content@
                        && converted@[k].role@ == spec_vendor_role(messages@[k].role@),
            decreases messages@.len() - i,
        {
            let role = if str_eq(messages[i].role.as_str(), "user") {
                "user".to_owned()
            } else {
                "assistant".to_owned()
            };
            converted.push(ChatMessage { role, content: messages[i].content.clone() });
            i = i + 1;
        }
        VendorRequest { model: self.model.clone(), max_tokens: 4096, messages: converted }
    }

    /// Interpret the vendor's answer: a non-2xx status is an API error
    /// carrying the displayed status line and the body; a body that
    /// does not decode is a serialization error; otherwise the first
    /// content block's text (empty when it carries none) and the summed
    /// token counts.
    pub fn parse_response(status: u16, status_text: &str, body: &str) -> (r: Result<
        AIResponse,
        AIError,
    >)
        ensures
            !spec_http_success(status) ==> (r matches Err(e) && e@ == ErrorView::ApiError(
                "Vendor API error ("@ + status_text@ + "): "@ + body@,
            )),
            spec_http_success(status) ==> match vendor_reply_of(body@) {
                Err(msg) => r matches Err(e) && e@ == ErrorView::Serialization(msg),
                Ok(rep) => r matches Ok(a) && a@.content == spec_first_block_text(rep.texts)
                    && a@.provider == "vendor-cli"@ && a@.tokens == spec_vendor_tokens(rep.usage),
            },
    {
        if !http_success(status) {
            let mut msg = "Vendor API error (".to_owned();
            msg.append(status_text);
            msg.append("): ");
            msg.append(body);
            return Err(AIError::ApiError(msg));
        }
        match parse_vendor_reply(body) {
            Err(m) => Err(AIError::Serialization(m)),
            Ok(rep) => {
                let content: String = if rep.texts.len() > 0 {
                    match &rep.texts[0] {
                        Some(t) => t.clone(),
                        None => String::new(),
                    }
                } else {
                    String::new()
                };
                let tokens: Option<u32> = match rep.usage {
                    Some((i, o)) => {
                        let a = match i {
                            Some(x) => x,
                            None => 0,
                        };
                        let b = match o {
                            Some(x) => x,
                            None => 0,
                        };
                        Some(sat_add_u32(a, b))
                    },
                    None => None,
                };
                Ok(AIResponse { content, provider: "vendor-cli".to_owned(), tokens })
            },
        }
    }
}

/// The role relabelling of the nested-candidates vendor: its protocol
/// knows "user" and "model" only.
pub open spec fn spec_gemini_role(role: Seq<char>) -> Seq<char> {
    if role == "user"@ {
        "user"@
    } else {
        "model"@
    }
}

/// The text the nested-candidates vendor answered with: the first
/// part's text of the first candidate, or empty wherever the chain
/// breaks off.
pub open spec fn spec_gemini_content(v: GeminiReplyView) -> Seq<char> {
    match v.candidates {
        Some(cs) => if cs.len() > 0 {
            match cs[0] {
                Some(parts) => if parts.len() > 0 {
                    match parts[0] {
                        Some(t) => t,
                        None => Seq::empty(),
                    }
                } else {
                    Seq::empty()
                },
                None => Seq::empty(),
            }
        } else {
            Seq::empty()
        },
        None => Seq::empty(),
    }
}

/// The direct-vendor adapter for the nested-candidates vendor API,
/// resolving its credential from an explicit key, the environment's
/// key, or the companion CLI's cached OAuth token, in that order.
#[derive(Debug)]
pub struct GeminiCLIProvider {
    pub model: String,
    pub api_key: Option<String>,
}

impl GeminiCLIProvider {
    /// Configure the adapter: the explicit key wins over the
    /// environment's (handed in by the caller, which owns environment
    /// access); the cached OAuth token is read per call, not here.
    pub fn new(api_key: Option<String>, env_key: Option<String>, model: Option<String>) -> (p:
        GeminiCLIProvider)
        ensures
            opt_text_view(p.api_key) == (match api_key {
                Some(k) => Some(k@),
                None => opt_text_view(env_key),
            }),
            p.model@ == spec_or_default(opt_text_view(model), "gemini-2.0-flash"@),
    {
        let key = match api_key {
            Some(k) => Some(k),
            None => env_key,
        };
        GeminiCLIProvider { model: or_default(model, "gemini-2.0-flash"), api_key: key }
    }

    /// The adapter's name in the router.
    pub fn name(&self) -> (r: &'static str)
        ensures
            r@ == "gemini"@,
    {
        "gemini"
    }

    /// The candidate locations of the companion CLI's credential
    /// cache, under the given home directory, in probe order.
    pub fn credential_paths(home: &str) -> (r: Vec<String>)
        ensures
            r@.len() == 3,
            r@[0]@ == home@ + "/.config/gemini-cli/credentials.json"@,
            r@[1]@ == home@ + "/.gemini/credentials.json"@,
            r@[2]@ == home@ + "/AppData/Local/gemini-cli/credentials.json"@,
    {
        let mut r: Vec<String> = Vec::new();
        let mut a = home.to_owned();
        a.append("/.config/gemini-cli/credentials.json");
        r.push(a);
        let mut b = home.to_owned();
        b.append("/.gemini/credentials.json");
        r.push(b);
        let mut c = home.to_owned();
        c.append("/AppData/Local/gemini-cli/credentials.json");
        r.push(c);
        r
    }

    /// The credential a completion attempt may use: the configured key
    /// first, else the first cached OAuth token among the candidate
    /// cache texts, else the actionable error.
    pub fn resolve_auth(&self, cache_texts: &Vec<Option<String>>) -> (r: Result<String, AIError>)
        ensures
            match opt_text_view(self.api_key) {
                Some(k) => r matches Ok(a) && a@ == k,
                None => match spec_first_gemini_token(
                    cache_texts@.map_values(|o: Option<String>| opt_text_view(o)),
                ) {
                    Some(t) => r matches Ok(a) && a@ == t,
                    None => r matches Err(e) && e@ == ErrorView::InvalidConfig(
                        "No Gemini API key or OAuth tokens. Set GEMINI_API_KEY or login via 'gemini' CLI."@,
                    ),
                },
            },
    {
        match &self.api_key {
            Some(k) => Ok(k.clone()),
            None => match first_gemini_token(cache_texts) {
                Some(t) => Ok(t),
                None => Err(
                    AIError::InvalidConfig(
                        "No Gemini API key or OAuth tokens. Set GEMINI_API_KEY or login via 'gemini' CLI.".to_owned(),
                    ),
                ),
            },
        }
    }

    /// The vendor's generate endpoint for the configured model.
    pub fn get_endpoint(&self) -> (r: String)
        ensures
            r@ == "https://generativelanguage.googleapis.com/v1beta/models/"@ + self.model@
                + ":generateContent"@,
    {
        let mut r = "https://generativelanguage.googleapis.com/v1beta/models/".to_owned();
        r.append(self.model.as_str());
        r.append(":generateContent");
        r
    }

    /// The full request URL: the endpoint with the credential as its
    /// key parameter.
    pub fn request_url(&self, auth: &str) -> (r: String)
        ensures
            r@ == "https://generativelanguage.googleapis.com/v1beta/models/"@ + self.model@
                + ":generateContent"@ + "?key="@ + auth@,
    {
        let mut r = self.get_endpoint();
        r.append("?key=");
        r.append(auth);
        r
    }

    /// The request body for one completion call: every message keeps
    /// its place, its content becomes the single text part of one
    /// content unit, and its role is relabelled into the vendor's
    /// two-role vocabulary.
    pub fn prepare_request(&self, messages: Vec<ChatMessage>) -> (r: GeminiRequest)
        ensures
            r.max_output_tokens == 4096u32,
            r.temperature_tenths == 7u32,
            r.contents@.len() == messages@.len(),
            forall|i: int|
                0 <= i < messages@.len() ==> (#[trigger] r.contents@[i]).role@ == spec_gemini_role(
                    messages@[i].role@,
                ) && r.contents@[i].parts@.len() == 1 && r.contents@[i].parts@[0]@
                    == messages@[i].content@,
    {
        let mut contents: Vec<GeminiContent> = Vec::new();
        let mut i: usize = 0;
        while i < messages.len()
            invariant
                i <= messages@.len(),
                contents@.len() == i,
                forall|k: int|
                    0 <= k < i ==> (#[trigger] contents@[k]).role@ == spec_gemini_role(
                        messages@[k].role@,
                    ) && contents@[k].parts@.len() == 1 && contents@[k].parts@[0]@
                        == messages@[k].content@,
            decreases messages@.len() - i,
        {
            let role = if str_eq(messages[i].role.as_str(), "user") {
                "user".to_owned()
            } else {
                "model".to_owned()
            };
            let mut parts: Vec<String> = Vec::new();
            parts.push(messages[i].content.clone());
            contents.push(GeminiContent { role, parts });
            i = i + 1;
        }
        GeminiRequest { contents, max_output_tokens: 4096, temperature_tenths: 7 }
    }

    /// Interpret the vendor's answer: a non-2xx status is an API error
    /// carrying the displayed status line and the body; a body that
    /// does not decode is a serialization error; otherwise the first
    /// candidate's first text (empty wherever the nesting breaks off)
    /// and the reported total token count.
    pub fn parse_response(status: u16, status_text: &str, body: &str) -> (r: Result<
        AIResponse,
        AIError,
    >)
        ensures
            !spec_http_success(status) ==> (r matches Err(e) && e@ == ErrorView::ApiError(
                "Gemini API error ("@ + status_text@ + "): "@ + body@,
            )),
            spec_http_success(status) ==> match gemini_reply_of(body@) {
                Err(msg) => r matches Err(e) && e@ == ErrorView::Serialization(msg),
                Ok(rep) => r matches Ok(a) && a@.content == spec_gemini_content(rep) && a@.provider
                    == "gemini"@ && a@.tokens == rep.total_tokens,
            },
    {
        if !http_success(status) {
            let mut msg = "Gemini API error (".to_owned();
            msg.append(status_text);
            msg.append("): ");
            msg.append(body);
            return Err(AIError::ApiError(msg));
        }
        match parse_gemini_reply(body) {
            Err(m) => Err(AIError::Serialization(m)),
            Ok(rep) => {
                let content: String = match &rep.candidates {
                    Some(cs) => {
                        if cs.len() > 0 {
                            match &cs[0].parts {
                                Some(parts) => {
                                    if parts.len() > 0 {
                                        match &parts[0] {
                                            Some(t) => t.clone(),
                                            None => String::new(),
                                        }
                                    } else {
                                        String::new()
                                    }
                                },
                                None => String::new(),
                            }
                        } else {
                            String::new()
                        }
                    },
                    None => String::new(),
                };
                Ok(
                    AIResponse {
                        content,
                        provider: "gemini".to_owned(),
                        tokens: rep.total_tokens,
                    },
                )
            },
        }
    }

    /// The availability decision: a configured key, or a cached OAuth
    /// token among the candidate cache texts.
    pub fn is_available(&self, cache_texts: &Vec<Option<String>>) -> (r: bool)
        ensures
            r == (self.api_key is Some || spec_first_gemini_token(
                cache_texts@.map_values(|o: Option<String>| opt_text_view(o)),
            ) is Some),
    {
        match &self.api_key {
            Some(_) => true,
            None => match first_gemini_token(cache_texts) {
                Some(_) => true,
                None => false,
            },
        }
    }
}

} // verus!
