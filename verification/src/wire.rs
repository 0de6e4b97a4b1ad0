//! The completion wire protocol as plain values: the request bodies the
//! adapters send and the response shapes they read back. JSON encoding
//! and decoding is serde_json's work; decoding stands here behind
//! trusted parsers from response text to these mirror values, and the
//! caller encodes the request values on its side of the boundary.

use vstd::prelude::*;

use crate::text::opt_text_view;
use crate::types::ChatMessage;

verus! {

/// An OpenAI-compatible chat-completion request. The wire carries a
/// fractional sampling temperature; it is held here in tenths, since
/// the library states nothing over floating point.
#[derive(Debug)]
pub struct ChatRequest {
    pub model: String,
    pub messages: Vec<ChatMessage>,
    pub temperature_tenths: u32,
    pub max_tokens: u32,
}

/// A vendor-specific request with a distinct role vocabulary: messages
/// are relabelled before sending.
#[derive(Debug)]
pub struct VendorRequest {
    pub model: String,
    pub max_tokens: u32,
    pub messages: Vec<ChatMessage>,
}

/// One content unit of the nested-content vendor request: a role and
/// the text parts under it.
#[derive(Debug)]
pub struct GeminiContent {
    pub role: String,
    pub parts: Vec<String>,
}

/// The nested-content vendor request.
#[derive(Debug)]
pub struct GeminiRequest {
    pub contents: Vec<GeminiContent>,
    pub max_output_tokens: u32,
    pub temperature_tenths: u32,
}

/// Whether an HTTP status is a success.
pub open spec fn spec_http_success(status: u16) -> bool {
    200 <= status < 300
}

/// The 2xx test every adapter applies before reading a response body.
pub fn http_success(status: u16) -> (r: bool)
    ensures
        r == spec_http_success(status),
{
    200 <= status && status < 300
}

/// `a + b`, capped at the largest token count the wire type carries.
pub open spec fn spec_sat_add_u32(a: u32, b: u32) -> u32 {
    if a + b > u32::MAX {
        u32::MAX
    } else {
        (a + b) as u32
    }
}

/// Saturating token-count addition.
pub fn sat_add_u32(a: u32, b: u32) -> (r: u32)
    ensures
        r == spec_sat_add_u32(a, b),
{
    let s = a as u64 + b as u64;
    if s > u32::MAX as u64 {
        u32::MAX
    } else {
        s as u32
    }
}

/// An OpenAI-compatible completion response, reduced to what the
/// adapters read: the content of each choice's message, and the total
/// token count when the usage block reports one.
#[derive(Debug)]
pub struct ChatReply {
    pub contents: Vec<String>,
    pub total_tokens: Option<u32>,
}

/// The mathematical shape of a [`ChatReply`].
pub ghost struct ChatReplyView {
    pub contents: Seq<Seq<char>>,
    pub total_tokens: Option<u32>,
}

impl View for ChatReply {
    type V = ChatReplyView;

    open spec fn view(&self) -> ChatReplyView {
        ChatReplyView {
            contents: self.contents@.map_values(|s: String| s@),
            total_tokens: self.total_tokens,
        }
    }
}

/// What an OpenAI-compatible response text parses to: the reply, or a
/// decoding error.
pub uninterp spec fn chat_reply_of(text: Seq<char>) -> Result<ChatReplyView, Seq<char>>;

/// Relies on serde_json: decodes an OpenAI-compatible completion
/// response (`choices[].message.content`, optional
/// `usage.total_tokens`).
#[verifier::external_body]
pub fn parse_chat_reply(text: &str) -> (r: Result<ChatReply, String>)
    ensures
        match r {
            Ok(rep) => chat_reply_of(text@) == Ok::<ChatReplyView, Seq<char>>(rep@),
            Err(e) => chat_reply_of(text@) == Err::<ChatReplyView, Seq<char>>(e@),
        },
{
    let v: serde_json::Value = serde_json::from_str(text).map_err(|e| e.to_string())?;
    let choices = v.get("choices").and_then(|c| c.as_array()).ok_or("missing choices")?;
    let mut contents: Vec<String> = Vec::new();
    for c in choices {
        let m = c.pointer("/message/content").and_then(|x| x.as_str()).ok_or("bad choice")?;
        contents.push(m.to_string());
    }
    let total = v.pointer("/usage/total_tokens").and_then(|t| t.as_u64())
        .and_then(|t| u32::try_from(t).ok());
    Ok(ChatReply { contents, total_tokens: total })
}

/// A nested-content vendor response, reduced to what the adapter
/// reads: the optional text of each content block, and the optional
/// input and output token counts of the usage block.
#[derive(Debug)]
pub struct VendorReply {
    pub texts: Vec<Option<String>>,
    pub usage: Option<(Option<u32>, Option<u32>)>,
}

/// The mathematical shape of a [`VendorReply`].
pub ghost struct VendorReplyView {
    pub texts: Seq<Option<Seq<char>>>,
    pub usage: Option<(Option<u32>, Option<u32>)>,
}

impl View for VendorReply {
    type V = VendorReplyView;

    open spec fn view(&self) -> VendorReplyView {
        VendorReplyView {
            texts: self.texts@.map_values(|o: Option<String>| opt_text_view(o)),
            usage: self.usage,
        }
    }
}

/// What the nested-content vendor response text parses to.
pub uninterp spec fn vendor_reply_of(text: Seq<char>) -> Result<VendorReplyView, Seq<char>>;

/// Relies on serde_json: decodes the vendor response whose content is
/// a list of blocks with optional text, with optional
/// `usage.input_tokens` and `usage.output_tokens`.
#[verifier::external_body]
pub fn parse_vendor_reply(text: &str) -> (r: Result<VendorReply, String>)
    ensures
        match r {
            Ok(rep) => vendor_reply_of(text@) == Ok::<VendorReplyView, Seq<char>>(rep@),
            Err(e) => vendor_reply_of(text@) == Err::<VendorReplyView, Seq<char>>(e@),
        },
{
    let v: serde_json::Value = serde_json::from_str(text).map_err(|e| e.to_string())?;
    let blocks = v.get("content").and_then(|c| c.as_array()).ok_or("missing content")?;
    let texts = blocks.iter().map(
        |b| b.get("text").and_then(|x| x.as_str()).map(String::from),
    ).collect();
    let count = |k| v.pointer(k).and_then(|t| t.as_u64()).and_then(|t| t.try_into().ok());
    let usage = v.get("usage").filter(|u| !u.is_null())
        .map(|_| (count("/usage/input_tokens"), count("/usage/output_tokens")));
    Ok(VendorReply { texts, usage })
}

/// One candidate of the nested-candidates vendor response: the optional
/// texts of its content parts, when content and parts are both present.
#[derive(Debug)]
pub struct GeminiCandidateReply {
    pub parts: Option<Vec<Option<String>>>,
}

/// The nested-candidates vendor response, reduced to what the adapter
/// reads.
#[derive(Debug)]
pub struct GeminiReply {
    pub candidates: Option<Vec<GeminiCandidateReply>>,
    pub total_tokens: Option<u32>,
}

/// The mathematical shape of a [`GeminiCandidateReply`].
pub open spec fn gemini_candidate_view(c: GeminiCandidateReply) -> Option<Seq<Option<Seq<char>>>> {
    match c.parts {
        Some(ps) => Some(ps@.map_values(|o: Option<String>| opt_text_view(o))),
        None => None,
    }
}

/// The mathematical shape of a [`GeminiReply`].
pub ghost struct GeminiReplyView {
    pub candidates: Option<Seq<Option<Seq<Option<Seq<char>>>>>>,
    pub total_tokens: Option<u32>,
}

impl View for GeminiReply {
    type V = GeminiReplyView;

    open spec fn view(&self) -> GeminiReplyView {
        GeminiReplyView {
            candidates: match self.candidates {
                Some(cs) => Some(
                    cs@.map_values(|c: GeminiCandidateReply| gemini_candidate_view(c)),
                ),
                None => None,
            },
            total_tokens: self.total_tokens,
        }
    }
}

/// What the nested-candidates vendor response text parses to.
pub uninterp spec fn gemini_reply_of(text: Seq<char>) -> Result<GeminiReplyView, Seq<char>>;

/// Relies on serde_json: decodes the vendor response holding optional
/// candidates, each with optional content parts of optional text, and
/// an optional `usageMetadata.totalTokenCount`.
#[verifier::external_body]
pub fn parse_gemini_reply(text: &str) -> (r: Result<GeminiReply, String>)
    ensures
        match r {
            Ok(rep) => gemini_reply_of(text@) == Ok::<GeminiReplyView, Seq<char>>(rep@),
            Err(e) => gemini_reply_of(text@) == Err::<GeminiReplyView, Seq<char>>(e@),
        },
{
    let v: serde_json::Value = serde_json::from_str(text).map_err(|e| e.to_string())?;
    let candidates = v.get("candidates").and_then(|c| c.as_array()).map(
        |a| a.iter().map(|c| GeminiCandidateReply {
            parts: c.pointer("/content/parts").and_then(|p| p.as_array()).map(
                |ps| ps.iter().map(|q| q.get("text").and_then(|t| t.as_str()).map(String::from)).collect(),
            ),
        }).collect(),
    );
    let total = v.pointer("/usageMetadata/totalTokenCount").and_then(|t| t.as_u64())
        .and_then(|t| t.try_into().ok());
    Ok(GeminiReply { candidates, total_tokens: total })
}

} // verus!
