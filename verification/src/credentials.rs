//! Credential records cached on disk by companion CLI login tools, the
//! parsers for their two JSON layouts, and the expiry rule that gates
//! their use. Reading the files is I/O and belongs to the caller; the
//! library turns file text into records and decides usability.

use vstd::prelude::*;

use crate::error::{AIError, ErrorView};
use crate::text::opt_text_view;

verus! {

/// An OAuth credential record: access and refresh tokens plus the
/// absolute expiry time in epoch seconds.
#[derive(Debug, Clone)]
pub struct CredentialRecord {
    pub access_token: String,
    pub refresh_token: String,
    pub expires_at: i64,
}

/// The mathematical shape of a [`CredentialRecord`].
pub ghost struct CredentialView {
    pub access_token: Seq<char>,
    pub refresh_token: Seq<char>,
    pub expires_at: i64,
}

impl View for CredentialRecord {
    type V = CredentialView;

    open spec fn view(&self) -> CredentialView {
        CredentialView {
            access_token: self.access_token@,
            refresh_token: self.refresh_token@,
            expires_at: self.expires_at,
        }
    }
}

/// The number of seconds of remaining validity under which a record is
/// treated as expired, a safety buffer against races during a request.
pub const EXPIRY_BUFFER_SECONDS: i64 = 300;

/// A record is usable only while strictly more than the safety buffer
/// remains before its expiry.
pub open spec fn spec_expired(expires_at: int, now: int) -> bool {
    expires_at - now <= EXPIRY_BUFFER_SECONDS as int
}

/// Whether a record with the given expiry is expired at time `now`
/// (both in epoch seconds).
pub fn is_token_expired(expires_at: i64, now: i64) -> (r: bool)
    ensures
        r == spec_expired(expires_at as int, now as int),
{
    (expires_at as i128) - (now as i128) <= EXPIRY_BUFFER_SECONDS as i128
}

impl CredentialRecord {
    /// Whether this record is expired at time `now` (epoch seconds).
    pub fn is_expired(&self, now: i64) -> (r: bool)
        ensures
            r == spec_expired(self.expires_at as int, now as int),
    {
        is_token_expired(self.expires_at, now)
    }
}

/// What the nested credential-cache layout parses to under a given
/// OAuth member name: a malformed document, a document without that
/// member, or a full record.
pub uninterp spec fn vendor_credentials_of(text: Seq<char>, member: Seq<char>) -> Result<
    Option<CredentialView>,
    Seq<char>,
>;

/// Relies on serde_json: parses the credential cache written by the
/// vendor's companion CLI — an object whose `member` object holds
/// accessToken, refreshToken and expiresAt (epoch seconds).
#[verifier::external_body]
fn parse_vendor_credentials(text: &str, member: &str) -> (r: Result<
    Option<CredentialRecord>,
    String,
>)
    ensures
        match r {
            Ok(Some(c)) => vendor_credentials_of(text@, member@) == Ok::<
                Option<CredentialView>,
                Seq<char>,
            >(Some(c@)),
            Ok(None) => vendor_credentials_of(text@, member@) == Ok::<
                Option<CredentialView>,
                Seq<char>,
            >(None),
            Err(e) => vendor_credentials_of(text@, member@) == Err::<
                Option<CredentialView>,
                Seq<char>,
            >(e@),
        },
{
    let v: serde_json::Value = serde_json::from_str(text).map_err(|e| e.to_string())?;
    let o = match v.get(member) {
        None => return Ok(None),
        Some(o) if o.is_null() => return Ok(None),
        Some(o) => o,
    };
    let access = o.get("accessToken").and_then(|x| x.as_str()).ok_or("missing accessToken")?;
    let refresh = o.get("refreshToken").and_then(|x| x.as_str()).ok_or("missing refreshToken")?;
    let expires = o.get("expiresAt").and_then(|x| x.as_i64()).ok_or("missing expiresAt")?;
    Ok(Some(CredentialRecord {
        access_token: access.to_string(),
        refresh_token: refresh.to_string(),
        expires_at: expires,
    }))
}

/// Load the vendor CLI credential record from the cache file's text
/// (`None` when the file does not exist), reading the tokens under the
/// given OAuth member, with the actionable error each failure owes the
/// user.
pub fn load_vendor_credentials(text: Option<&str>, member: &str) -> (r: Result<
    CredentialRecord,
    AIError,
>)
    ensures
        match text {
            None => r matches Err(e) && e@ == ErrorView::InvalidConfig(
                "Vendor CLI not logged in. Run the vendor's CLI and login first."@,
            ),
            Some(t) => match vendor_credentials_of(t@, member@) {
                Ok(Some(c)) => r matches Ok(rec) && rec@ == c,
                Ok(None) => r matches Err(e) && e@ == ErrorView::InvalidConfig(
                    "No OAuth tokens found. Please login with the vendor's CLI."@,
                ),
                Err(msg) => r matches Err(e) && e@ == ErrorView::InvalidConfig(
                    "Invalid credentials format: "@ + msg,
                ),
            },
        },
{
    match text {
        None => Err(
            AIError::InvalidConfig(
                "Vendor CLI not logged in. Run the vendor's CLI and login first.".to_owned(),
            ),
        ),
        Some(t) => match parse_vendor_credentials(t, member) {
            Ok(Some(rec)) => Ok(rec),
            Ok(None) => Err(
                AIError::InvalidConfig(
                    "No OAuth tokens found. Please login with the vendor's CLI.".to_owned(),
                ),
            ),
            Err(msg) => {
                let mut m = "Invalid credentials format: ".to_owned();
                m.append(msg.as_str());
                Err(AIError::InvalidConfig(m))
            },
        },
    }
}

/// Whether a credential cache in the nested layout makes the adapter
/// available at time `now`: the text parses to a full record under the
/// given OAuth member that is not expired.
pub open spec fn spec_vendor_available(text: Option<Seq<char>>, member: Seq<char>, now: int) -> bool {
    match text {
        None => false,
        Some(t) => match vendor_credentials_of(t, member) {
            Ok(Some(c)) => !spec_expired(c.expires_at as int, now),
            _ => false,
        },
    }
}

/// The availability probe over the nested credential layout: purely
/// local — the cache text and the clock decide.
pub fn vendor_cli_available(text: Option<&str>, member: &str, now: i64) -> (r: bool)
    ensures
        r == spec_vendor_available(
            match text {
                Some(t) => Some(t@),
                None => None,
            },
            member@,
            now as int,
        ),
{
    match load_vendor_credentials(text, member) {
        Ok(rec) => !rec.is_expired(now),
        Err(_) => false,
    }
}

/// What the flat credential-cache layout parses to: a malformed
/// document, or its optional access token.
pub uninterp spec fn gemini_credentials_of(text: Seq<char>) -> Result<Option<Seq<char>>, Seq<char>>;

/// Relies on serde_json: parses the flat credential cache written by
/// the Gemini CLI — an object whose optional access_token,
/// refresh_token and expiry members must be strings where present (a
/// wrong-typed member fails the parse, as a typed decode would).
#[verifier::external_body]
fn parse_gemini_credentials(text: &str) -> (r: Result<Option<String>, String>)
    ensures
        match r {
            Ok(Some(t)) => gemini_credentials_of(text@) == Ok::<Option<Seq<char>>, Seq<char>>(
                Some(t@),
            ),
            Ok(None) => gemini_credentials_of(text@) == Ok::<Option<Seq<char>>, Seq<char>>(None),
            Err(e) => gemini_credentials_of(text@) == Err::<Option<Seq<char>>, Seq<char>>(e@),
        },
{
    let v: serde_json::Value = serde_json::from_str(text).map_err(|e| e.to_string())?;
    if !v.is_object() {
        return Err("expected a JSON object".to_string());
    }
    let bad = |k: &str| v.get(k).is_some_and(|x| !x.is_null() && !x.is_string());
    if bad("access_token") || bad("refresh_token") || bad("expiry") {
        return Err("wrong credential field type".to_string());
    }
    Ok(v.get("access_token").and_then(|x| x.as_str()).map(|s| s.to_string()))
}

/// The access token of the first candidate cache file that exists and
/// parses, in the given order. A file that exists but is malformed is
/// skipped; one that parses decides the answer, even when it holds no
/// token.
pub open spec fn spec_first_gemini_token(texts: Seq<Option<Seq<char>>>) -> Option<Seq<char>>
    decreases texts.len(),
{
    if texts.len() == 0 {
        None
    } else {
        match texts[0] {
            Some(t) => match gemini_credentials_of(t) {
                Ok(tok) => tok,
                Err(_) => spec_first_gemini_token(texts.drop_first()),
            },
            None => spec_first_gemini_token(texts.drop_first()),
        }
    }
}

/// Walk the candidate cache texts (`None` for a file that does not
/// exist) and return the first parsed access token, as
/// [`spec_first_gemini_token`] describes.
pub fn first_gemini_token(texts: &Vec<Option<String>>) -> (r: Option<String>)
    ensures
        match r {
            Some(t) => spec_first_gemini_token(
                texts@.map_values(|o: Option<String>| opt_text_view(o)),
            ) == Some(t@),
            None => spec_first_gemini_token(
                texts@.map_values(|o: Option<String>| opt_text_view(o)),
            ) is None,
        },
{
    let ghost views = texts@.map_values(|o: Option<String>| opt_text_view(o));
    proof {
        assert(views.skip(0) =~= views);
    }
    let mut i: usize = 0;
    while i < texts.len()
        invariant
            i <= texts.len(),
            views == texts@.map_values(|o: Option<String>| opt_text_view(o)),
            spec_first_gemini_token(views) == spec_first_gemini_token(views.skip(i as int)),
        decreases texts.len() - i,
    {
        proof {
            assert(views.skip(i as int).drop_first() =~= views.skip(i + 1));
            assert(views.skip(i as int)[0] == views[i as int]);
        }
        match &texts[i] {
            Some(t) => {
                match parse_gemini_credentials(t.as_str()) {
                    Ok(tok) => {
                        return tok;
                    },
                    Err(_) => {},
                }
            },
            None => {},
        }
        i = i + 1;
    }
    proof {
        assert(views.skip(texts@.len() as int) =~= Seq::<Option<Seq<char>>>::empty());
    }
    None
}

} // verus!
