//! The local pairing surface: handed-over tokens, their lifetime and refresh,
//! the requests of the pairing app, and the name the device is advertised by.

use vstd::prelude::*;
use vstd::string::*;

use crate::json::{holds_place, parse_json, text_at, unsigned_at};
use crate::remote_stream::is_success_status;
use crate::renderer_model::copy_opt_text;
use crate::text::{append_decimal, same_text, trim};

verus! {

pub const MDNS_SERVICE_TYPE: &'static str = "_qobuz-connect._tcp.local.";

/// A token expiring within this window counts as expired.
pub const EXP_SLACK_SECS: u64 = 60;

/// A token is refreshed once it is within this window of its expiry.
pub const REFRESH_LEAD_SECS: u64 = 300;

/// How often the tokens are looked at.
pub const REFRESH_CHECK_SECS: u64 = 30;

/// Bytes of a handoff body that are read at most.
pub const MAX_HANDOFF_BYTES: u64 = 64 * 1024;

/// Tokens handed over by the pairing app. Expiries are unix seconds; 0 means
/// that none was given, and the token then never expires.
pub struct PairingTokens {
    pub session_id: String,
    pub ws_jwt: String,
    pub ws_exp: u64,
    pub ws_endpoint: String,
    pub api_jwt: Option<String>,
    pub api_exp: u64,
}

/// What `{:?}` writes for a text: the text in quotes, with what would break out of
/// them, or out of the line, escaped.
pub uninterp spec fn debug_form(text: Seq<char>) -> Seq<char>;

/// Calls `format!` with `{:?}`, the `Debug` of `str`: one text always gives one
/// form. Which characters are escaped, and how, is not claimed.
#[verifier::external_body]
fn debug_of(text: &str) -> (r: String)
    ensures
        r@ == debug_form(text@),
{
    format!("{:?}", text)
}

impl PairingTokens {
    /// The connection token can still be used.
    pub open spec fn is_live(self, now: u64) -> bool {
        self.ws_exp == 0 || self.ws_exp > now + EXP_SLACK_SECS
    }

    pub fn ws_token_live(&self, now: u64) -> (r: bool)
        ensures
            r == self.is_live(now),
    {
        self.ws_exp == 0 || (self.ws_exp as u128) > now as u128 + EXP_SLACK_SECS as u128
    }

    /// A copy holding the same values.
    pub fn copy(&self) -> (r: PairingTokens)
        ensures
            r == *self,
    {
        PairingTokens {
            session_id: self.session_id.clone(),
            ws_jwt: self.ws_jwt.clone(),
            ws_exp: self.ws_exp,
            ws_endpoint: self.ws_endpoint.clone(),
            api_jwt: copy_opt_text(&self.api_jwt),
            api_exp: self.api_exp,
        }
    }

    /// The tokens as text, around the given forms of the session and of the
    /// endpoint. Neither token shows.
    pub open spec fn redacted(self, session_id: Seq<char>, ws_endpoint: Seq<char>) -> Seq<char> {
        "PairingTokens { session_id: "@ + session_id + ", ws_jwt: \"<redacted>\", ws_exp: "@
            + crate::text::decimal(self.ws_exp as nat) + ", ws_endpoint: "@ + ws_endpoint + (
        if self.api_jwt is Some {
            ", api_jwt: Some(\"<redacted>\")"@
        } else {
            ", api_jwt: None"@
        }) + ", api_exp: "@ + crate::text::decimal(self.api_exp as nat) + " }"@
    }

    /// Put the text together.
    pub fn redact(&self, session_id: &str, ws_endpoint: &str) -> (r: String)
        ensures
            r@ == self.redacted(session_id@, ws_endpoint@),
    {
        let mut out = String::from_str("PairingTokens { session_id: ");
        out.append(session_id);
        out.append(", ws_jwt: \"<redacted>\", ws_exp: ");
        append_decimal(&mut out, self.ws_exp);
        out.append(", ws_endpoint: ");
        out.append(ws_endpoint);
        if self.api_jwt.is_some() {
            out.append(", api_jwt: Some(\"<redacted>\")");
        } else {
            out.append(", api_jwt: None");
        }
        out.append(", api_exp: ");
        append_decimal(&mut out, self.api_exp);
        out.append(" }");
        out
    }

    /// What [`Self::debug_text`] shows.
    pub open spec fn shown(self) -> Seq<char> {
        self.redacted(debug_form(self.session_id@), debug_form(self.ws_endpoint@))
    }

    /// The tokens as text for a log or a panic message. The tokens themselves
    /// are left out.
    pub fn debug_text(&self) -> (r: String)
        ensures
            r@ == self.shown(),
    {
        let session_id = debug_of(self.session_id.as_str());
        let ws_endpoint = debug_of(self.ws_endpoint.as_str());
        self.redact(session_id.as_str(), ws_endpoint.as_str())
    }
}

/// The text for a log does not depend on either token: two handoffs that differ
/// in nothing else read the same.
pub proof fn law_the_log_text_hides_the_tokens(a: PairingTokens, b: PairingTokens)
    requires
        a.session_id@ == b.session_id@,
        a.ws_exp == b.ws_exp,
        a.ws_endpoint@ == b.ws_endpoint@,
        a.api_jwt is Some == b.api_jwt is Some,
        a.api_exp == b.api_exp,
    ensures
        a.shown() == b.shown(),
{
}

/// The last tokens handed over.
pub struct PairingStore {
    pub tokens: Option<PairingTokens>,
}

/// The stored tokens, if their connection token is still live. Expired ones
/// leave the store on the way.
pub fn valid_ws_tokens(store: &mut PairingStore, now: u64) -> (r: Option<PairingTokens>)
    ensures
        match old(store).tokens {
            Some(tokens) => if tokens.is_live(now) {
                r == Some(tokens) && final(store).tokens == old(store).tokens
            } else {
                r is None && final(store).tokens is None
            },
            None => r is None && final(store).tokens is None,
        },
{
    let live: Option<PairingTokens> = match &store.tokens {
        Some(tokens) => {
            if tokens.ws_token_live(now) {
                Some(tokens.copy())
            } else {
                None
            }
        },
        None => None,
    };
    if live.is_none() {
        store.tokens = None;
    }
    live
}

/// How the connection to the cloud is made.
#[derive(Debug)]
pub struct TransportConfig {
    pub endpoint_url: String,
    pub jwt_qws: Option<String>,
    pub require_jwt: bool,
    pub reconnect_idle_retry_ms: u64,
    pub subscribe_channels: Vec<Vec<u8>>,
}

impl TransportConfig {
    /// The connection that handed-over tokens allow.
    pub open spec fn connects_with(self, tokens: PairingTokens) -> bool {
        &&& self.endpoint_url@ == tokens.ws_endpoint@
        &&& self.jwt_qws matches Some(jwt) && jwt@ == tokens.ws_jwt@
        &&& self.require_jwt
        &&& self.reconnect_idle_retry_ms == 60_000
        &&& self.subscribe_channels@.len() == 3
        &&& self.subscribe_channels@[0]@ == seq![1u8]
        &&& self.subscribe_channels@[1]@ == seq![2u8]
        &&& self.subscribe_channels@[2]@ == seq![3u8]
    }
}

/// The connection that handed-over tokens allow: with the token, never without
/// one, on the connection, backend and controllers channels.
pub fn transport_config_from(tokens: &PairingTokens) -> (r: TransportConfig)
    ensures
        r.connects_with(*tokens),
{
    let one: Vec<u8> = vec![1];
    let two: Vec<u8> = vec![2];
    let three: Vec<u8> = vec![3];
    assert(one@ =~= seq![1u8]);
    assert(two@ =~= seq![2u8]);
    assert(three@ =~= seq![3u8]);
    TransportConfig {
        endpoint_url: tokens.ws_endpoint.clone(),
        jwt_qws: Some(tokens.ws_jwt.clone()),
        require_jwt: true,
        reconnect_idle_retry_ms: 60_000,
        subscribe_channels: vec![one, two, three],
    }
}

/// What a handoff request carries.
pub struct HandoffFields {
    pub session_id: Option<String>,
    /// The request has a connection token object at all.
    pub has_ws: bool,
    pub ws_jwt: Option<String>,
    pub ws_endpoint: Option<String>,
    pub ws_exp: Option<u64>,
    pub api_jwt: Option<String>,
    pub api_exp: Option<u64>,
}

/// The text is there and is more than white space.
pub open spec fn is_filled(text: Option<Seq<char>>) -> bool {
    text matches Some(t) && crate::text::trimmed(t).len() > 0
}

/// The view of an optional text.
pub open spec fn opt_chars(text: Option<String>) -> Option<Seq<char>> {
    match text {
        Some(t) => Some(t@),
        None => None,
    }
}

/// A value, or a default where there is none.
pub open spec fn or_zero(value: Option<u64>) -> u64 {
    match value {
        Some(v) => v,
        None => 0,
    }
}

fn filled(text: &Option<String>) -> (r: bool)
    ensures
        r == is_filled(opt_chars(*text)),
{
    match text {
        Some(t) => !trim(t.as_str()).is_empty(),
        None => false,
    }
}

impl HandoffFields {
    /// What a request is refused for, if it is.
    pub open spec fn refusal(self, now: u64) -> Option<Seq<char>> {
        if !self.has_ws {
            Some("missing jwt_qconnect"@)
        } else if !is_filled(opt_chars(self.ws_jwt)) {
            Some("missing jwt_qconnect.jwt"@)
        } else if !is_filled(opt_chars(self.ws_endpoint)) {
            Some("missing jwt_qconnect.endpoint"@)
        } else if or_zero(self.ws_exp) != 0 && or_zero(self.ws_exp) <= now + EXP_SLACK_SECS {
            Some("jwt_qconnect is already expired"@)
        } else {
            None
        }
    }

    /// The tokens that an accepted request hands over.
    pub open spec fn hands_over(self, tokens: PairingTokens) -> bool {
        &&& tokens.session_id@ == (match self.session_id {
            Some(id) => id@,
            None => Seq::empty(),
        })
        &&& opt_chars(self.ws_jwt) == Some(tokens.ws_jwt@)
        &&& opt_chars(self.ws_endpoint) == Some(tokens.ws_endpoint@)
        &&& tokens.ws_exp == or_zero(self.ws_exp)
        &&& opt_chars(tokens.api_jwt) == (if is_filled(opt_chars(self.api_jwt)) {
            opt_chars(self.api_jwt)
        } else {
            None
        })
        &&& tokens.api_exp == or_zero(self.api_exp)
    }
}

/// The tokens of a handoff request, or why it is refused. Only the connection
/// token is mandatory: without it there is nothing to connect to.
pub fn accept_handoff(fields: HandoffFields, now: u64) -> (r: Result<PairingTokens, String>)
    ensures
        match fields.refusal(now) {
            Some(why) => r matches Err(message) && message@ == why,
            None => r matches Ok(tokens) && fields.hands_over(tokens) && tokens.is_live(now),
        },
{
    if !fields.has_ws {
        return Err(String::from_str("missing jwt_qconnect"));
    }
    if !filled(&fields.ws_jwt) {
        return Err(String::from_str("missing jwt_qconnect.jwt"));
    }
    if !filled(&fields.ws_endpoint) {
        return Err(String::from_str("missing jwt_qconnect.endpoint"));
    }
    let api_filled = filled(&fields.api_jwt);
    let tokens = PairingTokens {
        session_id: match fields.session_id {
            Some(id) => id,
            None => String::new(),
        },
        ws_jwt: match fields.ws_jwt {
            Some(jwt) => jwt,
            None => String::new(),
        },
        ws_exp: match fields.ws_exp {
            Some(exp) => exp,
            None => 0,
        },
        ws_endpoint: match fields.ws_endpoint {
            Some(endpoint) => endpoint,
            None => String::new(),
        },
        api_jwt: if api_filled {
            fields.api_jwt
        } else {
            None
        },
        api_exp: match fields.api_exp {
            Some(exp) => exp,
            None => 0,
        },
    };
    if !tokens.ws_token_live(now) {
        return Err(String::from_str("jwt_qconnect is already expired"));
    }
    Ok(tokens)
}

/// `fields` are what `body` carries.
pub open spec fn carries(body: serde_json::Value, fields: HandoffFields) -> bool {
    &&& opt_chars(fields.session_id) == crate::json::opt_text(body, "/session_id"@)
    &&& fields.has_ws == crate::json::json_places(body).contains("/jwt_qconnect"@)
    &&& opt_chars(fields.ws_jwt) == crate::json::opt_text(body, "/jwt_qconnect/jwt"@)
    &&& opt_chars(fields.ws_endpoint) == crate::json::opt_text(body, "/jwt_qconnect/endpoint"@)
    &&& fields.ws_exp == crate::json::opt_unsigned(body, "/jwt_qconnect/exp"@)
    &&& opt_chars(fields.api_jwt) == crate::json::opt_text(body, "/jwt_api/jwt"@)
    &&& fields.api_exp == crate::json::opt_unsigned(body, "/jwt_api/exp"@)
}

/// Read the fields of a handoff request.
pub fn read_handoff(body: &serde_json::Value) -> (r: HandoffFields)
    ensures
        carries(*body, r),
{
    HandoffFields {
        session_id: text_at(body, "/session_id"),
        has_ws: holds_place(body, "/jwt_qconnect"),
        ws_jwt: text_at(body, "/jwt_qconnect/jwt"),
        ws_endpoint: text_at(body, "/jwt_qconnect/endpoint"),
        ws_exp: unsigned_at(body, "/jwt_qconnect/exp"),
        api_jwt: text_at(body, "/jwt_api/jwt"),
        api_exp: unsigned_at(body, "/jwt_api/exp"),
    }
}

/// Parse a handoff request.
pub fn parse_connect_request(body: &serde_json::Value, now: u64) -> (r: Result<
    PairingTokens,
    String,
>)
    ensures
        exists|fields: HandoffFields|
            {
                &&& #[trigger] carries(*body, fields)
                &&& match fields.refusal(now) {
                    Some(why) => r matches Err(message) && message@ == why,
                    None => r matches Ok(tokens) && fields.hands_over(tokens) && tokens.is_live(
                        now,
                    ),
                }
            },
{
    let fields = read_handoff(body);
    accept_handoff(fields, now)
}

/// The tokens in the body of a handoff request. A body that is no JSON carries
/// no connection token.
pub fn parse_connect_body(body: &str, now: u64) -> (r: Result<PairingTokens, String>)
    ensures
        match crate::json::json_document(body@) {
            None => r matches Err(message) && message@ == "missing jwt_qconnect"@,
            Some(document) => exists|fields: HandoffFields|
                {
                    &&& #[trigger] carries(document, fields)
                    &&& match fields.refusal(now) {
                        Some(why) => r matches Err(message) && message@ == why,
                        None => r matches Ok(tokens) && fields.hands_over(tokens)
                            && tokens.is_live(now),
                    }
                },
        },
{
    match parse_json(body) {
        Some(document) => parse_connect_request(&document, now),
        None => Err(String::from_str("missing jwt_qconnect")),
    }
}

/// What `char::is_alphanumeric` answers.
pub uninterp spec fn alphanumeric(c: char) -> bool;

/// Calls `char::is_alphanumeric`, which goes by Unicode's tables: one character
/// always gets one answer.
#[verifier::external_body]
fn is_alphanumeric(c: char) -> (r: bool)
    ensures
        r == alphanumeric(c),
{
    c.is_alphanumeric()
}

/// A letter or digit, in ASCII or beyond it.
pub open spec fn is_word_char(c: char) -> bool {
    if (c as u32) < 128 {
        'a' <= c <= 'z' || 'A' <= c <= 'Z' || '0' <= c <= '9'
    } else {
        alphanumeric(c)
    }
}

/// A character that a service instance name keeps.
pub open spec fn is_kept(c: char) -> bool {
    is_word_char(c) || c == '_'
}

fn keeps(c: char) -> (r: bool)
    ensures
        r == is_kept(c),
{
    if (c as u32) < 128 {
        ('a' <= c && c <= 'z') || ('A' <= c && c <= 'Z') || ('0' <= c && c <= '9') || c == '_'
    } else {
        is_alphanumeric(c)
    }
}

/// `name` with every run of other characters, and of dashes, as one dash.
pub open spec fn dashed(name: Seq<char>) -> Seq<char>
    decreases name.len(),
{
    if name.len() == 0 {
        Seq::empty()
    } else {
        let before = dashed(name.drop_last());
        let c = name.last();
        if is_kept(c) {
            before.push(c)
        } else if before.len() > 0 && before.last() == '-' {
            before
        } else {
            before.push('-')
        }
    }
}

/// `s` without the dashes at its ends.
pub open spec fn undashed(s: Seq<char>) -> Seq<char>
    decreases s.len(),
{
    if s.len() == 0 {
        s
    } else if s[0] == '-' {
        undashed(s.drop_first())
    } else if s.last() == '-' {
        undashed(s.drop_last())
    } else {
        s
    }
}

/// The service instance name for a display name.
pub open spec fn instance_name(name: Seq<char>) -> Seq<char> {
    let safe = undashed(dashed(name));
    if safe.len() == 0 {
        "QBZ"@
    } else {
        safe
    }
}

fn strip_dashes<'a>(s: &'a str) -> (r: &'a str)
    ensures
        r@ == undashed(s@),
{
    let n: usize = s.unicode_len();
    let mut from: usize = 0;
    assert(s@.subrange(0, n as int) =~= s@);
    while from < n && s.get_char(from) == '-'
        invariant
            n == s@.len(),
            from <= n,
            undashed(s@) == undashed(s@.subrange(from as int, n as int)),
        decreases n - from,
    {
        proof {
            assert(s@.subrange(from as int, n as int).drop_first() =~= s@.subrange(
                from + 1,
                n as int,
            ));
        }
        from = from + 1;
    }
    let mut to: usize = n;
    while to > from && s.get_char(to - 1) == '-'
        invariant
            n == s@.len(),
            from <= to <= n,
            from < to ==> s@[from as int] != '-',
            undashed(s@) == undashed(s@.subrange(from as int, to as int)),
        decreases to,
    {
        proof {
            let t = s@.subrange(from as int, to as int);
            assert(t[0] == s@[from as int]);
            assert(t.drop_last() =~= s@.subrange(from as int, to - 1));
        }
        to = to - 1;
    }
    proof {
        let t = s@.subrange(from as int, to as int);
        if t.len() > 0 {
            assert(t[0] == s@[from as int]);
            assert(t.last() == s@[to - 1]);
        }
    }
    s.substring_char(from, to)
}

/// A service instance name cannot carry spaces or exotic characters: keep
/// letters, digits and underscores, collapse the rest to single dashes.
pub fn sanitize_instance_name(name: &str) -> (r: String)
    ensures
        r@ == instance_name(name@),
{
    let n: usize = name.unicode_len();
    let mut out = String::new();
    let mut at_dash: bool = false;
    let mut i: usize = 0;
    assert(name@.take(0) =~= Seq::<char>::empty());
    while i < n
        invariant
            n == name@.len(),
            i <= n,
            out@ == dashed(name@.take(i as int)),
            at_dash == (out@.len() > 0 && out@.last() == '-'),
        decreases n - i,
    {
        let c = name.get_char(i);
        proof {
            assert(name@.take(i + 1).drop_last() =~= name@.take(i as int));
            assert(name@.take(i + 1).last() == c);
            reveal_strlit("-");
            assert("-"@ =~= seq!['-']);
            assert(name@.subrange(i as int, i + 1) =~= seq![c]);
        }
        let ghost before = out@;
        if keeps(c) {
            out.append(name.substring_char(i, i + 1));
            at_dash = false;
            assert(out@ =~= before.push(c));
        } else if !at_dash {
            out.append("-");
            at_dash = true;
            assert(out@ =~= before.push('-'));
        }
        i = i + 1;
    }
    assert(name@.take(n as int) =~= name@);
    let safe = strip_dashes(out.as_str());
    if safe.is_empty() {
        String::from_str("QBZ")
    } else {
        String::from_str(safe)
    }
}

/// Kept characters and single dashes between them.
pub open spec fn is_safe(s: Seq<char>) -> bool {
    &&& forall|i: int| 0 <= i < s.len() ==> is_kept(#[trigger] s[i]) || s[i] == '-'
    &&& forall|i: int| 0 <= i < s.len() - 1 && #[trigger] s[i] == '-' ==> s[i + 1] != '-'
}

pub(crate) proof fn lemma_dashed_is_safe(name: Seq<char>)
    ensures
        is_safe(dashed(name)),
    decreases name.len(),
{
    if name.len() > 0 {
        lemma_dashed_is_safe(name.drop_last());
        let before = dashed(name.drop_last());
        let s = dashed(name);
        assert forall|i: int| 0 <= i < s.len() implies is_kept(#[trigger] s[i]) || s[i]
            == '-' by {
            if i < before.len() {
                assert(s[i] == before[i]);
            }
        }
        assert forall|i: int| 0 <= i < s.len() - 1 && #[trigger] s[i] == '-' implies s[i + 1] != '-' by {
            assert(s[i] == before[i]);
            if i + 1 < before.len() {
                assert(s[i + 1] == before[i + 1]);
            }
        }
    }
}

pub(crate) proof fn lemma_undashed(s: Seq<char>)
    requires
        is_safe(s),
    ensures
        is_safe(undashed(s)),
        undashed(s).len() > 0 ==> undashed(s)[0] != '-' && undashed(s).last() != '-',
    decreases s.len(),
{
    if s.len() > 0 && s[0] == '-' {
        let t = s.drop_first();
        assert forall|i: int| 0 <= i < t.len() implies is_kept(#[trigger] t[i]) || t[i]
            == '-' by {
            assert(t[i] == s[i + 1]);
        }
        assert forall|i: int| 0 <= i < t.len() - 1 && #[trigger] t[i] == '-' implies t[i + 1] != '-' by {
            assert(t[i] == s[i + 1] && t[i + 1] == s[i + 2]);
        }
        lemma_undashed(t);
    } else if s.len() > 0 && s.last() == '-' {
        let t = s.drop_last();
        assert forall|i: int| 0 <= i < t.len() implies is_kept(#[trigger] t[i]) || t[i]
            == '-' by {
            assert(t[i] == s[i]);
        }
        assert forall|i: int| 0 <= i < t.len() - 1 && #[trigger] t[i] == '-' implies t[i + 1] != '-' by {
            assert(t[i] == s[i] && t[i + 1] == s[i + 1]);
        }
        lemma_undashed(t);
    }
}

/// An instance name is never empty, holds only letters, digits, underscores and
/// dashes, has no two dashes in a row, and neither starts nor ends with one.
pub proof fn law_an_instance_name_is_safe(name: Seq<char>)
    ensures
        instance_name(name).len() > 0,
        forall|i: int|
            0 <= i < instance_name(name).len() ==> is_kept(#[trigger] instance_name(name)[i])
                || instance_name(name)[i] == '-',
        forall|i: int|
            0 <= i < instance_name(name).len() - 1 && #[trigger] instance_name(name)[i] == '-'
                ==> instance_name(name)[i + 1] != '-',
        instance_name(name)[0] != '-',
        instance_name(name).last() != '-',
{
    reveal_strlit("QBZ");
    lemma_dashed_is_safe(name);
    lemma_undashed(dashed(name));
    let fallback = "QBZ"@;
    assert(fallback.len() == 3);
    assert(fallback[0] == 'Q' && fallback[1] == 'B' && fallback[2] == 'Z');
    let r = instance_name(name);
    assert forall|i: int| 0 <= i < r.len() implies is_kept(#[trigger] r[i]) || r[i] == '-' by {
        if r == fallback {
            assert(i == 0 || i == 1 || i == 2);
        }
    }
    assert forall|i: int| 0 <= i < r.len() - 1 && #[trigger] r[i] == '-' implies r[i + 1]
        != '-' by {
        if r == fallback {
            assert(i == 0 || i == 1);
        }
    }
}

/// The letters, digits and underscores of a text, in their order.
pub open spec fn kept_chars(s: Seq<char>) -> Seq<char> {
    s.filter(|c: char| is_kept(c))
}

proof fn lemma_dashed_keeps(name: Seq<char>)
    ensures
        kept_chars(dashed(name)) == kept_chars(name),
    decreases name.len(),
{
    reveal(Seq::filter);
    if name.len() > 0 {
        let before = dashed(name.drop_last());
        lemma_dashed_keeps(name.drop_last());
        assert(before.push(name.last()).drop_last() =~= before);
        assert(before.push('-').drop_last() =~= before);
    }
}

proof fn lemma_undashed_keeps(s: Seq<char>)
    ensures
        kept_chars(undashed(s)) == kept_chars(s),
    decreases s.len(),
{
    let pred = |c: char| is_kept(c);
    if s.len() > 0 {
        if s[0] == '-' {
            let dash = seq!['-'];
            lemma_undashed_keeps(s.drop_first());
            assert(s =~= dash + s.drop_first());
            Seq::filter_distributes_over_add(dash, s.drop_first(), pred);
            reveal_with_fuel(Seq::filter, 2);
            assert(dash.filter(pred) =~= Seq::empty());
            assert(kept_chars(s) =~= kept_chars(s.drop_first()));
        } else if s.last() == '-' {
            lemma_undashed_keeps(s.drop_last());
            reveal(Seq::filter);
        }
    }
}

/// A text of kept characters and single dashes stays as it is.
proof fn lemma_dashed_again(s: Seq<char>)
    requires
        is_safe(s),
    ensures
        dashed(s) == s,
    decreases s.len(),
{
    if s.len() > 0 {
        let front = s.drop_last();
        assert forall|i: int| 0 <= i < front.len() implies is_kept(#[trigger] front[i]) || front[i]
            == '-' by {
            assert(front[i] == s[i]);
        }
        assert forall|i: int| 0 <= i < front.len() - 1 && #[trigger] front[i] == '-' implies front[i
            + 1] != '-' by {
            assert(front[i] == s[i] && front[i + 1] == s[i + 1]);
        }
        lemma_dashed_again(front);
        if front.len() > 0 {
            assert(front.last() == s[s.len() - 2]);
        }
        assert(s =~= front.push(s.last()));
    }
}

/// An instance name is its own instance name: making one again changes nothing.
pub proof fn law_an_instance_name_is_its_own(name: Seq<char>)
    ensures
        instance_name(instance_name(name)) == instance_name(name),
{
    law_an_instance_name_is_safe(name);
    lemma_dashed_again(instance_name(name));
}

/// An instance name holds all letters, digits and underscores of the display name,
/// in their order, and no others; a display name without any gets the fallback.
pub proof fn law_an_instance_name_keeps_the_letters(name: Seq<char>)
    ensures
        if kept_chars(name).len() > 0 {
            kept_chars(instance_name(name)) == kept_chars(name)
        } else {
            instance_name(name) == "QBZ"@
        },
{
    let safe = undashed(dashed(name));
    lemma_dashed_keeps(name);
    lemma_undashed_keeps(dashed(name));
    lemma_dashed_is_safe(name);
    lemma_undashed(dashed(name));
    if safe.len() > 0 {
        assert(is_kept(safe[0]));
        safe.lemma_filter_contains(|c: char| is_kept(c), 0);
    } else {
        reveal(Seq::filter);
    }
}

/// One property of an advertised service.
#[derive(Debug)]
pub struct ServiceProperty {
    pub key: &'static str,
    pub value: String,
}

/// How the device is advertised on the local network.
#[derive(Debug)]
pub struct Advertisement {
    pub instance: String,
    /// A host of its own, so that the machine's own name is left alone.
    pub host: String,
    pub properties: Vec<ServiceProperty>,
}

impl Advertisement {
    /// The property at `i` has this key and this value.
    pub open spec fn has_property(self, i: int, key: Seq<char>, value: Seq<char>) -> bool {
        &&& i < self.properties@.len()
        &&& self.properties@[i].key@ == key
        &&& self.properties@[i].value@ == value
    }
}

/// Advertise the device under its display name: the instance and the host go by
/// the safe form of it, the name itself travels as a property.
pub fn advertise(friendly_name: &str, device_uuid: &str, sdk_version: &str) -> (r: Advertisement)
    ensures
        r.instance@ == instance_name(friendly_name@),
        r.host@ == instance_name(friendly_name@) + ".local."@,
        r.properties@.len() == 5,
        r.has_property(0, "path"@, "/streamcore"@),
        r.has_property(1, "type"@, "SPEAKER"@),
        r.has_property(2, "sdk_version"@, sdk_version@),
        r.has_property(3, "Name"@, friendly_name@),
        r.has_property(4, "device_uuid"@, device_uuid@),
{
    let instance = sanitize_instance_name(friendly_name);
    let mut host: String = instance.clone();
    host.append(".local.");
    let mut properties: Vec<ServiceProperty> = Vec::new();
    properties.push(ServiceProperty { key: "path", value: String::from_str("/streamcore") });
    properties.push(ServiceProperty { key: "type", value: String::from_str("SPEAKER") });
    properties.push(ServiceProperty { key: "sdk_version", value: String::from_str(sdk_version) });
    properties.push(ServiceProperty { key: "Name", value: String::from_str(friendly_name) });
    properties.push(ServiceProperty { key: "device_uuid", value: String::from_str(device_uuid) });
    Advertisement { instance, host, properties }
}

/// A request of the pairing app.
#[derive(Debug, Clone, Copy, PartialEq, Eq, Structural)]
pub enum PairingRoute {
    DisplayInfo,
    ConnectInfo,
    Connect,
    NotFound,
}

/// How a request is made.
#[derive(Debug, Clone, Copy, PartialEq, Eq, Structural)]
pub enum RequestMethod {
    Get,
    Post,
    Other,
}

/// `url` up to its query.
pub open spec fn path_part(url: Seq<char>) -> Seq<char>
    decreases url.len(),
{
    if url.len() == 0 || url[0] == '?' {
        Seq::empty()
    } else {
        seq![url[0]] + path_part(url.drop_first())
    }
}

fn path_of<'a>(url: &'a str) -> (r: &'a str)
    ensures
        r@ == path_part(url@),
{
    let n: usize = url.unicode_len();
    let mut i: usize = 0;
    assert(url@.subrange(0, n as int) =~= url@);
    assert(url@.subrange(0, 0) + path_part(url@) =~= path_part(url@));
    while i < n && url.get_char(i) != '?'
        invariant
            n == url@.len(),
            i <= n,
            path_part(url@) == url@.subrange(0, i as int) + path_part(
                url@.subrange(i as int, n as int),
            ),
        decreases n - i,
    {
        proof {
            let rest = url@.subrange(i as int, n as int);
            assert(rest.drop_first() =~= url@.subrange(i + 1, n as int));
            assert(rest[0] == url@[i as int]);
            assert(url@.subrange(0, i as int) + (seq![url@[i as int]] + path_part(
                rest.drop_first(),
            )) =~= url@.subrange(0, i + 1) + path_part(rest.drop_first()));
        }
        i = i + 1;
    }
    proof {
        let rest = url@.subrange(i as int, n as int);
        if i < n {
            assert(rest[0] == url@[i as int]);
        }
        assert(path_part(rest) =~= Seq::<char>::empty());
        assert(url@.subrange(0, i as int) + Seq::<char>::empty() =~= url@.subrange(0, i as int));
    }
    url.substring_char(0, i)
}

/// What a request asks for.
pub open spec fn routed(method: RequestMethod, url: Seq<char>) -> PairingRoute {
    let path = path_part(url);
    if method == RequestMethod::Get && path == "/streamcore/get-display-info"@ {
        PairingRoute::DisplayInfo
    } else if method == RequestMethod::Get && path == "/streamcore/get-connect-info"@ {
        PairingRoute::ConnectInfo
    } else if method == RequestMethod::Post && path == "/streamcore/connect-to-qconnect"@ {
        PairingRoute::Connect
    } else {
        PairingRoute::NotFound
    }
}

/// Find what a request asks for, by its method and its path.
pub fn route(method: RequestMethod, url: &str) -> (r: PairingRoute)
    ensures
        r == routed(method, url@),
{
    let path = path_of(url);
    match method {
        RequestMethod::Get => {
            if same_text(path, "/streamcore/get-display-info") {
                PairingRoute::DisplayInfo
            } else if same_text(path, "/streamcore/get-connect-info") {
                PairingRoute::ConnectInfo
            } else {
                PairingRoute::NotFound
            }
        },
        RequestMethod::Post => {
            if same_text(path, "/streamcore/connect-to-qconnect") {
                PairingRoute::Connect
            } else {
                PairingRoute::NotFound
            }
        },
        RequestMethod::Other => PairingRoute::NotFound,
    }
}

/// What a device says of itself to the pairing app's picker.
#[derive(Debug)]
pub struct DisplayInfo {
    pub kind: &'static str,
    pub friendly_name: String,
    pub model_display_name: String,
    pub brand_display_name: String,
    pub serial_number: String,
    pub max_audio_quality: &'static str,
}

/// The identity of this device, as far as it is known.
#[derive(Debug)]
pub struct DeviceIdentity {
    pub friendly_name: Option<String>,
    pub model: Option<String>,
    pub brand: Option<String>,
    pub device_uuid: Option<String>,
}

/// A text, or the empty one where there is none.
pub open spec fn or_empty(text: Option<String>) -> Seq<char> {
    match text {
        Some(t) => t@,
        None => Seq::empty(),
    }
}

fn text_or_empty(text: Option<String>) -> (r: String)
    ensures
        r@ == or_empty(text),
{
    match text {
        Some(t) => t,
        None => String::new(),
    }
}

/// The picker's entry for this device: a speaker of the highest quality.
pub fn display_info(identity: DeviceIdentity) -> (r: DisplayInfo)
    ensures
        r.kind@ == "SPEAKER"@,
        r.friendly_name@ == or_empty(identity.friendly_name),
        r.model_display_name@ == or_empty(identity.model),
        r.brand_display_name@ == or_empty(identity.brand),
        r.serial_number@ == or_empty(identity.device_uuid),
        r.max_audio_quality@ == "HIRES_L3"@,
{
    DisplayInfo {
        kind: "SPEAKER",
        friendly_name: text_or_empty(identity.friendly_name),
        model_display_name: text_or_empty(identity.model),
        brand_display_name: text_or_empty(identity.brand),
        serial_number: text_or_empty(identity.device_uuid),
        max_audio_quality: "HIRES_L3",
    }
}

/// The answer to a request of the pairing app.
pub enum PairingReply {
    DisplayInfo,
    ConnectInfo { current_session_id: String, app_id: String },
    /// The tokens are stored and a takeover is to start. These texts must not
    /// reach a log.
    Accepted { secrets: Vec<String> },
    Refused(String),
    NotFound,
}

impl PairingReply {
    /// The status that goes with an answer.
    pub open spec fn status_code(self) -> u16 {
        match self {
            PairingReply::DisplayInfo => 200,
            PairingReply::ConnectInfo { .. } => 200,
            PairingReply::Accepted { .. } => 200,
            PairingReply::Refused(_) => 400,
            PairingReply::NotFound => 404,
        }
    }

    pub fn status(&self) -> (r: u16)
        ensures
            r == self.status_code(),
    {
        match self {
            PairingReply::DisplayInfo => 200,
            PairingReply::ConnectInfo { .. } => 200,
            PairingReply::Accepted { .. } => 200,
            PairingReply::Refused(_) => 400,
            PairingReply::NotFound => 404,
        }
    }
}

/// Every secret of the tokens is among `secrets`, and nothing else is.
pub open spec fn names_secrets(tokens: PairingTokens, secrets: Seq<String>) -> bool {
    match tokens.api_jwt {
        Some(api_jwt) => secrets.len() == 2 && secrets[0]@ == tokens.ws_jwt@ && secrets[1]@
            == api_jwt@,
        None => secrets.len() == 1 && secrets[0]@ == tokens.ws_jwt@,
    }
}

/// Take a handoff: store its tokens, or say why it is refused.
pub fn take_handoff(store: &mut PairingStore, handoff: Result<PairingTokens, String>) -> (r:
    PairingReply)
    ensures
        match handoff {
            Ok(tokens) => {
                &&& final(store).tokens == Some(tokens)
                &&& r matches PairingReply::Accepted { secrets } && names_secrets(tokens, secrets@)
            },
            Err(why) => {
                &&& final(store).tokens == old(store).tokens
                &&& r == PairingReply::Refused(why)
            },
        },
{
    match handoff {
        Ok(tokens) => {
            let mut secrets: Vec<String> = Vec::new();
            secrets.push(tokens.ws_jwt.clone());
            if let Some(api_jwt) = &tokens.api_jwt {
                secrets.push(api_jwt.clone());
            }
            store.tokens = Some(tokens);
            PairingReply::Accepted { secrets }
        },
        Err(why) => PairingReply::Refused(why),
    }
}

/// Answer a request of the pairing app.
pub fn handle(
    store: &mut PairingStore,
    method: RequestMethod,
    url: &str,
    body: &str,
    app_id: Option<String>,
    now: u64,
) -> (r: PairingReply)
    ensures
        match routed(method, url@) {
            PairingRoute::DisplayInfo => {
                &&& r is DisplayInfo
                &&& final(store).tokens == old(store).tokens
            },
            PairingRoute::ConnectInfo => {
                let live = old(store).tokens matches Some(tokens) && tokens.is_live(now);
                &&& r matches PairingReply::ConnectInfo { current_session_id, app_id: shown }
                    && shown@ == or_empty(app_id) && current_session_id@ == (if live {
                    old(store).tokens->0.session_id@
                } else {
                    Seq::empty()
                })
                &&& final(store).tokens == (if live {
                    old(store).tokens
                } else {
                    None
                })
            },
            PairingRoute::Connect => match crate::json::json_document(body@) {
                None => {
                    &&& r matches PairingReply::Refused(why) && why@ == "missing jwt_qconnect"@
                    &&& final(store).tokens == old(store).tokens
                },
                Some(document) => exists|fields: HandoffFields|
                    {
                        &&& #[trigger] carries(document, fields)
                        &&& match fields.refusal(now) {
                            Some(message) => {
                                &&& r matches PairingReply::Refused(why) && why@ == message
                                &&& final(store).tokens == old(store).tokens
                            },
                            None => {
                                &&& final(store).tokens matches Some(tokens) && fields.hands_over(
                                    tokens,
                                ) && tokens.is_live(now)
                                &&& r matches PairingReply::Accepted { secrets } && names_secrets(
                                    final(store).tokens->0,
                                    secrets@,
                                )
                            },
                        }
                    },
            },
            PairingRoute::NotFound => {
                &&& r is NotFound
                &&& final(store).tokens == old(store).tokens
            },
        },
{
    match route(method, url) {
        PairingRoute::DisplayInfo => PairingReply::DisplayInfo,
        PairingRoute::ConnectInfo => {
            let current_session_id = match valid_ws_tokens(store, now) {
                Some(tokens) => tokens.session_id,
                None => String::new(),
            };
            PairingReply::ConnectInfo { current_session_id, app_id: text_or_empty(app_id) }
        },
        PairingRoute::Connect => {
            let handoff = parse_connect_body(body, now);
            take_handoff(store, handoff)
        },
        PairingRoute::NotFound => PairingReply::NotFound,
    }
}

/// Which token is refreshed.
#[derive(Debug, Clone, Copy, PartialEq, Eq, Structural)]
pub enum TokenKind {
    Api,
    Ws,
}

/// A renewed token, as the service hands it out.
pub struct RefreshedToken {
    pub jwt: String,
    pub exp: u64,
    pub endpoint: Option<String>,
}

/// Why a refresh brought nothing.
#[derive(Debug, Clone, Copy, PartialEq, Eq, Structural)]
pub enum RefreshError {
    /// The request did not go out, or its reply did not come.
    Request,
    Status(u16),
    /// The reply is no JSON.
    Decode,
    /// The reply has no token of this kind.
    Missing(TokenKind),
}

impl TokenKind {
    /// What a request asks for a token of this kind by.
    pub fn name(self) -> (r: &'static str)
        ensures
            "/"@ + r@ == token_place(self),
    {
        proof {
            reveal_strlit("/");
            reveal_strlit("jwt_api");
            reveal_strlit("/jwt_api");
            reveal_strlit("jwt_qws");
            reveal_strlit("/jwt_qws");
            assert("/"@ + "jwt_api"@ =~= "/jwt_api"@);
            assert("/"@ + "jwt_qws"@ =~= "/jwt_qws"@);
        }
        match self {
            TokenKind::Api => "jwt_api",
            TokenKind::Ws => "jwt_qws",
        }
    }
}

/// Where a reply holds the token of a kind.
pub open spec fn token_place(kind: TokenKind) -> Seq<char> {
    match kind {
        TokenKind::Api => "/jwt_api"@,
        TokenKind::Ws => "/jwt_qws"@,
    }
}

/// `token` is what `document` holds for the kind.
pub open spec fn brings(document: serde_json::Value, kind: TokenKind, token: RefreshedToken)
    -> bool {
    let at = token_place(kind);
    &&& token.jwt@ == (match crate::json::opt_text(document, at + "/jwt"@) {
        Some(jwt) => jwt,
        None => Seq::empty(),
    })
    &&& token.exp == or_zero(crate::json::opt_unsigned(document, at + "/exp"@))
    &&& opt_chars(token.endpoint) == crate::json::opt_text(document, at + "/endpoint"@)
}

fn place_in(kind: TokenKind, field: &str) -> (r: String)
    ensures
        r@ == token_place(kind) + field@,
{
    let mut place = match kind {
        TokenKind::Api => String::from_str("/jwt_api"),
        TokenKind::Ws => String::from_str("/jwt_qws"),
    };
    place.append(field);
    place
}

/// Read the reply to a refresh.
pub fn read_refresh(status: u16, body: &str, kind: TokenKind) -> (r: Result<
    RefreshedToken,
    RefreshError,
>)
    ensures
        if !crate::remote_stream::success_status(status) {
            r == Err::<RefreshedToken, RefreshError>(RefreshError::Status(status))
        } else {
            match crate::json::json_document(body@) {
                None => r == Err::<RefreshedToken, RefreshError>(RefreshError::Decode),
                Some(document) => if crate::json::json_places(document).contains(
                    token_place(kind),
                ) {
                    r matches Ok(token) && brings(document, kind, token)
                } else {
                    r == Err::<RefreshedToken, RefreshError>(RefreshError::Missing(kind))
                },
            }
        },
{
    if !is_success_status(status) {
        return Err(RefreshError::Status(status));
    }
    let document = match parse_json(body) {
        Some(document) => document,
        None => return Err(RefreshError::Decode),
    };
    let here = place_in(kind, "");
    proof {
        reveal_strlit("");
        assert(token_place(kind) + ""@ =~= token_place(kind));
    }
    if !holds_place(&document, here.as_str()) {
        return Err(RefreshError::Missing(kind));
    }
    let jwt = match text_at(&document, place_in(kind, "/jwt").as_str()) {
        Some(jwt) => jwt,
        None => String::new(),
    };
    let exp: u64 = match unsigned_at(&document, place_in(kind, "/exp").as_str()) {
        Some(exp) => exp,
        None => 0,
    };
    let endpoint = text_at(&document, place_in(kind, "/endpoint").as_str());
    Ok(RefreshedToken { jwt, exp, endpoint })
}

/// The token expires, and soon.
pub open spec fn is_due(exp: u64, now: u64) -> bool {
    exp != 0 && exp <= now + REFRESH_LEAD_SECS
}

fn due(exp: u64, now: u64) -> (r: bool)
    ensures
        r == is_due(exp, now),
{
    exp != 0 && exp as u128 <= now as u128 + REFRESH_LEAD_SECS as u128
}

/// A refresh of the stored tokens on its way.
pub struct RefreshRun {
    /// The credential that the refresh itself is authorized with.
    pub bearer: String,
    pub current: TokenKind,
    /// The connection token is to be refreshed as well.
    pub ws_due: bool,
}

/// The outcome of one step of a refresh.
pub struct RefreshStep {
    /// The token to ask for next; none when the refresh is over.
    pub next: Option<TokenKind>,
    /// The new token of the service client, if it changed.
    pub new_bearer: Option<String>,
}

/// Start a refresh, if one of the stored tokens expires soon and there is a
/// credential to renew it with.
pub fn refresh_if_needed(store: &PairingStore, now: u64) -> (r: Option<RefreshRun>)
    ensures
        match store.tokens {
            None => r is None,
            Some(tokens) => {
                let api_due = tokens.api_jwt is Some && is_due(tokens.api_exp, now);
                let ws_due = is_due(tokens.ws_exp, now);
                if tokens.api_jwt is None || !(api_due || ws_due) {
                    r is None
                } else {
                    r matches Some(run) && run.bearer@ == tokens.api_jwt->0@ && run.ws_due
                        == ws_due && run.current == (if api_due {
                        TokenKind::Api
                    } else {
                        TokenKind::Ws
                    })
                }
            },
        },
{
    match &store.tokens {
        None => None,
        Some(tokens) => {
            let ws_due = due(tokens.ws_exp, now);
            match &tokens.api_jwt {
                None => None,
                Some(jwt) => {
                    let api_due = due(tokens.api_exp, now);
                    if !api_due && !ws_due {
                        return None;
                    }
                    let current = if api_due {
                        TokenKind::Api
                    } else {
                        TokenKind::Ws
                    };
                    Some(RefreshRun { bearer: jwt.clone(), current, ws_due })
                },
            }
        },
    }
}

/// `after` is `before` with a renewed token in place of the old one of its
/// kind. A token without text renews nothing, and an endpoint stays unless a
/// new one came.
pub open spec fn renewed(
    before: Option<PairingTokens>,
    after: Option<PairingTokens>,
    kind: TokenKind,
    token: RefreshedToken,
) -> bool {
    if token.jwt@.len() == 0 {
        after == before
    } else {
        match before {
            None => after is None,
            Some(old_tokens) => after matches Some(new_tokens) && match kind {
                TokenKind::Api => {
                    &&& opt_chars(new_tokens.api_jwt) == Some(token.jwt@)
                    &&& new_tokens == (PairingTokens {
                        api_jwt: new_tokens.api_jwt,
                        api_exp: token.exp,
                        ..old_tokens
                    })
                },
                TokenKind::Ws => {
                    &&& new_tokens.ws_jwt@ == token.jwt@
                    &&& new_tokens.ws_endpoint@ == (match token.endpoint {
                        Some(endpoint) => endpoint@,
                        None => old_tokens.ws_endpoint@,
                    })
                    &&& new_tokens == (PairingTokens {
                        ws_jwt: new_tokens.ws_jwt,
                        ws_exp: token.exp,
                        ws_endpoint: new_tokens.ws_endpoint,
                        ..old_tokens
                    })
                },
            },
        }
    }
}

impl RefreshRun {
    /// Take in what a refresh came to. A renewed service token authorizes the
    /// refresh of the connection token that follows; a failed refresh changes
    /// nothing and does not stop it.
    pub fn step(&mut self, store: &mut PairingStore, result: Result<RefreshedToken, RefreshError>)
        -> (r: RefreshStep)
        ensures
            final(self).ws_due == old(self).ws_due,
            r.next == (if old(self).current == TokenKind::Api && old(self).ws_due {
                Some(TokenKind::Ws)
            } else {
                None
            }),
            r.next is Some ==> final(self).current == TokenKind::Ws,
            match result {
                Err(_) => {
                    &&& final(store).tokens == old(store).tokens
                    &&& r.new_bearer is None
                    &&& final(self).bearer@ == old(self).bearer@
                },
                Ok(token) => {
                    let fresh = old(self).current == TokenKind::Api && token.jwt@.len() > 0;
                    &&& renewed(
                        old(store).tokens,
                        final(store).tokens,
                        old(self).current,
                        token,
                    )
                    &&& opt_chars(r.new_bearer) == (if fresh {
                        Some(token.jwt@)
                    } else {
                        None
                    })
                    &&& final(self).bearer@ == (if fresh {
                        token.jwt@
                    } else {
                        old(self).bearer@
                    })
                },
            },
    {
        let kind = self.current;
        let mut new_bearer: Option<String> = None;
        if let Ok(token) = result {
            if !token.jwt.as_str().is_empty() {
                match kind {
                    TokenKind::Api => {
                        self.bearer = token.jwt.clone();
                        new_bearer = Some(token.jwt.clone());
                        if let Some(tokens) = &store.tokens {
                            let mut changed = tokens.copy();
                            changed.api_jwt = Some(token.jwt);
                            changed.api_exp = token.exp;
                            store.tokens = Some(changed);
                        }
                    },
                    TokenKind::Ws => {
                        if let Some(tokens) = &store.tokens {
                            let mut changed = tokens.copy();
                            changed.ws_jwt = token.jwt;
                            changed.ws_exp = token.exp;
                            if let Some(endpoint) = token.endpoint {
                                changed.ws_endpoint = endpoint;
                            }
                            store.tokens = Some(changed);
                        }
                    },
                }
            }
        }
        let again = self.ws_due && match kind {
            TokenKind::Api => true,
            TokenKind::Ws => false,
        };
        if again {
            self.current = TokenKind::Ws;
            RefreshStep { next: Some(TokenKind::Ws), new_bearer }
        } else {
            RefreshStep { next: None, new_bearer }
        }
    }
}

} // verus!
