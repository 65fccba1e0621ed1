//! What holds of pairing, call by call.

use vstd::prelude::*;
use vstd::string::*;

use crate::pairing::{
    accept_handoff, advertise, display_info, handle, parse_connect_body, read_refresh,
    refresh_if_needed, route, sanitize_instance_name, take_handoff, transport_config_from,
    valid_ws_tokens, Advertisement, DeviceIdentity, DisplayInfo, HandoffFields, PairingReply,
    PairingRoute, PairingStore, PairingTokens, RefreshError, RefreshRun, RefreshStep,
    RefreshedToken, RequestMethod, TokenKind, TransportConfig,
};

verus! {

/// A connection token is live where it never expires, or expires more than a minute
/// from now.
pub proof fn law_a_token_is_live_a_minute_ahead(tokens: &PairingTokens, now: u64, r: bool)
    requires
        call_ensures(PairingTokens::ws_token_live, (tokens, now), r),
    ensures
        r <==> tokens.ws_exp == 0 || tokens.ws_exp > now + 60,
{
}

/// The stored tokens are given out while they are live, and are forgotten once they are
/// not.
pub proof fn law_expired_tokens_are_forgotten(
    store: &mut PairingStore,
    now: u64,
    r: Option<PairingTokens>,
)
    requires
        call_ensures(valid_ws_tokens, (store, now), r),
    ensures
        r is Some <==> old(store).tokens is Some && ((old(store).tokens->0).ws_exp == 0 || (old(store).tokens->0).ws_exp > now + 60),
        r is Some ==> r == old(store).tokens,
        final(store).tokens == r,
{
}

/// A copy of tokens is the tokens, and a connection is made with them: to their
/// endpoint, with their token, which is required, on the three channels, and tried again
/// every minute.
pub proof fn law_a_connection_is_made_with_the_tokens(
    tokens: &PairingTokens,
    copy: PairingTokens,
    r: TransportConfig,
)
    requires
        call_ensures(PairingTokens::copy, (tokens,), copy),
        call_ensures(transport_config_from, (tokens,), r),
    ensures
        copy == *tokens,
        r.endpoint_url@ == tokens.ws_endpoint@,
        r.jwt_qws is Some,
        r.jwt_qws->0@ == tokens.ws_jwt@,
        r.require_jwt,
        r.reconnect_idle_retry_ms == 60000,
        r.subscribe_channels@.len() == 3,
        r.subscribe_channels@[0]@ == seq![1u8],
        r.subscribe_channels@[1]@ == seq![2u8],
        r.subscribe_channels@[2]@ == seq![3u8],
{
}

/// The log text of tokens names the session, the endpoint and the times of expiry, and
/// whether there is an account token; it shows neither token.
pub proof fn law_the_log_text_names_all_but_the_tokens(
    tokens: &PairingTokens,
    session: &str,
    endpoint: &str,
    r: String,
)
    requires
        call_ensures(PairingTokens::redact, (tokens, session, endpoint), r),
    ensures
        tokens.api_jwt is Some ==> r@ == "PairingTokens { session_id: "@ + session@
            + ", ws_jwt: \"<redacted>\", ws_exp: "@ + crate::text::decimal(tokens.ws_exp as nat)
            + ", ws_endpoint: "@ + endpoint@ + ", api_jwt: Some(\"<redacted>\")"@ + ", api_exp: "@
            + crate::text::decimal(tokens.api_exp as nat) + " }"@,
        tokens.api_jwt is None ==> r@ == "PairingTokens { session_id: "@ + session@
            + ", ws_jwt: \"<redacted>\", ws_exp: "@ + crate::text::decimal(tokens.ws_exp as nat)
            + ", ws_endpoint: "@ + endpoint@ + ", api_jwt: None"@ + ", api_exp: "@
            + crate::text::decimal(tokens.api_exp as nat) + " }"@,
{
}

/// The text is there and holds more than white space.
pub open spec fn says_something(text: Option<String>) -> bool {
    text is Some && crate::text::trimmed(text->0@).len() > 0
}

/// A handoff is taken where it has a connection token, with a text and an endpoint, that
/// is not about to expire; else it says what is missing, the first of these. What is
/// taken is what was handed over, an account token only where it says something.
pub proof fn law_a_handoff_is_taken_whole(
    fields: HandoffFields,
    now: u64,
    r: Result<PairingTokens, String>,
)
    requires
        call_ensures(accept_handoff, (fields, now), r),
    ensures
        ({
            let exp: int = if fields.ws_exp is Some {
                fields.ws_exp->0 as int
            } else {
                0
            };
            let late = exp != 0 && exp <= now + 60;
            let jwt = says_something(fields.ws_jwt);
            let endpoint = says_something(fields.ws_endpoint);
            &&& r is Ok <==> fields.has_ws && jwt && endpoint && !late
            &&& !fields.has_ws ==> r->Err_0@ == "missing jwt_qconnect"@
            &&& fields.has_ws && !jwt ==> r->Err_0@ == "missing jwt_qconnect.jwt"@
            &&& fields.has_ws && jwt && !endpoint ==> r->Err_0@ == "missing jwt_qconnect.endpoint"@
            &&& fields.has_ws && jwt && endpoint && late ==> r->Err_0@
                == "jwt_qconnect is already expired"@
            &&& r is Ok ==> {
                let tokens = r->Ok_0;
                &&& tokens.ws_jwt@ == fields.ws_jwt->0@
                &&& tokens.ws_endpoint@ == fields.ws_endpoint->0@
                &&& tokens.ws_exp == exp
                &&& fields.session_id is Some ==> tokens.session_id@ == fields.session_id->0@
                &&& fields.session_id is None ==> tokens.session_id@.len() == 0
                &&& tokens.api_jwt is Some <==> says_something(fields.api_jwt)
                &&& tokens.api_jwt is Some ==> tokens.api_jwt->0@ == fields.api_jwt->0@
                &&& fields.api_exp is Some ==> tokens.api_exp == fields.api_exp->0
                &&& fields.api_exp is None ==> tokens.api_exp == 0
            }
        }),
{
    match r {
        Ok(tokens) => {
            assert(fields.refusal(now) is None);
        },
        Err(why) => {},
    }
}

/// A handoff is read from the document in its body, each field at its own place. One
/// that is no document lacks its connection token.
pub proof fn law_a_handoff_is_read_from_its_body(
    body: &str,
    now: u64,
    r: Result<PairingTokens, String>,
)
    requires
        call_ensures(parse_connect_body, (body, now), r),
    ensures
        crate::json::json_document(body@) is None ==> r is Err && r->Err_0@
            == "missing jwt_qconnect"@,
        crate::json::json_document(body@) is Some ==> {
            let document = crate::json::json_document(body@)->0;
            let texts = crate::json::json_texts(document);
            let numbers = crate::json::json_unsigned(document);
            &&& r is Ok ==> {
                let tokens = r->Ok_0;
                &&& crate::json::json_places(document).contains("/jwt_qconnect"@)
                &&& texts.contains_key("/jwt_qconnect/jwt"@) && tokens.ws_jwt@
                    == texts["/jwt_qconnect/jwt"@]
                &&& texts.contains_key("/jwt_qconnect/endpoint"@) && tokens.ws_endpoint@
                    == texts["/jwt_qconnect/endpoint"@]
                &&& texts.contains_key("/session_id"@) ==> tokens.session_id@
                    == texts["/session_id"@]
                &&& !texts.contains_key("/session_id"@) ==> tokens.session_id@.len() == 0
                &&& numbers.contains_key("/jwt_qconnect/exp"@) ==> tokens.ws_exp
                    == numbers["/jwt_qconnect/exp"@]
                &&& !numbers.contains_key("/jwt_qconnect/exp"@) ==> tokens.ws_exp == 0
                &&& tokens.api_jwt is Some <==> texts.contains_key("/jwt_api/jwt"@)
                    && crate::text::trimmed(texts["/jwt_api/jwt"@]).len() > 0
                &&& tokens.api_jwt is Some ==> tokens.api_jwt->0@ == texts["/jwt_api/jwt"@]
                &&& numbers.contains_key("/jwt_api/exp"@) ==> tokens.api_exp
                    == numbers["/jwt_api/exp"@]
                &&& !numbers.contains_key("/jwt_api/exp"@) ==> tokens.api_exp == 0
                &&& tokens.ws_exp == 0 || tokens.ws_exp > now + 60
            }
            &&& !crate::json::json_places(document).contains("/jwt_qconnect"@) ==> r is Err
                && r->Err_0@ == "missing jwt_qconnect"@
            &&& crate::json::json_places(document).contains("/jwt_qconnect"@)
                && texts.contains_key("/jwt_qconnect/jwt"@) && crate::text::trimmed(
                texts["/jwt_qconnect/jwt"@],
            ).len() > 0 && texts.contains_key("/jwt_qconnect/endpoint"@) && crate::text::trimmed(
                texts["/jwt_qconnect/endpoint"@],
            ).len() > 0 && (!numbers.contains_key("/jwt_qconnect/exp"@)
                || numbers["/jwt_qconnect/exp"@] == 0 || numbers["/jwt_qconnect/exp"@] > now + 60)
                ==> r is Ok
        },
{
    if crate::json::json_document(body@) is Some {
        let document = crate::json::json_document(body@)->0;
        let fields = choose|fields: HandoffFields|
            {
                &&& #[trigger] crate::pairing::carries(document, fields)
                &&& match fields.refusal(now) {
                    Some(why) => r matches Err(message) && message@ == why,
                    None => r matches Ok(tokens) && fields.hands_over(tokens) && tokens.is_live(
                        now,
                    ),
                }
            };
        assert(crate::pairing::carries(document, fields));
    }
}

/// `url` leads to `path`: it is the path, or the path with a query behind it.
pub open spec fn leads_to(url: Seq<char>, path: Seq<char>) -> bool {
    url == path || exists|query: Seq<char>| #[trigger] has_query(url, path, query)
}

/// `url` is `path` with this query.
pub open spec fn has_query(url: Seq<char>, path: Seq<char>, query: Seq<char>) -> bool {
    url == path + seq!['?'] + query
}

proof fn lemma_path(url: Seq<char>, path: Seq<char>)
    requires
        !path.contains('?'),
    ensures
        crate::pairing::path_part(url) == path <==> leads_to(url, path),
    decreases url.len(),
{
    let part = crate::pairing::path_part(url);
    if url.len() == 0 || url[0] == '?' {
        if path.len() == 0 {
            if url.len() > 0 {
                assert(url =~= path + seq!['?'] + url.drop_first());
                assert(has_query(url, path, url.drop_first()));
            } else {
                assert(url =~= path);
            }
            assert(part =~= path);
        } else {
            if url == path {
                assert(path[0] == '?');
            }
            assert forall|query: Seq<char>| !(#[trigger] has_query(url, path, query)) by {
                if has_query(url, path, query) {
                    assert(url[0] == path[0]);
                    assert(path.contains(path[0]));
                }
            }
        }
    } else {
        let rest = url.drop_first();
        let inner = crate::pairing::path_part(rest);
        assert(part == seq![url[0]] + inner);
        if path.len() == 0 {
            assert(part.len() > 0);
            assert forall|query: Seq<char>| !(#[trigger] has_query(url, path, query)) by {
                if has_query(url, path, query) {
                    assert(url[0] == '?');
                }
            }
        } else {
            let tail = path.drop_first();
            assert(!tail.contains('?')) by {
                if tail.contains('?') {
                    let k = choose|k: int| 0 <= k < tail.len() && tail[k] == '?';
                    assert(path[k + 1] == '?');
                }
            }
            lemma_path(rest, tail);
            if part == path {
                assert(inner =~= part.drop_first());
                assert(inner =~= tail);
                assert(url[0] == path[0]);
                if rest == tail {
                    assert(url =~= path);
                } else {
                    let query = choose|query: Seq<char>| #[trigger] has_query(rest, tail, query);
                    assert(url =~= seq![url[0]] + rest);
                    assert(path =~= seq![path[0]] + tail);
                    assert(seq![url[0]] + (tail + seq!['?'] + query) =~= path + seq!['?'] + query);
                    assert(has_query(url, path, query));
                }
            }
            if leads_to(url, path) {
                if url == path {
                    assert(rest == tail);
                } else {
                    let query = choose|query: Seq<char>| #[trigger] has_query(url, path, query);
                    assert(url[0] == path[0]);
                    assert(rest =~= tail + seq!['?'] + query);
                    assert(has_query(rest, tail, query));
                }
                assert(part =~= path);
            }
        }
    }
}

/// The three addresses are found by their path and method, whatever query follows; any
/// other request is not found.
pub proof fn law_a_request_is_routed_by_its_path(method: RequestMethod, url: &str, r: PairingRoute)
    requires
        call_ensures(route, (method, url), r),
    ensures
        r is DisplayInfo <==> method == RequestMethod::Get && leads_to(
            url@,
            "/streamcore/get-display-info"@,
        ),
        r is ConnectInfo <==> method == RequestMethod::Get && leads_to(
            url@,
            "/streamcore/get-connect-info"@,
        ),
        r is Connect <==> method == RequestMethod::Post && leads_to(
            url@,
            "/streamcore/connect-to-qconnect"@,
        ),
{
    reveal_strlit("/streamcore/get-display-info");
    reveal_strlit("/streamcore/get-connect-info");
    reveal_strlit("/streamcore/connect-to-qconnect");
    assert("/streamcore/get-display-info"@[16] == 'd');
    assert("/streamcore/get-connect-info"@[16] == 'c');
    lemma_path(url@, "/streamcore/get-display-info"@);
    lemma_path(url@, "/streamcore/get-connect-info"@);
    lemma_path(url@, "/streamcore/connect-to-qconnect"@);
}

/// What is displayed is what the device is known by, empty where it is not known.
pub proof fn law_a_device_shows_what_it_is(identity: DeviceIdentity, r: DisplayInfo)
    requires
        call_ensures(display_info, (identity,), r),
    ensures
        r.kind@ == "SPEAKER"@,
        r.max_audio_quality@ == "HIRES_L3"@,
        identity.friendly_name is Some ==> r.friendly_name@ == identity.friendly_name->0@,
        identity.friendly_name is None ==> r.friendly_name@.len() == 0,
        identity.model is Some ==> r.model_display_name@ == identity.model->0@,
        identity.model is None ==> r.model_display_name@.len() == 0,
        identity.brand is Some ==> r.brand_display_name@ == identity.brand->0@,
        identity.brand is None ==> r.brand_display_name@.len() == 0,
        identity.device_uuid is Some ==> r.serial_number@ == identity.device_uuid->0@,
        identity.device_uuid is None ==> r.serial_number@.len() == 0,
{
}

/// A refused request is a bad one, an unknown address is not found, and all else is
/// answered well.
pub proof fn law_a_reply_has_its_status(reply: &PairingReply, r: u16)
    requires
        call_ensures(PairingReply::status, (reply,), r),
    ensures
        r == 400 <==> *reply is Refused,
        r == 404 <==> *reply is NotFound,
        r == 200 <==> !(*reply is Refused) && !(*reply is NotFound),
{
}

/// A handoff that is good is stored in place of what was there, and its tokens are named
/// as secrets; one that is not leaves the store as it is and is refused with its words.
pub proof fn law_a_good_handoff_is_stored(
    store: &mut PairingStore,
    handoff: Result<PairingTokens, String>,
    r: PairingReply,
)
    requires
        call_ensures(take_handoff, (store, handoff), r),
    ensures
        handoff is Ok ==> final(store).tokens == Some(handoff->Ok_0) && r is Accepted
            && r->secrets@.len() >= 1 && r->secrets@[0]@ == (handoff->Ok_0).ws_jwt@,
        handoff is Ok && (handoff->Ok_0).api_jwt is Some ==> r->secrets@.len() == 2
            && r->secrets@[1]@ == (handoff->Ok_0).api_jwt->0@,
        handoff is Ok && (handoff->Ok_0).api_jwt is None ==> r->secrets@.len() == 1,
        handoff is Err ==> final(store).tokens == old(store).tokens && r == PairingReply::Refused(
            handoff->Err_0,
        ),
{
}

/// A request is answered by its address: the display information changes nothing, the
/// connection information forgets tokens that have expired and names the session of live
/// ones, an unknown address changes nothing.
pub proof fn law_a_request_is_answered_by_its_address(
    store: &mut PairingStore,
    method: RequestMethod,
    url: &str,
    body: &str,
    app_id: Option<String>,
    now: u64,
    r: PairingReply,
    to: PairingRoute,
)
    requires
        call_ensures(handle, (store, method, url, body, app_id, now), r),
        call_ensures(route, (method, url), to),
    ensures
        to is DisplayInfo <==> r is DisplayInfo,
        to is NotFound <==> r is NotFound,
        to is ConnectInfo <==> r is ConnectInfo,
        to is Connect <==> r is Accepted || r is Refused,
        to is DisplayInfo || to is NotFound ==> final(store).tokens == old(store).tokens,
        to is ConnectInfo ==> {
            let live = old(store).tokens is Some && ((old(store).tokens->0).ws_exp == 0 || (old(store).tokens->0).ws_exp > now + 60);
            &&& live ==> r->current_session_id@ == (old(store).tokens->0).session_id@ && final(store).tokens == old(store).tokens
            &&& !live ==> r->current_session_id@.len() == 0 && final(store).tokens is None
            &&& app_id is Some ==> r->app_id@ == app_id->0@
            &&& app_id is None ==> r->app_id@.len() == 0
        },
{
}

/// A request to connect is taken as its body says: where the body hands over tokens they
/// are stored and named as secrets, and where it does not the store stays and the reply
/// says why.
pub proof fn law_a_connect_request_is_taken_as_its_body_says(
    store: &mut PairingStore,
    method: RequestMethod,
    url: &str,
    body: &str,
    app_id: Option<String>,
    now: u64,
    r: PairingReply,
    to: PairingRoute,
    parsed: Result<PairingTokens, String>,
)
    requires
        call_ensures(handle, (store, method, url, body, app_id, now), r),
        call_ensures(route, (method, url), to),
        to is Connect,
        call_ensures(parse_connect_body, (body, now), parsed),
    ensures
        r is Accepted <==> parsed is Ok,
        r is Refused ==> parsed is Err && r->Refused_0@ == parsed->Err_0@ && final(store).tokens
            == old(store).tokens,
        r is Accepted ==> {
            let tokens = final(store).tokens->0;
            &&& final(store).tokens is Some
            &&& tokens.ws_jwt@ == (parsed->Ok_0).ws_jwt@
            &&& tokens.ws_endpoint@ == (parsed->Ok_0).ws_endpoint@
            &&& tokens.ws_exp == (parsed->Ok_0).ws_exp
            &&& tokens.session_id@ == (parsed->Ok_0).session_id@
            &&& tokens.api_exp == (parsed->Ok_0).api_exp
            &&& tokens.api_jwt is Some <==> (parsed->Ok_0).api_jwt is Some
            &&& tokens.api_jwt is Some ==> tokens.api_jwt->0@ == (parsed->Ok_0).api_jwt->0@
            &&& r->secrets@[0]@ == tokens.ws_jwt@
            &&& tokens.api_jwt is Some ==> r->secrets@.len() == 2 && r->secrets@[1]@
                == tokens.api_jwt->0@
        },
{
    match crate::json::json_document(body@) {
        None => {},
        Some(document) => {
            let a = choose|fields: HandoffFields|
                {
                    &&& #[trigger] crate::pairing::carries(document, fields)
                    &&& match fields.refusal(now) {
                        Some(message) => {
                            &&& r matches PairingReply::Refused(why) && why@ == message
                            &&& final(store).tokens == old(store).tokens
                        },
                        None => {
                            &&& final(store).tokens matches Some(tokens) && fields.hands_over(
                                tokens,
                            ) && tokens.is_live(now)
                            &&& r matches PairingReply::Accepted { secrets }
                                && crate::pairing::names_secrets(final(store).tokens->0, secrets@)
                        },
                    }
                };
            let b = choose|fields: HandoffFields|
                {
                    &&& #[trigger] crate::pairing::carries(document, fields)
                    &&& match fields.refusal(now) {
                        Some(why) => parsed matches Err(message) && message@ == why,
                        None => parsed matches Ok(tokens) && fields.hands_over(tokens)
                            && tokens.is_live(now),
                    }
                };
            assert(crate::pairing::carries(document, a));
            assert(crate::pairing::carries(document, b));
            lemma_same_fields(document, a, b, now);
        },
    }
}

pub(crate) proof fn lemma_same_fields(
    document: serde_json::Value,
    a: HandoffFields,
    b: HandoffFields,
    now: u64,
)
    requires
        crate::pairing::carries(document, a),
        crate::pairing::carries(document, b),
    ensures
        a.refusal(now) == b.refusal(now),
        a.has_ws == b.has_ws,
        a.ws_exp == b.ws_exp,
        a.api_exp == b.api_exp,
        crate::pairing::opt_chars(a.ws_jwt) == crate::pairing::opt_chars(b.ws_jwt),
        crate::pairing::opt_chars(a.ws_endpoint) == crate::pairing::opt_chars(b.ws_endpoint),
        crate::pairing::opt_chars(a.api_jwt) == crate::pairing::opt_chars(b.api_jwt),
        crate::pairing::opt_chars(a.session_id) == crate::pairing::opt_chars(b.session_id),
{
}

/// A refreshed token is read from the place of its kind, where the answer is a success
/// and holds one; else the failure says what was wrong.
pub proof fn law_a_refreshed_token_is_read(
    status: u16,
    body: &str,
    kind: TokenKind,
    r: Result<RefreshedToken, RefreshError>,
)
    requires
        call_ensures(read_refresh, (status, body, kind), r),
    ensures
        !(200 <= status <= 299) ==> r == Err::<RefreshedToken, RefreshError>(
            RefreshError::Status(status),
        ),
        200 <= status <= 299 && crate::json::json_document(body@) is None ==> r == Err::<
            RefreshedToken,
            RefreshError,
        >(RefreshError::Decode),
        200 <= status <= 299 && crate::json::json_document(body@) is Some ==> {
            let document = crate::json::json_document(body@)->0;
            let at = if kind is Api {
                "/jwt_api"@
            } else {
                "/jwt_qws"@
            };
            let texts = crate::json::json_texts(document);
            let numbers = crate::json::json_unsigned(document);
            &&& r is Ok <==> crate::json::json_places(document).contains(at)
            &&& r is Err ==> r == Err::<RefreshedToken, RefreshError>(RefreshError::Missing(kind))
            &&& r is Ok ==> {
                &&& texts.contains_key(at + "/jwt"@) ==> (r->Ok_0).jwt@ == texts[at + "/jwt"@]
                &&& !texts.contains_key(at + "/jwt"@) ==> (r->Ok_0).jwt@.len() == 0
                &&& numbers.contains_key(at + "/exp"@) ==> (r->Ok_0).exp == numbers[at + "/exp"@]
                &&& !numbers.contains_key(at + "/exp"@) ==> (r->Ok_0).exp == 0
                &&& (r->Ok_0).endpoint is Some <==> texts.contains_key(at + "/endpoint"@)
                &&& (r->Ok_0).endpoint is Some ==> (r->Ok_0).endpoint->0@ == texts[at
                    + "/endpoint"@]
            }
        },
{
}

/// A token that expires within five minutes is refreshed where there is an account token
/// to do it with: the account token first, then the connection token where it is due.
pub proof fn law_a_token_is_refreshed_in_time(
    store: &PairingStore,
    now: u64,
    r: Option<RefreshRun>,
)
    requires
        call_ensures(refresh_if_needed, (store, now), r),
    ensures
        store.tokens is None ==> r is None,
        store.tokens is Some ==> {
            let tokens = store.tokens->0;
            let api_due = tokens.api_exp != 0 && tokens.api_exp <= now + 300;
            let ws_due = tokens.ws_exp != 0 && tokens.ws_exp <= now + 300;
            &&& r is Some <==> tokens.api_jwt is Some && (api_due || ws_due)
            &&& r is Some ==> (r->0).bearer@ == tokens.api_jwt->0@ && (r->0).ws_due == ws_due && ((
            r->0).current is Api <==> api_due)
        },
{
}

/// A step of a refresh puts the new token in place of the old one of its kind, and
/// nothing else; an empty token or a failure changes nothing. A new account token
/// authorizes what follows. The connection token follows the account token where it is
/// due.
pub proof fn law_a_refresh_renews_one_token(
    run: &mut RefreshRun,
    store: &mut PairingStore,
    result: Result<RefreshedToken, RefreshError>,
    r: RefreshStep,
)
    requires
        call_ensures(RefreshRun::step, (run, store, result), r),
    ensures
        r.next is Some <==> old(run).current is Api && old(run).ws_due,
        r.next is Some ==> r.next->0 is Ws && final(run).current is Ws,
        final(run).ws_due == old(run).ws_due,
        result is Err || (result->Ok_0).jwt@.len() == 0 ==> final(store).tokens == old(store).tokens
            && r.new_bearer is None && final(run).bearer@ == old(run).bearer@,
        result is Ok && (result->Ok_0).jwt@.len() > 0 && old(store).tokens is None ==> final(store).tokens is None,
        result is Ok && (result->Ok_0).jwt@.len() > 0 && old(run).current is Api ==> r.new_bearer is Some
            && r.new_bearer->0@ == (result->Ok_0).jwt@ && final(run).bearer@ == (
        result->Ok_0).jwt@,
        result is Ok && (result->Ok_0).jwt@.len() > 0 && old(run).current is Ws ==> r.new_bearer is None
            && final(run).bearer@ == old(run).bearer@,
        result is Ok && (result->Ok_0).jwt@.len() > 0 && old(store).tokens is Some ==> {
            let token = result->Ok_0;
            let before = old(store).tokens->0;
            let after = final(store).tokens->0;
            &&& final(store).tokens is Some
            &&& after.session_id == before.session_id
            &&& old(run).current is Api ==> after.api_jwt is Some && after.api_jwt->0@ == token.jwt@
                && after.api_exp == token.exp && after.ws_jwt == before.ws_jwt && after.ws_exp
                == before.ws_exp && after.ws_endpoint == before.ws_endpoint
            &&& old(run).current is Ws ==> after.ws_jwt@ == token.jwt@ && after.ws_exp == token.exp
                && after.api_jwt == before.api_jwt && after.api_exp == before.api_exp
            &&& old(run).current is Ws && token.endpoint is Some ==> after.ws_endpoint@
                == token.endpoint->0@
            &&& old(run).current is Ws && token.endpoint is None ==> after.ws_endpoint@
                == before.ws_endpoint@
        },
{
}

/// A device is advertised under its instance name, with its display name, its identifier
/// and the version.
pub proof fn law_a_device_is_advertised_under_its_name(
    name: &str,
    uuid: &str,
    version: &str,
    r: Advertisement,
    instance: String,
)
    requires
        call_ensures(advertise, (name, uuid, version), r),
        call_ensures(sanitize_instance_name, (name,), instance),
    ensures
        r.instance@ == instance@,
        r.host@ == instance@ + ".local."@,
        r.properties@.len() == 5,
        r.properties@[0].key@ == "path"@ && r.properties@[0].value@ == "/streamcore"@,
        r.properties@[1].key@ == "type"@ && r.properties@[1].value@ == "SPEAKER"@,
        r.properties@[2].key@ == "sdk_version"@ && r.properties@[2].value@ == version@,
        r.properties@[3].key@ == "Name"@ && r.properties@[3].value@ == name@,
        r.properties@[4].key@ == "device_uuid"@ && r.properties@[4].value@ == uuid@,
{
}

/// The sequence is empty or a single dash.
spec fn is_a_dash_or_nothing(s: Seq<char>) -> bool {
    s.len() == 0 || s == seq!['-']
}

proof fn lemma_shape(s: Seq<char>) -> (r: (Seq<char>, Seq<char>))
    requires
        crate::pairing::is_safe(s),
        crate::pairing::undashed(s).len() > 0,
    ensures
        is_a_dash_or_nothing(r.0),
        is_a_dash_or_nothing(r.1),
        s == r.0 + crate::pairing::undashed(s) + r.1,
{
    reveal_with_fuel(crate::pairing::undashed, 4);
    let none = Seq::<char>::empty();
    let dash = seq!['-'];
    if s[0] == '-' {
        let t = s.drop_first();
        assert(t.len() > 0);
        assert(s[0int + 1] != '-');
        assert(t[0] == s[1]);
        if t.last() == '-' {
            let u = t.drop_last();
            assert(u.len() > 0);
            assert(u.last() == s[s.len() - 2]);
            assert(s[s.len() - 2] != '-') by {
                if s[s.len() - 2] == '-' {
                    assert(s[(s.len() - 2) + 1] != '-');
                }
            }
            assert(u[0] == s[1]);
            assert(crate::pairing::undashed(s) == u);
            assert(s =~= dash + u + dash);
            (dash, dash)
        } else {
            assert(s =~= dash + t + none);
            (dash, none)
        }
    } else if s.last() == '-' {
        let t = s.drop_last();
        assert(t.len() > 0);
        assert(t[0] == s[0]);
        assert(t.last() == s[s.len() - 2]);
        assert(s[s.len() - 2] != '-') by {
            if s[s.len() - 2] == '-' {
                assert(s[(s.len() - 2) + 1] != '-');
            }
        }
        assert(s =~= none + t + dash);
        (none, dash)
    } else {
        assert(s =~= none + s + none);
        (none, none)
    }
}

proof fn lemma_strip_front(lead: Seq<char>, core: Seq<char>)
    requires
        is_a_dash_or_nothing(lead),
        core.len() > 0,
        core[0] != '-',
        core.last() != '-',
    ensures
        crate::pairing::undashed(lead + core) == core,
{
    reveal_with_fuel(crate::pairing::undashed, 3);
    if lead.len() == 0 {
        assert(lead + core =~= core);
    } else {
        assert((lead + core).drop_first() =~= core);
        assert((lead + core)[0] == '-');
    }
}

proof fn lemma_dashed_gap(front: Seq<char>, gap: Seq<char>)
    requires
        gap.len() > 0,
        forall|i: int| 0 <= i < gap.len() ==> !crate::pairing::is_kept(#[trigger] gap[i]),
    ensures
        ({
            let d = crate::pairing::dashed(front);
            crate::pairing::dashed(front + gap) == if d.len() > 0 && d.last() == '-' {
                d
            } else {
                d.push('-')
            }
        }),
    decreases gap.len(),
{
    let all = front + gap;
    let rest = gap.drop_last();
    assert(all.drop_last() =~= front + rest);
    assert(all.last() == gap.last());
    assert(!crate::pairing::is_kept(gap[gap.len() - 1]));
    if rest.len() > 0 {
        lemma_dashed_gap(front, rest);
    } else {
        assert(front + rest =~= front);
    }
}

/// An instance name is made letter by letter: a letter, a digit or an underscore joins
/// what is there, behind a single dash where anything else stands between; what stands
/// before the first or behind the last leaves no trace. A name without any is `QBZ`.
pub proof fn law_an_instance_name_is_made_letter_by_letter(
    front: &str,
    made: String,
    gap: Seq<char>,
    c: char,
    longer: &str,
    then: String,
)
    requires
        call_ensures(sanitize_instance_name, (front,), made),
        forall|i: int| 0 <= i < gap.len() ==> !crate::pairing::is_kept(#[trigger] gap[i]),
        crate::pairing::is_kept(c),
        longer@ == (front@ + gap).push(c),
        call_ensures(sanitize_instance_name, (longer,), then),
    ensures
        (forall|i: int| 0 <= i < front@.len() ==> !crate::pairing::is_kept(#[trigger] front@[i]))
            ==> made@ == "QBZ"@ && then@ == seq![c],
        gap.len() > 0 && (exists|i: int|
            0 <= i < front@.len() && crate::pairing::is_kept(#[trigger] front@[i])) ==> then@
            == made@ + seq!['-', c],
        gap.len() == 0 && front@.len() > 0 && crate::pairing::is_kept(front@.last()) ==> then@
            == made@.push(c),
{
    let f = front@;
    let d = crate::pairing::dashed(f);
    let l = longer@;
    assert(l.drop_last() =~= f + gap);
    let before = crate::pairing::dashed(f + gap);
    assert(crate::pairing::dashed(l) == before.push(c));
    assert(c != '-');
    if forall|i: int| 0 <= i < f.len() ==> !crate::pairing::is_kept(#[trigger] f[i]) {
        reveal_with_fuel(crate::pairing::undashed, 3);
        let none = Seq::<char>::empty();
        let all = f + gap;
        assert(none + all =~= all);
        assert(none + f =~= f);
        if f.len() > 0 {
            lemma_dashed_gap(none, f);
            assert(d =~= seq!['-']);
            assert(d.drop_first() =~= none);
        }
        if all.len() > 0 {
            assert forall|i: int| 0 <= i < all.len() implies !crate::pairing::is_kept(
                #[trigger] all[i],
            ) by {
                if i < f.len() {
                    assert(all[i] == f[i]);
                } else {
                    assert(all[i] == gap[i - f.len()]);
                }
            }
            lemma_dashed_gap(none, all);
            assert(before =~= seq!['-']);
        } else {
            assert(before =~= none);
        }
        assert(before.push(c) =~= before + seq![c]);
        lemma_strip_front(before, seq![c]);
    } else {
        let i = choose|i: int| 0 <= i < f.len() && crate::pairing::is_kept(#[trigger] f[i]);
        crate::pairing::law_an_instance_name_keeps_the_letters(f);
        f.lemma_filter_contains(|c: char| crate::pairing::is_kept(c), i);
        crate::pairing::lemma_dashed_is_safe(f);
        crate::pairing::lemma_undashed(d);
        let core = crate::pairing::undashed(d);
        lemma_core(f, i);
        let (lead, trail) = lemma_shape(d);
        if gap.len() > 0 {
            lemma_dashed_gap(f, gap);
            if trail.len() == 0 {
                assert(d.last() == core.last());
                assert(before =~= lead + core + seq!['-']);
            } else {
                assert(d.last() == '-');
                assert(before =~= lead + core + seq!['-']);
            }
            let next = core + seq!['-', c];
            assert(before.push(c) =~= lead + next);
            lemma_strip_front(lead, next);
        } else if crate::pairing::is_kept(f.last()) {
            assert(f + gap =~= f);
            assert(d.last() == f.last());
            if trail.len() > 0 {
                assert(d.last() == '-');
            }
            let next = core.push(c);
            assert(before.push(c) =~= lead + next);
            lemma_strip_front(lead, next);
        }
    }
}

proof fn lemma_core(f: Seq<char>, i: int)
    requires
        0 <= i < f.len(),
        crate::pairing::is_kept(f[i]),
    ensures
        crate::pairing::undashed(crate::pairing::dashed(f)).len() > 0,
{
    lemma_dashed_has(f, i);
    let d = crate::pairing::dashed(f);
    let k = choose|k: int| 0 <= k < d.len() && crate::pairing::is_kept(#[trigger] d[k]);
    lemma_undashed_has(d, k);
}

proof fn lemma_dashed_has(f: Seq<char>, i: int)
    requires
        0 <= i < f.len(),
        crate::pairing::is_kept(f[i]),
    ensures
        exists|k: int|
            0 <= k < crate::pairing::dashed(f).len() && crate::pairing::is_kept(
                #[trigger] crate::pairing::dashed(f)[k],
            ),
    decreases f.len(),
{
    let d = crate::pairing::dashed(f);
    if i == f.len() - 1 {
        assert(crate::pairing::is_kept(d[d.len() - 1]));
    } else {
        let before = f.drop_last();
        assert(before[i] == f[i]);
        lemma_dashed_has(before, i);
        let b = crate::pairing::dashed(before);
        let k = choose|k: int| 0 <= k < b.len() && crate::pairing::is_kept(#[trigger] b[k]);
        assert(d[k] == b[k]);
    }
}

proof fn lemma_undashed_has(s: Seq<char>, k: int)
    requires
        0 <= k < s.len(),
        s[k] != '-',
    ensures
        crate::pairing::undashed(s).len() > 0,
    decreases s.len(),
{
    if s[0] == '-' {
        assert(s.drop_first()[k - 1] == s[k]);
        lemma_undashed_has(s.drop_first(), k - 1);
    } else if s.last() == '-' {
        assert(s.drop_last()[k] == s[k]);
        lemma_undashed_has(s.drop_last(), k);
    }
}

/// Of the ASCII characters an instance name keeps the letters, the digits and the
/// underscore.
pub proof fn law_an_instance_name_keeps_ascii_words(c: char, name: &str, r: String)
    requires
        (c as u32) < 128,
        name@ == seq![c],
        call_ensures(sanitize_instance_name, (name,), r),
    ensures
        'a' <= c <= 'z' || 'A' <= c <= 'Z' || '0' <= c <= '9' || c == '_' ==> r@ == seq![c],
        !('a' <= c <= 'z' || 'A' <= c <= 'Z' || '0' <= c <= '9' || c == '_') ==> r@ == "QBZ"@,
{
    reveal_with_fuel(crate::pairing::undashed, 3);
    reveal_with_fuel(crate::pairing::dashed, 3);
    let none = Seq::<char>::empty();
    assert(name@.drop_last() =~= none);
    if crate::pairing::is_kept(c) {
        assert(crate::pairing::dashed(name@) =~= seq![c]);
    } else {
        assert(crate::pairing::dashed(name@) =~= seq!['-']);
        assert(seq!['-'].drop_first() =~= none);
    }
}

} // verus!
