use qbz::pairing::{
    accept_handoff, advertise, display_info, handle, parse_connect_body, parse_connect_request,
    read_refresh, refresh_if_needed, route, sanitize_instance_name, transport_config_from,
    valid_ws_tokens, DeviceIdentity, HandoffFields, PairingReply, PairingRoute, PairingStore, PairingTokens,
    RefreshError, RequestMethod, TokenKind, EXP_SLACK_SECS,
};
use serde_json::Value;

const NOW: u64 = 1_000_000;

fn ws_body(jwt: &str, exp: u64, endpoint: &str) -> String {
    format!(
        "{{\"session_id\":\"sess-1234\",\
          \"jwt_qconnect\":{{\"jwt\":\"{jwt}\",\"exp\":{exp},\"endpoint\":\"{endpoint}\"}},\
          \"jwt_api\":{{\"jwt\":\"api-jwt\",\"exp\":{exp}}}}}"
    )
}

fn json(text: &str) -> Value {
    serde_json::from_str(text).expect("valid JSON")
}

fn tokens(ws_exp: u64) -> PairingTokens {
    PairingTokens {
        session_id: "s".into(),
        ws_jwt: "jwt".into(),
        ws_exp,
        ws_endpoint: "wss://e".into(),
        api_jwt: None,
        api_exp: 0,
    }
}

fn refusal(result: Result<PairingTokens, String>) -> String {
    match result {
        Ok(_) => panic!("the handoff must be refused"),
        Err(why) => why,
    }
}

fn accepted(result: Result<PairingTokens, String>) -> PairingTokens {
    match result {
        Ok(tokens) => tokens,
        Err(why) => panic!("refused: {why}"),
    }
}

#[test]
fn parse_accepts_a_full_handoff() {
    let far_future = NOW + 3600;
    let body = json(&ws_body("ws-jwt", far_future, "wss://qws.example"));
    let tokens = accepted(parse_connect_request(&body, NOW));
    assert_eq!(tokens.session_id, "sess-1234");
    assert_eq!(tokens.ws_jwt, "ws-jwt");
    assert_eq!(tokens.ws_endpoint, "wss://qws.example");
    assert_eq!(tokens.api_jwt.as_deref(), Some("api-jwt"));
    assert_eq!(tokens.ws_exp, far_future);
    assert_eq!(tokens.api_exp, far_future);
}

#[test]
fn parse_rejects_missing_or_expired_ws_token() {
    assert!(parse_connect_request(&json("{}"), NOW).is_err());
    // No endpoint.
    assert!(
        parse_connect_request(&json("{\"jwt_qconnect\":{\"jwt\":\"x\",\"exp\":0}}"), NOW).is_err()
    );
    // Already expired (exp in the past) must be refused at the door.
    assert!(
        parse_connect_request(&json(&ws_body("ws-jwt", 1000, "wss://qws.example")), NOW).is_err()
    );
}

#[test]
fn parse_treats_missing_exp_as_non_expiring() {
    let body = json(
        "{\"session_id\":\"s\",\"jwt_qconnect\":{\"jwt\":\"ws-jwt\",\"endpoint\":\"wss://e\"}}",
    );
    let tokens = accepted(parse_connect_request(&body, NOW));
    assert_eq!(tokens.ws_exp, 0);
    assert!(tokens.ws_token_live(NOW));
    assert!(tokens.api_jwt.is_none());
}

#[test]
fn each_refusal_says_what_is_missing() {
    let parse = |text: &str| refusal(parse_connect_body(text, NOW));
    assert_eq!(parse("not json"), "missing jwt_qconnect");
    assert_eq!(parse("{}"), "missing jwt_qconnect");
    assert_eq!(parse("[1]"), "missing jwt_qconnect");
    assert_eq!(parse("{\"jwt_qconnect\":null}"), "missing jwt_qconnect.jwt");
    assert_eq!(
        parse("{\"jwt_qconnect\":{\"jwt\":\"  \",\"endpoint\":\"e\"}}"),
        "missing jwt_qconnect.jwt"
    );
    assert_eq!(
        parse("{\"jwt_qconnect\":{\"jwt\":\"x\",\"endpoint\":7}}"),
        "missing jwt_qconnect.endpoint"
    );
    assert_eq!(
        parse(&ws_body("x", NOW + EXP_SLACK_SECS, "e")),
        "jwt_qconnect is already expired"
    );
}

#[test]
fn blank_api_tokens_count_as_none() {
    let fields = HandoffFields {
        session_id: None,
        has_ws: true,
        ws_jwt: Some(" ws ".to_string()),
        ws_endpoint: Some("e".to_string()),
        ws_exp: None,
        api_jwt: Some(" \t".to_string()),
        api_exp: Some(9),
    };
    let tokens = accepted(accept_handoff(fields, NOW));
    assert_eq!(tokens.session_id, "");
    // What is kept is what came, white space and all.
    assert_eq!(tokens.ws_jwt, " ws ");
    assert_eq!(tokens.api_jwt, None);
    assert_eq!(tokens.api_exp, 9);
}

#[test]
fn ws_token_live_boundary_honors_the_slack() {
    // Strictly greater than now + slack is required: exactly at the slack edge
    // counts as expired.
    assert!(!tokens(NOW + EXP_SLACK_SECS).ws_token_live(NOW));
    assert!(tokens(NOW + EXP_SLACK_SECS + 1).ws_token_live(NOW));
    assert!(!tokens(u64::MAX).ws_token_live(u64::MAX));
}

#[test]
fn debug_never_prints_the_jwts() {
    let rendered = PairingTokens {
        session_id: "s".into(),
        ws_jwt: "SECRET-WS".into(),
        ws_exp: 0,
        ws_endpoint: "wss://e".into(),
        api_jwt: Some("SECRET-API".into()),
        api_exp: 0,
    }
    .debug_text();
    assert!(!rendered.contains("SECRET-WS"));
    assert!(!rendered.contains("SECRET-API"));
    assert_eq!(
        rendered,
        "PairingTokens { session_id: \"s\", ws_jwt: \"<redacted>\", ws_exp: 0, \
         ws_endpoint: \"wss://e\", api_jwt: Some(\"<redacted>\"), api_exp: 0 }"
    );
}

#[test]
fn store_drops_expired_tokens_on_read() {
    let mut store = PairingStore { tokens: Some(tokens(1)) };
    assert!(valid_ws_tokens(&mut store, NOW).is_none());
    assert!(store.tokens.is_none(), "expired entry must be cleared");

    let mut store = PairingStore { tokens: Some(tokens(0)) };
    assert_eq!(valid_ws_tokens(&mut store, NOW).map(|t| t.ws_jwt).as_deref(), Some("jwt"));
    assert!(store.tokens.is_some());
}

#[test]
fn transport_config_mirrors_the_hardened_defaults() {
    let config = transport_config_from(&tokens(0));
    assert_eq!(config.endpoint_url, "wss://e");
    assert_eq!(config.jwt_qws.as_deref(), Some("jwt"));
    assert!(config.require_jwt);
    assert_eq!(config.reconnect_idle_retry_ms, 60_000);
    assert_eq!(config.subscribe_channels, vec![vec![0x01], vec![0x02], vec![0x03]]);
}

#[test]
fn instance_name_is_mdns_safe() {
    assert_eq!(sanitize_instance_name("QBZ (studio-pi)"), "QBZ-studio-pi");
    assert_eq!(sanitize_instance_name("Living Room"), "Living-Room");
    assert_eq!(sanitize_instance_name("  ***  "), "QBZ");
}

#[test]
fn instance_names_keep_letters_of_any_script() {
    assert_eq!(sanitize_instance_name("Küche_2 –– 台所!"), "Küche_2-台所");
    assert_eq!(sanitize_instance_name("--a--b--"), "a-b");
    assert_eq!(sanitize_instance_name(""), "QBZ");
}

#[test]
fn requests_are_routed_by_method_and_path() {
    let get = RequestMethod::Get;
    let post = RequestMethod::Post;
    assert_eq!(route(get, "/streamcore/get-display-info"), PairingRoute::DisplayInfo);
    assert_eq!(route(get, "/streamcore/get-connect-info?a=b?c"), PairingRoute::ConnectInfo);
    assert_eq!(route(post, "/streamcore/connect-to-qconnect?"), PairingRoute::Connect);
    assert_eq!(route(post, "/streamcore/get-display-info"), PairingRoute::NotFound);
    assert_eq!(route(get, "/streamcore/connect-to-qconnect"), PairingRoute::NotFound);
    assert_eq!(route(RequestMethod::Other, "/streamcore/get-display-info"), PairingRoute::NotFound);
    assert_eq!(route(get, "?/streamcore/get-display-info"), PairingRoute::NotFound);
}

#[test]
fn a_handoff_is_stored_and_its_secrets_named() {
    let mut store = PairingStore { tokens: None };
    let body = ws_body("ws-jwt", NOW + 3600, "wss://e");
    let reply = handle(
        &mut store,
        RequestMethod::Post,
        "/streamcore/connect-to-qconnect",
        &body,
        None,
        NOW,
    );
    assert_eq!(reply.status(), 200);
    match reply {
        PairingReply::Accepted { secrets } => assert_eq!(secrets, ["ws-jwt", "api-jwt"]),
        _ => panic!("the handoff must be accepted"),
    }
    assert_eq!(store.tokens.as_ref().map(|t| t.ws_jwt.as_str()), Some("ws-jwt"));

    // The session shows while its token is live.
    let url = "/streamcore/get-connect-info";
    let app_id = Some("app-1".to_string());
    match handle(&mut store, RequestMethod::Get, url, "", app_id, NOW) {
        PairingReply::ConnectInfo { current_session_id, app_id } => {
            assert_eq!(current_session_id, "sess-1234");
            assert_eq!(app_id, "app-1");
        },
        _ => panic!("the connect info must be shown"),
    }
    match handle(&mut store, RequestMethod::Get, url, "", None, NOW + 3600) {
        PairingReply::ConnectInfo { current_session_id, app_id } => {
            assert_eq!(current_session_id, "");
            assert_eq!(app_id, "");
        },
        _ => panic!("the connect info must be shown"),
    }
    assert!(store.tokens.is_none());
}

#[test]
fn a_refused_handoff_changes_nothing() {
    let mut store = PairingStore { tokens: Some(tokens(0)) };
    let url = "/streamcore/connect-to-qconnect";
    let reply = handle(&mut store, RequestMethod::Post, url, "{}", None, NOW);
    assert_eq!(reply.status(), 400);
    match reply {
        PairingReply::Refused(why) => assert_eq!(why, "missing jwt_qconnect"),
        _ => panic!("the handoff must be refused"),
    }
    assert!(store.tokens.is_some());
    assert_eq!(handle(&mut store, RequestMethod::Get, "/", "", None, NOW).status(), 404);
    let url = "/streamcore/get-display-info";
    assert_eq!(handle(&mut store, RequestMethod::Get, url, "", None, NOW).status(), 200);
}

#[test]
fn the_picker_shows_a_speaker_of_the_highest_quality() {
    let info = display_info(DeviceIdentity {
        friendly_name: Some("Kitchen".to_string()),
        model: None,
        brand: Some("QBZ".to_string()),
        device_uuid: Some("u-1".to_string()),
    });
    assert_eq!(info.kind, "SPEAKER");
    assert_eq!(info.friendly_name, "Kitchen");
    assert_eq!(info.model_display_name, "");
    assert_eq!(info.brand_display_name, "QBZ");
    assert_eq!(info.serial_number, "u-1");
    assert_eq!(info.max_audio_quality, "HIRES_L3");
}

#[test]
fn a_refresh_reply_is_read_by_its_kind() {
    let body = "{\"jwt_qws\":{\"jwt\":\"new\",\"exp\":77,\"endpoint\":\"wss://n\"}}";
    match read_refresh(200, body, TokenKind::Ws) {
        Ok(token) => {
            assert_eq!(token.jwt, "new");
            assert_eq!(token.exp, 77);
            assert_eq!(token.endpoint.as_deref(), Some("wss://n"));
        },
        Err(err) => panic!("refused: {err:?}"),
    }
    assert_eq!(
        read_refresh(200, body, TokenKind::Api).err(),
        Some(RefreshError::Missing(TokenKind::Api))
    );
    assert_eq!(read_refresh(200, "<html>", TokenKind::Ws).err(), Some(RefreshError::Decode));
    assert_eq!(read_refresh(401, body, TokenKind::Ws).err(), Some(RefreshError::Status(401)));
    // A token without text and without an end is still read.
    match read_refresh(200, "{\"jwt_api\":{}}", TokenKind::Api) {
        Ok(token) => {
            assert_eq!(token.jwt, "");
            assert_eq!(token.exp, 0);
            assert!(token.endpoint.is_none());
        },
        Err(err) => panic!("refused: {err:?}"),
    }
}

#[test]
fn both_tokens_are_renewed_with_the_newest_credential() {
    let mut store = PairingStore {
        tokens: Some(PairingTokens {
            session_id: "s".into(),
            ws_jwt: "ws-old".into(),
            ws_exp: NOW + 300,
            ws_endpoint: "wss://old".into(),
            api_jwt: Some("api-old".into()),
            api_exp: NOW + 10,
        }),
    };
    let mut run = refresh_if_needed(&store, NOW).expect("both are due");
    assert_eq!(run.current, TokenKind::Api);
    assert_eq!(run.bearer, "api-old");
    let reply = read_refresh(200, "{\"jwt_api\":{\"jwt\":\"api-new\",\"exp\":5}}", run.current);
    let step = run.step(&mut store, reply);
    assert_eq!(step.next, Some(TokenKind::Ws));
    assert_eq!(step.new_bearer.as_deref(), Some("api-new"));
    assert_eq!(run.bearer, "api-new");
    let reply = read_refresh(200, "{\"jwt_qws\":{\"jwt\":\"ws-new\",\"exp\":6}}", run.current);
    let step = run.step(&mut store, reply);
    assert_eq!(step.next, None);
    assert!(step.new_bearer.is_none());
    let tokens = store.tokens.expect("still paired");
    assert_eq!(tokens.api_jwt.as_deref(), Some("api-new"));
    assert_eq!(tokens.api_exp, 5);
    assert_eq!(tokens.ws_jwt, "ws-new");
    assert_eq!(tokens.ws_exp, 6);
    assert_eq!(tokens.ws_endpoint, "wss://old");
}

#[test]
fn a_failed_refresh_changes_nothing_and_goes_on() {
    let mut store = PairingStore {
        tokens: Some(PairingTokens {
            session_id: "s".into(),
            ws_jwt: "ws-old".into(),
            ws_exp: NOW,
            ws_endpoint: "wss://old".into(),
            api_jwt: Some("api-old".into()),
            api_exp: NOW,
        }),
    };
    let mut run = refresh_if_needed(&store, NOW).expect("both are due");
    let step = run.step(&mut store, Err(RefreshError::Decode));
    assert_eq!(step.next, Some(TokenKind::Ws));
    assert_eq!(run.bearer, "api-old");
    let reply = read_refresh(200, "{\"jwt_qws\":{\"jwt\":\"\",\"exp\":6}}", TokenKind::Ws);
    let step = run.step(&mut store, reply);
    assert_eq!(step.next, None);
    let tokens = store.tokens.expect("still paired");
    assert_eq!(tokens.ws_jwt, "ws-old");
    assert_eq!(tokens.ws_exp, NOW);
}

#[test]
fn nothing_is_refreshed_without_need_or_credential() {
    assert!(refresh_if_needed(&PairingStore { tokens: None }, NOW).is_none());
    // Due, but there is nothing to renew it with.
    assert!(refresh_if_needed(&PairingStore { tokens: Some(tokens(NOW)) }, NOW).is_none());
    let mut far = tokens(NOW + 301);
    far.api_jwt = Some("api".into());
    assert!(refresh_if_needed(&PairingStore { tokens: Some(far) }, NOW).is_none());
    let mut near = tokens(NOW + 300);
    near.api_jwt = Some("api".into());
    let run = refresh_if_needed(&PairingStore { tokens: Some(near) }, NOW).expect("due");
    assert_eq!(run.current, TokenKind::Ws);
}

#[test]
fn the_device_is_advertised_under_its_safe_name() {
    let advertised = advertise("Living Room (hi-fi)", "uuid-1", "qbz-1.0");
    assert_eq!(advertised.instance, "Living-Room-hi-fi");
    assert_eq!(advertised.host, "Living-Room-hi-fi.local.");
    let properties: Vec<(&str, &str)> =
        advertised.properties.iter().map(|p| (p.key, p.value.as_str())).collect();
    assert_eq!(
        properties,
        vec![
            ("path", "/streamcore"),
            ("type", "SPEAKER"),
            ("sdk_version", "qbz-1.0"),
            ("Name", "Living Room (hi-fi)"),
            ("device_uuid", "uuid-1"),
        ]
    );
    assert_eq!(TokenKind::Api.name(), "jwt_api");
    assert_eq!(TokenKind::Ws.name(), "jwt_qws");
}

#[test]
fn the_log_text_escapes_what_would_break_out_of_it() {
    let tokens = PairingTokens {
        session_id: "a\"b\\c\n".to_string(),
        ws_jwt: "secret".to_string(),
        ws_exp: 7,
        ws_endpoint: "wss://e\t".to_string(),
        api_jwt: None,
        api_exp: 0,
    };
    assert_eq!(
        tokens.debug_text(),
        "PairingTokens { session_id: \"a\\\"b\\\\c\\n\", ws_jwt: \"<redacted>\", ws_exp: 7, \
         ws_endpoint: \"wss://e\\t\", api_jwt: None, api_exp: 0 }"
    );
    assert_eq!(
        tokens.redact("S", "E"),
        "PairingTokens { session_id: S, ws_jwt: \"<redacted>\", ws_exp: 7, \
         ws_endpoint: E, api_jwt: None, api_exp: 0 }"
    );
}

#[test]
fn an_instance_name_keeps_the_letters_and_stays_as_it_is() {
    let letters = |s: &str| s.chars().filter(|c| c.is_alphanumeric() || *c == '_').collect::<String>();
    for name in ["Living Room (hi-fi)", "--a_b--", "caf\u{e9} 2", "x"] {
        let once = sanitize_instance_name(name);
        assert_eq!(letters(&once), letters(name));
        assert_eq!(sanitize_instance_name(&once), once);
    }
    assert_eq!(sanitize_instance_name("-- !"), "QBZ");
}
