use tradestation::client::{
    next_request_step, next_stream_action, start_request, status_display, status_display_with,
    stream_open_outcome, token_url, url_outcome, RequestAction, RequestEvent, RequestPhase,
    StreamAction, StreamEvent,
};
use tradestation::token::RefreshedToken;
use tradestation::{ClientBuilder, ClientEnvironment, Error, Scope, Token};
use tradestation::client::{awaits_event, collect_handled};

fn sample_token() -> Token {
    Token {
        access_token: String::from("ACCESS"),
        refresh_token: String::from("REFRESH"),
        id_token: String::from("ID"),
        token_type: String::from("Bearer"),
        scope: vec![Scope::MarketData],
        expires_in: 1200,
    }
}

fn pairs(v: &[(String, String)]) -> Vec<(&str, &str)> {
    v.iter().map(|(a, b)| (a.as_str(), b.as_str())).collect()
}

#[test]
fn environment_base_urls() {
    assert_eq!(ClientEnvironment::Live.base_url(), "https://api.tradestation.com/v3");
    assert_eq!(ClientEnvironment::Simulation.base_url(), "https://sim-api.tradestation.com/v3");
    assert_eq!(
        ClientEnvironment::Mock(String::from("http://127.0.0.1:9000")).base_url(),
        "http://127.0.0.1:9000"
    );
}

#[test]
fn environment_labels() {
    assert_eq!(ClientEnvironment::Live.to_string(), "LIVE");
    assert_eq!(ClientEnvironment::Simulation.to_string(), "SIM");
    assert_eq!(ClientEnvironment::Mock(String::from("x")).to_string(), "MOCK");
}

#[test]
fn environment_request_url() {
    assert_eq!(
        ClientEnvironment::Simulation.request_url("brokerage/accounts"),
        "https://sim-api.tradestation.com/v3/brokerage/accounts"
    );
}

#[test]
fn token_endpoint_address() {
    assert_eq!(token_url(), "https://signin.tradestation.com/oauth/token");
}

#[test]
fn build_with_token_uses_defaults() {
    let client = ClientBuilder::new()
        .credentials("KEY", "SECRET")
        .environment(ClientEnvironment::Live)
        .with_token(sample_token())
        .build()
        .unwrap();
    assert_eq!(client.token.access_token, "ACCESS");
    assert_eq!(client.environment.to_string(), "LIVE");
    assert_eq!(client.request_url("marketdata/quotes/SPY"), "https://api.tradestation.com/v3/marketdata/quotes/SPY");
    assert_eq!(client.authorization_header(), "Bearer ACCESS");
    let form = client.refresh_form();
    assert_eq!(
        pairs(&form),
        vec![
            ("grant_type", "refresh_token"),
            ("client_id", "KEY"),
            ("client_secret", "SECRET"),
            ("refresh_token", "REFRESH"),
            ("redirect_uri", "http://localhost:8080/"),
        ]
    );
}

#[test]
fn build_without_credentials_leaves_them_empty() {
    let client = ClientBuilder::new()
        .redirect_uri("https://example.com/cb")
        .environment(ClientEnvironment::Mock(String::from("http://localhost:1234")))
        .with_token(Token::dummy())
        .build()
        .unwrap();
    let form = client.refresh_form();
    assert_eq!(
        pairs(&form),
        vec![
            ("grant_type", "refresh_token"),
            ("client_id", ""),
            ("client_secret", ""),
            ("refresh_token", "dummy_refresh_token"),
            ("redirect_uri", "https://example.com/cb"),
        ]
    );
}

#[test]
fn apply_refresh_keeps_refresh_token() {
    let mut client = ClientBuilder::new()
        .credentials("KEY", "SECRET")
        .environment(ClientEnvironment::Simulation)
        .with_token(sample_token())
        .build()
        .unwrap();
    client.apply_refresh(RefreshedToken {
        access_token: String::from("NEW_ACCESS"),
        id_token: String::from("NEW_ID"),
        scope: vec![Scope::Trade, Scope::ReadAccount],
        token_type: String::from("Bearer"),
        expires_in: 900,
    });
    assert_eq!(client.token.access_token, "NEW_ACCESS");
    assert_eq!(client.token.refresh_token, "REFRESH");
    assert_eq!(client.token.id_token, "NEW_ID");
    assert_eq!(client.token.scope, vec![Scope::Trade, Scope::ReadAccount]);
    assert_eq!(client.token.expires_in, 900);
    assert_eq!(client.authorization_header(), "Bearer NEW_ACCESS");
}

#[test]
fn authorization_url_with_defaults() {
    let step = ClientBuilder::new()
        .credentials("MY_ID", "MY_SECRET")
        .redirect_uri("http://localhost:8080/")
        .environment(ClientEnvironment::Live)
        .start_authorization();
    let url = step.authorization_url("xyz").unwrap();
    assert_eq!(
        url,
        "https://signin.tradestation.com/authorize?response_type=code&client_id=MY_ID\
         &redirect_uri=http%3A%2F%2Flocalhost%3A8080%2F&audience=https%3A%2F%2Fapi.tradestation.com\
         &scope=openid+offline_access+profile+MarketData+ReadAccount+Trade&state=xyz"
    );
}

#[test]
fn authorization_url_with_scopes_and_audience() {
    let step = ClientBuilder::new()
        .credentials("A", "B")
        .redirect_uri("cb")
        .audience("aud")
        .scopes(vec![String::from("openid"), String::from("MarketData")])
        .environment(ClientEnvironment::Simulation)
        .start_authorization();
    let q = step.authorization_query_pairs("s").unwrap();
    assert_eq!(
        pairs(&q),
        vec![
            ("response_type", "code"),
            ("client_id", "A"),
            ("redirect_uri", "cb"),
            ("audience", "aud"),
            ("scope", "openid MarketData"),
            ("state", "s"),
        ]
    );
    let url = step.authorization_url("s").unwrap();
    assert_eq!(
        url,
        "https://signin.tradestation.com/authorize?response_type=code&client_id=A&redirect_uri=cb\
         &audience=aud&scope=openid+MarketData&state=s"
    );
}

#[test]
fn authorization_url_requires_client_id() {
    let step = ClientBuilder::new().environment(ClientEnvironment::Live).start_authorization();
    match step.authorization_url("s") {
        Err(Error::TokenConfig(m)) => assert_eq!(m, "client_id not set"),
        other => panic!("unexpected: {other:?}"),
    }
}

#[test]
fn authorization_url_requires_redirect_uri() {
    let step = ClientBuilder::new()
        .credentials("A", "B")
        .environment(ClientEnvironment::Live)
        .start_authorization();
    match step.authorization_url("s") {
        Err(Error::TokenConfig(m)) => assert_eq!(m, "redirect_uri not set"),
        other => panic!("unexpected: {other:?}"),
    }
}

#[test]
fn exchange_code_form_in_order() {
    let step = ClientBuilder::new()
        .credentials("A", "B")
        .redirect_uri("cb")
        .environment(ClientEnvironment::Live)
        .start_authorization();
    let form = step.exchange_code_form("CODE").unwrap();
    assert_eq!(
        pairs(&form),
        vec![
            ("grant_type", "authorization_code"),
            ("client_id", "A"),
            ("client_secret", "B"),
            ("code", "CODE"),
            ("redirect_uri", "cb"),
        ]
    );
    let client = step.with_token(sample_token()).build().unwrap();
    assert_eq!(client.token.refresh_token, "REFRESH");
}

#[test]
fn exchange_code_form_errors() {
    let no_id = ClientBuilder::new().environment(ClientEnvironment::Live).start_authorization();
    match no_id.exchange_code_form("C") {
        Err(Error::TokenConfig(m)) => assert_eq!(m, "client_id not set"),
        other => panic!("unexpected: {other:?}"),
    }
    let no_redirect = ClientBuilder::new()
        .credentials("A", "B")
        .environment(ClientEnvironment::Live)
        .start_authorization();
    match no_redirect.exchange_code_form("C") {
        Err(Error::TokenConfig(m)) => assert_eq!(m, "redirect_uri not set"),
        other => panic!("unexpected: {other:?}"),
    }
}

#[test]
fn url_outcome_maps_none_to_invalid_url() {
    assert!(matches!(url_outcome(None), Err(Error::InvalidUrl)));
    assert_eq!(url_outcome(Some(String::from("u"))).unwrap(), "u");
}

#[test]
fn request_succeeds_first_time() {
    let (phase, action) = start_request();
    assert_eq!(phase, RequestPhase::FirstAttempt);
    assert!(matches!(action, RequestAction::Send));
    let (phase, action) = next_request_step(phase, RequestEvent::Responded(200));
    assert_eq!(phase, RequestPhase::Finished);
    assert!(matches!(action, RequestAction::Deliver));
}

#[test]
fn request_retries_once_after_unauthorized() {
    let (phase, _) = start_request();
    let (phase, action) = next_request_step(phase, RequestEvent::Responded(401));
    assert_eq!(phase, RequestPhase::Refreshing);
    assert!(matches!(action, RequestAction::RefreshToken));
    let (phase, action) = next_request_step(phase, RequestEvent::Refreshed);
    assert_eq!(phase, RequestPhase::Retry);
    assert!(matches!(action, RequestAction::Send));
    // a second 401 is delivered, not retried again
    let (phase, action) = next_request_step(phase, RequestEvent::Responded(401));
    assert_eq!(phase, RequestPhase::Finished);
    assert!(matches!(action, RequestAction::Deliver));
}

#[test]
fn request_failures() {
    let (_, action) = next_request_step(RequestPhase::FirstAttempt, RequestEvent::SendFailed(String::from("boom")));
    match action {
        RequestAction::Fail(Error::Request(m)) => assert_eq!(m, "boom"),
        other => panic!("unexpected: {other:?}"),
    }
    let (phase, action) = next_request_step(RequestPhase::Refreshing, RequestEvent::RefreshFailed(Error::InvalidToken));
    assert_eq!(phase, RequestPhase::Finished);
    assert!(matches!(action, RequestAction::Fail(Error::InvalidToken)));
    let (_, action) = next_request_step(RequestPhase::Retry, RequestEvent::SendFailed(String::from("again")));
    assert!(matches!(action, RequestAction::Fail(Error::Request(_))));
}

#[test]
fn status_text_of_codes() {
    assert_eq!(status_display(401), "401 Unauthorized");
    assert_eq!(status_display(200), "200 OK");
    assert_eq!(status_display(299), "299 <unknown status code>");
    assert_eq!(status_display_with(503, Some(String::from("Service Unavailable"))), "503 Service Unavailable");
}

#[test]
fn stream_open_checks_status() {
    assert!(stream_open_outcome(200).is_ok());
    assert!(stream_open_outcome(204).is_ok());
    match stream_open_outcome(403) {
        Err(Error::StreamIssue(m)) => assert_eq!(m, "Request failed with status: 403 Forbidden"),
        other => panic!("unexpected: {other:?}"),
    }
}

#[test]
fn stream_lines_are_trimmed_and_blank_lines_skipped() {
    assert!(matches!(next_stream_action(StreamEvent::LineRead(String::from("   \r"))), StreamAction::ReadLine));
    match next_stream_action(StreamEvent::LineRead(String::from("  {\"a\":1} \r"))) {
        StreamAction::Decode(t) => assert_eq!(t, "{\"a\":1}"),
        other => panic!("unexpected: {other:?}"),
    }
}

#[test]
fn stream_stop_is_not_an_error() {
    assert!(matches!(
        next_stream_action(StreamEvent::Handled(Err(Error::StopStream))),
        StreamAction::Finish(Ok(()))
    ));
    assert!(matches!(next_stream_action(StreamEvent::Handled(Ok(()))), StreamAction::ReadLine));
    assert!(matches!(next_stream_action(StreamEvent::Ended), StreamAction::Finish(Ok(()))));
}

#[test]
fn stream_errors_end_the_stream() {
    match next_stream_action(StreamEvent::ReadFailed(String::from("reset"))) {
        StreamAction::Finish(Err(Error::StreamIssue(m))) => assert_eq!(m, "reset"),
        other => panic!("unexpected: {other:?}"),
    }
    match next_stream_action(StreamEvent::DecodeFailed(String::from("bad json"))) {
        StreamAction::Finish(Err(Error::Json(m))) => assert_eq!(m, "bad json"),
        other => panic!("unexpected: {other:?}"),
    }
    assert!(matches!(
        next_stream_action(StreamEvent::Handled(Err(Error::SymbolNotSet))),
        StreamAction::Finish(Err(Error::SymbolNotSet))
    ));
}

#[test]
fn request_phases_await_their_events() {
    assert!(awaits_event(RequestPhase::FirstAttempt, &RequestEvent::Responded(200)));
    assert!(awaits_event(RequestPhase::Retry, &RequestEvent::SendFailed(String::from("x"))));
    assert!(!awaits_event(RequestPhase::FirstAttempt, &RequestEvent::Refreshed));
    assert!(awaits_event(RequestPhase::Refreshing, &RequestEvent::Refreshed));
    assert!(!awaits_event(RequestPhase::Refreshing, &RequestEvent::Responded(401)));
    assert!(!awaits_event(RequestPhase::Finished, &RequestEvent::Responded(200)));
}

#[test]
fn refresh_form_unchanged_by_refresh() {
    let mut client = ClientBuilder::new()
        .credentials("KEY", "SECRET")
        .redirect_uri("cb")
        .environment(ClientEnvironment::Live)
        .with_token(sample_token())
        .build()
        .unwrap();
    let before = client.refresh_form();
    client.apply_refresh(RefreshedToken {
        access_token: String::from("A2"),
        id_token: String::from("I2"),
        scope: vec![],
        token_type: String::from("Bearer"),
        expires_in: 5,
    });
    assert_eq!(client.refresh_form(), before);
}

#[test]
fn configured_builder_builds() {
    let ready = ClientBuilder::new().environment(ClientEnvironment::Simulation).with_token(Token::dummy());
    let client = ready.build().unwrap();
    assert_eq!(client.environment.to_string(), "SIM");
    assert_eq!(client.token.access_token, "dummy_access_token");
}

#[test]
fn stream_lines_trim_unicode_whitespace() {
    match next_stream_action(StreamEvent::LineRead(String::from("\u{3000}\t{}\u{a0}\u{2009}"))) {
        StreamAction::Decode(t) => assert_eq!(t, "{}"),
        other => panic!("unexpected: {other:?}"),
    }
    assert!(matches!(
        next_stream_action(StreamEvent::LineRead(String::from("\u{85}\u{2028} "))),
        StreamAction::ReadLine
    ));
}

#[test]
fn collect_handled_keeps_taken_items() {
    let mut collected: Vec<u32> = vec![];
    assert!(collect_handled(&mut collected, Ok(()), Some(1)).is_ok());
    assert!(collect_handled(&mut collected, Ok(()), None).is_ok());
    assert!(matches!(collect_handled(&mut collected, Err(Error::StopStream), Some(2)), Err(Error::StopStream)));
    assert!(matches!(collect_handled(&mut collected, Err(Error::SymbolNotSet), Some(3)), Err(Error::SymbolNotSet)));
    assert_eq!(collected, vec![1]);
}
