use tradestation::error::ApiError;
use tradestation::responses::{first_api_error, last_or, payload_or_error, ApiResponse};
use tradestation::text::{join_strings, join_strs, push_decimal, push_signed_decimal};
use tradestation::token::RefreshedToken;
use tradestation::{Error, Scope, Token};
use tradestation::token::{parse_scopes, scopes_text};

fn api_error(kind: &str, message: &str) -> ApiError {
    ApiError { error: String::from(kind), message: String::from(message) }
}

#[test]
fn api_errors_map_to_their_variants() {
    assert!(matches!(Error::from_api_error(api_error("BadRequest", "m")), Error::BadRequest(m) if m == "m"));
    assert!(matches!(Error::from_api_error(api_error("Unauthorized", "m")), Error::Unauthorized(_)));
    assert!(matches!(Error::from_api_error(api_error("Forbidden", "m")), Error::Forbidden(_)));
    assert!(matches!(Error::from_api_error(api_error("TooManyRequests", "m")), Error::TooManyRequests(_)));
    assert!(matches!(
        Error::from_api_error(api_error("InternalServerError", "m")),
        Error::InternalServerError(_)
    ));
    assert!(matches!(Error::from_api_error(api_error("GatewayTimeout", "m")), Error::GatewayTimeout(_)));
    assert!(matches!(
        Error::from_api_error(api_error("Teapot", "short and stout")),
        Error::UnknownTradeStationAPIError(m) if m == "short and stout"
    ));
}

#[test]
fn error_messages() {
    assert_eq!(Error::SymbolNotSet.message(), "ERROR: You need to set the symbol.");
    assert_eq!(Error::StopStream.message(), "WARNING: You've stopped a stream!");
    assert_eq!(Error::TokenConfig(String::from("x")).message(), "Error building `Token`: x");
    assert_eq!(Error::BadRequest(String::from("bad")).message(), "TradeStation API ERROR: bad");
    assert_eq!(
        Error::PositionNotFound(String::from("P1"), String::from("A1")).message(),
        "Couldn't find a position with id: P1 in account with id: A1"
    );
    assert_eq!(
        Error::UnknownTradeStationAPIError(String::from("odd")).message(),
        "Unknown TradeStation API ERROR: odd.\n Sumbit an issue, so this can be handled: https://github.com/antonio-hickey/tradestation-rs"
    );
    assert_eq!(Error::StreamIssue(String::from("eof")).message(), "Issue during stream: eof");
    assert!(Error::StopStream.is_stop_stream());
    assert!(!Error::AccountNotFound.is_stop_stream());
}

#[test]
fn api_response_into_result() {
    let ok: ApiResponse<u32> = ApiResponse::Success(7);
    assert_eq!(ok.into_result().unwrap(), 7);
    let err: ApiResponse<u32> = ApiResponse::Error(api_error("Forbidden", "no"));
    assert!(matches!(err.into_result(), Err(Error::Forbidden(m)) if m == "no"));
}

#[test]
fn payload_or_error_precedence() {
    assert_eq!(payload_or_error(Some(1u8), Some(Error::InvalidToken), String::from("f")).unwrap(), 1);
    assert!(matches!(
        payload_or_error::<u8>(None, Some(Error::InvalidToken), String::from("f")),
        Err(Error::InvalidToken)
    ));
    assert!(matches!(
        payload_or_error::<u8>(None, None, String::from("fallback")),
        Err(Error::UnknownTradeStationAPIError(m)) if m == "fallback"
    ));
}

#[test]
fn last_or_takes_the_last() {
    assert_eq!(last_or(vec![1, 2, 3], Error::SymbolNotSet).unwrap(), 3);
    assert!(matches!(last_or::<u8>(vec![], Error::AccountNotFound), Err(Error::AccountNotFound)));
}

#[test]
fn decimals_and_joins() {
    let mut s = String::from("n=");
    push_decimal(&mut s, 0);
    assert_eq!(s, "n=0");
    let mut s = String::new();
    push_decimal(&mut s, 18446744073709551615);
    assert_eq!(s, "18446744073709551615");
    let mut s = String::new();
    push_signed_decimal(&mut s, i64::MIN);
    assert_eq!(s, "-9223372036854775808");
    let mut s = String::new();
    push_signed_decimal(&mut s, -42);
    assert_eq!(s, "-42");
    assert_eq!(join_strings(&vec![String::from("a"), String::from("b"), String::from("c")], ","), "a,b,c");
    assert_eq!(join_strings(&vec![], ","), "");
    assert_eq!(join_strs(&vec!["x"], "&"), "x");
}

#[test]
fn token_refresh_keeps_refresh_token() {
    let t = Token {
        access_token: String::from("a1"),
        refresh_token: String::from("r"),
        id_token: String::from("i1"),
        token_type: String::from("Bearer"),
        scope: vec![Scope::OpenId],
        expires_in: 10,
    };
    let first = t.refreshed(RefreshedToken {
        access_token: String::from("a2"),
        id_token: String::from("i2"),
        scope: vec![Scope::Profile],
        token_type: String::from("Bearer"),
        expires_in: 20,
    });
    let second = first.refreshed(RefreshedToken {
        access_token: String::from("a3"),
        id_token: String::from("i3"),
        scope: vec![Scope::Trade],
        token_type: String::from("Bearer"),
        expires_in: 30,
    });
    assert_eq!(first.refresh_token, "r");
    assert_eq!(second.refresh_token, "r");
    assert_eq!(second.access_token, "a3");
    assert_eq!(second.id_token, "i3");
    assert_eq!(second.scope, vec![Scope::Trade]);
    assert_eq!(second.expires_in, 30);
}

#[test]
fn dummy_token_values() {
    let t = Token::dummy();
    assert_eq!(t.access_token, "dummy_access_token");
    assert_eq!(t.refresh_token, "dummy_refresh_token");
    assert_eq!(t.id_token, "dummy_id_token");
    assert_eq!(t.token_type, "Bearer");
    assert!(t.scope.is_empty());
    assert_eq!(t.expires_in, 1200);
}

#[test]
fn scopes_parse_from_space_separated_text() {
    assert_eq!(
        parse_scopes("openid profile  MarketData unknown Trade "),
        vec![Scope::OpenId, Scope::Profile, Scope::MarketData, Scope::Trade]
    );
    assert_eq!(parse_scopes(""), Vec::<Scope>::new());
    assert_eq!(parse_scopes("   "), Vec::<Scope>::new());
    assert_eq!(parse_scopes("offline_access"), vec![Scope::OfflineAccess]);
}

#[test]
fn scopes_text_round_trip() {
    let all = vec![
        Scope::OpenId,
        Scope::OfflineAccess,
        Scope::Profile,
        Scope::MarketData,
        Scope::ReadAccount,
        Scope::Trade,
    ];
    let text = scopes_text(&all);
    assert_eq!(text, "openid offline_access profile MarketData ReadAccount Trade");
    assert_eq!(parse_scopes(&text), all);
    assert_eq!(scopes_text(&vec![]), "");
    assert_eq!(Scope::from_name("ReadAccount"), Some(Scope::ReadAccount));
    assert_eq!(Scope::from_name("readaccount"), None);
    assert_eq!(Scope::Trade.name(), "Trade");
}

#[test]
fn first_api_error_takes_the_first() {
    assert!(first_api_error(vec![]).is_none());
    let e = first_api_error(vec![api_error("Forbidden", "one"), api_error("BadRequest", "two")]);
    assert!(matches!(e, Some(Error::Forbidden(m)) if m == "one"));
}
