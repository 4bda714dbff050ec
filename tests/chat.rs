use authcore::chat::{chat_username, ends_relay, joined_message, left_message, relay_line};
use authcore::claims::{AuthRequesterClaims, TokenSettings};
use authcore::credentials::HashCost;
use authcore::service::AuthService;
use authcore::user::RegisterUser;

const NOW: u64 = 1_700_000_000;

fn chat_service() -> AuthService {
    let settings = TokenSettings {
        secret: b"chat-secret".to_vec(),
        domain: "example.com".to_string(),
        company: "Example".to_string(),
        access_lifetime: 60,
        session_lifetime: 600,
    };
    AuthService::new(settings, HashCost::new(4).unwrap())
}

#[test]
fn chat_join_needs_a_valid_session_token() {
    let mut svc = chat_service();
    let req = RegisterUser { username: "zoe".to_string(), pass: "p".to_string(), email: "z@x.com".to_string() };
    let (_, token) = svc.register(&req, NOW).unwrap();
    assert_eq!(chat_username(&svc, &token.access_token, NOW).unwrap(), "zoe");
    assert!(chat_username(&svc, "hello", NOW).is_none());
    assert!(chat_username(&svc, &token.access_token, NOW + 10_000).is_none());
    let stranger = AuthRequesterClaims::new("nobody".to_string(), &svc.settings, NOW).unwrap();
    let t = stranger.generate_token(&svc.settings).unwrap();
    assert!(chat_username(&svc, &t.access_token, NOW).is_none());
}

#[test]
fn chat_messages() {
    assert_eq!(joined_message("zoe"), "zoe joined.");
    assert_eq!(left_message("zoe"), "zoe left.");
    assert_eq!(relay_line("zoe", "hi there"), "zoe: hi there");
    assert!(ends_relay(""));
    assert!(!ends_relay(" "));
}
