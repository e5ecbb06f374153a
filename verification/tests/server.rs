use sealed_chat::auth::{
    authorization_token, bearer_token, claims_for, hash_password, login_device, login_user, registered_user, validate_registration, verify_password,
    LoginAction, LoginEvent, LoginFlow, RegisterAction, RegisterEvent, RegisterFlow, UserInsert, TOKEN_TTL_SECS,
};
use sealed_chat::error::ApiError;
use sealed_chat::primitives::{CHRONO_MAX_UNIX_SECS, CHRONO_MIN_UNIX_SECS};
use sealed_chat::invites::{
    after_invite_insert, check_available, claim, claim_outcome, generate_code, hash_invite_code, check_invite_admin,
    normalize_code, InsertOutcome, InviteAction, INVITE_VALID_DAYS, INVITE_VALID_SECS, InviteEvent, InviteFlow, InviteRecord, InviteStep,
};
use sealed_chat::rate_limit::{client_ip, first_forwarded_entry, is_trusted_proxy, policy_for, retry_after_secs, AuthRateLimiter, ClientIp, Policy, MAX_TRACKED_CLIENTS, NANOS_PER_SEC};
use sealed_chat::protocol::ConversationInfo;
use sealed_chat::routes::{
    attachment_download, b64_decode, b64_encode, check_conversation_peer, encode_messages, plan_attachment_upload, found, message_page, normalize_bio, plan_profile_update,
    random_attachment_id, validate_avatar, ConversationAction, ConversationEvent, ConversationFlow, ListAction, ListEvent,
    ListFlow, MessageQuery, SendAction, SendEvent, SendFlow, StoredMessage,
};
use sealed_chat::schema::{column_upgrades, ADD_BIO_COLUMN, ADD_RESTRICTED_USERNAME_COLUMN};
use sealed_chat::state::ConnectionRegistry;
use sealed_chat::ws::{next_socket_action, SocketAction, SocketEvent};

fn bad_request<T>(r: Result<T, ApiError>) -> String {
    match r {
        Err(ApiError::BadRequest(m)) => m,
        _ => panic!("expected a bad request"),
    }
}

#[test]
fn blocks_after_the_policy_limit_and_recovers_next_window() {
    let mut limiter = AuthRateLimiter::new();
    let policy = Policy { name: "test", max_requests: 2, window_nanos: 60 * NANOS_PER_SEC };
    let ip = ClientIp::V4([203, 0, 113, 10]);
    let now = 1_000 * NANOS_PER_SEC;

    assert!(limiter.check(ip, policy, now).is_ok());
    assert!(limiter.check(ip, policy, now).is_ok());
    assert!(limiter.check(ip, policy, now).is_err());
    assert!(limiter.check(ip, policy, now + 61 * NANOS_PER_SEC).is_ok());
}

#[test]
fn refusal_reports_time_left_in_window() {
    let mut limiter = AuthRateLimiter::new();
    let policy = Policy { name: "login", max_requests: 1, window_nanos: 60 * NANOS_PER_SEC };
    let ip = ClientIp::V6([0x2001, 0xdb8, 0, 0, 0, 0, 0, 1]);
    assert_eq!(limiter.check(ip, policy, 0), Ok(()));
    assert_eq!(limiter.check(ip, policy, 15 * NANOS_PER_SEC), Err(45 * NANOS_PER_SEC));
    assert_eq!(retry_after_secs(45 * NANOS_PER_SEC), 45);
    assert_eq!(retry_after_secs(10), 1);
    let other = Policy { name: "register", max_requests: 1, window_nanos: 60 * NANOS_PER_SEC };
    assert_eq!(limiter.check(ip, other, 15 * NANOS_PER_SEC), Ok(()));
    assert_eq!(limiter.window_count(), 2);
}

#[test]
fn full_table_refuses_new_clients_and_drops_stale_windows() {
    let mut limiter = AuthRateLimiter::new();
    let policy = Policy { name: "p", max_requests: 5, window_nanos: 60 * NANOS_PER_SEC };
    for i in 0..MAX_TRACKED_CLIENTS {
        let ip = ClientIp::V4([10, (i / 65536) as u8, ((i / 256) % 256) as u8, (i % 256) as u8]);
        assert!(limiter.check(ip, policy, 0).is_ok());
    }
    assert_eq!(limiter.window_count(), MAX_TRACKED_CLIENTS);
    let newcomer = ClientIp::V4([192, 0, 2, 1]);
    assert_eq!(limiter.check(newcomer, policy, NANOS_PER_SEC), Err(60 * NANOS_PER_SEC));
    assert_eq!(limiter.window_count(), MAX_TRACKED_CLIENTS);
    assert!(limiter.check(newcomer, policy, 3_601 * NANOS_PER_SEC).is_ok());
    assert_eq!(limiter.window_count(), 1);
}

#[test]
fn policies_of_auth_paths() {
    let login = policy_for("/api/auth/login").unwrap();
    assert_eq!((login.name, login.max_requests, login.window_nanos), ("login", 10, 300 * NANOS_PER_SEC));
    let register = policy_for("/api/auth/register").unwrap();
    assert_eq!((register.name, register.max_requests, register.window_nanos), ("register", 5, 3600 * NANOS_PER_SEC));
    assert!(policy_for("/api/users").is_none());
}

#[test]
fn forwarded_address_only_from_trusted_proxies() {
    assert!(is_trusted_proxy(ClientIp::V4([127, 0, 0, 1])));
    assert!(is_trusted_proxy(ClientIp::V4([172, 20, 1, 1])));
    assert!(!is_trusted_proxy(ClientIp::V4([172, 32, 1, 1])));
    assert!(is_trusted_proxy(ClientIp::V6([0, 0, 0, 0, 0, 0, 0, 1])));
    assert!(is_trusted_proxy(ClientIp::V6([0xfd12, 0, 0, 0, 0, 0, 0, 1])));
    assert!(!is_trusted_proxy(ClientIp::V6([0x2001, 0xdb8, 0, 0, 0, 0, 0, 1])));
    assert_eq!(first_forwarded_entry(" 198.51.100.7 , 10.0.0.1"), "198.51.100.7");
    let forwarded = Some(ClientIp::V4([198, 51, 100, 7]));
    assert_eq!(client_ip(Some(ClientIp::V4([10, 0, 0, 2])), forwarded), ClientIp::V4([198, 51, 100, 7]));
    assert_eq!(client_ip(Some(ClientIp::V4([8, 8, 8, 8])), forwarded), ClientIp::V4([8, 8, 8, 8]));
    assert_eq!(client_ip(None, forwarded), ClientIp::V4([0, 0, 0, 0]));
}

#[test]
fn invite_codes_normalize() {
    assert_eq!(normalize_code(" jsjl-abcde-fghij-klmno-pqrst ").unwrap(), "JSJLABCDEFGHIJKLMNOPQRST");
    assert_eq!(normalize_code("JSJL ABCDE\tFGHIJ KLMNO PQRST").unwrap(), "JSJLABCDEFGHIJKLMNOPQRST");
    assert_eq!(bad_request(normalize_code("JSJL-ABCDE-FGHIJ-KLMNO-PQRS!")), "invite code is invalid or expired");
    assert!(normalize_code("ABCD-ABCDE-FGHIJ-KLMNO-PQRST").is_err());
    assert!(normalize_code("JSJL-ABCDE-FGHIJ-KLMNO-PQRS").is_err());
    assert!(normalize_code("\u{a0}JSJL-ABCDE-FGHIJ-KLMNO-PQRST\u{a0}").is_ok());
}

#[test]
fn invite_code_hash_is_hex_sha256_of_normalized_code() {
    let expected = "54d2df5247603a25f1a72a4feb820d8ca6f6c0daa85e981e6d0c78f1a717cb70";
    assert_eq!(hash_invite_code("JSJL-ABCDE-FGHIJ-KLMNO-PQRST").unwrap(), expected);
    assert_eq!(hash_invite_code("jsjl abcde fghij klmno pqrst").unwrap(), expected);
    assert!(hash_invite_code("nope").is_err());
}

#[test]
fn generated_codes_have_the_invite_format() {
    for _ in 0..20 {
        let code = generate_code();
        assert!(code.starts_with("JSJL-"));
        assert_eq!(code.len(), 28);
        assert!(code.chars().all(|c| "ABCDEFGHJKLMNPQRSTUVWXYZ23456789-".contains(c) || "JSL".contains(c)));
        assert!(normalize_code(&code).is_ok());
        assert_eq!(code.as_bytes()[10], b'-');
    }
}

#[test]
fn only_wangxin_can_generate_invites() {
    assert_eq!(check_invite_admin(Some("wangxin")), Ok(()));
    let code = generate_code();
    assert!(code.starts_with("JSJL-"));
    assert_eq!(code.len(), 28);
    assert_eq!(check_invite_admin(Some("alice")), Err(ApiError::Forbidden));
    assert_eq!(check_invite_admin(None), Err(ApiError::Forbidden));
    assert_eq!(check_invite_admin(Some("wangxin ")), Err(ApiError::Forbidden));
    let (mut admin, _) = InviteFlow::start(1, 1_735_689_600, 0);
    assert!(matches!(admin.step(InviteEvent::UsernameFound(Some("wangxin".to_string()))), InviteAction::Insert { .. }));
    match admin.step(InviteEvent::Inserted(InsertOutcome::Inserted)) {
        InviteAction::Respond { code, .. } => {
            assert!(code.starts_with("JSJL-"));
            assert_eq!(code.len(), 28);
        }
        _ => panic!("wangxin is invite administrator"),
    }
    let (mut other, _) = InviteFlow::start(2, 1_735_689_600, 0);
    assert!(matches!(other.step(InviteEvent::UsernameFound(Some("alice".to_string()))), InviteAction::Fail(ApiError::Forbidden)));
}

#[test]
fn invite_insert_retries_collisions_five_times() {
    assert!(matches!(after_invite_insert(1, InsertOutcome::Inserted), InviteStep::Done));
    assert!(matches!(after_invite_insert(4, InsertOutcome::DuplicateCode), InviteStep::TryAgain));
    match after_invite_insert(5, InsertOutcome::DuplicateCode) {
        InviteStep::Fail(ApiError::Internal(m)) => assert_eq!(m, "failed to generate a unique invite code"),
        _ => panic!("expected failure"),
    }
    assert!(matches!(after_invite_insert(1, InsertOutcome::Failed("db".to_string())), InviteStep::Fail(ApiError::Internal(_))));
}

fn invite(restricted: Option<&str>, expires_at: &str) -> InviteRecord {
    InviteRecord {
        id: 7,
        max_uses: 1,
        used_count: 0,
        expires_at: expires_at.to_string(),
        disabled: false,
        restricted_username: restricted.map(|s| s.to_string()),
    }
}

/// A store holding one invitation and the registered usernames, with a
/// transaction that keeps a copy to roll back to.
#[derive(Clone)]
struct Store {
    invite: InviteRecord,
    code_hash: String,
    users: Vec<String>,
    redemptions: usize,
}

/// What one registration did against the store.
struct Outcome {
    result: Result<(i64, String), ApiError>,
    actions: Vec<&'static str>,
}

fn action_name(action: &RegisterAction) -> &'static str {
    match action {
        RegisterAction::FindInvite { .. } => "find",
        RegisterAction::BeginTransaction => "begin",
        RegisterAction::FindInviteInTransaction { .. } => "find-in-tx",
        RegisterAction::WriteClaim { .. } => "claim",
        RegisterAction::InsertUser { .. } => "user",
        RegisterAction::InsertDevice { .. } => "device",
        RegisterAction::RecordRedemption { .. } => "redemption",
        RegisterAction::Commit => "commit",
        RegisterAction::IssueToken { .. } => "token",
        RegisterAction::Respond { .. } => "respond",
        RegisterAction::Fail(_) => "fail",
    }
}

/// Run a registration to its end against the store, all at time `now`.
fn register_against(store: &mut Store, username: &str, code: &str, now: &str) -> Outcome {
    let (mut flow, mut action) = RegisterFlow::start(username, "correct horse battery staple", code);
    let mut tx: Option<Store> = None;
    let mut actions = Vec::new();
    loop {
        actions.push(action_name(&action));
        let found = |s: &Store, h: &str| if s.code_hash == h { Some(s.invite.clone()) } else { None };
        let event = match action {
            RegisterAction::FindInvite { code_hash } => {
                RegisterEvent::InviteFound { invite: found(store, &code_hash), now: now.to_string() }
            }
            RegisterAction::BeginTransaction => {
                tx = Some(store.clone());
                RegisterEvent::TransactionBegun
            }
            RegisterAction::FindInviteInTransaction { code_hash } => {
                RegisterEvent::InviteFound { invite: found(tx.as_ref().unwrap(), &code_hash), now: now.to_string() }
            }
            RegisterAction::WriteClaim { invite_id, used_count, previous_count } => {
                // The transaction sees the committed store plus its own writes.
                let t = tx.as_mut().unwrap();
                t.invite.used_count = store.invite.used_count;
                let rows = if t.invite.id == invite_id && t.invite.used_count == previous_count {
                    t.invite.used_count = used_count;
                    1
                } else {
                    0
                };
                RegisterEvent::ClaimWritten { rows_affected: rows }
            }
            RegisterAction::InsertUser { username, password_hash } => {
                assert!(verify_password("correct horse battery staple", &password_hash));
                let t = tx.as_mut().unwrap();
                if store.users.contains(&username) || t.users.contains(&username) {
                    RegisterEvent::UserInserted(UserInsert::UsernameTaken)
                } else {
                    t.users.push(username);
                    RegisterEvent::UserInserted(UserInsert::Inserted(t.users.len() as i64))
                }
            }
            RegisterAction::InsertDevice { user_id } => RegisterEvent::DeviceInserted { device_id: 100 + user_id },
            RegisterAction::RecordRedemption { .. } => {
                tx.as_mut().unwrap().redemptions += 1;
                RegisterEvent::RedemptionRecorded
            }
            RegisterAction::Commit => {
                *store = tx.take().unwrap();
                RegisterEvent::Committed
            }
            RegisterAction::IssueToken { user_id, device_id } => {
                RegisterEvent::TokenIssued { token: format!("token-{user_id}-{device_id}") }
            }
            RegisterAction::Respond { user_id, token, .. } => return Outcome { result: Ok((user_id, token)), actions },
            RegisterAction::Fail(error) => return Outcome { result: Err(error), actions },
        };
        action = flow.step(event);
    }
}

const CODE: &str = "JSJL-ABCDE-FGHJK-LMNPQ-RSTUV";
const NOW: &str = "2025-01-01T00:00:00+00:00";

fn store_with(invite: InviteRecord, users: &[&str]) -> Store {
    Store {
        invite,
        code_hash: hash_invite_code(CODE).unwrap(),
        users: users.iter().map(|u| u.to_string()).collect(),
        redemptions: 0,
    }
}

#[test]
fn registration_consumes_an_invite_once() {
    let mut store = store_with(invite(None, "2025-01-31T00:00:00+00:00"), &["wangxin", "alice"]);
    let first = register_against(&mut store, "bob", CODE, NOW);
    assert_eq!(first.result.unwrap().0, 3);
    assert_eq!(
        first.actions,
        vec!["find", "begin", "find-in-tx", "claim", "user", "device", "redemption", "commit", "token", "respond"]
    );
    let second = register_against(&mut store, "charlie", CODE, NOW);
    assert_eq!(bad_request(second.result), "invite code is invalid or expired");
    assert_eq!((store.invite.used_count, store.redemptions), (1, 1));
    // The pieces of the flow, one by one.
    let now = "2025-01-01T00:00:00+00:00";
    let claimed = claim(Some(invite(None, "2025-01-31T00:00:00+00:00")), now, "bob").unwrap();
    assert_eq!(claimed.used_count, 1);
    assert_eq!(bad_request(claim(Some(claimed), now, "charlie")), "invite code is invalid or expired");
    assert!(claim(None, now, "bob").is_err());
    assert_eq!(claim_outcome(1), Ok(()));
    assert!(claim_outcome(0).is_err());
}

#[test]
fn failed_registration_does_not_burn_the_invite() {
    let mut store = store_with(invite(None, "2025-01-31T00:00:00+00:00"), &["wangxin", "alice"]);
    let conflict = register_against(&mut store, "wangxin", CODE, NOW);
    assert!(matches!(conflict.result, Err(ApiError::Conflict(ref m)) if m == "username already taken"));
    assert!(!conflict.actions.contains(&"commit"));
    assert_eq!((store.invite.used_count, store.redemptions), (0, 0));
    let retry = register_against(&mut store, "bob", CODE, NOW);
    assert!(retry.result.is_ok());
    assert_eq!(store.invite.used_count, 1);
}

#[test]
fn concurrent_registration_allows_only_one_redemption() {
    // Both registrations pass the first check and read the invitation inside
    // their transactions before either commits; only one write of the use
    // count can apply over the count that both read.
    let mut store = store_with(invite(None, "2025-01-31T00:00:00+00:00"), &[]);
    let code_hash = store.code_hash.clone();
    let (mut left, left_first) = RegisterFlow::start("bob", "pw-left", CODE);
    let (mut right, right_first) = RegisterFlow::start("charlie", "pw-right", CODE);
    assert!(matches!(left_first, RegisterAction::FindInvite { .. }));
    assert!(matches!(right_first, RegisterAction::FindInvite { .. }));
    let seen = || RegisterEvent::InviteFound { invite: Some(store.invite.clone()), now: NOW.to_string() };
    assert!(matches!(left.step(seen()), RegisterAction::BeginTransaction));
    assert!(matches!(right.step(seen()), RegisterAction::BeginTransaction));
    assert!(matches!(left.step(RegisterEvent::TransactionBegun), RegisterAction::FindInviteInTransaction { code_hash: ref h } if *h == code_hash));
    assert!(matches!(right.step(RegisterEvent::TransactionBegun), RegisterAction::FindInviteInTransaction { .. }));
    let (l_write, r_write) = (left.step(seen()), right.step(seen()));
    let write = |action: RegisterAction, store: &mut Store| match action {
        RegisterAction::WriteClaim { used_count, previous_count, .. } => {
            if store.invite.used_count == previous_count {
                store.invite.used_count = used_count;
                1
            } else {
                0
            }
        }
        _ => panic!("expected a claim"),
    };
    let l_rows = write(l_write, &mut store);
    let r_rows = write(r_write, &mut store);
    assert_eq!((l_rows, r_rows), (1, 0));
    assert!(matches!(left.step(RegisterEvent::ClaimWritten { rows_affected: l_rows }), RegisterAction::InsertUser { .. }));
    let refused = right.step(RegisterEvent::ClaimWritten { rows_affected: r_rows });
    assert!(matches!(refused, RegisterAction::Fail(ApiError::BadRequest(ref m)) if m == "invite code is invalid or expired"));
    assert_eq!(store.invite.used_count, 1);
}

#[test]
fn registration_checks_fields_and_code_before_the_store() {
    let (_, action) = RegisterFlow::start("  ", "pw", CODE);
    assert!(matches!(action, RegisterAction::Fail(ApiError::BadRequest(ref m)) if m == "username and password are required"));
    let (_, action) = RegisterFlow::start("bob", "pw", "JSJL-1234");
    assert!(matches!(action, RegisterAction::Fail(ApiError::BadRequest(ref m)) if m == "invite code is invalid or expired"));
    let (flow, action) = RegisterFlow::start("  bob ", "pw", "jsjl abcde fghjk lmnpq rstuv");
    assert!(matches!(action, RegisterAction::FindInvite { ref code_hash } if *code_hash == hash_invite_code(CODE).unwrap()));
    assert_eq!(flow.username, "bob");
    // An unknown or expired code is refused before the password is hashed.
    let mut store = store_with(invite(None, "2024-12-31T00:00:00+00:00"), &[]);
    let expired = register_against(&mut store, "bob", CODE, NOW);
    assert_eq!(bad_request(expired.result), "invite code is invalid or expired");
    assert_eq!(expired.actions, vec!["find", "fail"]);
    // A failure of the store refuses with an internal error.
    let (mut flow, _) = RegisterFlow::start("bob", "pw", CODE);
    let failed = flow.step(RegisterEvent::Failed { text: "disk full".to_string() });
    assert!(matches!(failed, RegisterAction::Fail(ApiError::Internal(ref m)) if m == "disk full"));
}

#[test]
fn expired_invite_is_rejected() {
    let inv = invite(None, "2024-12-31T00:00:00+00:00");
    assert!(check_available(Some(&inv), "2025-01-01T00:00:00+00:00", "bob").is_err());
    assert!(check_available(Some(&inv), "2024-12-30T00:00:00+00:00", "bob").is_ok());
    let mut store = store_with(inv, &[]);
    let result = register_against(&mut store, "bob", CODE, NOW);
    assert_eq!(bad_request(result.result), "invite code is invalid or expired");
}

#[test]
fn restricted_invite_only_registers_its_named_user() {
    let inv = invite(Some("bob"), "2025-01-31T00:00:00+00:00");
    let now = "2025-01-01T00:00:00+00:00";
    assert!(check_available(Some(&inv), now, "charlie").is_err());
    assert!(check_available(Some(&inv), now, "bob").is_ok());
    let mut store = store_with(inv.clone(), &[]);
    assert!(register_against(&mut store, "charlie", CODE, NOW).result.is_err());
    assert!(register_against(&mut store, "bob", CODE, NOW).result.is_ok());
    let mut disabled = invite(None, "2025-01-31T00:00:00+00:00");
    disabled.disabled = true;
    assert!(check_available(Some(&disabled), now, "bob").is_err());
}

#[test]
fn registration_fields_are_checked() {
    assert_eq!(validate_registration("  alice ", "pw").unwrap(), "alice");
    assert_eq!(bad_request(validate_registration("   ", "pw")), "username and password are required");
    assert_eq!(bad_request(validate_registration("alice", "")), "username and password are required");
    assert_eq!(bad_request(validate_registration(&"字".repeat(33), "pw")), "username too long");
    assert!(validate_registration(&"字".repeat(32), "pw").is_ok());
    assert!(matches!(registered_user(UserInsert::UsernameTaken), Err(ApiError::Conflict(m)) if m == "username already taken"));
    assert_eq!(registered_user(UserInsert::Inserted(3)), Ok(3));
}

#[test]
fn password_hash_verifies_only_its_password() {
    let phc = hash_password("correct horse battery staple").unwrap();
    assert!(phc.starts_with("$argon2id$"));
    assert!(verify_password("correct horse battery staple", &phc));
    assert!(!verify_password("wrong", &phc));
    assert!(!verify_password("anything", "not a hash"));
    assert_eq!(login_user(Some((4, phc.clone())), "correct horse battery staple"), Ok(4));
    assert_eq!(login_user(Some((4, phc)), "wrong"), Err(ApiError::Unauthorized));
    assert_eq!(login_user(None, "x"), Err(ApiError::Unauthorized));
    assert_eq!(login_device(None), Err(ApiError::Unauthorized));
    assert_eq!(login_device(Some(9)), Ok(9));
}

#[test]
fn bearer_tokens_and_claims() {
    assert_eq!(bearer_token(Some("Bearer abc.def")), Some("abc.def"));
    assert_eq!(bearer_token(Some("bearer abc")), None);
    assert_eq!(bearer_token(Some("Bearer")), None);
    assert_eq!(bearer_token(None), None);
    let c = claims_for(1, 2, 1_700_000_000);
    assert_eq!((c.sub, c.device_id, c.exp), (1, 2, 1_700_000_000 + TOKEN_TTL_SECS));
    assert_eq!(TOKEN_TTL_SECS, 60 * 60 * 24 * 30);
}

#[test]
fn profile_update_is_trimmed_and_persisted() {
    let change = plan_profile_update(Some("data:image/png;base64,dGVzdA==".to_string()), Some("  加密系统工程师  ".to_string())).unwrap();
    assert_eq!(change.bio.as_deref(), Some("加密系统工程师"));
    assert_eq!(change.avatar.as_deref(), Some("data:image/png;base64,dGVzdA=="));
}

#[test]
fn profile_rejects_bio_over_120_characters() {
    assert_eq!(bad_request(plan_profile_update(None, Some("字".repeat(121)))), "bio too long");
}

#[test]
fn profile_update_rejects_oversized_avatar_and_empty_request() {
    assert!(plan_profile_update(None, Some("字".repeat(120))).is_ok());
    assert_eq!(bad_request(plan_profile_update(None, None)), "no profile fields supplied");
    assert_eq!(bad_request(plan_profile_update(Some("a".repeat(512 * 1024 + 1)), Some("x".to_string()))), "avatar too large");
    assert!(validate_avatar(&"a".repeat(512 * 1024)).is_ok());
    assert_eq!(normalize_bio(" hi ".to_string()).unwrap(), "hi");
}

#[test]
fn message_pages_are_clamped() {
    assert_eq!(message_page(None, None), (0, 100));
    assert_eq!(message_page(Some(42), Some(0)), (42, 1));
    assert_eq!(message_page(None, Some(10_000)), (0, 500));
    assert_eq!(message_page(None, Some(77)), (0, 77));
}

#[test]
fn conversations_need_another_user_and_rows_must_exist() {
    assert_eq!(bad_request(check_conversation_peer(3, 3)), "cannot chat with yourself");
    assert!(check_conversation_peer(3, 4).is_ok());
    assert_eq!(found(Some(5)), Ok(5));
    assert_eq!(found::<i64>(None), Err(ApiError::NotFound));
    assert_eq!(ApiError::NotFound.status_code(), 404);
    assert_eq!(ApiError::Conflict(String::new()).status_code(), 409);
}

#[test]
fn binary_fields_travel_as_base64() {
    assert_eq!(b64_encode(b"\xFF\xEC\x20\x55\0"), "/+wgVQA=");
    assert_eq!(b64_decode("+uwgVQA=").unwrap(), b"\xFA\xEC\x20\x55\0");
    assert_eq!(bad_request(b64_decode("not base64!")), "invalid base64");
}

#[test]
fn attachment_ids_are_32_hex_digits() {
    let id = random_attachment_id();
    assert_eq!(id.len(), 32);
    assert!(id.chars().all(|c| c.is_ascii_hexdigit() && !c.is_ascii_uppercase()));
    assert_ne!(id, random_attachment_id());
}

#[test]
fn newer_connection_replaces_older_one() {
    let mut registry: ConnectionRegistry<&str> = ConnectionRegistry::new();
    let first = registry.register(1, "first");
    let second = registry.register(1, "second");
    assert_ne!(first, second);
    assert_eq!(registry.sender(1), Some(&"second"));
    // The replaced connection's exit leaves the newer one in place.
    registry.unregister(1, first);
    assert_eq!(registry.sender(1), Some(&"second"));
    registry.unregister(1, second);
    assert_eq!(registry.sender(1), None);
}

#[test]
fn profile_requires_authentication() {
    assert!(matches!(authorization_token(None), Err(ApiError::Unauthorized)));
    assert!(matches!(authorization_token(Some("")), Err(ApiError::Unauthorized)));
    assert_eq!(authorization_token(Some("Bearer t.u.v")), Ok("t.u.v"));
}

fn respond_info(action: ConversationAction) -> ConversationInfo {
    match action {
        ConversationAction::Respond(info) => info,
        _ => panic!("expected an answer"),
    }
}

#[test]
fn conversation_is_created_once_and_then_reused() {
    let (_, refused) = ConversationFlow::start(3, 3, "eph".to_string());
    assert!(matches!(refused, ConversationAction::Fail(ApiError::BadRequest(ref m)) if m == "cannot chat with yourself"));

    let (mut missing, first) = ConversationFlow::start(3, 9, "eph".to_string());
    assert!(matches!(first, ConversationAction::FindPeer { peer_user_id: 9 }));
    assert!(matches!(missing.step(ConversationEvent::PeerFound(None)), ConversationAction::Fail(ApiError::NotFound)));

    // No shared conversation: one is created, the caller holding its key.
    let (mut fresh, _) = ConversationFlow::start(3, 4, "eph-a".to_string());
    let peer = Some(("bob".to_string(), Some("avatar".to_string())));
    assert!(matches!(fresh.step(ConversationEvent::PeerFound(peer.clone())), ConversationAction::FindExisting { me: 3, peer_user_id: 4 }));
    assert!(matches!(fresh.step(ConversationEvent::ExistingFound(None)), ConversationAction::CreateConversation));
    let created = ConversationEvent::ConversationCreated { conversation_id: 11, created_at: "t0".to_string() };
    match fresh.step(created) {
        ConversationAction::AddMember { conversation_id: 11, user_id: 3, ephemeral_pub: Some(k) } => assert_eq!(k, "eph-a"),
        _ => panic!("expected the initiator's membership"),
    }
    assert!(matches!(fresh.step(ConversationEvent::MemberAdded), ConversationAction::AddMember { conversation_id: 11, user_id: 4, ephemeral_pub: None }));
    let info = respond_info(fresh.step(ConversationEvent::MemberAdded));
    assert_eq!(
        (info.conversation_id, info.peer_user_id, info.peer_username.as_str(), info.ephemeral_pub, info.peer_avatar.as_deref(), info.created_at.as_str()),
        (11, 4, "bob", None, Some("avatar"), "t0")
    );

    // A shared conversation is answered as it is, with the peer's key.
    let (mut again, _) = ConversationFlow::start(4, 3, "eph-b".to_string());
    again.step(ConversationEvent::PeerFound(Some(("alice".to_string(), None))));
    assert!(matches!(again.step(ConversationEvent::ExistingFound(Some(11))), ConversationAction::LoadConversation { conversation_id: 11, peer_user_id: 3 }));
    let loaded = ConversationEvent::ConversationLoaded { ephemeral_pub: Some("eph-a".to_string()), created_at: "t0".to_string(), peer_avatar: None };
    let info = respond_info(again.step(loaded));
    assert_eq!((info.conversation_id, info.peer_username.as_str(), info.ephemeral_pub.as_deref()), (11, "alice", Some("eph-a")));

    let (mut broken, _) = ConversationFlow::start(1, 2, String::new());
    assert!(matches!(broken.step(ConversationEvent::Failed { text: "locked".to_string() }), ConversationAction::Fail(ApiError::Internal(ref m)) if m == "locked"));
}

#[test]
fn messages_are_stored_only_from_members_and_pushed_to_the_peer() {
    let (mut outsider, first) = SendFlow::start(3, 30, 11, "AAEC".to_string(), "AwQF".to_string());
    assert!(matches!(first, SendAction::CheckMember { conversation_id: 11, user_id: 3 }));
    assert!(matches!(outsider.step(SendEvent::MemberChecked { is_member: false }), SendAction::Fail(ApiError::NotFound)));

    let (mut garbled, _) = SendFlow::start(3, 30, 11, "AAEC".to_string(), "not base64!".to_string());
    assert_eq!(
        bad_request(match garbled.step(SendEvent::MemberChecked { is_member: true }) {
            SendAction::Fail(e) => Err::<(), ApiError>(e),
            _ => Ok(()),
        }),
        "invalid base64"
    );

    let (mut member, _) = SendFlow::start(3, 30, 11, "AAEC".to_string(), "AwQF".to_string());
    match member.step(SendEvent::MemberChecked { is_member: true }) {
        SendAction::StoreMessage { conversation_id, sender_device_id, ciphertext, nonce } => {
            assert_eq!((conversation_id, sender_device_id), (11, 30));
            assert_eq!((ciphertext, nonce), (vec![0, 1, 2], vec![3, 4, 5]));
        }
        _ => panic!("expected the message to be stored"),
    }
    assert!(matches!(member.step(SendEvent::MessageStored { message_id: 77, created_at: "t1".to_string() }), SendAction::FindPeer { conversation_id: 11, me: 3 }));
    match member.step(SendEvent::PeerFound(Some(4))) {
        SendAction::Deliver { record, push_to } => {
            assert_eq!(push_to, Some(4));
            assert_eq!((record.message_id, record.conversation_id, record.sender_device_id), (77, 11, 30));
            assert_eq!((record.ciphertext.as_str(), record.nonce.as_str(), record.created_at.as_str()), ("AAEC", "AwQF", "t1"));
        }
        _ => panic!("expected delivery"),
    }
}

#[test]
fn message_lists_are_paged_and_encoded() {
    let (mut outsider, _) = ListFlow::start(3, 11, MessageQuery { after: None, limit: None });
    assert!(matches!(outsider.step(ListEvent::MemberChecked { is_member: false }), ListAction::Fail(ApiError::NotFound)));

    let (mut member, first) = ListFlow::start(3, 11, MessageQuery { after: Some(5), limit: Some(1000) });
    assert!(matches!(first, ListAction::CheckMember { conversation_id: 11, user_id: 3 }));
    assert!(matches!(member.step(ListEvent::MemberChecked { is_member: true }), ListAction::ReadPage { conversation_id: 11, after: 5, limit: 500 }));
    let rows = vec![
        StoredMessage { message_id: 6, conversation_id: 11, sender_device_id: 30, ciphertext: vec![0, 1, 2], nonce: vec![3, 4, 5], created_at: "t1".to_string() },
        StoredMessage { message_id: 8, conversation_id: 11, sender_device_id: 40, ciphertext: vec![255], nonce: vec![], created_at: "t2".to_string() },
    ];
    match member.step(ListEvent::PageRead(rows)) {
        ListAction::Respond(records) => {
            assert_eq!(records.len(), 2);
            assert_eq!((records[0].message_id, records[0].ciphertext.as_str(), records[0].nonce.as_str()), (6, "AAEC", "AwQF"));
            assert_eq!((records[1].message_id, records[1].sender_device_id, records[1].ciphertext.as_str(), records[1].nonce.as_str()), (8, 40, "/w==", ""));
        }
        _ => panic!("expected records"),
    }
    assert!(encode_messages(Vec::new()).is_empty());
}


#[test]
fn socket_loop_only_pushes_and_stops_on_close_or_failure() {
    assert!(matches!(next_socket_action(SocketEvent::OtherFrame), SocketAction::Wait));
    assert!(matches!(next_socket_action(SocketEvent::Queued("m".to_string())), SocketAction::Send(ref t) if t == "m"));
    for event in [SocketEvent::CloseFrame, SocketEvent::ClientGone, SocketEvent::QueueClosed, SocketEvent::SendFailed] {
        assert!(matches!(next_socket_action(event), SocketAction::Disconnect));
    }
}

fn inserted_code(action: &InviteAction) -> (String, String) {
    match action {
        InviteAction::Insert { code_hash, code_prefix, created_by, max_uses, expires_at } => {
            assert_eq!((*created_by, *max_uses, expires_at.as_str()), (1, 1, "2025-01-31T00:00:00+00:00"));
            (code_hash.clone(), code_prefix.clone())
        }
        _ => panic!("expected an insert"),
    }
}

#[test]
fn invite_flow_stores_the_code_it_answers() {
    let (mut denied, first) = InviteFlow::start(2, 1_735_689_600, 0);
    assert!(matches!(first, InviteAction::FindUsername { user_id: 2 }));
    assert!(matches!(denied.step(InviteEvent::UsernameFound(Some("alice".to_string()))), InviteAction::Fail(ApiError::Forbidden)));

    let (mut flow, _) = InviteFlow::start(1, 1_735_689_600, 0);
    let first_insert = flow.step(InviteEvent::UsernameFound(Some("wangxin".to_string())));
    let (first_hash, first_prefix) = inserted_code(&first_insert);
    // A collision is retried with another code.
    let second_insert = flow.step(InviteEvent::Inserted(InsertOutcome::DuplicateCode));
    let (hash, prefix) = inserted_code(&second_insert);
    assert!(first_hash != hash || first_prefix != prefix);
    match flow.step(InviteEvent::Inserted(InsertOutcome::Inserted)) {
        InviteAction::Respond { code, expires_at } => {
            assert_eq!(hash_invite_code(&code).unwrap(), hash);
            assert_eq!(&code[..9], prefix);
            assert!(prefix.starts_with("JSJL-"));
            assert_eq!(expires_at, "2025-01-31T00:00:00+00:00");
        }
        _ => panic!("expected the code"),
    }

    // Five collisions in a row give up.
    let (mut unlucky, _) = InviteFlow::start(1, 1_735_689_600, 0);
    unlucky.step(InviteEvent::UsernameFound(Some("wangxin".to_string())));
    for _ in 0..4 {
        assert!(matches!(unlucky.step(InviteEvent::Inserted(InsertOutcome::DuplicateCode)), InviteAction::Insert { .. }));
    }
    assert!(matches!(unlucky.step(InviteEvent::Inserted(InsertOutcome::DuplicateCode)), InviteAction::Fail(ApiError::Internal(ref m)) if m == "failed to generate a unique invite code"));
}

#[test]
fn login_issues_a_token_only_for_the_right_password() {
    let phc = hash_password("correct horse battery staple").unwrap();
    let (mut flow, first) = LoginFlow::start("bob".to_string(), "correct horse battery staple".to_string(), None, None);
    assert!(matches!(first, LoginAction::FindAccount { ref username } if username == "bob"));
    assert!(matches!(flow.step(LoginEvent::AccountFound(Some((4, phc.clone())))), LoginAction::FindDevice { user_id: 4 }));
    assert!(matches!(flow.step(LoginEvent::DeviceFound(Some(9))), LoginAction::IssueToken { user_id: 4, device_id: 9 }));
    match flow.step(LoginEvent::TokenIssued { token: "t".to_string() }) {
        LoginAction::Respond { user_id, device_id, username, token } => {
            assert_eq!((user_id, device_id, username.as_str(), token.as_str()), (4, 9, "bob", "t"));
        }
        _ => panic!("expected an answer"),
    }

    let (mut wrong, _) = LoginFlow::start("bob".to_string(), "wrong".to_string(), None, None);
    assert!(matches!(wrong.step(LoginEvent::AccountFound(Some((4, phc)))), LoginAction::Fail(ApiError::Unauthorized)));
    let (mut unknown, _) = LoginFlow::start("nobody".to_string(), "pw".to_string(), None, None);
    assert!(matches!(unknown.step(LoginEvent::AccountFound(None)), LoginAction::Fail(ApiError::Unauthorized)));
    let (mut broken, _) = LoginFlow::start("bob".to_string(), "pw".to_string(), None, None);
    assert!(matches!(broken.step(LoginEvent::Failed { text: "io".to_string() }), LoginAction::Fail(ApiError::Internal(_))));
}

fn columns(names: &[&str]) -> Vec<String> {
    names.iter().map(|n| n.to_string()).collect()
}

const USERS: &[&str] = &["id", "username", "password_hash", "avatar", "bio", "created_at"];
const LEGACY_USERS: &[&str] = &["id", "username", "password_hash", "avatar", "created_at"];
const INVITES: &[&str] = &[
    "id", "code_hash", "code_prefix", "created_by_user_id", "restricted_username", "max_uses", "used_count", "expires_at",
    "disabled", "created_at",
];
const LEGACY_INVITES: &[&str] = &[
    "id", "code_hash", "code_prefix", "created_by_user_id", "max_uses", "used_count", "expires_at", "disabled", "created_at",
];

#[test]
fn creates_profile_column_on_a_new_database() {
    // A new database gets every column from the schema itself.
    assert!(column_upgrades(&columns(USERS), &columns(INVITES)).is_empty());
}

#[test]
fn upgrades_a_legacy_users_table_without_losing_data() {
    assert_eq!(column_upgrades(&columns(LEGACY_USERS), &columns(INVITES)), vec![ADD_BIO_COLUMN]);
    assert_eq!(ADD_BIO_COLUMN, "ALTER TABLE users ADD COLUMN bio TEXT NOT NULL DEFAULT ''");
    let mut upgraded = columns(LEGACY_USERS);
    upgraded.push("bio".to_string());
    assert!(column_upgrades(&upgraded, &columns(INVITES)).is_empty());
}

#[test]
fn adds_restricted_username_to_an_existing_invite_table() {
    assert_eq!(column_upgrades(&columns(USERS), &columns(LEGACY_INVITES)), vec![ADD_RESTRICTED_USERNAME_COLUMN]);
    assert_eq!(
        column_upgrades(&columns(LEGACY_USERS), &columns(LEGACY_INVITES)),
        vec![ADD_BIO_COLUMN, ADD_RESTRICTED_USERNAME_COLUMN]
    );
    let mut upgraded = columns(LEGACY_INVITES);
    upgraded.push("restricted_username".to_string());
    assert!(column_upgrades(&columns(USERS), &upgraded).is_empty());
}

#[test]
fn attachments_travel_as_base64_and_missing_ones_are_not_found() {
    let upload = plan_attachment_upload("AAEC", "AwQF", 3).unwrap();
    assert_eq!((upload.ciphertext, upload.nonce, upload.size), (vec![0, 1, 2], vec![3, 4, 5], 3));
    assert_eq!(upload.id.len(), 32);
    assert_eq!(bad_request(plan_attachment_upload("AAEC", "??", 3)), "invalid base64");
    assert_eq!(bad_request(plan_attachment_upload("??", "AwQF", 3)), "invalid base64");
    assert_eq!(plan_attachment_upload("", "", u64::MAX).unwrap().size, -1);

    assert!(matches!(attachment_download(None), Err(ApiError::NotFound)));
    let answer = attachment_download(Some((vec![0, 1, 2], vec![3, 4, 5], "image/png".to_string(), 3))).unwrap();
    assert_eq!(
        (answer.ciphertext.as_str(), answer.nonce.as_str(), answer.mime_type.as_str(), answer.size),
        ("AAEC", "AwQF", "image/png", 3)
    );
}

#[test]
fn login_binds_the_first_device_of_a_pre_provisioned_account() {
    let phc = hash_password("pw").unwrap();
    let device = (Some("laptop".to_string()), Some("id.sig".to_string()));
    let (mut flow, _) = LoginFlow::start("bob".to_string(), "pw".to_string(), device.0.clone(), device.1.clone());
    assert!(matches!(flow.step(LoginEvent::AccountFound(Some((4, phc.clone())))), LoginAction::FindDevice { user_id: 4 }));
    match flow.step(LoginEvent::DeviceFound(None)) {
        LoginAction::InsertDevice { user_id, device_name, public_identity } => {
            assert_eq!((user_id, device_name.as_str(), public_identity.as_str()), (4, "laptop", "id.sig"));
        }
        _ => panic!("expected the first device to be bound"),
    }
    assert!(matches!(flow.step(LoginEvent::DeviceInserted { device_id: 12 }), LoginAction::IssueToken { user_id: 4, device_id: 12 }));
    match flow.step(LoginEvent::TokenIssued { token: "t".to_string() }) {
        LoginAction::Respond { device_id, .. } => assert_eq!(device_id, 12),
        _ => panic!("expected an answer"),
    }
    // Without both fields there is nothing to bind.
    let (mut bare, _) = LoginFlow::start("bob".to_string(), "pw".to_string(), Some("laptop".to_string()), None);
    bare.step(LoginEvent::AccountFound(Some((4, phc))));
    assert!(matches!(bare.step(LoginEvent::DeviceFound(None)), LoginAction::Fail(ApiError::Unauthorized)));
}

#[test]
fn invites_expire_thirty_days_after_creation() {
    assert_eq!(INVITE_VALID_SECS, INVITE_VALID_DAYS * 24 * 60 * 60);
    let (flow, _) = InviteFlow::start(1, 1_735_689_600, 123_000_000);
    assert_eq!(flow.expires_at, "2025-01-31T00:00:00.123+00:00");
}


#[test]
fn a_window_admits_at_most_max_requests() {
    let mut limiter = AuthRateLimiter::new();
    let policy = Policy { name: "test", max_requests: 3, window_nanos: 60 * NANOS_PER_SEC };
    let ip = ClientIp::V4([198, 51, 100, 7]);
    let admitted = (0..10u64).filter(|k| limiter.check(ip, policy, k * NANOS_PER_SEC).is_ok()).count();
    assert_eq!(admitted, 3);
}

#[test]
fn chrono_range_matches_its_stated_bounds() {
    assert!(chrono::DateTime::from_timestamp(CHRONO_MIN_UNIX_SECS, 0).is_some());
    assert!(chrono::DateTime::from_timestamp(CHRONO_MIN_UNIX_SECS - 1, 0).is_none());
    assert!(chrono::DateTime::from_timestamp(CHRONO_MAX_UNIX_SECS, 999_999_999).is_some());
    assert!(chrono::DateTime::from_timestamp(CHRONO_MAX_UNIX_SECS + 1, 0).is_none());
}

