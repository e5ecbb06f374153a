//! Registration, login, and token claims: the decisions that the relay
//! server's account endpoints make on what they are handed.
use vstd::prelude::*;

use crate::error::{is_bad_request, is_conflict, ApiError};
use crate::invites::{check_available, claim, claim_outcome, hash_invite_code, invalid_code_message, invite_available, invite_code_hash, InviteRecord};
use crate::primitives::{argon2_hash_password, argon2_password_matches, argon2_verify_password};
use crate::text::{str_equal, trim, trimmed};

verus! {

/// Seconds for which an issued token is valid (30 days).
pub const TOKEN_TTL_SECS: usize = 2_592_000;

/// Longest accepted username, in characters.
pub const MAX_USERNAME_CHARS: usize = 32;

/// The claims of an access token.
#[derive(Debug, Clone, Copy, PartialEq, Eq)]
pub struct Claims {
    /// The user id.
    pub sub: i64,
    pub device_id: i64,
    /// Expiry, in seconds since the Unix epoch.
    pub exp: usize,
}

/// The claims of a token issued at `now_secs` (seconds since the Unix
/// epoch) for a user's device: valid for [`TOKEN_TTL_SECS`].
pub fn claims_for(user_id: i64, device_id: i64, now_secs: usize) -> (claims: Claims)
    requires
        now_secs + TOKEN_TTL_SECS <= usize::MAX,
    ensures
        claims.sub == user_id,
        claims.device_id == device_id,
        claims.exp == now_secs + TOKEN_TTL_SECS,
{
    Claims { sub: user_id, device_id, exp: now_secs + TOKEN_TTL_SECS }
}

/// The token of an `Authorization` header value of the form `Bearer <token>`.
pub open spec fn bearer_of(header: Seq<char>) -> Option<Seq<char>> {
    if header.len() >= 7 && header.take(7) == "Bearer "@ {
        Some(header.skip(7))
    } else {
        None
    }
}

/// The scheme and the token make up the header exactly: stripping `Bearer `
/// gives back the whole token that follows it, whatever its length, and a
/// header yields a token only when it is `Bearer ` followed by that token.
pub proof fn lemma_bearer_round_trip(token: Seq<char>, header: Seq<char>)
    ensures
        bearer_of("Bearer "@ + token) == Some(token),
        bearer_of(header) matches Some(t) ==> header == "Bearer "@ + t,
{
    reveal_strlit("Bearer ");
    let h = "Bearer "@ + token;
    assert(h.take(7) =~= "Bearer "@);
    assert(h.skip(7) =~= token);
    if bearer_of(header) is Some {
        assert(header =~= "Bearer "@ + header.skip(7));
    }
}

/// The token carried by an `Authorization` header, if any.
pub fn bearer_token(header: Option<&str>) -> (token: Option<&str>)
    ensures
        token is Some <==> (header matches Some(h) && bearer_of(h@) is Some),
        token matches Some(t) ==> header matches Some(h) && Some(t@) == bearer_of(h@),
{
    match header {
        None => None,
        Some(h) => {
            let n = h.unicode_len();
            if n < 7 {
                return None;
            }
            let head = h.substring_char(0, 7);
            if str_equal(head, "Bearer ") {
                Some(h.substring_char(7, n))
            } else {
                None
            }
        },
    }
}

/// The token that authenticates a request: a request whose `Authorization`
/// header is missing or carries no bearer token is `Unauthorized`.
pub fn authorization_token<'a>(header: Option<&'a str>) -> (res: Result<&'a str, ApiError>)
    ensures
        res is Ok <==> (header matches Some(h) && bearer_of(h@) is Some),
        res matches Ok(t) ==> header matches Some(h) && Some(t@) == bearer_of(h@),
        res is Err ==> res == Err::<&'a str, ApiError>(ApiError::Unauthorized),
{
    match bearer_token(header) {
        Some(token) => Ok(token),
        None => Err(ApiError::Unauthorized),
    }
}

/// The username and password of a registration, as accepted.
pub open spec fn registration_username(username: Seq<char>, password: Seq<char>) -> Option<Seq<char>> {
    let name = trimmed(username);
    if name.len() == 0 || password.len() == 0 || name.len() > MAX_USERNAME_CHARS {
        None
    } else {
        Some(name)
    }
}

/// Check the fields of a registration: the username is trimmed, both fields
/// must be non-empty, and the username may hold at most 32 characters.
pub fn validate_registration(username: &str, password: &str) -> (res: Result<String, ApiError>)
    ensures
        res is Ok <==> registration_username(username@, password@) is Some,
        res matches Ok(name) ==> Some(name@) == registration_username(username@, password@),
        (trimmed(username@).len() == 0 || password@.len() == 0) ==> is_bad_request(
            res,
            "username and password are required"@,
        ),
        (trimmed(username@).len() != 0 && password@.len() != 0 && trimmed(username@).len()
            > MAX_USERNAME_CHARS) ==> is_bad_request(res, "username too long"@),
{
    let name = trim(username);
    if name.is_empty() || password.is_empty() {
        return Err(ApiError::BadRequest(String::from_str("username and password are required")));
    }
    if name.unicode_len() > MAX_USERNAME_CHARS {
        return Err(ApiError::BadRequest(String::from_str("username too long")));
    }
    Ok(String::from_str(name))
}

/// Hash a password with Argon2 (default parameters) under a fresh random
/// salt, as a PHC string. The password verifies against the result; only a
/// password of more than `u32::MAX` bytes is refused.
pub fn hash_password(password: &str) -> (res: Result<String, ApiError>)
    ensures
        res is Ok <==> vstd::utf8::encode_utf8(password@).len() <= u32::MAX,
        res matches Ok(phc) ==> argon2_password_matches(vstd::utf8::encode_utf8(password@), phc@),
        res matches Err(e) ==> e is Internal,
{
    match argon2_hash_password(password.as_bytes()) {
        Ok(phc) => Ok(phc),
        Err(e) => Err(ApiError::Internal(String::from_str("password hashing failed: ").concat(e.to_string().as_str()))),
    }
}

/// Whether a password matches a stored PHC hash (a hash that does not parse
/// matches nothing).
pub fn verify_password(password: &str, hash: &str) -> (ok: bool)
    ensures
        ok == argon2_password_matches(vstd::utf8::encode_utf8(password@), hash@),
{
    argon2_verify_password(password.as_bytes(), hash)
}

/// What inserting a new user gave.
pub enum UserInsert {
    Inserted(i64),
    UsernameTaken,
    Failed(String),
}

/// The user id of a registration, or why it failed: a taken username is a
/// conflict.
pub fn registered_user(outcome: UserInsert) -> (res: Result<i64, ApiError>)
    ensures
        outcome matches UserInsert::Inserted(id) ==> res == Ok::<i64, ApiError>(id),
        outcome is UsernameTaken ==> is_conflict(res, "username already taken"@),
        outcome matches UserInsert::Failed(text) ==> res matches Err(ApiError::Internal(m)) && m@ == text@,
{
    match outcome {
        UserInsert::Inserted(id) => Ok(id),
        UserInsert::UsernameTaken => Err(ApiError::Conflict(String::from_str("username already taken"))),
        UserInsert::Failed(text) => Err(ApiError::Internal(text)),
    }
}

/// The user that a login authenticates: the account found for the username
/// (its id and stored hash) must exist and the password must match the hash;
/// every other case is `Unauthorized`.
pub fn login_user(account: Option<(i64, String)>, password: &str) -> (res: Result<i64, ApiError>)
    ensures
        res is Ok <==> (account matches Some((id, phc)) && argon2_password_matches(
            vstd::utf8::encode_utf8(password@),
            phc@,
        )),
        res matches Ok(id) ==> account matches Some((user_id, _)) && id == user_id,
        res is Err ==> res == Err::<i64, ApiError>(ApiError::Unauthorized),
{
    match account {
        None => Err(ApiError::Unauthorized),
        Some((user_id, phc)) => if verify_password(password, phc.as_str()) {
            Ok(user_id)
        } else {
            Err(ApiError::Unauthorized)
        },
    }
}

/// The device that a login's token is issued for: the user's first device;
/// a user without a device is `Unauthorized`.
pub fn login_device(first_device: Option<i64>) -> (res: Result<i64, ApiError>)
    ensures
        first_device matches Some(d) ==> res == Ok::<i64, ApiError>(d),
        first_device is None ==> res == Err::<i64, ApiError>(ApiError::Unauthorized),
{
    match first_device {
        Some(d) => Ok(d),
        None => Err(ApiError::Unauthorized),
    }
}

/// Where a registration stands: what it waits for next.
pub enum RegisterStage {
    /// Waiting for the invitation stored under the code's hash.
    CheckInvite,
    /// The password is hashed; waiting for the store to open a transaction.
    BeginTransaction,
    /// Waiting for the invitation, read again inside the transaction.
    ClaimInvite,
    /// Waiting for the store to write the invitation's new use count.
    WriteClaim { invite_id: i64 },
    /// Waiting for the new user's row.
    InsertUser { invite_id: i64 },
    /// Waiting for the new device's row.
    InsertDevice { invite_id: i64, user_id: i64 },
    /// Waiting for the row that records the redemption.
    RecordRedemption { user_id: i64, device_id: i64 },
    /// Waiting for the transaction to commit.
    Commit { user_id: i64, device_id: i64 },
    /// Waiting for the access token.
    IssueToken { user_id: i64, device_id: i64 },
    /// Answered or refused: nothing more happens.
    Finished,
}

/// What the server must do next for a registration.
pub enum RegisterAction {
    /// Read the invitation stored under this hash (outside any transaction).
    FindInvite { code_hash: String },
    /// Open the store's transaction.
    BeginTransaction,
    /// Read the invitation stored under this hash inside the transaction.
    FindInviteInTransaction { code_hash: String },
    /// Inside the transaction, set the invitation's use count to `used_count`,
    /// provided it still is `previous_count`.
    WriteClaim { invite_id: i64, used_count: i64, previous_count: i64 },
    /// Inside the transaction, insert the user.
    InsertUser { username: String, password_hash: String },
    /// Inside the transaction, insert the request's device for the user.
    InsertDevice { user_id: i64 },
    /// Inside the transaction, record that the user redeemed the invitation.
    RecordRedemption { invite_id: i64, user_id: i64 },
    /// Commit the transaction.
    Commit,
    /// Issue an access token for the user's device.
    IssueToken { user_id: i64, device_id: i64 },
    /// Answer `201 Created` with the account and its token.
    Respond { user_id: i64, device_id: i64, username: String, token: String },
    /// Refuse the request; an open transaction is rolled back.
    Fail(ApiError),
}

/// What the server reports back after doing an action.
pub enum RegisterEvent {
    /// The invitation found under the hash, if any, and the time of the read
    /// (RFC 3339).
    InviteFound { invite: Option<InviteRecord>, now: String },
    TransactionBegun,
    /// How many rows the conditional write of the use count changed.
    ClaimWritten { rows_affected: u64 },
    UserInserted(UserInsert),
    DeviceInserted { device_id: i64 },
    RedemptionRecorded,
    Committed,
    TokenIssued { token: String },
    /// The store (or the token encoder) failed; the text describes the failure.
    Failed { text: String },
}

/// A registration in progress: the accepted username, the password, the
/// invitation's hash and, once computed, the password's hash. The ghost
/// fields record which of the registration's steps have succeeded.
pub struct RegisterFlow {
    pub username: String,
    pub password: String,
    pub code_hash: String,
    pub password_hash: String,
    pub stage: RegisterStage,
    /// The invitation was found available to the username outside the
    /// transaction, and only then was the password hashed.
    pub invite_checked: Ghost<bool>,
    /// The conditional write of the use count changed exactly one row.
    pub claimed: Ghost<bool>,
    pub user_inserted: Ghost<bool>,
    pub device_inserted: Ghost<bool>,
    pub redemption_recorded: Ghost<bool>,
    pub committed: Ghost<bool>,
}

/// Whether an action refuses with `BadRequest` and the given message.
pub open spec fn refuses_bad_request(action: RegisterAction, message: Seq<char>) -> bool {
    match action {
        RegisterAction::Fail(ApiError::BadRequest(m)) => m@ == message,
        _ => false,
    }
}

/// Whether an action refuses with an internal error.
pub open spec fn refuses_internally(action: RegisterAction) -> bool {
    action matches RegisterAction::Fail(ApiError::Internal(_))
}

/// The message that refuses the fields of a registration, if any.
pub open spec fn registration_refusal(username: Seq<char>, password: Seq<char>) -> Option<Seq<char>> {
    if trimmed(username).len() == 0 || password.len() == 0 {
        Some("username and password are required"@)
    } else if trimmed(username).len() > MAX_USERNAME_CHARS {
        Some("username too long"@)
    } else {
        None
    }
}

impl RegisterFlow {
    /// The steps that have succeeded agree with the stage, and the stored
    /// password hash verifies the password once it was computed.
    pub open spec fn wf(&self) -> bool {
        let checked = self.invite_checked@;
        let claimed = self.claimed@;
        let user = self.user_inserted@;
        let device = self.device_inserted@;
        let redeemed = self.redemption_recorded@;
        let committed = self.committed@;
        &&& checked ==> argon2_password_matches(vstd::utf8::encode_utf8(self.password@), self.password_hash@)
        &&& match self.stage {
            RegisterStage::CheckInvite => !checked && !claimed && !user && !device && !redeemed && !committed,
            RegisterStage::BeginTransaction | RegisterStage::ClaimInvite | RegisterStage::WriteClaim { .. } =>
                checked && !claimed && !user && !device && !redeemed && !committed,
            RegisterStage::InsertUser { .. } => checked && claimed && !user && !device && !redeemed && !committed,
            RegisterStage::InsertDevice { .. } => checked && claimed && user && !device && !redeemed && !committed,
            RegisterStage::RecordRedemption { .. } => checked && claimed && user && device && !redeemed
                && !committed,
            RegisterStage::Commit { .. } => checked && claimed && user && device && redeemed && !committed,
            RegisterStage::IssueToken { .. } => checked && claimed && user && device && redeemed && committed,
            RegisterStage::Finished => committed ==> (checked && claimed && user && device && redeemed),
        }
    }

    /// Whether the registration waits for this event: each stage waits for
    /// the report of its own action, and any stage but the last may report
    /// a failure.
    pub open spec fn expects(&self, event: RegisterEvent) -> bool {
        match (self.stage, event) {
            (RegisterStage::Finished, _) => false,
            (_, RegisterEvent::Failed { .. }) => true,
            (RegisterStage::CheckInvite, RegisterEvent::InviteFound { .. }) => true,
            (RegisterStage::BeginTransaction, RegisterEvent::TransactionBegun) => true,
            (RegisterStage::ClaimInvite, RegisterEvent::InviteFound { .. }) => true,
            (RegisterStage::WriteClaim { .. }, RegisterEvent::ClaimWritten { .. }) => true,
            (RegisterStage::InsertUser { .. }, RegisterEvent::UserInserted(_)) => true,
            (RegisterStage::InsertDevice { .. }, RegisterEvent::DeviceInserted { .. }) => true,
            (RegisterStage::RecordRedemption { .. }, RegisterEvent::RedemptionRecorded) => true,
            (RegisterStage::Commit { .. }, RegisterEvent::Committed) => true,
            (RegisterStage::IssueToken { .. }, RegisterEvent::TokenIssued { .. }) => true,
            _ => false,
        }
    }

    /// Begin a registration: the fields are checked (see
    /// [`validate_registration`]) and the invitation code is hashed (see
    /// [`hash_invite_code`]) before anything is read from the store.
    pub fn start(username: &str, password: &str, invite_code: &str) -> (res: (RegisterFlow, RegisterAction))
        ensures
            res.0.wf(),
            match registration_refusal(username@, password@) {
                Some(message) => refuses_bad_request(res.1, message) && res.0.stage is Finished,
                None => match invite_code_hash(invite_code@) {
                    None => refuses_bad_request(res.1, invalid_code_message()) && res.0.stage is Finished,
                    Some(h) => res.1 matches RegisterAction::FindInvite { code_hash } && code_hash@ == h
                        && res.0.stage is CheckInvite && res.0.code_hash@ == h && Some(res.0.username@)
                        == registration_username(username@, password@) && res.0.password@ == password@,
                },
            },
    {
        let mut flow = RegisterFlow {
            username: String::new(),
            password: String::from_str(password),
            code_hash: String::new(),
            password_hash: String::new(),
            stage: RegisterStage::Finished,
            invite_checked: Ghost(false),
            claimed: Ghost(false),
            user_inserted: Ghost(false),
            device_inserted: Ghost(false),
            redemption_recorded: Ghost(false),
            committed: Ghost(false),
        };
        let name = match validate_registration(username, password) {
            Ok(name) => name,
            Err(e) => return (flow, RegisterAction::Fail(e)),
        };
        let code_hash = match hash_invite_code(invite_code) {
            Ok(h) => h,
            Err(e) => return (flow, RegisterAction::Fail(e)),
        };
        flow.username = name;
        flow.code_hash = code_hash.clone();
        flow.stage = RegisterStage::CheckInvite;
        (flow, RegisterAction::FindInvite { code_hash })
    }

    /// Advance the registration by the report of its last action and say
    /// what to do next. In order: the invitation must be available to the
    /// username before the password is hashed; inside the transaction the
    /// invitation is read again and redeemed (see [`claim`]), its use count
    /// written only over the count it was read with, which must change exactly
    /// one row; then the user (a taken username is a conflict), its device and
    /// the redemption are inserted, the transaction commits, and a token is
    /// issued. Any failure refuses the request; the transaction commits only
    /// after every write succeeded.
    pub fn step(&mut self, event: RegisterEvent) -> (action: RegisterAction)
        requires
            old(self).wf(),
            old(self).expects(event),
        ensures
            final(self).wf(),
            final(self).username == old(self).username,
            final(self).password == old(self).password,
            final(self).code_hash == old(self).code_hash,
            action is Fail ==> final(self).stage is Finished,
            action is Respond ==> final(self).stage is Finished,
            // The password is hashed only once the invitation was found available.
            action is BeginTransaction ==> final(self).invite_checked@ && argon2_password_matches(
                vstd::utf8::encode_utf8(final(self).password@),
                final(self).password_hash@,
            ),
            // The transaction commits only after the claim, the user, the device
            // and the redemption were all written.
            action is Commit ==> final(self).claimed@ && final(self).user_inserted@ && final(self).device_inserted@
                && final(self).redemption_recorded@,
            // A refusal rolls back an uncommitted transaction: only a token that
            // cannot be issued refuses a registration that has committed.
            action is Fail && !(old(self).stage is IssueToken) ==> !final(self).committed@,
            // The use count is written at most once per registration.
            action is WriteClaim ==> !old(self).claimed@ && !final(self).claimed@,
            match (old(self).stage, event) {
                (_, RegisterEvent::Failed { text }) => action matches RegisterAction::Fail(ApiError::Internal(m))
                    && m@ == text@ && final(self).committed@ == old(self).committed@,
                (RegisterStage::CheckInvite, RegisterEvent::InviteFound { invite, now }) => if invite matches Some(
                    i,
                ) && invite_available(i, now@, old(self).username@) {
                    if vstd::utf8::encode_utf8(old(self).password@).len() <= u32::MAX {
                        action is BeginTransaction && final(self).stage is BeginTransaction
                            && final(self).invite_checked@ && argon2_password_matches(
                            vstd::utf8::encode_utf8(old(self).password@),
                            final(self).password_hash@,
                        )
                    } else {
                        refuses_internally(action)
                    }
                } else {
                    refuses_bad_request(action, invalid_code_message())
                },
                (RegisterStage::BeginTransaction, RegisterEvent::TransactionBegun) =>
                    action matches RegisterAction::FindInviteInTransaction { code_hash } && code_hash
                    == old(self).code_hash && final(self).stage is ClaimInvite,
                (RegisterStage::ClaimInvite, RegisterEvent::InviteFound { invite, now }) => match invite {
                    Some(i) => if invite_available(i, now@, old(self).username@) {
                        action == (RegisterAction::WriteClaim {
                            invite_id: i.id,
                            used_count: (i.used_count + 1) as i64,
                            previous_count: i.used_count,
                        }) && final(self).stage == (RegisterStage::WriteClaim { invite_id: i.id })
                    } else {
                        refuses_bad_request(action, invalid_code_message())
                    },
                    None => refuses_bad_request(action, invalid_code_message()),
                },
                (RegisterStage::WriteClaim { invite_id }, RegisterEvent::ClaimWritten { rows_affected }) =>
                    if rows_affected == 1 {
                    action matches RegisterAction::InsertUser { username, password_hash } && username
                        == old(self).username && password_hash == old(self).password_hash && final(self).stage
                        == (RegisterStage::InsertUser { invite_id }) && final(self).claimed@
                } else {
                    refuses_bad_request(action, invalid_code_message())
                },
                (RegisterStage::InsertUser { invite_id }, RegisterEvent::UserInserted(outcome)) => match outcome {
                    UserInsert::Inserted(user_id) => action == (RegisterAction::InsertDevice { user_id })
                        && final(self).stage == (RegisterStage::InsertDevice { invite_id, user_id })
                        && final(self).user_inserted@,
                    UserInsert::UsernameTaken => action matches RegisterAction::Fail(ApiError::Conflict(m)) && m@
                        == "username already taken"@,
                    UserInsert::Failed(text) => action matches RegisterAction::Fail(ApiError::Internal(m)) && m@
                        == text@,
                },
                (
                    RegisterStage::InsertDevice { invite_id, user_id },
                    RegisterEvent::DeviceInserted { device_id },
                ) => action == (RegisterAction::RecordRedemption { invite_id, user_id }) && final(self).stage == (
                RegisterStage::RecordRedemption { user_id, device_id }) && final(self).device_inserted@,
                (
                    RegisterStage::RecordRedemption { user_id, device_id },
                    RegisterEvent::RedemptionRecorded,
                ) => action is Commit && final(self).stage == (RegisterStage::Commit { user_id, device_id })
                    && final(self).redemption_recorded@,
                (RegisterStage::Commit { user_id, device_id }, RegisterEvent::Committed) => action == (
                RegisterAction::IssueToken { user_id, device_id }) && final(self).stage == (
                RegisterStage::IssueToken { user_id, device_id }) && final(self).committed@,
                (RegisterStage::IssueToken { user_id, device_id }, RegisterEvent::TokenIssued { token }) =>
                    action matches RegisterAction::Respond { user_id: u, device_id: d, username, token: t } && u
                    == user_id && d == device_id && username == old(self).username && t == token,
                _ => false,
            },
    {
        let mut stage = RegisterStage::Finished;
        std::mem::swap(&mut stage, &mut self.stage);
        match (stage, event) {
            (_, RegisterEvent::Failed { text }) => RegisterAction::Fail(ApiError::Internal(text)),
            (RegisterStage::CheckInvite, RegisterEvent::InviteFound { invite, now }) => {
                match check_available(invite.as_ref(), now.as_str(), self.username.as_str()) {
                    Ok(()) => {},
                    Err(e) => return RegisterAction::Fail(e),
                }
                match hash_password(self.password.as_str()) {
                    Ok(phc) => {
                        self.password_hash = phc;
                        self.invite_checked = Ghost(true);
                        self.stage = RegisterStage::BeginTransaction;
                        RegisterAction::BeginTransaction
                    },
                    Err(e) => RegisterAction::Fail(e),
                }
            },
            (RegisterStage::BeginTransaction, RegisterEvent::TransactionBegun) => {
                self.stage = RegisterStage::ClaimInvite;
                RegisterAction::FindInviteInTransaction { code_hash: self.code_hash.clone() }
            },
            (RegisterStage::ClaimInvite, RegisterEvent::InviteFound { invite, now }) => {
                let previous_count = match &invite {
                    Some(i) => i.used_count,
                    None => 0,
                };
                match claim(invite, now.as_str(), self.username.as_str()) {
                    Ok(updated) => {
                        self.stage = RegisterStage::WriteClaim { invite_id: updated.id };
                        RegisterAction::WriteClaim {
                            invite_id: updated.id,
                            used_count: updated.used_count,
                            previous_count,
                        }
                    },
                    Err(e) => RegisterAction::Fail(e),
                }
            },
            (RegisterStage::WriteClaim { invite_id }, RegisterEvent::ClaimWritten { rows_affected }) => {
                match claim_outcome(rows_affected) {
                    Ok(()) => {},
                    Err(e) => return RegisterAction::Fail(e),
                }
                self.claimed = Ghost(true);
                self.stage = RegisterStage::InsertUser { invite_id };
                RegisterAction::InsertUser {
                    username: self.username.clone(),
                    password_hash: self.password_hash.clone(),
                }
            },
            (RegisterStage::InsertUser { invite_id }, RegisterEvent::UserInserted(outcome)) => {
                match registered_user(outcome) {
                    Ok(user_id) => {
                        self.user_inserted = Ghost(true);
                        self.stage = RegisterStage::InsertDevice { invite_id, user_id };
                        RegisterAction::InsertDevice { user_id }
                    },
                    Err(e) => RegisterAction::Fail(e),
                }
            },
            (RegisterStage::InsertDevice { invite_id, user_id }, RegisterEvent::DeviceInserted { device_id }) => {
                self.device_inserted = Ghost(true);
                self.stage = RegisterStage::RecordRedemption { user_id, device_id };
                RegisterAction::RecordRedemption { invite_id, user_id }
            },
            (RegisterStage::RecordRedemption { user_id, device_id }, RegisterEvent::RedemptionRecorded) => {
                self.redemption_recorded = Ghost(true);
                self.stage = RegisterStage::Commit { user_id, device_id };
                RegisterAction::Commit
            },
            (RegisterStage::Commit { user_id, device_id }, RegisterEvent::Committed) => {
                self.committed = Ghost(true);
                self.stage = RegisterStage::IssueToken { user_id, device_id };
                RegisterAction::IssueToken { user_id, device_id }
            },
            (RegisterStage::IssueToken { user_id, device_id }, RegisterEvent::TokenIssued { token }) => {
                RegisterAction::Respond { user_id, device_id, username: self.username.clone(), token }
            },
            (_, _) => {
                proof {
                    assert(false);
                }
                RegisterAction::Fail(ApiError::Internal(String::new()))
            },
        }
    }
}

/// Where a login stands: what it waits for next.
pub enum LoginStage {
    /// Waiting for the account of the username (its id and password hash).
    FindAccount,
    /// The password matched; waiting for the user's first device.
    FindDevice { user_id: i64 },
    /// The user had no device; waiting for the one the request binds.
    BindDevice { user_id: i64 },
    /// Waiting for the access token.
    IssueToken { user_id: i64, device_id: i64 },
    /// Answered or refused: nothing more happens.
    Finished,
}

/// What the server must do next for a login.
pub enum LoginAction {
    /// Read the id and password hash of the account with this username.
    FindAccount { username: String },
    /// Read the user's device with the lowest id.
    FindDevice { user_id: i64 },
    /// Insert the user's first device, with the name and public identity that
    /// the request supplied.
    InsertDevice { user_id: i64, device_name: String, public_identity: String },
    /// Issue an access token for the user's device.
    IssueToken { user_id: i64, device_id: i64 },
    /// Answer with the account and its token.
    Respond { user_id: i64, device_id: i64, username: String, token: String },
    /// Refuse the request.
    Fail(ApiError),
}

/// What the server reports back after doing an action.
pub enum LoginEvent {
    AccountFound(Option<(i64, String)>),
    DeviceFound(Option<i64>),
    DeviceInserted { device_id: i64 },
    TokenIssued { token: String },
    /// The store (or the token encoder) failed; the text describes the failure.
    Failed { text: String },
}

/// A login with a username and a password, and optionally the name and
/// public identity of a device to bind when the account has none yet. The
/// ghost field holds the stored hash that the password matched, once it did.
pub struct LoginFlow {
    pub username: String,
    pub password: String,
    pub device_name: Option<String>,
    pub public_identity: Option<String>,
    pub stage: LoginStage,
    pub matched_hash: Ghost<Option<Seq<char>>>,
}

impl LoginFlow {
    /// Past the password check, the password matched the stored hash.
    pub open spec fn wf(&self) -> bool {
        match self.stage {
            LoginStage::FindDevice { .. } | LoginStage::BindDevice { .. } | LoginStage::IssueToken {
                ..
            } => self.matched_hash@ matches Some(h)
                && argon2_password_matches(vstd::utf8::encode_utf8(self.password@), h),
            _ => true,
        }
    }

    /// Whether the login waits for this event.
    pub open spec fn expects(&self, event: LoginEvent) -> bool {
        match (self.stage, event) {
            (LoginStage::Finished, _) => false,
            (_, LoginEvent::Failed { .. }) => true,
            (LoginStage::FindAccount, LoginEvent::AccountFound(_)) => true,
            (LoginStage::FindDevice { .. }, LoginEvent::DeviceFound(_)) => true,
            (LoginStage::BindDevice { .. }, LoginEvent::DeviceInserted { .. }) => true,
            (LoginStage::IssueToken { .. }, LoginEvent::TokenIssued { .. }) => true,
            _ => false,
        }
    }

    /// Begin a login: first the account is read.
    pub fn start(username: String, password: String, device_name: Option<String>, public_identity: Option<String>) -> (res: (
        LoginFlow,
        LoginAction,
    ))
        ensures
            res.0.wf(),
            res.0.username == username,
            res.0.password == password,
            res.0.device_name == device_name,
            res.0.public_identity == public_identity,
            res.0.stage is FindAccount,
            res.1 == (LoginAction::FindAccount { username }),
    {
        let action = LoginAction::FindAccount { username: username.clone() };
        (
            LoginFlow {
                username,
                password,
                device_name,
                public_identity,
                stage: LoginStage::FindAccount,
                matched_hash: Ghost(None),
            },
            action,
        )
    }

    /// Advance the login: an unknown username and a wrong password are
    /// `Unauthorized` (see [`login_user`]). A user without a device binds its
    /// first device when the request supplies both a device name and a public
    /// identity, and is `Unauthorized` otherwise (see [`login_device`]). A
    /// token is issued for the user's first device and answered with the
    /// username as given.
    pub fn step(&mut self, event: LoginEvent) -> (action: LoginAction)
        requires
            old(self).wf(),
            old(self).expects(event),
        ensures
            final(self).wf(),
            final(self).username == old(self).username,
            final(self).password == old(self).password,
            final(self).device_name == old(self).device_name,
            final(self).public_identity == old(self).public_identity,
            action is Fail || action is Respond ==> final(self).stage is Finished,
            // A device is bound, and a token issued, only once the password matched the account's hash.
            action is IssueToken ==> (final(self).matched_hash@ matches Some(h) && argon2_password_matches(
                vstd::utf8::encode_utf8(final(self).password@),
                h,
            )),
            match (old(self).stage, event) {
                (_, LoginEvent::Failed { text }) => action matches LoginAction::Fail(ApiError::Internal(m)) && m@
                    == text@,
                (LoginStage::FindAccount, LoginEvent::AccountFound(account)) => match account {
                    Some((user_id, phc)) => if argon2_password_matches(
                        vstd::utf8::encode_utf8(old(self).password@),
                        phc@,
                    ) {
                        action == (LoginAction::FindDevice { user_id }) && final(self).stage == (
                        LoginStage::FindDevice { user_id })
                    } else {
                        action == LoginAction::Fail(ApiError::Unauthorized)
                    },
                    None => action == LoginAction::Fail(ApiError::Unauthorized),
                },
                (LoginStage::FindDevice { user_id }, LoginEvent::DeviceFound(device)) => match device {
                    Some(device_id) => action == (LoginAction::IssueToken { user_id, device_id })
                        && final(self).stage == (LoginStage::IssueToken { user_id, device_id }),
                    None => match (old(self).device_name, old(self).public_identity) {
                        (Some(device_name), Some(public_identity)) => action == (LoginAction::InsertDevice {
                            user_id,
                            device_name,
                            public_identity,
                        }) && final(self).stage == (LoginStage::BindDevice { user_id }),
                        _ => action == LoginAction::Fail(ApiError::Unauthorized),
                    },
                },
                (LoginStage::BindDevice { user_id }, LoginEvent::DeviceInserted { device_id }) => action == (
                LoginAction::IssueToken { user_id, device_id }) && final(self).stage == (LoginStage::IssueToken {
                    user_id,
                    device_id,
                }),
                (LoginStage::IssueToken { user_id, device_id }, LoginEvent::TokenIssued { token }) => action == (
                LoginAction::Respond { user_id, device_id, username: old(self).username, token }),
                _ => false,
            },
    {
        let mut stage = LoginStage::Finished;
        std::mem::swap(&mut stage, &mut self.stage);
        match (stage, event) {
            (_, LoginEvent::Failed { text }) => LoginAction::Fail(ApiError::Internal(text)),
            (LoginStage::FindAccount, LoginEvent::AccountFound(account)) => {
                let ghost stored: Option<Seq<char>> = match &account {
                    Some((_, phc)) => Some(phc@),
                    None => None,
                };
                match login_user(account, self.password.as_str()) {
                    Ok(user_id) => {
                        self.matched_hash = Ghost(stored);
                        self.stage = LoginStage::FindDevice { user_id };
                        LoginAction::FindDevice { user_id }
                    },
                    Err(e) => LoginAction::Fail(e),
                }
            },
            (LoginStage::FindDevice { user_id }, LoginEvent::DeviceFound(device)) => {
                if device.is_none() {
                    match (&self.device_name, &self.public_identity) {
                        (Some(device_name), Some(public_identity)) => {
                            self.stage = LoginStage::BindDevice { user_id };
                            return LoginAction::InsertDevice {
                                user_id,
                                device_name: device_name.clone(),
                                public_identity: public_identity.clone(),
                            };
                        },
                        _ => {},
                    }
                }
                match login_device(device) {
                    Ok(device_id) => {
                        self.stage = LoginStage::IssueToken { user_id, device_id };
                        LoginAction::IssueToken { user_id, device_id }
                    },
                    Err(e) => LoginAction::Fail(e),
                }
            },
            (LoginStage::BindDevice { user_id }, LoginEvent::DeviceInserted { device_id }) => {
                self.stage = LoginStage::IssueToken { user_id, device_id };
                LoginAction::IssueToken { user_id, device_id }
            },
            (LoginStage::IssueToken { user_id, device_id }, LoginEvent::TokenIssued { token }) => {
                LoginAction::Respond { user_id, device_id, username: self.username.clone(), token }
            },
            (_, _) => {
                proof {
                    assert(false);
                }
                LoginAction::Fail(ApiError::Unauthorized)
            },
        }
    }
}

} // verus!
