//! Administrator-issued, one-time registration invitations: the code format,
//! its normalization and hash, and the rule that decides when a stored
//! invitation may be redeemed.
use vstd::prelude::*;

use crate::bytes::{hex_lower, to_hex_lower};
use crate::error::{is_bad_request, ApiError};
use crate::primitives::{
    os_random_index, rfc3339_of_timestamp, rfc3339_utc, sha256, sha256_digest, CHRONO_MAX_UNIX_SECS, CHRONO_MIN_UNIX_SECS,
};
use crate::text::{
    ascii_upper, chars_of, is_ascii_alnum, is_ascii_alphanumeric, is_ascii_space, is_ascii_whitespace,
    is_unicode_whitespace, lemma_ascii_upper_letters, str_after, str_equal, string_of_chars, text_after, to_ascii_uppercase, trim,
    trim_end, trim_start, trimmed,
};

verus! {

/// Days for which a new invitation stays valid.
pub const INVITE_VALID_DAYS: i64 = 30;

/// Seconds for which a new invitation stays valid: [`INVITE_VALID_DAYS`] days.
pub const INVITE_VALID_SECS: i64 = 2_592_000;

/// Uses of a new invitation: it is single-use.
pub const INVITE_MAX_USES: i64 = 1;

/// Number of random characters in an invitation code.
pub const CODE_RANDOM_LEN: usize = 20;

/// Number of characters in the alphabet of invitation codes.
pub const CODE_ALPHABET_LEN: usize = 32;

/// How many fresh codes `create_invite` tries before giving up on collisions.
pub const INVITE_INSERT_ATTEMPTS: u32 = 5;

/// The `index`-th character of the code alphabet
/// `ABCDEFGHJKLMNPQRSTUVWXYZ23456789` (no `I`, `O`, `0` or `1`).
pub open spec fn code_alphabet_at(index: int) -> char {
    if index < 8 {
        (65 + index) as char
    } else if index < 13 {
        (74 + (index - 8)) as char
    } else if index < 24 {
        (80 + (index - 13)) as char
    } else {
        (50 + (index - 24)) as char
    }
}

/// A character of the code alphabet `ABCDEFGHJKLMNPQRSTUVWXYZ23456789`:
/// upper-case letters and digits without `I`, `O`, `0` and `1`.
pub open spec fn in_code_alphabet(c: char) -> bool {
    ('A' <= c && c <= 'H') || ('J' <= c && c <= 'N') || ('P' <= c && c <= 'Z') || ('2' <= c && c <= '9')
}

/// An upper-case ASCII letter or an ASCII digit.
pub open spec fn is_upper_alnum(c: char) -> bool {
    ('A' <= c && c <= 'Z') || ('0' <= c && c <= '9')
}

/// The prefix that every invitation code carries.
pub open spec fn code_prefix() -> Seq<char> {
    seq!['J', 'S', 'J', 'L']
}

/// The text of an invitation code with the given 20 random characters:
/// `JSJL-xxxxx-xxxxx-xxxxx-xxxxx`.
pub open spec fn invite_code_text(random: Seq<char>) -> Seq<char> {
    code_prefix() + seq!['-'] + random.subrange(0, 5) + seq!['-'] + random.subrange(5, 10) + seq!['-']
        + random.subrange(10, 15) + seq!['-'] + random.subrange(15, 20)
}

/// The characters that normalization keeps: dashes and ASCII whitespace are
/// dropped, letters are upper-cased, and any other character refuses the code.
pub open spec fn code_chars(s: Seq<char>) -> Option<Seq<char>>
    decreases s.len(),
{
    if s.len() == 0 {
        Some(Seq::empty())
    } else if s[0] == '-' || is_ascii_space(s[0]) {
        code_chars(s.drop_first())
    } else if !is_ascii_alnum(s[0]) {
        None
    } else {
        match code_chars(s.drop_first()) {
            Some(rest) => Some(seq![ascii_upper(s[0])] + rest),
            None => None,
        }
    }
}

/// The normalized form of a code as typed by a user: trimmed, filtered by
/// [`code_chars`], 24 characters long and starting with `JSJL`.
pub open spec fn normalized_code(code: Seq<char>) -> Option<Seq<char>> {
    match code_chars(trimmed(code)) {
        Some(n) => if n.len() == 4 + CODE_RANDOM_LEN && n.take(4) == code_prefix() {
            Some(n)
        } else {
            None
        },
        None => None,
    }
}

/// What is stored for a code: the lower-case hex SHA-256 of its normalized
/// form.
pub open spec fn invite_code_hash(code: Seq<char>) -> Option<Seq<char>> {
    match normalized_code(code) {
        Some(n) => Some(hex_lower(sha256(vstd::utf8::encode_utf8(n)))),
        None => None,
    }
}

/// The message of every refused invitation.
pub open spec fn invalid_code_message() -> Seq<char> {
    "invite code is invalid or expired"@
}

/// `Some(prefix + rest)` when there is a rest.
pub open spec fn prepend(prefix: Seq<char>, rest: Option<Seq<char>>) -> Option<Seq<char>> {
    match rest {
        Some(r) => Some(prefix + r),
        None => None,
    }
}

/// Both pieces, concatenated, when both were accepted.
pub open spec fn join(first: Option<Seq<char>>, second: Option<Seq<char>>) -> Option<Seq<char>> {
    match (first, second) {
        (Some(a), Some(b)) => Some(a + b),
        _ => None,
    }
}

/// Filtering distributes over concatenation.
pub proof fn lemma_code_chars_concat(a: Seq<char>, b: Seq<char>)
    ensures
        code_chars(a + b) == join(code_chars(a), code_chars(b)),
    decreases a.len(),
{
    if a.len() == 0 {
        assert(a + b =~= b);
    } else {
        lemma_code_chars_concat(a.drop_first(), b);
        assert((a + b).drop_first() =~= a.drop_first() + b);
        assert((a + b)[0] == a[0]);
        if !(a[0] == '-' || is_ascii_space(a[0])) && is_ascii_alnum(a[0]) {
            match (code_chars(a.drop_first()), code_chars(b)) {
                (Some(x), Some(y)) => {
                    assert(seq![ascii_upper(a[0])] + (x + y) =~= (seq![ascii_upper(a[0])] + x) + y);
                },
                _ => {},
            }
        }
    }
}

/// Upper-case letters and digits pass the filter unchanged.
pub proof fn lemma_code_chars_upper(s: Seq<char>)
    requires
        forall|i: int| 0 <= i < s.len() ==> is_upper_alnum(#[trigger] s[i]),
    ensures
        code_chars(s) == Some(s),
    decreases s.len(),
{
    if s.len() > 0 {
        assert(is_upper_alnum(s[0]));
        assert forall|i: int| 0 <= i < s.drop_first().len() implies is_upper_alnum(
            #[trigger] s.drop_first()[i],
        ) by {
            assert(s.drop_first()[i] == s[i + 1]);
        }
        lemma_code_chars_upper(s.drop_first());
        assert(seq![ascii_upper(s[0])] + s.drop_first() =~= s);
    } else {
        assert(s =~= Seq::<char>::empty());
    }
}

/// Every code that [`generate_code`] can produce is accepted by
/// normalization, which gives back its prefix and random characters.
pub proof fn lemma_generated_code_normalizes(random: Seq<char>)
    requires
        random.len() == CODE_RANDOM_LEN,
        forall|i: int| 0 <= i < random.len() ==> is_upper_alnum(#[trigger] random[i]),
    ensures
        normalized_code(invite_code_text(random)) == Some(code_prefix() + random),
{
    let text = invite_code_text(random);
    let dash = seq!['-'];
    let g1 = random.subrange(0, 5);
    let g2 = random.subrange(5, 10);
    let g3 = random.subrange(10, 15);
    let g4 = random.subrange(15, 20);
    assert(text[0] == 'J');
    assert(text.last() == random[19]);
    assert(is_upper_alnum(random[19]));
    assert(trim_start(text) == text);
    assert(trim_end(text) == text);
    assert(code_chars(dash) == Some(Seq::<char>::empty())) by {
        assert(dash.drop_first() =~= Seq::<char>::empty());
        assert(code_chars(Seq::<char>::empty()) == Some(Seq::<char>::empty()));
    }
    assert(forall|i: int| 0 <= i < code_prefix().len() ==> is_upper_alnum(#[trigger] code_prefix()[i]));
    lemma_code_chars_upper(code_prefix());
    assert forall|k: int, i: int| 0 <= k <= 15 && 0 <= i < 5 implies is_upper_alnum(
        #[trigger] random.subrange(k, k + 5)[i],
    ) by {
        assert(random.subrange(k, k + 5)[i] == random[k + i]);
    }
    lemma_code_chars_upper(g1);
    lemma_code_chars_upper(g2);
    lemma_code_chars_upper(g3);
    lemma_code_chars_upper(g4);
    let p0 = code_prefix();
    let p1 = p0 + dash;
    let p2 = p1 + g1;
    let p3 = p2 + dash;
    let p4 = p3 + g2;
    let p5 = p4 + dash;
    let p6 = p5 + g3;
    let p7 = p6 + dash;
    assert(text == p7 + g4);
    lemma_code_chars_concat(p0, dash);
    lemma_code_chars_concat(p1, g1);
    lemma_code_chars_concat(p2, dash);
    lemma_code_chars_concat(p3, g2);
    lemma_code_chars_concat(p4, dash);
    lemma_code_chars_concat(p5, g3);
    lemma_code_chars_concat(p6, dash);
    lemma_code_chars_concat(p7, g4);
    assert(p0 + Seq::<char>::empty() =~= p0);
    assert(code_prefix() + g1 + g2 + g3 + g4 =~= code_prefix() + random);
    assert((code_prefix() + random).take(4) =~= code_prefix());
}

/// The refusal of an invitation code.
pub fn invalid_code() -> (e: ApiError)
    ensures
        is_bad_request(Err::<(), ApiError>(e), invalid_code_message()),
{
    ApiError::BadRequest(String::from_str("invite code is invalid or expired"))
}

/// Normalize a code as typed by a user (see [`normalized_code`]).
pub fn normalize_code(code: &str) -> (res: Result<String, ApiError>)
    ensures
        res is Ok <==> normalized_code(code@) is Some,
        res matches Ok(n) ==> Some(n@) == normalized_code(code@),
        res is Err ==> is_bad_request(res, invalid_code_message()),
{
    let t = trim(code);
    let chars = chars_of(t);
    let mut out: Vec<char> = Vec::new();
    let mut i: usize = 0;
    assert(t@.skip(0) =~= t@);
    while i < chars.len()
        invariant
            chars@ == t@,
            t@ == trimmed(code@),
            i <= chars@.len(),
            code_chars(t@) == prepend(out@, code_chars(t@.skip(i as int))),
        decreases chars@.len() - i,
    {
        let c = chars[i];
        proof {
            assert(t@.skip(i as int).drop_first() =~= t@.skip(i + 1));
            assert(t@.skip(i as int)[0] == c);
        }
        if c == '-' || is_ascii_whitespace(c) {
        } else if !is_ascii_alphanumeric(c) {
            return Err(invalid_code());
        } else {
            let u = to_ascii_uppercase(c);
            proof {
                match code_chars(t@.skip(i + 1)) {
                    Some(r) => {
                        assert(out@ + (seq![u] + r) =~= out@.push(u) + r);
                    },
                    None => {},
                }
            }
            out.push(u);
        }
        i = i + 1;
    }
    proof {
        assert(t@.skip(chars@.len() as int) =~= Seq::<char>::empty());
        assert(out@ + Seq::<char>::empty() =~= out@);
    }
    if out.len() != 4 + CODE_RANDOM_LEN || out[0] != 'J' || out[1] != 'S' || out[2] != 'J' || out[3]
        != 'L' {
        proof {
            if out@.len() == 4 + CODE_RANDOM_LEN && out@.take(4) == code_prefix() {
                assert(out@[0] == out@.take(4)[0]);
                assert(out@[1] == out@.take(4)[1]);
                assert(out@[2] == out@.take(4)[2]);
                assert(out@[3] == out@.take(4)[3]);
            }
        }
        return Err(invalid_code());
    }
    assert(out@.take(4) =~= code_prefix());
    Ok(string_of_chars(&out))
}

/// The stored hash of a code: lower-case hex SHA-256 of the normalized code.
pub fn hash_invite_code(code: &str) -> (res: Result<String, ApiError>)
    ensures
        res is Ok <==> invite_code_hash(code@) is Some,
        res matches Ok(h) ==> Some(h@) == invite_code_hash(code@),
        res is Err ==> is_bad_request(res, invalid_code_message()),
{
    let normalized = match normalize_code(code) {
        Ok(n) => n,
        Err(e) => return Err(e),
    };
    let digest = sha256_digest(normalized.as_str().as_bytes());
    Ok(to_hex_lower(digest.as_slice()))
}

/// The character of the code alphabet at `index`.
pub fn code_alphabet_char(index: usize) -> (c: char)
    requires
        index < CODE_ALPHABET_LEN,
    ensures
        c == code_alphabet_at(index as int),
        in_code_alphabet(c),
        is_upper_alnum(c),
{
    let code: u8 = if index < 8 {
        65 + index as u8
    } else if index < 13 {
        74 + (index - 8) as u8
    } else if index < 24 {
        80 + (index - 13) as u8
    } else {
        50 + (index - 24) as u8
    };
    code as char
}

fn push_range(out: &mut Vec<char>, chars: &Vec<char>, from: usize, to: usize)
    requires
        from <= to <= chars@.len(),
    ensures
        final(out)@ == old(out)@ + chars@.subrange(from as int, to as int),
{
    let mut i = from;
    while i < to
        invariant
            from <= i <= to,
            to <= chars@.len(),
            out@ == old(out)@ + chars@.subrange(from as int, i as int),
        decreases to - i,
    {
        out.push(chars[i]);
        proof {
            assert(chars@.subrange(from as int, i + 1) =~= chars@.subrange(from as int, i as int).push(
                chars@[i as int],
            ));
        }
        i = i + 1;
    }
}

/// The code text for 20 random characters (see [`invite_code_text`]).
pub fn format_invite_code(random: &Vec<char>) -> (code: String)
    requires
        random@.len() == CODE_RANDOM_LEN,
    ensures
        code@ == invite_code_text(random@),
{
    let mut out: Vec<char> = Vec::new();
    out.push('J');
    out.push('S');
    out.push('J');
    out.push('L');
    out.push('-');
    push_range(&mut out, random, 0, 5);
    out.push('-');
    push_range(&mut out, random, 5, 10);
    out.push('-');
    push_range(&mut out, random, 10, 15);
    out.push('-');
    push_range(&mut out, random, 15, 20);
    assert(out@ =~= invite_code_text(random@));
    string_of_chars(&out)
}

/// A fresh invitation code: `JSJL-` and 20 characters drawn from the code
/// alphabet (see [`in_code_alphabet`]), in four dash-separated groups of five. Every such code is
/// accepted by [`normalize_code`].
pub fn generate_code() -> (code: String)
    ensures
        code@.len() == 28,
        code@.take(5) == code_prefix() + seq!['-'],
        exists|random: Seq<char>|
            random.len() == CODE_RANDOM_LEN && (forall|i: int|
                0 <= i < random.len() ==> in_code_alphabet(#[trigger] random[i])) && code@ == invite_code_text(
                random,
            ) && normalized_code(code@) == Some(code_prefix() + random),
{
    let mut random: Vec<char> = Vec::new();
    let mut i: usize = 0;
    while i < CODE_RANDOM_LEN
        invariant
            i <= CODE_RANDOM_LEN,
            random@.len() == i,
            forall|j: int| 0 <= j < i ==> in_code_alphabet(#[trigger] random@[j]),
        decreases CODE_RANDOM_LEN - i,
    {
        let index = os_random_index(CODE_ALPHABET_LEN);
        random.push(code_alphabet_char(index));
        i = i + 1;
    }
    let code = format_invite_code(&random);
    proof {
        assert forall|j: int| 0 <= j < random@.len() implies is_upper_alnum(#[trigger] random@[j]) by {
            assert(in_code_alphabet(random@[j]));
        }
        lemma_generated_code_normalizes(random@);
        assert(code@.take(5) =~= code_prefix() + seq!['-']);
    }
    code
}

/// Only the account named `wangxin` may create invitations: the caller's
/// username (none when the account is gone) is checked, and anyone else is
/// `Forbidden`.
pub fn check_invite_admin(username: Option<&str>) -> (res: Result<(), ApiError>)
    ensures
        res is Ok <==> (username matches Some(u) && u@ == "wangxin"@),
        res is Err ==> res == Err::<(), ApiError>(ApiError::Forbidden),
{
    let allowed = match username {
        Some(u) => str_equal(u, "wangxin"),
        None => false,
    };
    if allowed {
        Ok(())
    } else {
        Err(ApiError::Forbidden)
    }
}

/// What storing a freshly generated code gave.
pub enum InsertOutcome {
    /// The code was stored.
    Inserted,
    /// Another invitation already has the same hash.
    DuplicateCode,
    /// The store failed otherwise; the text describes the failure.
    Failed(String),
}

/// What `create_invite` does after an attempt to store a code.
pub enum InviteStep {
    /// Answer with the stored code.
    Done,
    /// Generate another code and try again.
    TryAgain,
    /// Refuse the request.
    Fail(ApiError),
}

/// Whether a step refuses the request with an internal error of that text.
pub open spec fn fails_internally(step: InviteStep, text: Seq<char>) -> bool {
    match step {
        InviteStep::Fail(ApiError::Internal(m)) => m@ == text,
        _ => false,
    }
}

/// The decision after the `attempts`-th attempt to store a fresh code
/// (counting from 1): collisions are retried until five attempts were made.
pub fn after_invite_insert(attempts: u32, outcome: InsertOutcome) -> (step: InviteStep)
    ensures
        outcome is Inserted ==> step is Done,
        outcome is DuplicateCode && attempts < INVITE_INSERT_ATTEMPTS ==> step is TryAgain,
        outcome is DuplicateCode && attempts >= INVITE_INSERT_ATTEMPTS ==> fails_internally(
            step,
            "failed to generate a unique invite code"@,
        ),
        outcome matches InsertOutcome::Failed(text) ==> fails_internally(step, text@),
{
    match outcome {
        InsertOutcome::Inserted => InviteStep::Done,
        InsertOutcome::DuplicateCode => if attempts < INVITE_INSERT_ATTEMPTS {
            InviteStep::TryAgain
        } else {
            InviteStep::Fail(ApiError::Internal(String::from_str("failed to generate a unique invite code")))
        },
        InsertOutcome::Failed(text) => InviteStep::Fail(ApiError::Internal(text)),
    }
}


/// A stored invitation, as the redemption rule reads it.
#[derive(Debug, Clone)]
pub struct InviteRecord {
    pub id: i64,
    pub max_uses: i64,
    pub used_count: i64,
    /// RFC 3339 expiry time.
    pub expires_at: String,
    pub disabled: bool,
    /// When present, only this username may redeem the invitation.
    pub restricted_username: Option<String>,
}

/// Whether `username` may redeem the invitation at time `now` (RFC 3339 text,
/// compared as text, as the store compares it): it is enabled, has uses left,
/// expires after `now`, and is either unrestricted or restricted to
/// `username`.
pub open spec fn invite_available(invite: InviteRecord, now: Seq<char>, username: Seq<char>) -> bool {
    &&& !invite.disabled
    &&& invite.used_count < invite.max_uses
    &&& text_after(invite.expires_at@, now)
    &&& match invite.restricted_username {
        None => true,
        Some(r) => r@ == username,
    }
}

/// The invitation after one more redemption.
pub open spec fn redeemed(invite: InviteRecord) -> InviteRecord {
    InviteRecord { used_count: (invite.used_count + 1) as i64, ..invite }
}

/// Whether the invitation may be redeemed (see [`invite_available`]).
pub fn is_invite_available(invite: &InviteRecord, now: &str, username: &str) -> (available: bool)
    ensures
        available == invite_available(*invite, now@, username@),
{
    if invite.disabled || invite.used_count >= invite.max_uses {
        return false;
    }
    if !str_after(invite.expires_at.as_str(), now) {
        return false;
    }
    match &invite.restricted_username {
        None => true,
        Some(r) => str_equal(r.as_str(), username),
    }
}

/// The check made before the expensive password hash: the invitation found
/// for the code's hash, if any, must be available to `username` at `now`.
pub fn check_available(found: Option<&InviteRecord>, now: &str, username: &str) -> (res: Result<(), ApiError>)
    ensures
        res is Ok <==> (found matches Some(invite) && invite_available(*invite, now@, username@)),
        res is Err ==> is_bad_request(res, invalid_code_message()),
{
    match found {
        Some(invite) => if is_invite_available(invite, now, username) {
            Ok(())
        } else {
            Err(invalid_code())
        },
        None => Err(invalid_code()),
    }
}

/// Redeem the invitation found for a code's hash: when it is available to
/// `username` at `now`, the result is the invitation with one more use;
/// otherwise the code is refused.
pub fn claim(found: Option<InviteRecord>, now: &str, username: &str) -> (res: Result<InviteRecord, ApiError>)
    ensures
        res is Ok <==> (found matches Some(invite) && invite_available(invite, now@, username@)),
        res matches Ok(updated) ==> found matches Some(invite) && updated == redeemed(invite),
        res is Err ==> is_bad_request(res, invalid_code_message()),
{
    match found {
        Some(invite) => if is_invite_available(&invite, now, username) {
            Ok(InviteRecord { used_count: invite.used_count + 1, ..invite })
        } else {
            Err(invalid_code())
        },
        None => Err(invalid_code()),
    }
}

/// The store applies a redemption only if no other redemption changed the use
/// count in between: exactly one row must have been updated.
pub fn claim_outcome(rows_affected: u64) -> (res: Result<(), ApiError>)
    ensures
        res is Ok <==> rows_affected == 1,
        res is Err ==> is_bad_request(res, invalid_code_message()),
{
    if rows_affected != 1 {
        return Err(invalid_code());
    }
    Ok(())
}

/// Redemption never takes an invitation past its maximum number of uses.
pub proof fn lemma_redemption_within_limit(invite: InviteRecord, now: Seq<char>, username: Seq<char>)
    requires
        invite_available(invite, now, username),
    ensures
        redeemed(invite).used_count <= redeemed(invite).max_uses,
        redeemed(invite).used_count == invite.used_count + 1,
{
}

/// A single-use invitation, once redeemed, is refused to everyone at any time.
pub proof fn lemma_single_use_redeems_once(
    invite: InviteRecord,
    now: Seq<char>,
    username: Seq<char>,
    later: Seq<char>,
    other: Seq<char>,
)
    requires
        invite.max_uses == 1,
        invite.used_count >= 0,
        invite_available(invite, now, username),
    ensures
        !invite_available(redeemed(invite), later, other),
{
}

/// An invitation that expires at or before `now` is refused.
pub proof fn lemma_expired_refused(invite: InviteRecord, now: Seq<char>, username: Seq<char>)
    requires
        !text_after(invite.expires_at@, now),
    ensures
        !invite_available(invite, now, username),
{
}

/// An invitation restricted to one username is refused to every other one.
pub proof fn lemma_restricted_refuses_others(invite: InviteRecord, now: Seq<char>, username: Seq<char>)
    requires
        invite.restricted_username matches Some(r) && r@ != username,
    ensures
        !invite_available(invite, now, username),
{
}

/// What the filter keeps is upper-case letters and digits.
pub proof fn lemma_code_chars_upper_output(s: Seq<char>)
    requires
        code_chars(s) is Some,
    ensures
        forall|i: int| 0 <= i < code_chars(s)->0.len() ==> is_upper_alnum(#[trigger] code_chars(s)->0[i]),
    decreases s.len(),
{
    if s.len() > 0 {
        lemma_code_chars_upper_output(s.drop_first());
        if !(s[0] == '-' || is_ascii_space(s[0])) {
            let rest = code_chars(s.drop_first())->0;
            let out = code_chars(s)->0;
            assert forall|i: int| 0 <= i < out.len() implies is_upper_alnum(#[trigger] out[i]) by {
                if i > 0 {
                    assert(out[i] == rest[i - 1]);
                }
            }
        }
    }
}

/// Normalizing a normalized code changes nothing, so a code and its
/// normalized form are stored under the same hash.
pub proof fn lemma_normalization_idempotent(code: Seq<char>)
    requires
        normalized_code(code) is Some,
    ensures
        normalized_code(normalized_code(code)->0) == normalized_code(code),
        invite_code_hash(normalized_code(code)->0) == invite_code_hash(code),
{
    let n = normalized_code(code)->0;
    lemma_code_chars_upper_output(trimmed(code));
    assert(n.len() > 0);
    assert(is_upper_alnum(n[0]));
    assert(is_upper_alnum(n.last()));
    assert(trim_start(n) == n);
    assert(trim_end(n) == n);
    lemma_code_chars_upper(n);
}

/// Where the creation of an invitation stands.
pub enum InviteStage {
    /// Waiting for the caller's username.
    CheckAdmin,
    /// Waiting for the store to insert the `attempts`-th fresh code.
    Insert { attempts: u32, code: String },
    /// Answered or refused: nothing more happens.
    Finished,
}

/// What the server must do next to create an invitation.
pub enum InviteAction {
    /// Read the username of the user.
    FindUsername { user_id: i64 },
    /// Store an invitation under the code's hash, with the code's first nine
    /// characters for display, created by the user, usable `max_uses` times
    /// and expiring at `expires_at`.
    Insert { code_hash: String, code_prefix: String, created_by: i64, max_uses: i64, expires_at: String },
    /// Answer `201 Created` with the code and its expiry.
    Respond { code: String, expires_at: String },
    /// Refuse the request.
    Fail(ApiError),
}

/// What the server reports back after doing an action.
pub enum InviteEvent {
    /// The caller's username, if the account exists.
    UsernameFound(Option<String>),
    Inserted(InsertOutcome),
    /// The store failed; the text describes the failure.
    Failed { text: String },
}

/// The creation of an invitation by `user_id`, valid until `expires_at`
/// (RFC 3339, [`INVITE_VALID_DAYS`] days after the request).
pub struct InviteFlow {
    pub user_id: i64,
    pub expires_at: String,
    pub stage: InviteStage,
}

/// Whether an insert stores a code: under the hash of its normalized form,
/// with its first nine characters as prefix, for a single use.
pub open spec fn stores_code(action: InviteAction, code: Seq<char>, user_id: i64, expires_at: String) -> bool {
    match action {
        InviteAction::Insert { code_hash, code_prefix, created_by, max_uses, expires_at: e } => {
            &&& invite_code_hash(code) == Some(code_hash@)
            &&& code_prefix@ == code.take(9)
            &&& created_by == user_id
            &&& max_uses == INVITE_MAX_USES
            &&& e == expires_at
        },
        _ => false,
    }
}

/// Whether a code is one that [`generate_code`] produces.
pub open spec fn fresh_code(code: Seq<char>) -> bool {
    exists|random: Seq<char>|
        random.len() == CODE_RANDOM_LEN && (forall|i: int| 0 <= i < random.len() ==> in_code_alphabet(#[trigger] random[i]))
            && code == invite_code_text(random)
}

impl InviteFlow {
    /// Whether the creation waits for this event.
    pub open spec fn expects(&self, event: InviteEvent) -> bool {
        match (self.stage, event) {
            (InviteStage::Finished, _) => false,
            (_, InviteEvent::Failed { .. }) => true,
            (InviteStage::CheckAdmin, InviteEvent::UsernameFound(_)) => true,
            (InviteStage::Insert { .. }, InviteEvent::Inserted(_)) => true,
            _ => false,
        }
    }

    /// The attempts made so far stay within [`INVITE_INSERT_ATTEMPTS`], and the
    /// code waiting to be stored is a generated one.
    pub open spec fn wf(&self) -> bool {
        match self.stage {
            InviteStage::Insert { attempts, code } => 1 <= attempts <= INVITE_INSERT_ATTEMPTS && fresh_code(code@),
            _ => true,
        }
    }

    /// Begin creating an invitation requested at `now_secs` and `now_nanos`
    /// (Unix time, UTC): it will expire [`INVITE_VALID_DAYS`] days later.
    /// First the caller's username is read.
    pub fn start(user_id: i64, now_secs: i64, now_nanos: u32) -> (res: (InviteFlow, InviteAction))
        requires
            CHRONO_MIN_UNIX_SECS <= now_secs,
            now_secs + INVITE_VALID_SECS <= CHRONO_MAX_UNIX_SECS,
            now_nanos < 1_000_000_000,
        ensures
            res.0.user_id == user_id,
            res.0.expires_at@ == rfc3339_utc((now_secs + INVITE_VALID_SECS) as i64, now_nanos),
            res.0.stage is CheckAdmin,
            res.1 == (InviteAction::FindUsername { user_id }),
            res.0.wf(),
    {
        let expires_at = match rfc3339_of_timestamp(now_secs + INVITE_VALID_SECS, now_nanos) {
            Some(text) => text,
            None => {
                proof {
                    assert(false);
                }
                String::new()
            },
        };
        (InviteFlow { user_id, expires_at, stage: InviteStage::CheckAdmin }, InviteAction::FindUsername { user_id })
    }

    /// A fresh code and the insert that stores it.
    fn fresh_insert(&self) -> (res: (String, InviteAction))
        ensures
            fresh_code(res.0@),
            stores_code(res.1, res.0@, self.user_id, self.expires_at),
    {
        let code = generate_code();
        let ghost random = choose|random: Seq<char>|
            random.len() == CODE_RANDOM_LEN && (forall|i: int|
                0 <= i < random.len() ==> in_code_alphabet(#[trigger] random[i])) && code@ == invite_code_text(random)
                && normalized_code(code@) == Some(code_prefix() + random);
        let code_hash = match hash_invite_code(code.as_str()) {
            Ok(h) => h,
            Err(_) => {
                proof {
                    assert(false);
                }
                String::new()
            },
        };
        let code_prefix = String::from_str(code.as_str().substring_char(0, 9));
        let action = InviteAction::Insert {
            code_hash,
            code_prefix,
            created_by: self.user_id,
            max_uses: INVITE_MAX_USES,
            expires_at: self.expires_at.clone(),
        };
        (code, action)
    }

    /// Advance the creation: only the account named `wangxin` may create
    /// invitations (see [`check_invite_admin`]); a fresh code is then stored,
    /// a code whose hash collides with a stored one is replaced by another up
    /// to five attempts (see [`after_invite_insert`]), and the stored code is
    /// answered.
    pub fn step(&mut self, event: InviteEvent) -> (action: InviteAction)
        requires
            old(self).wf(),
            old(self).expects(event),
        ensures
            final(self).wf(),
            final(self).user_id == old(self).user_id,
            final(self).expires_at == old(self).expires_at,
            action is Fail || action is Respond ==> final(self).stage is Finished,
            // The code answered is the one whose hash was stored.
            action matches InviteAction::Respond { code, expires_at } ==> old(self).stage matches InviteStage::Insert {
                code: c,
                ..
            } && c == code && expires_at == old(self).expires_at && event == InviteEvent::Inserted(
                InsertOutcome::Inserted,
            ),
            // Every insert stores the code that waits for it.
            action is Insert ==> (final(self).stage matches InviteStage::Insert { code, .. } && stores_code(
                action,
                code@,
                old(self).user_id,
                old(self).expires_at,
            )),
            match (old(self).stage, event) {
                (_, InviteEvent::Failed { text }) => action matches InviteAction::Fail(ApiError::Internal(m)) && m@
                    == text@,
                (InviteStage::CheckAdmin, InviteEvent::UsernameFound(username)) => if username matches Some(u)
                    && u@ == "wangxin"@ {
                    action is Insert && (final(self).stage matches InviteStage::Insert { attempts, .. } && attempts
                        == 1)
                } else {
                    action == InviteAction::Fail(ApiError::Forbidden)
                },
                (InviteStage::Insert { attempts, code }, InviteEvent::Inserted(outcome)) => match outcome {
                    InsertOutcome::Inserted => action == (InviteAction::Respond {
                        code,
                        expires_at: old(self).expires_at,
                    }),
                    InsertOutcome::DuplicateCode => if attempts < INVITE_INSERT_ATTEMPTS {
                        action is Insert && (final(self).stage matches InviteStage::Insert { attempts: a, .. } && a
                            == attempts + 1)
                    } else {
                        action matches InviteAction::Fail(ApiError::Internal(m)) && m@
                            == "failed to generate a unique invite code"@
                    },
                    InsertOutcome::Failed(text) => action matches InviteAction::Fail(ApiError::Internal(m)) && m@
                        == text@,
                },
                _ => false,
            },
    {
        let mut stage = InviteStage::Finished;
        std::mem::swap(&mut stage, &mut self.stage);
        match (stage, event) {
            (_, InviteEvent::Failed { text }) => InviteAction::Fail(ApiError::Internal(text)),
            (InviteStage::CheckAdmin, InviteEvent::UsernameFound(username)) => {
                let allowed = match &username {
                    Some(u) => check_invite_admin(Some(u.as_str())),
                    None => check_invite_admin(None),
                };
                match allowed {
                    Ok(()) => {},
                    Err(e) => return InviteAction::Fail(e),
                }
                let (code, action) = self.fresh_insert();
                self.stage = InviteStage::Insert { attempts: 1, code };
                action
            },
            (InviteStage::Insert { attempts, code }, InviteEvent::Inserted(outcome)) => {
                match after_invite_insert(attempts, outcome) {
                    InviteStep::Done => InviteAction::Respond { code, expires_at: self.expires_at.clone() },
                    InviteStep::TryAgain => {
                        let (code, action) = self.fresh_insert();
                        self.stage = InviteStage::Insert { attempts: attempts + 1, code };
                        action
                    },
                    InviteStep::Fail(e) => InviteAction::Fail(e),
                }
            },
            (_, _) => {
                proof {
                    assert(false);
                }
                InviteAction::Fail(ApiError::Forbidden)
            },
        }
    }
}

/// A text with its ASCII capitals written in lower case (the capital's code
/// plus 32), as a user may type a code.
pub open spec fn ascii_lowered(s: Seq<char>) -> Seq<char> {
    s.map_values(|c: char| if 'A' <= c && c <= 'Z' { ((c as u32) + 32) as char } else { c })
}

proof fn lemma_lowered_char(c: char)
    ensures
        is_unicode_whitespace(lower_char(c)) == is_unicode_whitespace(c),
        lower_char(c) == '-' <==> c == '-',
        is_ascii_space(lower_char(c)) == is_ascii_space(c),
        is_ascii_alnum(lower_char(c)) == is_ascii_alnum(c),
        is_ascii_alnum(c) ==> ascii_upper(lower_char(c)) == ascii_upper(c),
{
    lemma_ascii_upper_letters(c, c);
}

/// The lower-case form of one character (see [`ascii_lowered`]).
spec fn lower_char(c: char) -> char {
    if 'A' <= c && c <= 'Z' {
        ((c as u32) + 32) as char
    } else {
        c
    }
}

proof fn lemma_lowered_parts(s: Seq<char>)
    ensures
        ascii_lowered(s).len() == s.len(),
        forall|i: int| 0 <= i < s.len() ==> #[trigger] ascii_lowered(s)[i] == lower_char(s[i]),
        s.len() > 0 ==> ascii_lowered(s).drop_first() == ascii_lowered(s.drop_first()),
        s.len() > 0 ==> ascii_lowered(s).drop_last() == ascii_lowered(s.drop_last()),
{
    if s.len() > 0 {
        assert(ascii_lowered(s).drop_first() =~= ascii_lowered(s.drop_first()));
        assert(ascii_lowered(s).drop_last() =~= ascii_lowered(s.drop_last()));
    }
}

proof fn lemma_lowered_trim_start(s: Seq<char>)
    ensures
        trim_start(ascii_lowered(s)) == ascii_lowered(trim_start(s)),
    decreases s.len(),
{
    lemma_lowered_parts(s);
    if s.len() > 0 {
        lemma_lowered_char(s[0]);
        lemma_lowered_trim_start(s.drop_first());
    }
}

proof fn lemma_lowered_trim_end(s: Seq<char>)
    ensures
        trim_end(ascii_lowered(s)) == ascii_lowered(trim_end(s)),
    decreases s.len(),
{
    lemma_lowered_parts(s);
    if s.len() > 0 {
        lemma_lowered_char(s.last());
        assert(ascii_lowered(s).last() == lower_char(s.last()));
        lemma_lowered_trim_end(s.drop_last());
    }
}

proof fn lemma_lowered_code_chars(s: Seq<char>)
    ensures
        code_chars(ascii_lowered(s)) == code_chars(s),
    decreases s.len(),
{
    lemma_lowered_parts(s);
    if s.len() > 0 {
        lemma_lowered_char(s[0]);
        lemma_lowered_code_chars(s.drop_first());
    }
}

/// A code typed in lower case normalizes, and so hashes, exactly as the code
/// itself: normalization upper-cases every ASCII letter.
pub proof fn lemma_lower_case_code_normalizes_alike(code: Seq<char>)
    ensures
        normalized_code(ascii_lowered(code)) == normalized_code(code),
        invite_code_hash(ascii_lowered(code)) == invite_code_hash(code),
{
    lemma_lowered_trim_start(code);
    lemma_lowered_trim_end(trim_start(code));
    lemma_lowered_code_chars(trimmed(code));
}

} // verus!
