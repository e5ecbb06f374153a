//! The decisions of the authenticated relay endpoints: profile fields,
//! attachments and the base64 transport of binary fields, and the steps of
//! creating a conversation, sending a message and listing messages, each
//! from the store's last answer to what the server does next.
use vstd::prelude::*;

use crate::bytes::{hex_lower, to_hex_lower};
use crate::error::{is_bad_request, ApiError};
use crate::protocol::{AttachmentDownloadResponse, ConversationInfo, MessageRecord};
use crate::primitives::{base64_decode, base64_decode_text, base64_encode, base64_encode_bytes, base64_len, os_random_bytes};
use crate::text::{is_unicode_whitespace, trim, trim_start, trimmed};

verus! {

/// Largest accepted avatar, in bytes of its data URL.
pub const MAX_AVATAR_BYTES: usize = 524_288;

/// Longest accepted bio, in characters.
pub const MAX_BIO_CHARS: usize = 120;

/// Messages per page when the client names no limit.
pub const DEFAULT_MESSAGE_LIMIT: i64 = 100;

/// Most messages per page.
pub const MAX_MESSAGE_LIMIT: i64 = 500;

/// Decode a base64 field of a request; refuses text that is not base64.
pub fn b64_decode(text: &str) -> (res: Result<Vec<u8>, ApiError>)
    ensures
        match base64_decode(text@) {
            Some(bytes) => res matches Ok(v) && v@ == bytes,
            None => is_bad_request(res, "invalid base64"@),
        },
        res matches Ok(v) ==> base64_encode(v@) == text@ && text@.len() == base64_len(v@.len()),
{
    match base64_decode_text(text) {
        Ok(bytes) => Ok(bytes),
        Err(_) => Err(ApiError::BadRequest(String::from_str("invalid base64"))),
    }
}

/// Encode a binary field of a response as base64.
pub fn b64_encode(bytes: &[u8]) -> (text: String)
    requires
        base64_len(bytes@.len()) <= usize::MAX,
    ensures
        text@ == base64_encode(bytes@),
        base64_decode(text@) == Some(bytes@),
{
    base64_encode_bytes(bytes)
}

/// Refuse avatars whose data URL is longer than 512 KiB.
pub fn validate_avatar(avatar: &str) -> (res: Result<(), ApiError>)
    ensures
        res is Ok <==> vstd::utf8::encode_utf8(avatar@).len() <= MAX_AVATAR_BYTES,
        res is Err ==> is_bad_request(res, "avatar too large"@),
{
    if avatar.as_bytes().len() > MAX_AVATAR_BYTES {
        return Err(ApiError::BadRequest(String::from_str("avatar too large")));
    }
    Ok(())
}

/// The stored form of a bio: trimmed, at most 120 characters.
pub open spec fn normalized_bio(bio: Seq<char>) -> Option<Seq<char>> {
    if trimmed(bio).len() > MAX_BIO_CHARS {
        None
    } else {
        Some(trimmed(bio))
    }
}

proof fn lemma_blank_trims_to_nothing(s: Seq<char>)
    requires
        forall|i: int| 0 <= i < s.len() ==> is_unicode_whitespace(#[trigger] s[i]),
    ensures
        trim_start(s).len() == 0,
    decreases s.len(),
{
    if s.len() > 0 {
        assert(is_unicode_whitespace(s[0]));
        assert forall|i: int| 0 <= i < s.drop_first().len() implies is_unicode_whitespace(
            #[trigger] s.drop_first()[i],
        ) by {
            assert(s.drop_first()[i] == s[i + 1]);
        }
        lemma_blank_trims_to_nothing(s.drop_first());
    }
}

/// A bio is refused only for its length: any bio of at most 120 characters
/// once trimmed is kept, trimmed (a blank one clears the bio to the empty
/// text), and only a longer one is refused.
pub proof fn lemma_bio_refused_only_when_too_long(bio: Seq<char>)
    ensures
        normalized_bio(bio) is None <==> trimmed(bio).len() > 120,
        normalized_bio(bio) matches Some(kept) ==> kept == trimmed(bio),
        (forall|i: int| 0 <= i < bio.len() ==> is_unicode_whitespace(#[trigger] bio[i])) ==> normalized_bio(bio)
            == Some(Seq::<char>::empty()),
{
    if forall|i: int| 0 <= i < bio.len() ==> is_unicode_whitespace(#[trigger] bio[i]) {
        lemma_blank_trims_to_nothing(bio);
        assert(trimmed(bio) =~= Seq::<char>::empty());
    }
}

/// Trim a bio and refuse it when longer than 120 characters.
pub fn normalize_bio(bio: String) -> (res: Result<String, ApiError>)
    ensures
        res is Ok <==> normalized_bio(bio@) is Some,
        res matches Ok(b) ==> Some(b@) == normalized_bio(bio@),
        res is Err ==> is_bad_request(res, "bio too long"@),
{
    let t = trim(bio.as_str());
    if t.unicode_len() > MAX_BIO_CHARS {
        return Err(ApiError::BadRequest(String::from_str("bio too long")));
    }
    Ok(String::from_str(t))
}

/// The profile fields to store for an update request.
pub struct ProfileChange {
    pub avatar: Option<String>,
    pub bio: Option<String>,
}

/// Check a profile update: at least one field must be supplied; a supplied
/// avatar must pass [`validate_avatar`] and a supplied bio is normalized by
/// [`normalize_bio`]. The avatar is checked first.
pub fn plan_profile_update(avatar: Option<String>, bio: Option<String>) -> (res: Result<ProfileChange, ApiError>)
    ensures
        avatar is None && bio is None ==> is_bad_request(res, "no profile fields supplied"@),
        avatar matches Some(a) && vstd::utf8::encode_utf8(a@).len() > MAX_AVATAR_BYTES
            ==> is_bad_request(res, "avatar too large"@),
        res is Ok <==> ((avatar is Some || bio is Some) && (avatar matches Some(a) ==> vstd::utf8::encode_utf8(a@).len()
            <= MAX_AVATAR_BYTES) && (bio matches Some(b) ==> normalized_bio(b@) is Some)),
        res matches Ok(change) ==> change.avatar == avatar && (match bio {
            Some(b) => change.bio matches Some(n) && Some(n@) == normalized_bio(b@),
            None => change.bio is None,
        }),
        ((avatar is Some || bio is Some) && (avatar matches Some(a) ==> vstd::utf8::encode_utf8(a@).len()
            <= MAX_AVATAR_BYTES) && (bio matches Some(b) && normalized_bio(b@) is None)) ==> is_bad_request(
            res,
            "bio too long"@,
        ),
{
    if avatar.is_none() && bio.is_none() {
        return Err(ApiError::BadRequest(String::from_str("no profile fields supplied")));
    }
    if let Some(a) = &avatar {
        match validate_avatar(a.as_str()) {
            Ok(()) => {},
            Err(e) => return Err(e),
        }
    }
    let bio = match bio {
        Some(b) => match normalize_bio(b) {
            Ok(n) => Some(n),
            Err(e) => return Err(e),
        },
        None => None,
    };
    Ok(ProfileChange { avatar, bio })
}

/// The paging parameters of a message list request.
#[derive(Debug, Clone, Copy)]
pub struct MessageQuery {
    pub after: Option<i64>,
    pub limit: Option<i64>,
}

/// The page of messages to read: after message id `after` (default 0), at
/// most `limit` messages (default 100), the limit clamped to 1..=500.
pub fn message_page(after: Option<i64>, limit: Option<i64>) -> (page: (i64, i64))
    ensures
        page.0 == match after {
            Some(a) => a,
            None => 0,
        },
        page.1 == match limit {
            Some(l) => if l < 1 {
                1
            } else if l > MAX_MESSAGE_LIMIT {
                MAX_MESSAGE_LIMIT
            } else {
                l
            },
            None => DEFAULT_MESSAGE_LIMIT,
        },
{
    let after = match after {
        Some(a) => a,
        None => 0,
    };
    let limit = match limit {
        Some(l) => if l < 1 {
            1
        } else if l > MAX_MESSAGE_LIMIT {
            MAX_MESSAGE_LIMIT
        } else {
            l
        },
        None => DEFAULT_MESSAGE_LIMIT,
    };
    (after, limit)
}

/// A conversation needs a partner other than the caller.
pub fn check_conversation_peer(me: i64, peer_user_id: i64) -> (res: Result<(), ApiError>)
    ensures
        res is Ok <==> me != peer_user_id,
        res is Err ==> is_bad_request(res, "cannot chat with yourself"@),
{
    if peer_user_id == me {
        return Err(ApiError::BadRequest(String::from_str("cannot chat with yourself")));
    }
    Ok(())
}

/// A row that must exist: a missing one is `NotFound`.
pub fn found<T>(row: Option<T>) -> (res: Result<T, ApiError>)
    ensures
        row matches Some(v) ==> res == Ok::<T, ApiError>(v),
        row is None ==> res == Err::<T, ApiError>(ApiError::NotFound),
{
    match row {
        Some(v) => Ok(v),
        None => Err(ApiError::NotFound),
    }
}

/// A fresh attachment id: 16 random bytes in lower-case hex.
pub fn random_attachment_id() -> (id: String)
    ensures
        id@.len() == 32,
        exists|bytes: Seq<u8>| bytes.len() == 16 && id@ == hex_lower(bytes),
{
    let bytes: [u8; 16] = os_random_bytes();
    to_hex_lower(bytes.as_slice())
}

/// Where the creation of a conversation stands: what it waits for next.
pub enum ConversationStage {
    /// Waiting for the peer's account (username and avatar).
    FindPeer,
    /// Waiting for a conversation that the caller and the peer already share.
    FindExisting { peer_username: String, peer_avatar: Option<String> },
    /// Waiting for the details of that conversation.
    LoadExisting { conversation_id: i64, peer_username: String },
    /// Waiting for a new conversation.
    Create { peer_username: String, peer_avatar: Option<String> },
    /// Waiting for the caller's membership (with its ephemeral key).
    AddInitiator { conversation_id: i64, created_at: String, peer_username: String, peer_avatar: Option<String> },
    /// Waiting for the peer's membership (without a key).
    AddPeer { conversation_id: i64, created_at: String, peer_username: String, peer_avatar: Option<String> },
    /// Answered or refused: nothing more happens.
    Finished,
}

/// What the server must do next to create a conversation.
pub enum ConversationAction {
    /// Read the username and avatar of the user.
    FindPeer { peer_user_id: i64 },
    /// Read the id of a conversation of which both users are members.
    FindExisting { me: i64, peer_user_id: i64 },
    /// Read the peer's ephemeral key in the conversation, the conversation's
    /// creation time and the peer's avatar.
    LoadConversation { conversation_id: i64, peer_user_id: i64 },
    /// Insert a new conversation.
    CreateConversation,
    /// Make the user a member of the conversation, with an ephemeral key or none.
    AddMember { conversation_id: i64, user_id: i64, ephemeral_pub: Option<String> },
    /// Answer with the conversation.
    Respond(ConversationInfo),
    /// Refuse the request.
    Fail(ApiError),
}

/// What the server reports back after doing an action.
pub enum ConversationEvent {
    /// The peer's username and avatar, if the account exists.
    PeerFound(Option<(String, Option<String>)>),
    /// The shared conversation, if any.
    ExistingFound(Option<i64>),
    ConversationLoaded { ephemeral_pub: Option<String>, created_at: String, peer_avatar: Option<String> },
    /// The new conversation and the time of its creation (RFC 3339).
    ConversationCreated { conversation_id: i64, created_at: String },
    MemberAdded,
    /// The store failed; the text describes the failure.
    Failed { text: String },
}

/// The creation of a one-to-one conversation by `me` with `peer_user_id`,
/// offering the initiator's ephemeral public key.
pub struct ConversationFlow {
    pub me: i64,
    pub peer_user_id: i64,
    pub ephemeral_pub: String,
    pub stage: ConversationStage,
}

impl ConversationFlow {
    /// Whether the creation waits for this event: each stage waits for the
    /// report of its own action, and any stage but the last may report a
    /// failure.
    pub open spec fn expects(&self, event: ConversationEvent) -> bool {
        match (self.stage, event) {
            (ConversationStage::Finished, _) => false,
            (_, ConversationEvent::Failed { .. }) => true,
            (ConversationStage::FindPeer, ConversationEvent::PeerFound(_)) => true,
            (ConversationStage::FindExisting { .. }, ConversationEvent::ExistingFound(_)) => true,
            (ConversationStage::LoadExisting { .. }, ConversationEvent::ConversationLoaded { .. }) => true,
            (ConversationStage::Create { .. }, ConversationEvent::ConversationCreated { .. }) => true,
            (ConversationStage::AddInitiator { .. }, ConversationEvent::MemberAdded) => true,
            (ConversationStage::AddPeer { .. }, ConversationEvent::MemberAdded) => true,
            _ => false,
        }
    }

    /// Begin creating a conversation; nobody can chat with themselves.
    pub fn start(me: i64, peer_user_id: i64, ephemeral_pub: String) -> (res: (ConversationFlow, ConversationAction))
        ensures
            res.0.me == me,
            res.0.peer_user_id == peer_user_id,
            res.0.ephemeral_pub == ephemeral_pub,
            me == peer_user_id ==> refuses_with(res.1, "cannot chat with yourself"@) && res.0.stage is Finished,
            me != peer_user_id ==> res.1 == (ConversationAction::FindPeer { peer_user_id }) && res.0.stage is FindPeer,
    {
        let mut flow = ConversationFlow { me, peer_user_id, ephemeral_pub, stage: ConversationStage::Finished };
        match check_conversation_peer(me, peer_user_id) {
            Ok(()) => {},
            Err(e) => return (flow, ConversationAction::Fail(e)),
        }
        flow.stage = ConversationStage::FindPeer;
        (flow, ConversationAction::FindPeer { peer_user_id })
    }

    /// Advance the creation by the report of its last action and say what to
    /// do next: a missing peer is `NotFound`; a conversation the two users
    /// already share is answered as it is (with the peer's ephemeral key, if
    /// the peer initiated it); otherwise a new conversation is created with
    /// the caller as a member holding its ephemeral key and the peer as a
    /// member without one, and answered without a key.
    pub fn step(&mut self, event: ConversationEvent) -> (action: ConversationAction)
        requires
            old(self).expects(event),
        ensures
            final(self).me == old(self).me,
            final(self).peer_user_id == old(self).peer_user_id,
            final(self).ephemeral_pub == old(self).ephemeral_pub,
            action is Fail || action is Respond ==> final(self).stage is Finished,
            // A conversation is created only when the two users share none.
            action is CreateConversation ==> old(self).stage is FindExisting && event == ConversationEvent::ExistingFound(
                None,
            ),
            // Every answer is about the requested peer.
            action matches ConversationAction::Respond(info) ==> info.peer_user_id == old(self).peer_user_id,
            match (old(self).stage, event) {
                (_, ConversationEvent::Failed { text }) => action matches ConversationAction::Fail(
                    ApiError::Internal(m),
                ) && m@ == text@,
                (ConversationStage::FindPeer, ConversationEvent::PeerFound(peer)) => match peer {
                    None => action == ConversationAction::Fail(ApiError::NotFound),
                    Some((name, avatar)) => action == (ConversationAction::FindExisting {
                        me: old(self).me,
                        peer_user_id: old(self).peer_user_id,
                    }) && final(self).stage == (ConversationStage::FindExisting {
                        peer_username: name,
                        peer_avatar: avatar,
                    }),
                },
                (
                    ConversationStage::FindExisting { peer_username, peer_avatar },
                    ConversationEvent::ExistingFound(existing),
                ) => match existing {
                    Some(conversation_id) => action == (ConversationAction::LoadConversation {
                        conversation_id,
                        peer_user_id: old(self).peer_user_id,
                    }) && final(self).stage == (ConversationStage::LoadExisting { conversation_id, peer_username }),
                    None => action is CreateConversation && final(self).stage == (ConversationStage::Create {
                        peer_username,
                        peer_avatar,
                    }),
                },
                (
                    ConversationStage::LoadExisting { conversation_id, peer_username },
                    ConversationEvent::ConversationLoaded { ephemeral_pub, created_at, peer_avatar },
                ) => action == ConversationAction::Respond(
                    ConversationInfo {
                        conversation_id,
                        peer_user_id: old(self).peer_user_id,
                        peer_username,
                        ephemeral_pub,
                        peer_avatar,
                        created_at,
                    },
                ),
                (
                    ConversationStage::Create { peer_username, peer_avatar },
                    ConversationEvent::ConversationCreated { conversation_id, created_at },
                ) => action == (ConversationAction::AddMember {
                    conversation_id,
                    user_id: old(self).me,
                    ephemeral_pub: Some(old(self).ephemeral_pub),
                }) && final(self).stage == (ConversationStage::AddInitiator {
                    conversation_id,
                    created_at,
                    peer_username,
                    peer_avatar,
                }),
                (
                    ConversationStage::AddInitiator { conversation_id, created_at, peer_username, peer_avatar },
                    ConversationEvent::MemberAdded,
                ) => action == (ConversationAction::AddMember {
                    conversation_id,
                    user_id: old(self).peer_user_id,
                    ephemeral_pub: None,
                }) && final(self).stage == (ConversationStage::AddPeer {
                    conversation_id,
                    created_at,
                    peer_username,
                    peer_avatar,
                }),
                (
                    ConversationStage::AddPeer { conversation_id, created_at, peer_username, peer_avatar },
                    ConversationEvent::MemberAdded,
                ) => action == ConversationAction::Respond(
                    ConversationInfo {
                        conversation_id,
                        peer_user_id: old(self).peer_user_id,
                        peer_username,
                        ephemeral_pub: None,
                        peer_avatar,
                        created_at,
                    },
                ),
                _ => false,
            },
    {
        let mut stage = ConversationStage::Finished;
        std::mem::swap(&mut stage, &mut self.stage);
        match (stage, event) {
            (_, ConversationEvent::Failed { text }) => ConversationAction::Fail(ApiError::Internal(text)),
            (ConversationStage::FindPeer, ConversationEvent::PeerFound(peer)) => match found(peer) {
                Ok((peer_username, peer_avatar)) => {
                    self.stage = ConversationStage::FindExisting { peer_username, peer_avatar };
                    ConversationAction::FindExisting { me: self.me, peer_user_id: self.peer_user_id }
                },
                Err(e) => ConversationAction::Fail(e),
            },
            (
                ConversationStage::FindExisting { peer_username, peer_avatar },
                ConversationEvent::ExistingFound(existing),
            ) => match existing {
                Some(conversation_id) => {
                    self.stage = ConversationStage::LoadExisting { conversation_id, peer_username };
                    ConversationAction::LoadConversation { conversation_id, peer_user_id: self.peer_user_id }
                },
                None => {
                    self.stage = ConversationStage::Create { peer_username, peer_avatar };
                    ConversationAction::CreateConversation
                },
            },
            (
                ConversationStage::LoadExisting { conversation_id, peer_username },
                ConversationEvent::ConversationLoaded { ephemeral_pub, created_at, peer_avatar },
            ) => ConversationAction::Respond(
                ConversationInfo {
                    conversation_id,
                    peer_user_id: self.peer_user_id,
                    peer_username,
                    ephemeral_pub,
                    peer_avatar,
                    created_at,
                },
            ),
            (
                ConversationStage::Create { peer_username, peer_avatar },
                ConversationEvent::ConversationCreated { conversation_id, created_at },
            ) => {
                self.stage = ConversationStage::AddInitiator { conversation_id, created_at, peer_username, peer_avatar };
                ConversationAction::AddMember {
                    conversation_id,
                    user_id: self.me,
                    ephemeral_pub: Some(self.ephemeral_pub.clone()),
                }
            },
            (
                ConversationStage::AddInitiator { conversation_id, created_at, peer_username, peer_avatar },
                ConversationEvent::MemberAdded,
            ) => {
                self.stage = ConversationStage::AddPeer { conversation_id, created_at, peer_username, peer_avatar };
                ConversationAction::AddMember { conversation_id, user_id: self.peer_user_id, ephemeral_pub: None }
            },
            (
                ConversationStage::AddPeer { conversation_id, created_at, peer_username, peer_avatar },
                ConversationEvent::MemberAdded,
            ) => ConversationAction::Respond(
                ConversationInfo {
                    conversation_id,
                    peer_user_id: self.peer_user_id,
                    peer_username,
                    ephemeral_pub: None,
                    peer_avatar,
                    created_at,
                },
            ),
            (_, _) => {
                proof {
                    assert(false);
                }
                ConversationAction::Fail(ApiError::NotFound)
            },
        }
    }
}

/// Whether an action refuses with `BadRequest` and the given message.
pub open spec fn refuses_with(action: ConversationAction, message: Seq<char>) -> bool {
    match action {
        ConversationAction::Fail(ApiError::BadRequest(m)) => m@ == message,
        _ => false,
    }
}

/// Where the sending of a message stands: what it waits for next.
pub enum SendStage {
    /// Waiting to learn whether the caller is a member of the conversation.
    CheckMember,
    /// Waiting for the stored message's id and time.
    Store,
    /// Waiting for the conversation's other member, to push the record to.
    FindPeer { record: MessageRecord },
    /// Answered or refused: nothing more happens.
    Finished,
}

/// What the server must do next to send a message.
pub enum SendAction {
    /// Read whether the user is a member of the conversation.
    CheckMember { conversation_id: i64, user_id: i64 },
    /// Store the message's binary ciphertext and nonce.
    StoreMessage { conversation_id: i64, sender_device_id: i64, ciphertext: Vec<u8>, nonce: Vec<u8> },
    /// Read the conversation's member other than the user.
    FindPeer { conversation_id: i64, me: i64 },
    /// Push the record to the peer's live connection when there is a peer,
    /// and answer with the record.
    Deliver { record: MessageRecord, push_to: Option<i64> },
    /// Refuse the request.
    Fail(ApiError),
}

/// What the server reports back after doing an action.
pub enum SendEvent {
    MemberChecked { is_member: bool },
    /// The stored message's id and the time it was stored with (RFC 3339).
    MessageStored { message_id: i64, created_at: String },
    PeerFound(Option<i64>),
    /// The store failed; the text describes the failure.
    Failed { text: String },
}

/// A message sent by `me` from device `device_id` to a conversation, its
/// ciphertext and nonce in base64.
pub struct SendFlow {
    pub me: i64,
    pub device_id: i64,
    pub conversation_id: i64,
    pub ciphertext: String,
    pub nonce: String,
    pub stage: SendStage,
}

impl SendFlow {
    /// Whether the sending waits for this event.
    pub open spec fn expects(&self, event: SendEvent) -> bool {
        match (self.stage, event) {
            (SendStage::Finished, _) => false,
            (_, SendEvent::Failed { .. }) => true,
            (SendStage::CheckMember, SendEvent::MemberChecked { .. }) => true,
            (SendStage::Store, SendEvent::MessageStored { .. }) => true,
            (SendStage::FindPeer { .. }, SendEvent::PeerFound(_)) => true,
            _ => false,
        }
    }

    /// Begin sending: first the caller's membership is checked.
    pub fn start(me: i64, device_id: i64, conversation_id: i64, ciphertext: String, nonce: String) -> (res: (
        SendFlow,
        SendAction,
    ))
        ensures
            res.0 == (SendFlow { me, device_id, conversation_id, ciphertext, nonce, stage: SendStage::CheckMember }),
            res.1 == (SendAction::CheckMember { conversation_id, user_id: me }),
    {
        (
            SendFlow { me, device_id, conversation_id, ciphertext, nonce, stage: SendStage::CheckMember },
            SendAction::CheckMember { conversation_id, user_id: me },
        )
    }

    /// Advance the sending by the report of its last action and say what to do
    /// next: a caller who is not a member gets `NotFound`; the ciphertext and
    /// then the nonce must be base64 (else `BadRequest`); the decoded bytes are
    /// stored; the record keeps the base64 text as sent and is pushed to the
    /// other member, if there is one, and answered.
    pub fn step(&mut self, event: SendEvent) -> (action: SendAction)
        requires
            old(self).expects(event),
        ensures
            final(self).me == old(self).me,
            final(self).device_id == old(self).device_id,
            final(self).conversation_id == old(self).conversation_id,
            final(self).ciphertext == old(self).ciphertext,
            final(self).nonce == old(self).nonce,
            action is Fail || action is Deliver ==> final(self).stage is Finished,
            // Only a member stores a message, and only one whose fields are base64;
            // the stored bytes encode back to the text as sent.
            action matches SendAction::StoreMessage { ciphertext, nonce, .. } ==> event == (SendEvent::MemberChecked {
                is_member: true,
            }) && base64_decode(old(self).ciphertext@) == Some(ciphertext@) && base64_decode(old(self).nonce@)
                == Some(nonce@) && base64_encode(ciphertext@) == old(self).ciphertext@ && base64_encode(nonce@)
                == old(self).nonce@ && base64_len(ciphertext@.len()) == old(self).ciphertext@.len() && base64_len(
                nonce@.len(),
            ) == old(self).nonce@.len(),
            match (old(self).stage, event) {
                (_, SendEvent::Failed { text }) => action matches SendAction::Fail(ApiError::Internal(m)) && m@
                    == text@,
                (SendStage::CheckMember, SendEvent::MemberChecked { is_member }) => if !is_member {
                    action == SendAction::Fail(ApiError::NotFound)
                } else {
                    match (base64_decode(old(self).ciphertext@), base64_decode(old(self).nonce@)) {
                        (Some(c), Some(n)) => action matches SendAction::StoreMessage {
                            conversation_id,
                            sender_device_id,
                            ciphertext,
                            nonce,
                        } && conversation_id == old(self).conversation_id && sender_device_id == old(self).device_id
                            && ciphertext@ == c && nonce@ == n && final(self).stage is Store,
                        _ => action matches SendAction::Fail(ApiError::BadRequest(m)) && m@ == "invalid base64"@,
                    }
                },
                (SendStage::Store, SendEvent::MessageStored { message_id, created_at }) => action == (
                SendAction::FindPeer { conversation_id: old(self).conversation_id, me: old(self).me })
                    && final(self).stage == (SendStage::FindPeer {
                    record: MessageRecord {
                        message_id,
                        conversation_id: old(self).conversation_id,
                        sender_device_id: old(self).device_id,
                        ciphertext: old(self).ciphertext,
                        nonce: old(self).nonce,
                        created_at,
                    },
                }),
                (SendStage::FindPeer { record }, SendEvent::PeerFound(peer)) => action == (SendAction::Deliver {
                    record,
                    push_to: peer,
                }),
                _ => false,
            },
    {
        let mut stage = SendStage::Finished;
        std::mem::swap(&mut stage, &mut self.stage);
        match (stage, event) {
            (_, SendEvent::Failed { text }) => SendAction::Fail(ApiError::Internal(text)),
            (SendStage::CheckMember, SendEvent::MemberChecked { is_member }) => {
                if !is_member {
                    return SendAction::Fail(ApiError::NotFound);
                }
                let ciphertext = match b64_decode(self.ciphertext.as_str()) {
                    Ok(bytes) => bytes,
                    Err(e) => return SendAction::Fail(e),
                };
                let nonce = match b64_decode(self.nonce.as_str()) {
                    Ok(bytes) => bytes,
                    Err(e) => return SendAction::Fail(e),
                };
                self.stage = SendStage::Store;
                SendAction::StoreMessage {
                    conversation_id: self.conversation_id,
                    sender_device_id: self.device_id,
                    ciphertext,
                    nonce,
                }
            },
            (SendStage::Store, SendEvent::MessageStored { message_id, created_at }) => {
                let record = MessageRecord {
                    message_id,
                    conversation_id: self.conversation_id,
                    sender_device_id: self.device_id,
                    ciphertext: self.ciphertext.clone(),
                    nonce: self.nonce.clone(),
                    created_at,
                };
                self.stage = SendStage::FindPeer { record };
                SendAction::FindPeer { conversation_id: self.conversation_id, me: self.me }
            },
            (SendStage::FindPeer { record }, SendEvent::PeerFound(peer)) => SendAction::Deliver { record, push_to: peer },
            (_, _) => {
                proof {
                    assert(false);
                }
                SendAction::Fail(ApiError::NotFound)
            },
        }
    }
}

/// A stored message as read back: its ciphertext and nonce in binary.
pub struct StoredMessage {
    pub message_id: i64,
    pub conversation_id: i64,
    pub sender_device_id: i64,
    pub ciphertext: Vec<u8>,
    pub nonce: Vec<u8>,
    pub created_at: String,
}

/// Whether a stored message's binary fields can be written in base64.
pub open spec fn encodable(row: StoredMessage) -> bool {
    base64_len(row.ciphertext@.len()) <= usize::MAX && base64_len(row.nonce@.len()) <= usize::MAX
}

/// A message lists as it was sent: the bytes that [`SendFlow::step`] stores
/// for sent texts (which encode back to them, at their length) can be listed,
/// and the record that [`ListFlow::step`] answers for them carries the same
/// base64 texts. The texts' lengths fit a `usize`, as those of any string do.
pub proof fn lemma_listed_as_sent(sent_ciphertext: Seq<char>, sent_nonce: Seq<char>, row: StoredMessage, record: MessageRecord)
    requires
        base64_encode(row.ciphertext@) == sent_ciphertext,
        base64_encode(row.nonce@) == sent_nonce,
        base64_len(row.ciphertext@.len()) == sent_ciphertext.len(),
        base64_len(row.nonce@.len()) == sent_nonce.len(),
        sent_ciphertext.len() <= usize::MAX,
        sent_nonce.len() <= usize::MAX,
    ensures
        encodable(row),
        describes(record, row) ==> record.ciphertext@ == sent_ciphertext && record.nonce@ == sent_nonce,
{
}

/// Whether a record describes a stored message, with its binary fields in
/// base64.
pub open spec fn describes(record: MessageRecord, row: StoredMessage) -> bool {
    &&& record.message_id == row.message_id
    &&& record.conversation_id == row.conversation_id
    &&& record.sender_device_id == row.sender_device_id
    &&& record.ciphertext@ == base64_encode(row.ciphertext@)
    &&& record.nonce@ == base64_encode(row.nonce@)
    &&& record.created_at == row.created_at
}

/// The records of stored messages, in the same order.
pub fn encode_messages(rows: Vec<StoredMessage>) -> (records: Vec<MessageRecord>)
    requires
        forall|i: int| 0 <= i < rows@.len() ==> encodable(#[trigger] rows@[i]),
    ensures
        records@.len() == rows@.len(),
        forall|i: int| 0 <= i < rows@.len() ==> describes(#[trigger] records@[i], rows@[i]),
{
    let mut records: Vec<MessageRecord> = Vec::new();
    let mut i: usize = 0;
    while i < rows.len()
        invariant
            i <= rows@.len(),
            records@.len() == i,
            forall|j: int| 0 <= j < rows@.len() ==> encodable(#[trigger] rows@[j]),
            forall|j: int| 0 <= j < i ==> describes(#[trigger] records@[j], rows@[j]),
        decreases rows@.len() - i,
    {
        let row = &rows[i];
        proof {
            assert(encodable(rows@[i as int]));
        }
        records.push(
            MessageRecord {
                message_id: row.message_id,
                conversation_id: row.conversation_id,
                sender_device_id: row.sender_device_id,
                ciphertext: b64_encode(row.ciphertext.as_slice()),
                nonce: b64_encode(row.nonce.as_slice()),
                created_at: row.created_at.clone(),
            },
        );
        i = i + 1;
    }
    records
}

/// Where the listing of messages stands.
pub enum ListStage {
    /// Waiting to learn whether the caller is a member of the conversation.
    CheckMember,
    /// Waiting for the page of stored messages.
    ReadPage,
    /// Answered or refused: nothing more happens.
    Finished,
}

/// What the server must do next to list messages.
pub enum ListAction {
    /// Read whether the user is a member of the conversation.
    CheckMember { conversation_id: i64, user_id: i64 },
    /// Read, in order of id, at most `limit` messages of the conversation
    /// whose id is above `after`.
    ReadPage { conversation_id: i64, after: i64, limit: i64 },
    /// Answer with the records.
    Respond(Vec<MessageRecord>),
    /// Refuse the request.
    Fail(ApiError),
}

/// What the server reports back after doing an action.
pub enum ListEvent {
    MemberChecked { is_member: bool },
    PageRead(Vec<StoredMessage>),
    /// The store failed; the text describes the failure.
    Failed { text: String },
}

/// The listing of a conversation's messages by `me`, with the query's
/// paging parameters.
pub struct ListFlow {
    pub me: i64,
    pub conversation_id: i64,
    pub query: MessageQuery,
    pub stage: ListStage,
}

impl ListFlow {
    /// Whether the listing waits for this event; a page must be one that
    /// base64 can write.
    pub open spec fn expects(&self, event: ListEvent) -> bool {
        match (self.stage, event) {
            (ListStage::Finished, _) => false,
            (_, ListEvent::Failed { .. }) => true,
            (ListStage::CheckMember, ListEvent::MemberChecked { .. }) => true,
            (ListStage::ReadPage, ListEvent::PageRead(rows)) => forall|i: int|
                0 <= i < rows@.len() ==> encodable(#[trigger] rows@[i]),
            _ => false,
        }
    }

    /// Begin listing: first the caller's membership is checked.
    pub fn start(me: i64, conversation_id: i64, query: MessageQuery) -> (res: (ListFlow, ListAction))
        ensures
            res.0 == (ListFlow { me, conversation_id, query, stage: ListStage::CheckMember }),
            res.1 == (ListAction::CheckMember { conversation_id, user_id: me }),
    {
        (
            ListFlow { me, conversation_id, query, stage: ListStage::CheckMember },
            ListAction::CheckMember { conversation_id, user_id: me },
        )
    }

    /// Advance the listing: a caller who is not a member gets `NotFound`; a
    /// member reads the page that [`message_page`] gives for the query, and
    /// is answered with its records.
    pub fn step(&mut self, event: ListEvent) -> (action: ListAction)
        requires
            old(self).expects(event),
        ensures
            final(self).me == old(self).me,
            final(self).conversation_id == old(self).conversation_id,
            final(self).query == old(self).query,
            action is Fail || action is Respond ==> final(self).stage is Finished,
            match (old(self).stage, event) {
                (_, ListEvent::Failed { text }) => action matches ListAction::Fail(ApiError::Internal(m)) && m@
                    == text@,
                (ListStage::CheckMember, ListEvent::MemberChecked { is_member }) => if is_member {
                    action matches ListAction::ReadPage { conversation_id, after, limit } && conversation_id
                        == old(self).conversation_id && (after, limit) == page_of(old(self).query) && final(self).stage
                        is ReadPage
                } else {
                    action == ListAction::Fail(ApiError::NotFound)
                },
                (ListStage::ReadPage, ListEvent::PageRead(rows)) => action matches ListAction::Respond(records)
                    && records@.len() == rows@.len() && forall|i: int|
                    0 <= i < rows@.len() ==> describes(#[trigger] records@[i], rows@[i]),
                _ => false,
            },
    {
        let mut stage = ListStage::Finished;
        std::mem::swap(&mut stage, &mut self.stage);
        match (stage, event) {
            (_, ListEvent::Failed { text }) => ListAction::Fail(ApiError::Internal(text)),
            (ListStage::CheckMember, ListEvent::MemberChecked { is_member }) => {
                if !is_member {
                    return ListAction::Fail(ApiError::NotFound);
                }
                let (after, limit) = message_page(self.query.after, self.query.limit);
                self.stage = ListStage::ReadPage;
                ListAction::ReadPage { conversation_id: self.conversation_id, after, limit }
            },
            (ListStage::ReadPage, ListEvent::PageRead(rows)) => ListAction::Respond(encode_messages(rows)),
            (_, _) => {
                proof {
                    assert(false);
                }
                ListAction::Fail(ApiError::NotFound)
            },
        }
    }
}

/// The page that a query asks for (see [`message_page`]).
pub open spec fn page_of(query: MessageQuery) -> (i64, i64) {
    (
        match query.after {
            Some(a) => a,
            None => 0,
        },
        match query.limit {
            Some(l) => if l < 1 {
                1
            } else if l > MAX_MESSAGE_LIMIT {
                MAX_MESSAGE_LIMIT
            } else {
                l
            },
            None => DEFAULT_MESSAGE_LIMIT,
        },
    )
}

/// An attachment ready to be stored: a fresh id, the binary ciphertext and
/// nonce, and the declared size as the store keeps it.
pub struct AttachmentUpload {
    pub id: String,
    pub ciphertext: Vec<u8>,
    pub nonce: Vec<u8>,
    pub size: i64,
}

/// Check an attachment upload: the ciphertext and then the nonce must be
/// base64; the attachment gets a fresh id (see [`random_attachment_id`]).
pub fn plan_attachment_upload(ciphertext: &str, nonce: &str, size: u64) -> (res: Result<AttachmentUpload, ApiError>)
    ensures
        match (base64_decode(ciphertext@), base64_decode(nonce@)) {
            (Some(c), Some(n)) => res matches Ok(upload) && upload.ciphertext@ == c && upload.nonce@ == n
                && base64_encode(c) == ciphertext@ && base64_encode(n) == nonce@ && base64_len(c.len())
                == ciphertext@.len() && base64_len(n.len()) == nonce@.len()
                && upload.size == size as i64 && upload.id@.len() == 32 && exists|bytes: Seq<u8>|
                bytes.len() == 16 && upload.id@ == hex_lower(bytes),
            _ => is_bad_request(res, "invalid base64"@),
        },
{
    let ciphertext = match b64_decode(ciphertext) {
        Ok(bytes) => bytes,
        Err(e) => return Err(e),
    };
    let nonce = match b64_decode(nonce) {
        Ok(bytes) => bytes,
        Err(e) => return Err(e),
    };
    let id = random_attachment_id();
    Ok(AttachmentUpload { id, ciphertext, nonce, size: size as i64 })
}

/// An attachment downloads as it was uploaded: the bytes that
/// [`plan_attachment_upload`] stores for the uploaded texts meet the length
/// bound of [`attachment_download`] and come back from it as the same texts.
/// The texts' lengths fit a `usize`, as those of any string do.
pub proof fn lemma_downloaded_as_uploaded(
    sent_ciphertext: Seq<char>,
    sent_nonce: Seq<char>,
    stored_ciphertext: Seq<u8>,
    stored_nonce: Seq<u8>,
    answer: AttachmentDownloadResponse,
)
    requires
        base64_encode(stored_ciphertext) == sent_ciphertext,
        base64_encode(stored_nonce) == sent_nonce,
        base64_len(stored_ciphertext.len()) == sent_ciphertext.len(),
        base64_len(stored_nonce.len()) == sent_nonce.len(),
        sent_ciphertext.len() <= usize::MAX,
        sent_nonce.len() <= usize::MAX,
    ensures
        base64_len(stored_ciphertext.len()) <= usize::MAX && base64_len(stored_nonce.len()) <= usize::MAX,
        answer.ciphertext@ == base64_encode(stored_ciphertext) && answer.nonce@ == base64_encode(stored_nonce)
            ==> answer.ciphertext@ == sent_ciphertext && answer.nonce@ == sent_nonce,
{
}

/// The answer to an attachment download: a missing attachment is `NotFound`;
/// a stored one (ciphertext, nonce, MIME type, size) is answered with its
/// binary fields in base64.
pub fn attachment_download(row: Option<(Vec<u8>, Vec<u8>, String, i64)>) -> (res: Result<
    AttachmentDownloadResponse,
    ApiError,
>)
    requires
        row matches Some((c, n, _, _)) ==> base64_len(c@.len()) <= usize::MAX && base64_len(n@.len()) <= usize::MAX,
    ensures
        row is None ==> res == Err::<AttachmentDownloadResponse, ApiError>(ApiError::NotFound),
        row matches Some((c, n, mime, size)) ==> res matches Ok(r) && r.ciphertext@ == base64_encode(c@) && r.nonce@
            == base64_encode(n@) && r.mime_type == mime && r.size == size as u64,
{
    match row {
        None => Err(ApiError::NotFound),
        Some((ciphertext, nonce, mime_type, size)) => Ok(
            AttachmentDownloadResponse {
                ciphertext: b64_encode(ciphertext.as_slice()),
                nonce: b64_encode(nonce.as_slice()),
                mime_type,
                size: size as u64,
            },
        ),
    }
}

} // verus!
