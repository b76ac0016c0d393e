//! Grant claims and their signing into tokens.

use livekit_api::access_token::{AccessToken, AccessTokenError, Claims, VideoGrants};
use vstd::prelude::*;

verus! {

/// The key pair that signs tokens.
pub struct SignerCredentials {
    pub api_key: String,
    pub api_secret: String,
}

impl SignerCredentials {
    /// Both the key id and the secret are present.
    pub open spec fn is_complete(&self) -> bool {
        self.api_key@.len() > 0 && self.api_secret@.len() > 0
    }

    pub fn new(api_key: String, api_secret: String) -> (r: Self)
        ensures
            r.api_key@ == api_key@,
            r.api_secret@ == api_secret@,
    {
        SignerCredentials { api_key, api_secret }
    }
}

/// The mathematical value of a grant claim.
pub struct ClaimView {
    pub identity: Seq<char>,
    pub room: Seq<char>,
    pub room_join: bool,
}

/// "This bearer may join this room": who, which room, and whether joining is allowed.
pub struct GrantClaim {
    pub identity: String,
    pub room_name: String,
    pub room_join: bool,
}

impl View for GrantClaim {
    type V = ClaimView;

    open spec fn view(&self) -> ClaimView {
        ClaimView { identity: self.identity@, room: self.room_name@, room_join: self.room_join }
    }
}

/// Why the signer refused to produce a token.
#[derive(Debug, Clone, Copy, PartialEq, Eq, Structural)]
pub enum IssuanceError {
    /// The key id or the secret is empty.
    InvalidKeys,
    /// The signer could not read its configuration.
    InvalidEnvironment,
    /// The grant joins a room without naming an identity and a room.
    InvalidClaims,
    /// The claims could not be encoded or signed.
    Encoding,
}

impl IssuanceError {
    /// The text that names the cause in the server's log.
    pub open spec fn description(&self) -> Seq<char> {
        match self {
            IssuanceError::InvalidKeys => "invalid API key or secret"@,
            IssuanceError::InvalidEnvironment => "invalid signer environment"@,
            IssuanceError::InvalidClaims => "grant joins a room without an identity or a room"@,
            IssuanceError::Encoding => "failed to encode the token"@,
        }
    }

    /// A description of the cause, for the server's own log.
    pub fn describe(&self) -> (r: String)
        ensures
            r@ == self.description(),
    {
        let s = match self {
            IssuanceError::InvalidKeys => "invalid API key or secret",
            IssuanceError::InvalidEnvironment => "invalid signer environment",
            IssuanceError::InvalidClaims => "grant joins a room without an identity or a room",
            IssuanceError::Encoding => "failed to encode the token",
        };
        s.to_owned()
    }
}

/// The video grant of a token: every room capability that it may carry.
pub struct RoomGrant {
    pub room_create: bool,
    pub room_list: bool,
    pub room_record: bool,
    pub room_admin: bool,
    pub room_join: bool,
    pub room: String,
    pub destination_room: String,
    pub can_publish: Option<bool>,
    pub can_subscribe: Option<bool>,
    pub can_publish_data: Option<bool>,
    pub can_publish_sources: Vec<String>,
    pub can_update_own_metadata: Option<bool>,
    pub ingress_admin: bool,
    pub hidden: bool,
    pub recorder: bool,
    pub agent: bool,
}

/// The mathematical value of a video grant.
pub struct RoomGrantView {
    pub room_create: bool,
    pub room_list: bool,
    pub room_record: bool,
    pub room_admin: bool,
    pub room_join: bool,
    pub room: Seq<char>,
    pub destination_room: Seq<char>,
    pub can_publish: Option<bool>,
    pub can_subscribe: Option<bool>,
    pub can_publish_data: Option<bool>,
    pub can_publish_sources: Seq<Seq<char>>,
    pub can_update_own_metadata: Option<bool>,
    pub ingress_admin: bool,
    pub hidden: bool,
    pub recorder: bool,
    pub agent: bool,
}

impl View for RoomGrant {
    type V = RoomGrantView;

    open spec fn view(&self) -> RoomGrantView {
        RoomGrantView {
            room_create: self.room_create,
            room_list: self.room_list,
            room_record: self.room_record,
            room_admin: self.room_admin,
            room_join: self.room_join,
            room: self.room@,
            destination_room: self.destination_room@,
            can_publish: self.can_publish,
            can_subscribe: self.can_subscribe,
            can_publish_data: self.can_publish_data,
            can_publish_sources: self.can_publish_sources@.map_values(|s: String| s@),
            can_update_own_metadata: self.can_update_own_metadata,
            ingress_admin: self.ingress_admin,
            hidden: self.hidden,
            recorder: self.recorder,
            agent: self.agent,
        }
    }
}

/// The video grant that names `room` and may allow joining it, with every
/// other capability off.
pub open spec fn join_grant(room: Seq<char>, room_join: bool) -> RoomGrantView {
    RoomGrantView {
        room_create: false,
        room_list: false,
        room_record: false,
        room_admin: false,
        room_join,
        room,
        destination_room: Seq::empty(),
        can_publish: None,
        can_subscribe: None,
        can_publish_data: None,
        can_publish_sources: Seq::empty(),
        can_update_own_metadata: None,
        ingress_admin: false,
        hidden: false,
        recorder: false,
        agent: false,
    }
}

/// What a token says: who issued it, who bears it, and its video grant.
pub struct TokenClaims {
    pub issuer: String,
    pub identity: String,
    pub video: RoomGrant,
}

/// The mathematical value of a token's claims.
pub struct TokenClaimsView {
    pub issuer: Seq<char>,
    pub identity: Seq<char>,
    pub video: RoomGrantView,
}

impl View for TokenClaims {
    type V = TokenClaimsView;

    open spec fn view(&self) -> TokenClaimsView {
        TokenClaimsView { issuer: self.issuer@, identity: self.identity@, video: self.video@ }
    }
}

/// The claims that a token carries, read without checking its signature or
/// its validity period; `None` where the text is not a token.
pub uninterp spec fn unverified_claims(token: Seq<char>) -> Option<TokenClaimsView>;

/// The claims of a token that key `api_key` signs for `claim`.
pub open spec fn signed_claims(api_key: Seq<char>, claim: ClaimView) -> TokenClaimsView {
    TokenClaimsView { issuer: api_key, identity: claim.identity, video: join_grant(claim.room, claim.room_join) }
}

/// The token, issued under key `api_key`, lets `identity` join `room` and
/// grants no other room capability.
pub open spec fn grants_join(token: Seq<char>, api_key: Seq<char>, room: Seq<char>, identity: Seq<char>) -> bool {
    unverified_claims(token) == Some(signed_claims(api_key, ClaimView { identity, room, room_join: true }))
}

/// Relies on `Claims::from_unverified` of livekit_api's access_token module,
/// which decodes the claims of a token without verifying it and fails on text
/// that is not a token; the result depends on the text alone.
#[verifier::external_body]
fn read_claims(token: &str) -> (r: Option<TokenClaims>)
    ensures
        match r {
            Some(c) => unverified_claims(token@) == Some(c@),
            None => unverified_claims(token@) is None,
        },
{
    let c = Claims::from_unverified(token).ok()?;
    let v = c.video;
    let video = RoomGrant {
        room_create: v.room_create, room_list: v.room_list, room_record: v.room_record,
        room_admin: v.room_admin, room_join: v.room_join, room: v.room,
        destination_room: v.destination_room, can_publish: v.can_publish,
        can_subscribe: v.can_subscribe, can_publish_data: v.can_publish_data,
        can_publish_sources: v.can_publish_sources, can_update_own_metadata: v.can_update_own_metadata,
        ingress_admin: v.ingress_admin, hidden: v.hidden, recorder: v.recorder, agent: v.agent,
    };
    Some(TokenClaims { issuer: c.iss, identity: c.sub, video })
}

/// Relies on livekit_api's `AccessToken` builder (`with_api_key`, which sets
/// the issuer to the key id and the validity period from the clock,
/// `with_identity`, `with_grants` over a default `VideoGrants`) and on
/// `AccessToken::to_jwt`. `to_jwt` refuses an empty key or secret, then a grant
/// that joins a room without an identity or a room; otherwise it signs the
/// claims with HMAC-SHA256, which takes a secret of any length, and the
/// non-empty token decodes back to the recorded issuer, subject and grant.
#[verifier::external_body]
fn sign_claim(credentials: &SignerCredentials, claim: &GrantClaim) -> (r: Result<String, IssuanceError>)
    ensures
        !credentials.is_complete() ==> (r is Err && r->Err_0 == IssuanceError::InvalidKeys),
        credentials.is_complete() && claim.room_join && (claim.identity@.len() == 0 || claim.room_name@.len() == 0) ==> (r is Err && r->Err_0 == IssuanceError::InvalidClaims),
        credentials.is_complete() && !(claim.room_join && (claim.identity@.len() == 0 || claim.room_name@.len() == 0)) ==> r is Ok,
        r matches Ok(t) ==> t@.len() > 0 && unverified_claims(t@) == Some(signed_claims(credentials.api_key@, claim@)),
{
    let video = VideoGrants { room_join: claim.room_join, room: claim.room_name.clone(), ..Default::default() };
    let token = AccessToken::with_api_key(&credentials.api_key, &credentials.api_secret);
    match token.with_identity(&claim.identity).with_grants(video).to_jwt() {
        Ok(t) => Ok(t),
        Err(AccessTokenError::InvalidKeys) => Err(IssuanceError::InvalidKeys),
        Err(AccessTokenError::InvalidEnv(_)) => Err(IssuanceError::InvalidEnvironment),
        Err(AccessTokenError::InvalidClaims(_)) => Err(IssuanceError::InvalidClaims),
        Err(AccessTokenError::Encoding(_)) => Err(IssuanceError::Encoding),
    }
}

/// The claim that lets `identity` join `room_name`, granting nothing else.
pub fn join_claim(room_name: &str, identity: &str) -> (c: GrantClaim)
    ensures
        c@ == (ClaimView { identity: identity@, room: room_name@, room_join: true }),
{
    GrantClaim { identity: identity.to_owned(), room_name: room_name.to_owned(), room_join: true }
}

/// Mints a token that lets `identity` join `room_name`.
///
/// Fails exactly when the key pair is incomplete, or when the room or the
/// identity is empty; a token that it returns is non-empty, names the key id
/// as its issuer and carries that one join grant and no other room capability.
pub fn issue(credentials: &SignerCredentials, room_name: &str, identity: &str) -> (r: Result<String, IssuanceError>)
    ensures
        !credentials.is_complete() ==> (r is Err && r->Err_0 == IssuanceError::InvalidKeys),
        credentials.is_complete() && (room_name@.len() == 0 || identity@.len() == 0) ==> (r is Err && r->Err_0 == IssuanceError::InvalidClaims),
        credentials.is_complete() && room_name@.len() > 0 && identity@.len() > 0 ==> r is Ok,
        r matches Ok(t) ==> t@.len() > 0 && grants_join(t@, credentials.api_key@, room_name@, identity@),
{
    let claim = join_claim(room_name, identity);
    sign_claim(credentials, &claim)
}

/// The claims that `token` carries, read without checking its signature or
/// its validity period; `None` where the text is not a token.
pub fn claim_of_token(token: &str) -> (r: Option<TokenClaims>)
    ensures
        match r {
            Some(c) => unverified_claims(token@) == Some(c@),
            None => unverified_claims(token@) is None,
        },
{
    read_claims(token)
}

/// Any two tokens issued under one key for one room and identity carry one
/// and the same claims: that key as issuer, and the join grant for that room
/// and that identity with every other room capability off.
pub proof fn lemma_issues_agree(
    api_key: Seq<char>,
    room: Seq<char>,
    identity: Seq<char>,
    first: Seq<char>,
    second: Seq<char>,
)
    requires
        grants_join(first, api_key, room, identity),
        grants_join(second, api_key, room, identity),
    ensures
        unverified_claims(first) == unverified_claims(second),
        unverified_claims(first) matches Some(c) && c.issuer == api_key && c.identity == identity
            && c.video == join_grant(room, true),
{
}

} // verus!
