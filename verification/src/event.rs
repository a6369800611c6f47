//! Request events and their authentication.

use crate::ledger::RequestId;
use nostr_sdk::secp256k1::schnorr::Signature;
use nostr_sdk::{Event, EventId, Kind, PublicKey, Tags, Timestamp};
use vstd::prelude::*;

verus! {

/// The kind tag of a wallet-connect request.
pub const WALLET_CONNECT_REQUEST_KIND: u16 = 23194;

/// A signed relay event, held as plain values.
#[derive(Debug, PartialEq, Eq)]
pub struct RequestEvent {
    /// The event identifier.
    pub id: RequestId,
    /// The author's public identity.
    pub author: [u8; 32],
    /// Creation time, in seconds since the epoch.
    pub created_at: u64,
    /// The protocol kind tag.
    pub kind: u16,
    /// The tags, each a list of strings.
    pub tags: Vec<Vec<String>>,
    /// The payload, passed through to the wallet backend.
    pub content: String,
    /// The signature over the identifier.
    pub sig: [u8; 64],
}

/// What a request event holds, as mathematical values.
pub struct RequestEventView {
    pub id: RequestId,
    pub author: Seq<u8>,
    pub created_at: u64,
    pub kind: u16,
    pub tags: Seq<Seq<Seq<char>>>,
    pub content: Seq<char>,
    pub sig: Seq<u8>,
}

impl View for RequestEvent {
    type V = RequestEventView;

    open spec fn view(&self) -> RequestEventView {
        RequestEventView {
            id: self.id,
            author: self.author@,
            created_at: self.created_at,
            kind: self.kind,
            tags: self.tags.deep_view(),
            content: self.content@,
            sig: self.sig@,
        }
    }
}

/// Why an event was turned away.
#[derive(Clone, Copy, Debug, PartialEq, Eq, Structural)]
pub enum Rejection {
    /// The kind tag is not the wallet-connect request kind.
    WrongKind,
    /// The author is not the gateway's own identity.
    WrongAuthor,
    /// The identifier or the signature does not verify.
    BadSignature,
}

/// Whether an event's identifier is the hash of its fields and its
/// signature verifies against its author.
pub uninterp spec fn signature_valid(ev: RequestEventView) -> bool;

/// Why authentication turns an event away: the first check that fails, if
/// any.
pub open spec fn rejection_of(ev: RequestEventView, identity: Seq<u8>) -> Option<Rejection> {
    if ev.kind != WALLET_CONNECT_REQUEST_KIND {
        Some(Rejection::WrongKind)
    } else if ev.author != identity {
        Some(Rejection::WrongAuthor)
    } else if !signature_valid(ev) {
        Some(Rejection::BadSignature)
    } else {
        None
    }
}

/// An event is eligible exactly when its kind is the request kind, its
/// author is the gateway itself, and its signature verifies.
pub open spec fn eligible(ev: RequestEventView, identity: Seq<u8>) -> bool {
    &&& ev.kind == WALLET_CONNECT_REQUEST_KIND
    &&& ev.author == identity
    &&& signature_valid(ev)
}

/// An event is eligible exactly when no check turns it away.
pub proof fn lemma_eligible_iff_not_rejected(ev: RequestEventView, identity: Seq<u8>)
    ensures
        eligible(ev, identity) <==> rejection_of(ev, identity) is None,
{
}

/// Calls `Kind::as_u16` on `Kind::WalletConnectRequest`, which the event
/// crate defines as 23194.
#[verifier::external_body]
fn request_kind() -> (kind: u16)
    ensures
        kind == WALLET_CONNECT_REQUEST_KIND,
{
    Kind::WalletConnectRequest.as_u16()
}

/// Rebuilds the event and calls `Event::verify` on it, which recomputes the
/// identifier from the other fields and checks the signature over it. The
/// result depends on the event's fields alone; an event whose tags the event
/// crate cannot hold does not verify.
#[verifier::external_body]
fn verify_signature(ev: &RequestEvent) -> (valid: bool)
    ensures
        valid == signature_valid(ev@),
{
    let mut id = [0u8; 32];
    id[..16].copy_from_slice(&ev.id.0.to_be_bytes());
    id[16..].copy_from_slice(&ev.id.1.to_be_bytes());
    match (Tags::parse(&ev.tags), Signature::from_slice(&ev.sig)) {
        (Ok(tags), Ok(sig)) => Event::new(
            EventId::from_byte_array(id),
            PublicKey::from_byte_array(ev.author),
            Timestamp::from_secs(ev.created_at),
            Kind::from_u16(ev.kind),
            tags,
            ev.content.clone(),
            sig,
        ).verify().is_ok(),
        _ => false,
    }
}

/// Whether two identities hold the same bytes.
pub fn same_identity(a: &[u8; 32], b: &[u8; 32]) -> (same: bool)
    ensures
        same == (a@ == b@),
{
    let mut i: usize = 0;
    while i < 32
        invariant
            i <= 32,
            forall|j: int| 0 <= j < i ==> a@[j] == b@[j],
        decreases 32 - i,
    {
        if a[i] != b[i] {
            return false;
        }
        i = i + 1;
    }
    assert(a@ =~= b@);
    true
}

impl RequestEvent {
    /// Authenticates the event: checks the kind, then the author, then the
    /// signature, and reports the first that fails.
    pub fn authenticate(&self, identity: &[u8; 32]) -> (verdict: Result<(), Rejection>)
        ensures
            verdict is Ok <==> eligible(self@, identity@),
            verdict matches Err(why) ==> rejection_of(self@, identity@) == Some(why),
    {
        if self.kind != request_kind() {
            Err(Rejection::WrongKind)
        } else if !same_identity(&self.author, identity) {
            Err(Rejection::WrongAuthor)
        } else if !verify_signature(self) {
            Err(Rejection::BadSignature)
        } else {
            Ok(())
        }
    }
}

} // verus!
