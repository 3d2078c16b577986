use vstd::prelude::*;
use vstd::string::StringSliceAdditionalSpecFns;

use rand_chacha::rand_core::SeedableRng;
use spake2::{Ed25519Group, Identity, Password, Spake2};

use crate::errors::{IrisError, SpakeFailure};
use crate::json::{decimal, push_decimal};
use crate::message::RoomIdentifier;

verus! {

/// The share that a symmetric SPAKE2 party with this password, identity and random seed sends.
pub uninterp spec fn pake_share(password: Seq<u8>, identity: Seq<u8>, seed: Seq<u8>) -> Seq<u8>;

/// The session key that a symmetric SPAKE2 party with this password, identity and random seed
/// derives from the peer's share (`None`: the share is refused).
pub uninterp spec fn pake_key(
    password: Seq<u8>,
    identity: Seq<u8>,
    seed: Seq<u8>,
    peer_share: Seq<u8>,
) -> Option<Seq<u8>>;

/// The key a finished exchange holds, if any.
pub open spec fn key_of<E>(r: Result<Vec<u8>, E>) -> Option<Seq<u8>> {
    match r {
        Ok(k) => Some(k@),
        Err(_) => None,
    }
}

/// When the peer's share comes from a party with the same password and identity (and some
/// seed `s`), the exchange yields a key, and the peer derives that same key from our share.
pub open spec fn agrees_with_honest_peer(
    password: Seq<u8>,
    identity: Seq<u8>,
    seed: Seq<u8>,
    peer_share: Seq<u8>,
    key: Option<Seq<u8>>,
) -> bool {
    forall|s: Seq<u8>|
        s.len() == 32 && peer_share == #[trigger] pake_share(password, identity, s) ==> (key
            matches Some(k) && pake_key(password, identity, s, pake_share(password, identity, seed))
            == Some(k))
}

/// Relies on rand's `rand::random` for `[u8; 32]` (drawn from the thread RNG, seeded by the
/// operating system): 32 random bytes.
#[verifier::external_body]
fn random_seed() -> (r: Vec<u8>)
    ensures
        r@.len() == 32,
{
    rand::random::<[u8; 32]>().to_vec()
}

/// Relies on spake2's `Spake2::<Ed25519Group>::start_symmetric_with_rng`, fed by
/// rand_chacha's `ChaCha12Rng` seeded with `seed` (a reproducible generator): the share depends
/// on its arguments alone, and is the symmetric side byte `S` followed by a 32-byte group
/// element.
#[verifier::external_body]
fn spake2_share(password: &[u8], identity: &[u8], seed: &[u8]) -> (r: Vec<u8>)
    requires
        seed@.len() == 32,
    ensures
        r@ == pake_share(password@, identity@, seed@),
        r@.len() == 33,
        r@[0] == 0x53,
{
    let rng = rand_chacha::ChaCha12Rng::from_seed(seed.try_into().unwrap());
    Spake2::<Ed25519Group>::start_symmetric_with_rng(
        &Password::new(password),
        &Identity::new(identity),
        rng,
    ).1
}

/// Relies on spake2's `Spake2::finish`, on the state that `start_symmetric_with_rng` rebuilds
/// from the same seed: the key depends on the arguments alone; a share that is not 33 bytes
/// long is `WrongLength`, one that is but lacks the symmetric side byte is `BadSide`, and a key
/// is a 32-byte SHA-256 digest. A share sent by a party with the same password and identity
/// is always accepted, and both parties derive the same key: each computes the same group
/// element, and `hash_symmetric` orders the two shares before hashing.
#[verifier::external_body]
fn spake2_key(password: &[u8], identity: &[u8], seed: &[u8], peer_share: &[u8]) -> (r: Result<
    Vec<u8>,
    SpakeFailure,
>)
    requires
        seed@.len() == 32,
    ensures
        r is Ok <==> pake_key(password@, identity@, seed@, peer_share@) is Some,
        r matches Ok(k) ==> pake_key(password@, identity@, seed@, peer_share@) == Some(k@),
        r is Err || peer_share@.len() == 33,
        r is Err || peer_share@[0] == 0x53,
        r matches Err(e) ==> (peer_share@.len() != 33 <==> e == SpakeFailure::WrongLength),
        r matches Err(e) ==> (peer_share@.len() == 33 && peer_share@[0] != 0x53 <==> e
            == SpakeFailure::BadSide),
        r matches Ok(k) ==> k@.len() == 32,
        agrees_with_honest_peer(password@, identity@, seed@, peer_share@, key_of(r)),
{
    let rng = rand_chacha::ChaCha12Rng::from_seed(seed.try_into().unwrap());
    let (state, _) = Spake2::<Ed25519Group>::start_symmetric_with_rng(
        &Password::new(password),
        &Identity::new(identity),
        rng,
    );
    state.finish(peer_share).map_err(|e| match e {
        spake2::Error::WrongLength => SpakeFailure::WrongLength,
        spake2::Error::BadSide => SpakeFailure::BadSide,
        spake2::Error::CorruptMessage => SpakeFailure::CorruptMessage,
    })
}

} // verus!

verus! {

/// The identity both peers of a room use: `iris-` and the room in decimal.
pub open spec fn pake_identity(room: RoomIdentifier) -> Seq<u8> {
    seq![105u8, 114, 105, 115, 45] + decimal(room as nat)
}

/// Builds the identity of a room's key exchange.
pub fn identity_for_room(room: RoomIdentifier) -> (r: Vec<u8>)
    ensures
        r@ == pake_identity(room),
{
    let mut out: Vec<u8> = vec![105u8, 114, 105, 115, 45];
    push_decimal(&mut out, room as u64);
    out
}

/// One side of a symmetric key exchange: the password, the room's identity and the random
/// seed of this side's secret.
pub struct KeyExchange {
    pub password: Vec<u8>,
    pub identity: Vec<u8>,
    pub seed: Vec<u8>,
}

impl KeyExchange {
    pub open spec fn wf(&self) -> bool {
        self.seed@.len() == 32
    }

    /// The share this side sends.
    pub open spec fn share(&self) -> Seq<u8> {
        pake_share(self.password@, self.identity@, self.seed@)
    }

    /// Starts the key exchange of a room with the secret part of the passphrase.
    pub fn start(room: RoomIdentifier, passphrase: &str) -> (r: KeyExchange)
        ensures
            r.wf(),
            r.password@ == passphrase.spec_bytes(),
            r.identity@ == pake_identity(room),
    {
        let mut password: Vec<u8> = Vec::new();
        crate::json::push_all(&mut password, passphrase.as_bytes());
        KeyExchange { password, identity: identity_for_room(room), seed: random_seed() }
    }

    /// The share to send to the peer.
    pub fn outbound_share(&self) -> (r: Vec<u8>)
        requires
            self.wf(),
        ensures
            r@ == self.share(),
            r@.len() == 33,
            r@[0] == 0x53,
    {
        spake2_share(self.password.as_slice(), self.identity.as_slice(), self.seed.as_slice())
    }

    /// Completes the exchange with the peer's share and returns the 32-byte session key.
    pub fn finish(&self, peer_share: &[u8]) -> (r: Result<Vec<u8>, IrisError>)
        requires
            self.wf(),
        ensures
            peer_share@.len() != 33 ==> r == Err::<Vec<u8>, IrisError>(
                IrisError::SpakeError(SpakeFailure::WrongLength),
            ),
            peer_share@.len() == 33 && peer_share@[0] != 0x53 ==> r == Err::<Vec<u8>, IrisError>(
                IrisError::SpakeError(SpakeFailure::BadSide),
            ),
            r matches Ok(k) ==> k@.len() == 32 && pake_key(
                self.password@,
                self.identity@,
                self.seed@,
                peer_share@,
            ) == Some(k@),
            r is Err <==> pake_key(self.password@, self.identity@, self.seed@, peer_share@) is None,
            r matches Err(e) ==> e is SpakeError,
            // A peer with the same passphrase and room: the exchange succeeds, and both sides
            // hold the same key.
            forall|other: KeyExchange|
                #![trigger other.share()]
                other.wf() && other.password@ == self.password@ && other.identity@
                    == self.identity@ && peer_share@ == other.share() ==> (r matches Ok(k)
                    && pake_key(other.password@, other.identity@, other.seed@, self.share())
                    == Some(k@)),
    {
        match spake2_key(
            self.password.as_slice(),
            self.identity.as_slice(),
            self.seed.as_slice(),
            peer_share,
        ) {
            Ok(key) => Ok(key),
            Err(failure) => Err(IrisError::SpakeError(failure)),
        }
    }
}

} // verus!
