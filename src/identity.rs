//! The node's identity: an ed25519 secret key kept as raw bytes in a key file,
//! and the peer id that libp2p derives from it.
use vstd::prelude::*;

use libp2p::identity::{ed25519, Keypair};

verus! {

/// Length in bytes of an ed25519 secret key as stored in the key file.
pub const SECRET_KEY_LEN: usize = 32;

/// The bytes of the peer id that libp2p derives from the ed25519 key with this secret.
pub uninterp spec fn peer_id_of(secret: Seq<u8>) -> Seq<u8>;

/// Relies on libp2p's `Keypair::ed25519_from_bytes`, which accepts exactly the
/// 32-byte secrets, and on the peer id of the public half of that keypair.
#[verifier::external_body]
fn ed25519_peer_id(secret: &Vec<u8>) -> (r: Option<Vec<u8>>)
    ensures
        r.is_some() <==> secret@.len() == SECRET_KEY_LEN,
        r matches Some(id) ==> id@ == peer_id_of(secret@),
{
    match Keypair::ed25519_from_bytes(secret.clone()) {
        Ok(k) => Some(k.public().to_peer_id().to_bytes()),
        Err(_) => None,
    }
}

/// Relies on libp2p's `ed25519::SecretKey::generate`: a fresh random secret of 32 bytes.
#[verifier::external_body]
fn generate_secret() -> (r: Vec<u8>)
    ensures
        r@.len() == SECRET_KEY_LEN,
{
    ed25519::SecretKey::generate().as_ref().to_vec()
}

/// Why the bytes of a key file give no identity.
#[derive(Debug, Clone, Copy, PartialEq, Eq)]
pub enum IdentityError {
    /// The file does not hold one secret key's worth of bytes.
    MalformedKey { len: usize },
}

/// A node identity: the secret key and the peer id derived from it.
pub struct Identity {
    secret: Vec<u8>,
    peer_id: Vec<u8>,
}

impl Identity {
    pub closed spec fn secret(&self) -> Seq<u8> {
        self.secret@
    }

    pub closed spec fn peer_id(&self) -> Seq<u8> {
        self.peer_id@
    }

    /// The secret has the key length and the peer id is the one derived from it.
    pub open spec fn wf(&self) -> bool {
        &&& self.secret().len() == SECRET_KEY_LEN
        &&& self.peer_id() == peer_id_of(self.secret())
    }

    /// Rebuilds the identity held by a key file's bytes; anything but a
    /// 32-byte secret is rejected.
    pub fn from_secret_bytes(bytes: Vec<u8>) -> (r: Result<Identity, IdentityError>)
        ensures
            r is Ok <==> bytes@.len() == SECRET_KEY_LEN,
            r matches Ok(id) ==> id.wf() && id.secret() == bytes@,
            r matches Err(e) ==> e == (IdentityError::MalformedKey { len: bytes.len() }),
    {
        match ed25519_peer_id(&bytes) {
            Some(peer_id) => Ok(Identity { secret: bytes, peer_id }),
            None => Err(IdentityError::MalformedKey { len: bytes.len() }),
        }
    }

    /// The raw secret, as written to the key file.
    pub fn secret_bytes(&self) -> (r: &Vec<u8>)
        ensures
            r@ == self.secret(),
    {
        &self.secret
    }

    /// The bytes of the peer id.
    pub fn peer_id_bytes(&self) -> (r: &Vec<u8>)
        ensures
            r@ == self.peer_id(),
    {
        &self.peer_id
    }
}

/// An identity together with the bytes that still have to be written to the
/// key file (`None` when the file already held them).
pub struct LoadedIdentity {
    pub identity: Identity,
    pub to_persist: Option<Vec<u8>>,
}

/// What loading from a key file may give: `existing` is the file's content,
/// `None` when there is no file.
pub open spec fn load_outcome(
    existing: Option<Vec<u8>>,
    r: Result<LoadedIdentity, IdentityError>,
) -> bool {
    match existing {
        Some(bytes) => {
            &&& (r is Ok <==> bytes@.len() == SECRET_KEY_LEN)
            &&& (r matches Ok(l) ==> l.identity.wf() && l.identity.secret() == bytes@
                && l.to_persist is None)
            &&& (r matches Err(e) ==> e == (IdentityError::MalformedKey { len: bytes.len() }))
        },
        None => {
            &&& r is Ok
            &&& (r matches Ok(l) ==> l.identity.wf() && (l.to_persist matches Some(p)
                && p@ == l.identity.secret()))
        },
    }
}

/// Loads the identity from a key file's content, or makes a fresh one to be
/// persisted when there is no key file.
pub fn load_or_create(existing: Option<Vec<u8>>) -> (r: Result<LoadedIdentity, IdentityError>)
    ensures
        load_outcome(existing, r),
{
    match existing {
        Some(bytes) => match Identity::from_secret_bytes(bytes) {
            Ok(identity) => Ok(LoadedIdentity { identity, to_persist: None }),
            Err(e) => Err(e),
        },
        None => {
            let secret = generate_secret();
            let copy = secret.clone();
            match Identity::from_secret_bytes(secret) {
                Ok(identity) => Ok(LoadedIdentity { identity, to_persist: Some(copy) }),
                Err(e) => Err(e),
            }
        },
    }
}

/// A key file always gives the same peer id, and a freshly made identity,
/// once its secret is persisted, is found again with the same peer id.
pub proof fn lemma_identity_determinism(
    bytes: Vec<u8>,
    first: Result<LoadedIdentity, IdentityError>,
    second: Result<LoadedIdentity, IdentityError>,
    fresh: Result<LoadedIdentity, IdentityError>,
    persisted: Vec<u8>,
    reloaded: Result<LoadedIdentity, IdentityError>,
)
    requires
        load_outcome(Some(bytes), first),
        load_outcome(Some(bytes), second),
        load_outcome(None, fresh),
        fresh matches Ok(l) && l.to_persist == Some(persisted),
        load_outcome(Some(persisted), reloaded),
    ensures
        first is Ok <==> second is Ok,
        first matches Ok(a) ==> (second matches Ok(b) && a.identity.peer_id()
            == b.identity.peer_id()),
        reloaded matches Ok(b) && (fresh matches Ok(a) && b.identity.peer_id()
            == a.identity.peer_id()),
{
}

/// A key file is never read as some other key: bytes of any length but the
/// key length give the malformed-key error and no identity, and an identity
/// that loading does give holds exactly the file's bytes and their peer id.
pub proof fn lemma_malformed_key_rejected(
    bytes: Vec<u8>,
    r: Result<LoadedIdentity, IdentityError>,
)
    requires
        load_outcome(Some(bytes), r),
    ensures
        bytes@.len() != SECRET_KEY_LEN ==> r == Err::<LoadedIdentity, IdentityError>(
            IdentityError::MalformedKey { len: bytes.len() },
        ),
        r matches Ok(l) ==> l.identity.secret() == bytes@ && l.identity.peer_id() == peer_id_of(
            bytes@,
        ),
{
}

} // verus!
