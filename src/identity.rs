use vstd::prelude::*;

use crate::ledger::{byte_array_from_json, byte_array_json, byte_array_to_json, json_byte_array};
use crate::model::Address;
use solana_sdk::signature::Keypair;

verus! {

/// Whether 64 bytes are a valid keypair: a secret key followed by the public
/// key derived from it.
pub uninterp spec fn is_keypair(bytes: Seq<u8>) -> bool;

/// Relies on `Keypair::try_from(&[u8])`, which accepts exactly the byte strings
/// that hold a secret key followed by its own public key.
#[verifier::external_body]
fn keypair_bytes_valid(bytes: &[u8; 64]) -> (r: bool)
    ensures
        r == is_keypair(bytes@),
{
    Keypair::try_from(&bytes[..]).is_ok()
}

/// Relies on `Keypair::new` and `Keypair::to_bytes`: a fresh random keypair,
/// whose bytes are its secret key and the public key derived from it.
#[verifier::external_body]
fn fresh_keypair_bytes() -> (r: [u8; 64])
    ensures
        is_keypair(r@),
{
    Keypair::new().to_bytes()
}

/// A signing identity: the 64 bytes of an ed25519 keypair, secret key first
/// and public key last. Used for the one-time mint identity of each asset as
/// well as for the persisted service and treasury identities.
pub struct SigningIdentity {
    bytes: [u8; 64],
}

impl View for SigningIdentity {
    type V = Seq<u8>;

    closed spec fn view(&self) -> Seq<u8> {
        self.bytes@
    }
}

/// The address (public key) of a keypair given by its bytes.
pub open spec fn address_of_keypair(bytes: Seq<u8>) -> Seq<u8> {
    bytes.subrange(32, 64)
}

/// The address of the keypair with bytes `bytes`, as an `Address`.
pub open spec fn signer_address(bytes: Seq<u8>) -> Address {
    choose|a: Address| a.0@ == address_of_keypair(bytes)
}

/// An address is the keypair's address exactly when its bytes are the public half.
pub proof fn lemma_signer_address(bytes: Seq<u8>, a: Address, witness: Address)
    requires
        witness.0@ == address_of_keypair(bytes),
    ensures
        (a.0@ == address_of_keypair(bytes)) <==> (a == signer_address(bytes)),
{
    let c = signer_address(bytes);
    assert(c.0@ == address_of_keypair(bytes));
    if a.0@ == address_of_keypair(bytes) {
        assert forall|i: int| 0 <= i < 32 implies a.0[i] == c.0[i] by {
            assert(a.0@[i] == c.0@[i]);
        }
        assert(a.0 =~= c.0);
    }
}

impl SigningIdentity {
    #[verifier::type_invariant]
    spec fn inv(self) -> bool {
        is_keypair(self.bytes@)
    }

    /// A fresh random identity, never persisted by the library.
    pub fn generate() -> (r: SigningIdentity)
        ensures
            is_keypair(r@),
    {
        let bytes = fresh_keypair_bytes();
        SigningIdentity { bytes }
    }

    /// The identity held in `bytes`, if they are a valid keypair.
    pub fn from_bytes(bytes: &[u8]) -> (r: Option<SigningIdentity>)
        ensures
            r is Some <==> (bytes@.len() == 64 && is_keypair(bytes@)),
            r matches Some(id) ==> id@ == bytes@,
    {
        if bytes.len() != 64 {
            return None;
        }
        let mut arr: [u8; 64] = [0u8; 64];
        let mut i: usize = 0;
        while i < 64
            invariant
                0 <= i <= 64,
                bytes@.len() == 64,
                forall|k: int| 0 <= k < i ==> arr[k] == bytes@[k],
            decreases 64 - i,
        {
            arr[i] = bytes[i];
            i = i + 1;
        }
        assert(arr@ =~= bytes@);
        if keypair_bytes_valid(&arr) {
            Some(SigningIdentity { bytes: arr })
        } else {
            None
        }
    }

    /// The keypair bytes, secret key first.
    pub fn to_bytes(&self) -> (r: [u8; 64])
        ensures
            r@ == self@,
    {
        self.bytes
    }

    /// The identity's address: the public half of its keypair.
    pub fn pubkey(&self) -> (r: Address)
        ensures
            r.0@ == address_of_keypair(self@),
            r == signer_address(self@),
            is_keypair(self@),
            self@.len() == 64,
    {
        proof {
            use_type_invariant(self);
        }
        let mut out: [u8; 32] = [0u8; 32];
        let mut i: usize = 0;
        while i < 32
            invariant
                0 <= i <= 32,
                self.bytes@.len() == 64,
                forall|k: int| 0 <= k < i ==> out[k] == self.bytes@[k + 32],
            decreases 32 - i,
        {
            out[i] = self.bytes[i + 32];
            i = i + 1;
        }
        assert(out@ =~= self.bytes@.subrange(32, 64));
        let r = Address(out);
        proof {
            lemma_signer_address(self@, r, r);
        }
        r
    }
}

/// Why a persisted identity could not be loaded.
#[derive(Clone, Copy, Debug, PartialEq, Eq, Structural)]
pub enum KeyStoreError {
    /// The stored text is not a JSON array of the 64 bytes of a keypair.
    Malformed,
}

/// Loads a persisted identity from the text of its key file, a JSON array of
/// its 64 keypair bytes; when there is no file yet, generates an identity and
/// returns with it the text to persist before it is used.
pub fn load_or_create_keypair(stored: Option<&str>) -> (r: Result<(SigningIdentity, Option<String>), KeyStoreError>)
    ensures
        stored matches Some(text) ==> match json_byte_array(text@) {
            Some(b) => if b.len() == 64 && is_keypair(b) {
                r matches Ok((id, w)) && id@ == b && w is None
            } else {
                r matches Err(KeyStoreError::Malformed)
            },
            None => r matches Err(KeyStoreError::Malformed),
        },
        stored is None ==> (r matches Ok((id, w)) && (w matches Some(t) && t@ == byte_array_json(id@))),
{
    match stored {
        Some(text) => {
            let bytes = match byte_array_from_json(text) {
                Some(b) => b,
                None => return Err(KeyStoreError::Malformed),
            };
            match SigningIdentity::from_bytes(bytes.as_slice()) {
                Some(id) => Ok((id, None)),
                None => Err(KeyStoreError::Malformed),
            }
        },
        None => {
            let id = SigningIdentity::generate();
            let raw = id.to_bytes();
            let mut bytes: Vec<u8> = Vec::new();
            let mut i: usize = 0;
            while i < 64
                invariant
                    0 <= i <= 64,
                    bytes@ =~= raw@.subrange(0, i as int),
                decreases 64 - i,
            {
                bytes.push(raw[i]);
                i = i + 1;
            }
            assert(bytes@ =~= raw@);
            let text = byte_array_to_json(&bytes).unwrap();
            Ok((id, Some(text)))
        },
    }
}

} // verus!
