//! Device identity, fingerprints and the trust policy that decides which
//! peers may sync.

use vstd::prelude::*;

use crate::error::SyncholeError;
use crate::ids::{DeviceId, UserId};
use crate::util::{append_bytes, copy_bytes};

verus! {

/// Signature and key-agreement algorithms.
#[derive(Clone, Debug, PartialEq, Eq)]
pub enum KeyAlgorithm {
    Ed25519,
    P256,
    HardwareBacked(String),
}

/// A public key.
#[derive(Clone, Debug, PartialEq, Eq)]
pub struct PublicKeyBytes {
    pub algorithm: KeyAlgorithm,
    pub bytes: Vec<u8>,
}

/// A signature.
#[derive(Clone, Debug, PartialEq, Eq)]
pub struct SignatureBytes {
    pub algorithm: KeyAlgorithm,
    pub bytes: Vec<u8>,
}

/// Secret key bytes handed to a cryptographic provider. The bytes are
/// zeroed when the value is dropped.
#[derive(Debug)]
pub struct SecretKeyMaterial {
    bytes: Vec<u8>,
}

impl SecretKeyMaterial {
    /// The secret bytes.
    pub closed spec fn secret(&self) -> Seq<u8> {
        self.bytes@
    }

    pub fn new(bytes: Vec<u8>) -> (res: Self)
        ensures
            res.secret() == bytes@,
    {
        SecretKeyMaterial { bytes }
    }

    pub fn expose_for_provider(&self) -> (res: &[u8])
        ensures
            res@ == self.secret(),
    {
        self.bytes.as_slice()
    }
}

impl Clone for SecretKeyMaterial {
    fn clone(&self) -> (res: Self)
        ensures
            res.secret() == self.secret(),
    {
        SecretKeyMaterial { bytes: copy_bytes(self.bytes.as_slice()) }
    }
}

/// Zeroes `bytes` in place with `zeroize::Zeroize::zeroize`, which for a
/// `Vec<u8>` overwrites the elements and the spare capacity with zeros and
/// then clears the vector. Claimed: the vector is empty afterwards, and the
/// call neither panics nor opens an invariant.
#[verifier::external_body]
fn wipe_bytes(bytes: &mut Vec<u8>)
    ensures
        final(bytes)@.len() == 0,
    opens_invariants none
    no_unwind
{
    zeroize::Zeroize::zeroize(bytes);
}

impl Drop for SecretKeyMaterial {
    fn drop(&mut self)
        ensures
            final(self).secret().len() == 0,
        opens_invariants none
        no_unwind
    {
        wipe_bytes(&mut self.bytes);
    }
}

/// A device's long-term identity.
#[derive(Clone, Debug, PartialEq, Eq)]
pub struct DeviceIdentity {
    pub user_id: UserId,
    pub device_id: DeviceId,
    pub display_name: String,
    pub signing_key: PublicKeyBytes,
    pub encryption_key: PublicKeyBytes,
    pub created_at_ms: u64,
    pub expires_at_ms: Option<u64>,
}

/// The BLAKE3 digest of a byte string.
pub uninterp spec fn blake3_digest(input: Seq<u8>) -> Seq<u8>;

/// Hashes `input` with `blake3::hash`, which the crate documents as the
/// default 32-byte BLAKE3 hash, the same as feeding the input to a `Hasher`
/// in any number of `update` calls; `Hash::as_bytes` hands out its bytes.
/// Claimed: the digest is `blake3_digest` of the input and is 32 bytes long.
#[verifier::external_body]
fn blake3_hash(input: &[u8]) -> (digest: Vec<u8>)
    ensures
        digest@ == blake3_digest(input@),
        digest@.len() == 32,
{
    blake3::hash(input).as_bytes().to_vec()
}

/// The bytes a fingerprint hashes: the UTF-8 user and device identifiers,
/// then the signing key, then the encryption key.
pub open spec fn fingerprint_input(identity: DeviceIdentity) -> Seq<u8> {
    vstd::utf8::encode_utf8(identity.user_id@) + vstd::utf8::encode_utf8(identity.device_id@)
        + identity.signing_key.bytes@ + identity.encryption_key.bytes@
}

/// The fingerprint input lays out, in this order, the UTF-8 bytes of the
/// user id, those of the device id, the signing key bytes and the
/// encryption key bytes, and nothing else.
pub proof fn lemma_fingerprint_input_layout(identity: DeviceIdentity)
    ensures
        ({
            let input = fingerprint_input(identity);
            let u = vstd::utf8::encode_utf8(identity.user_id@);
            let d = vstd::utf8::encode_utf8(identity.device_id@);
            let s = identity.signing_key.bytes@;
            let e = identity.encryption_key.bytes@;
            &&& input.len() == u.len() + d.len() + s.len() + e.len()
            &&& input.subrange(0, u.len() as int) == u
            &&& input.subrange(u.len() as int, (u.len() + d.len()) as int) == d
            &&& input.subrange((u.len() + d.len()) as int, (u.len() + d.len() + s.len()) as int) == s
            &&& input.subrange((u.len() + d.len() + s.len()) as int, input.len() as int) == e
        }),
{
    let input = fingerprint_input(identity);
    let u = vstd::utf8::encode_utf8(identity.user_id@);
    let d = vstd::utf8::encode_utf8(identity.device_id@);
    let s = identity.signing_key.bytes@;
    let e = identity.encryption_key.bytes@;
    assert(input =~= u + d + s + e);
    assert(input.subrange(0, u.len() as int) =~= u);
    assert(input.subrange(u.len() as int, (u.len() + d.len()) as int) =~= d);
    assert(input.subrange((u.len() + d.len()) as int, (u.len() + d.len() + s.len()) as int) =~= s);
    assert(input.subrange((u.len() + d.len() + s.len()) as int, input.len() as int) =~= e);
}

/// The fingerprint binds exactly the user id, the device id and the two
/// public keys: identities that agree on those four get the same input
/// whatever their display names, dates or key algorithms, and identities
/// that differ in just one of them get different inputs.
pub proof fn lemma_fingerprint_binds_ids_and_keys(a: DeviceIdentity, b: DeviceIdentity)
    ensures
        ({
            let same_user = a.user_id@ == b.user_id@;
            let same_device = a.device_id@ == b.device_id@;
            let same_signing = a.signing_key.bytes@ == b.signing_key.bytes@;
            let same_encryption = a.encryption_key.bytes@ == b.encryption_key.bytes@;
            &&& same_user && same_device && same_signing && same_encryption ==> fingerprint_input(a)
                == fingerprint_input(b)
            &&& !same_user && same_device && same_signing && same_encryption ==> fingerprint_input(a)
                != fingerprint_input(b)
            &&& same_user && !same_device && same_signing && same_encryption ==> fingerprint_input(a)
                != fingerprint_input(b)
            &&& same_user && same_device && !same_signing && same_encryption ==> fingerprint_input(a)
                != fingerprint_input(b)
            &&& same_user && same_device && same_signing && !same_encryption ==> fingerprint_input(a)
                != fingerprint_input(b)
        }),
{
    lemma_fingerprint_input_layout(a);
    lemma_fingerprint_input_layout(b);
    crate::text_order::lemma_encode_injective(a.user_id@, b.user_id@);
    crate::text_order::lemma_encode_injective(a.device_id@, b.device_id@);
    let ua = vstd::utf8::encode_utf8(a.user_id@);
    let ub = vstd::utf8::encode_utf8(b.user_id@);
    let da = vstd::utf8::encode_utf8(a.device_id@);
    let db = vstd::utf8::encode_utf8(b.device_id@);
    if fingerprint_input(a) == fingerprint_input(b) {
        if a.device_id@ == b.device_id@ && a.signing_key.bytes@ == b.signing_key.bytes@
            && a.encryption_key.bytes@ == b.encryption_key.bytes@ && ua.len() == ub.len() {
            assert(ua == ub);
        }
        if a.user_id@ == b.user_id@ && a.signing_key.bytes@ == b.signing_key.bytes@
            && a.encryption_key.bytes@ == b.encryption_key.bytes@ && da.len() == db.len() {
            assert(da == db);
        }
    }
}

impl DeviceIdentity {
    /// The bytes the fingerprint digests.
    pub fn fingerprint_material(&self) -> (res: Vec<u8>)
        ensures
            res@ == fingerprint_input(*self),
    {
        let mut input: Vec<u8> = Vec::new();
        append_bytes(&mut input, self.user_id.as_str().as_bytes());
        append_bytes(&mut input, self.device_id.as_str().as_bytes());
        append_bytes(&mut input, self.signing_key.bytes.as_slice());
        append_bytes(&mut input, self.encryption_key.bytes.as_slice());
        input
    }

    /// A stable digest that binds the user, the device and both public keys.
    pub fn fingerprint(&self) -> (res: IdentityFingerprint)
        ensures
            res@ == blake3_digest(fingerprint_input(*self)),
            res@.len() == 32,
    {
        let input = self.fingerprint_material();
        IdentityFingerprint(blake3_hash(input.as_slice()))
    }
}

/// The digest that identifies a device identity.
#[derive(Clone, Debug, PartialEq, Eq)]
pub struct IdentityFingerprint(Vec<u8>);

impl View for IdentityFingerprint {
    type V = Seq<u8>;

    closed spec fn view(&self) -> Seq<u8> {
        self.0@
    }
}

impl IdentityFingerprint {
    pub fn as_bytes(&self) -> (res: &[u8])
        ensures
            res@ == self@,
    {
        self.0.as_slice()
    }
}

/// An invitation to enroll a new device into a user's trust graph.
#[derive(Clone, Debug, PartialEq, Eq)]
pub struct EnrollmentToken {
    pub user_id: UserId,
    pub inviter_device_id: DeviceId,
    pub expires_at_ms: u64,
    pub signature: SignatureBytes,
}

/// Decides whether a remote device may sync with a local one.
pub trait TrustPolicy {
    fn validate_peer(&self, local: &DeviceIdentity, remote: &DeviceIdentity) -> Result<(), SyncholeError>;
}

/// Trusts peers of the same user; when the allow list is not empty, only the
/// devices on it.
#[derive(Debug)]
pub struct AllowListTrustPolicy {
    allowed_devices: Vec<DeviceId>,
}

impl View for AllowListTrustPolicy {
    type V = Set<Seq<char>>;

    closed spec fn view(&self) -> Set<Seq<char>> {
        Set::new(|k: Seq<char>| exists|i: int| 0 <= i < self.allowed_devices@.len() && #[trigger] self.allowed_devices@[i]@ == k)
    }
}

/// The message of the error a trust policy returns for a peer of another user.
pub open spec fn different_user_message() -> Seq<char> {
    "peer belongs to a different user"@
}

/// The message of the error a trust policy returns for a device not enrolled.
pub open spec fn not_enrolled_message() -> Seq<char> {
    "peer device is not enrolled"@
}

impl AllowListTrustPolicy {
    /// A policy whose allow list holds the given devices.
    pub fn new(allowed_devices: Vec<DeviceId>) -> (res: Self)
        ensures
            res@ == Set::new(|k: Seq<char>| exists|i: int| 0 <= i < allowed_devices@.len() && #[trigger] allowed_devices@[i]@ == k),
    {
        let mut policy = AllowListTrustPolicy { allowed_devices: Vec::new() };
        let mut i: usize = 0;
        while i < allowed_devices.len()
            invariant
                i <= allowed_devices@.len(),
                policy@ == Set::new(|k: Seq<char>| exists|j: int| 0 <= j < i && #[trigger] allowed_devices@[j]@ == k),
            decreases allowed_devices@.len() - i,
        {
            let ghost before = policy@;
            policy.insert(allowed_devices[i].clone());
            proof {
                assert(policy@ =~= Set::new(|k: Seq<char>| exists|j: int| 0 <= j < i + 1 && #[trigger] allowed_devices@[j]@ == k)) by {
                    assert forall|k: Seq<char>| policy@.contains(k) implies exists|j: int| 0 <= j < i + 1 && #[trigger] allowed_devices@[j]@ == k by {
                        if k != allowed_devices@[i as int]@ {
                            assert(before.contains(k));
                        }
                    }
                }
            }
            i = i + 1;
        }
        assert(policy@ =~= Set::new(|k: Seq<char>| exists|i: int| 0 <= i < allowed_devices@.len() && #[trigger] allowed_devices@[i]@ == k));
        policy
    }

    /// Adds a device to the allow list.
    pub fn insert(&mut self, device_id: DeviceId)
        ensures
            final(self)@ == old(self)@.insert(device_id@),
    {
        if !self.contains(&device_id) {
            self.allowed_devices.push(device_id);
            proof {
                let n = self.allowed_devices@.len() - 1;
                assert forall|k: Seq<char>| #[trigger] self@.contains(k) <==> old(self)@.insert(device_id@).contains(k) by {
                    if old(self)@.contains(k) {
                        let j = choose|j: int| 0 <= j < old(self).allowed_devices@.len() && #[trigger] old(self).allowed_devices@[j]@ == k;
                        assert(self.allowed_devices@[j] == old(self).allowed_devices@[j]);
                    }
                    if k == device_id@ {
                        assert(self.allowed_devices@[n]@ == k);
                    }
                    if self@.contains(k) && k != device_id@ {
                        let j = choose|j: int| 0 <= j < self.allowed_devices@.len() && #[trigger] self.allowed_devices@[j]@ == k;
                        assert(old(self).allowed_devices@[j] == self.allowed_devices@[j]);
                    }
                }
                assert(self@ =~= old(self)@.insert(device_id@));
            }
        } else {
            assert(self@ =~= old(self)@.insert(device_id@));
        }
    }

    /// Whether the allow list holds `device_id`.
    fn contains(&self, device_id: &DeviceId) -> (res: bool)
        ensures
            res == self@.contains(device_id@),
    {
        let mut i: usize = 0;
        while i < self.allowed_devices.len()
            invariant
                i <= self.allowed_devices@.len(),
                forall|j: int| 0 <= j < i ==> #[trigger] self.allowed_devices@[j]@ != device_id@,
            decreases self.allowed_devices@.len() - i,
        {
            if self.allowed_devices[i] == *device_id {
                return true;
            }
            i = i + 1;
        }
        false
    }
}

impl Default for AllowListTrustPolicy {
    /// A policy with an empty allow list: every device of the same user is trusted.
    fn default() -> (res: Self)
        ensures
            res@ == Set::<Seq<char>>::empty(),
    {
        let res = AllowListTrustPolicy { allowed_devices: Vec::new() };
        assert(res@ =~= Set::<Seq<char>>::empty());
        res
    }
}

impl TrustPolicy for AllowListTrustPolicy {
    fn validate_peer(&self, local: &DeviceIdentity, remote: &DeviceIdentity) -> (res: Result<(), SyncholeError>)
        ensures
            local.user_id@ != remote.user_id@ ==> (res matches Err(SyncholeError::PermissionDenied(m))
                && m@ == different_user_message()),
            local.user_id@ == remote.user_id@ && !self@.is_empty() && !self@.contains(remote.device_id@)
                ==> (res matches Err(SyncholeError::PermissionDenied(m)) && m@ == not_enrolled_message()),
            res is Ok <==> local.user_id@ == remote.user_id@ && (self@.is_empty() || self@.contains(
                remote.device_id@,
            )),
    {
        if !(local.user_id == remote.user_id) {
            return Err(SyncholeError::PermissionDenied("peer belongs to a different user".to_owned()));
        }
        proof {
            if self.allowed_devices@.len() > 0 {
                assert(self@.contains(self.allowed_devices@[0]@));
            } else {
                assert(self@ =~= Set::<Seq<char>>::empty());
            }
        }
        if self.allowed_devices.len() != 0 && !self.contains(&remote.device_id) {
            return Err(SyncholeError::PermissionDenied("peer device is not enrolled".to_owned()));
        }
        Ok(())
    }
}

/// A device identity together with a signed challenge that proves it.
#[derive(Clone, Debug, PartialEq, Eq)]
pub struct IdentityAttestation {
    pub identity: DeviceIdentity,
    pub signed_challenge: SignatureBytes,
    pub challenge_nonce: Vec<u8>,
}

} // verus!
