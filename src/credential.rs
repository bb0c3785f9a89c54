use vstd::prelude::*;

use crate::session::SessionError;

verus! {

#[verifier::external_type_specification]
#[verifier::external_body]
pub struct ExPrivateKey(ssh_key::PrivateKey);

#[verifier::external_type_specification]
#[verifier::external_body]
pub struct ExKeyError(ssh_key::Error);

/// Relies on rand_core's RngCore::try_fill_bytes on OsRng: 32 bytes from the
/// operating system's random source, or `None` where that source failed.
#[verifier::external_body]
fn os_random_seed() -> (r: Option<[u8; 32]>) {
    let mut seed = [0u8; 32];
    match rand_core::RngCore::try_fill_bytes(&mut rand_core::OsRng, &mut seed) {
        Ok(()) => Some(seed),
        Err(_) => None,
    }
}

/// Relies on ssh_key::private::Ed25519Keypair::from_seed: the Ed25519 key
/// pair whose secret is `seed`, held as an ssh_key::PrivateKey.
#[verifier::external_body]
fn ed25519_key_from_seed(seed: &[u8; 32]) -> (r: ssh_key::PrivateKey) {
    ssh_key::PrivateKey::from(ssh_key::private::Ed25519Keypair::from_seed(seed))
}

/// Relies on ssh_key::PublicKey::to_openssh: the public half of `key` in the
/// one-line OpenSSH encoding, or the encoding error.
#[verifier::external_body]
fn openssh_public_key(key: &ssh_key::PrivateKey) -> (r: Result<String, ssh_key::Error>) {
    key.public_key().to_openssh()
}

/// A single-use key pair. Only `public_openssh` is ever sent to the cluster.
pub struct CredentialPair {
    pub private_key: ssh_key::PrivateKey,
    pub public_openssh: String,
}

/// Generates the session's key pair from fresh operating-system randomness;
/// a failure of the random source or of the encoding is a credential error.
pub fn provision_credential() -> (r: Result<CredentialPair, SessionError>)
    ensures
        r is Err ==> r == Err::<CredentialPair, SessionError>(SessionError::CredentialGeneration),
{
    let key = match os_random_seed() {
        Some(seed) => ed25519_key_from_seed(&seed),
        None => return Err(SessionError::CredentialGeneration),
    };
    match openssh_public_key(&key) {
        Ok(public_openssh) => Ok(CredentialPair { private_key: key, public_openssh }),
        Err(_) => Err(SessionError::CredentialGeneration),
    }
}

} // verus!
