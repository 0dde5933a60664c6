//! Credential hashing: a memory-hard, keyed hash of a password.
//!
//! The pepper is a secret of the whole process and the salt a configured
//! value of the whole process; neither is stored with a record.

use vstd::prelude::*;
use vstd::utf8::encode_utf8;

verus! {

/// The error type of the `argon2` crate; nothing of it is read here.
#[verifier::external_type_specification]
#[verifier::external_body]
pub struct ExArgon2Error(argon2::Error);

/// The encoded Argon2 hash of `password` under `salt`, keyed with `secret`,
/// at the parameters of the reference implementation: Argon2i, 4096 KiB of
/// memory, three passes, one lane, 32 bytes of output.
pub uninterp spec fn argon2_encoding(password: Seq<char>, salt: Seq<char>, secret: Seq<char>) -> Seq<char>;

/// The inputs that Argon2 accepts at those parameters: a salt of at least
/// eight bytes, and no input longer than `u32::MAX` bytes.
pub open spec fn argon2_accepts(password: Seq<char>, salt: Seq<char>, secret: Seq<char>) -> bool {
    &&& encode_utf8(password).len() <= u32::MAX
    &&& 8 <= encode_utf8(salt).len() <= u32::MAX
    &&& encode_utf8(secret).len() <= u32::MAX
}

/// Calls `argon2::hash_encoded` with `argon2::Config::original()` whose
/// `secret` is set to the bytes of `secret`.
///
/// Trusted: the call fails exactly on the inputs that `argon2_accepts`
/// leaves out (the length checks of the crate's `Context::new`; every other
/// check passes at these parameters), and its result depends on the three
/// inputs alone.
#[verifier::external_body]
fn argon2_hash_encoded(password: &str, salt: &str, secret: &str) -> (r: Result<
    String,
    argon2::Error,
>)
    ensures
        r is Ok <==> argon2_accepts(password@, salt@, secret@),
        r matches Ok(encoded) ==> encoded@ == argon2_encoding(password@, salt@, secret@),
{
    let mut config = argon2::Config::original();
    config.secret = secret.as_bytes();
    argon2::hash_encoded(password.as_bytes(), salt.as_bytes(), &config)
}

/// The hash could not be computed.
#[derive(Clone, Copy, Debug, PartialEq, Eq, Structural)]
pub struct HashError;

/// What `hash_password` returns for the given inputs.
pub open spec fn hash_outcome(password: Seq<char>, pepper: Seq<char>, salt: Seq<char>) -> Result<
    Seq<char>,
    HashError,
> {
    if argon2_accepts(password, salt, pepper) {
        Ok(argon2_encoding(password, salt, pepper))
    } else {
        Err(HashError)
    }
}

/// Hashes `password` with the process-wide `pepper` and `salt`.
///
/// Succeeds exactly when the salt has at least eight bytes and no input
/// exceeds `u32::MAX` bytes.
pub fn hash_password(password: &str, pepper: &str, salt: &str) -> (r: Result<String, HashError>)
    ensures
        match r {
            Ok(encoded) => hash_outcome(password@, pepper@, salt@) == Ok::<Seq<char>, HashError>(
                encoded@,
            ),
            Err(e) => hash_outcome(password@, pepper@, salt@) == Err::<Seq<char>, HashError>(e),
        },
{
    match argon2_hash_encoded(password, salt, pepper) {
        Ok(encoded) => Ok(encoded),
        Err(_) => Err(HashError),
    }
}

} // verus!
