//! Trusted boundary: the elliptic-curve key generator, the address encoder,
//! the wall clock, the CPU count and console output. Each item's contract is
//! what the underlying library's source and documentation promise; nothing
//! behind this boundary is verified.

use std::io::Write;
use vstd::prelude::*;
use crate::alphabet::hrp_prefix;

verus! {

/// The mainnet P2WPKH address derived from the private key that a WIF
/// serialization encodes. A WIF encodes exactly the key bytes, the network
/// and the compressedness, and key → public key → address is a fixed,
/// deterministic derivation chain, so the address is a function of the WIF
/// alone; its pages-long definition (base58, secp256k1, hash160, bech32) is
/// left uninterpreted.
pub uninterp spec fn addr_of_wif(wif: Seq<char>) -> Seq<char>;

/// Relies on bitcoin's `PrivateKey::generate` (a fresh compressed mainnet key
/// from the host's secure RNG), secp256k1's `SecretKey::public_key` with the
/// global context, bitcoin's `Address::p2wpkh` (the key's native segwit
/// address) and `PrivateKey::to_wif` (the key's standard serialization). The
/// result is the pair (WIF serialization, address string); the address is
/// the one the WIF's key derives, `addr_of_wif`. A rendered mainnet P2WPKH
/// address is the hrp "bc", the separator '1', the witness-version symbol
/// 'q' and 38 data and checksum symbols: 42 characters beginning with
/// "bc1q". The key is random, so nothing is promised of which pair comes
/// back.
#[verifier::external_body]
pub(crate) fn generate_candidate() -> (c: (String, String))
    ensures
        c.1@ == addr_of_wif(c.0@),
        c.1@.len() == 42,
        c.1@.subrange(0, 4) == hrp_prefix(),
{
    let key = bitcoin::PrivateKey::generate(bitcoin::NetworkKind::Main);
    let public = bitcoin::CompressedPublicKey(key.inner.public_key(secp256k1::SECP256K1));
    let address = bitcoin::Address::p2wpkh(&public, bitcoin::KnownHrp::Mainnet);
    (key.to_wif(), address.to_string())
}

/// Relies on num_cpus's `get`, documented to always return at least 1.
#[verifier::external_body]
pub(crate) fn available_cpus() -> (n: usize)
    ensures
        n >= 1,
{
    num_cpus::get()
}

/// Relies on std's `SystemTime::now` and `duration_since`: milliseconds since
/// the Unix epoch, or 0 where the clock reads earlier than the epoch. The
/// clock is not monotonic, so nothing is promised of the value.
#[verifier::external_body]
pub(crate) fn now_millis() -> u64 {
    match std::time::SystemTime::now().duration_since(std::time::UNIX_EPOCH) {
        Ok(d) => d.as_millis() as u64,
        Err(_) => 0,
    }
}

/// Relies on std's `writeln` to standard output; console output only.
#[verifier::external_body]
pub(crate) fn print_line(line: &str) {
    let _ = writeln!(std::io::stdout(), "{}", line);
}

} // verus!
