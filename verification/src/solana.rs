//! Solana public keys and program-derived addresses, computed by the
//! `Pubkey` type that `anchor_lang` re-exports.
use crate::hash::views;
use vstd::prelude::*;

verus! {

/// What `Pubkey::from_str` gives for a string: the 32 key bytes, or the
/// message of its error.
pub uninterp spec fn spec_parse_pubkey(s: Seq<char>) -> Result<Seq<u8>, Seq<char>>;

/// The base58 text that `Pubkey`'s `Display` writes for the given key bytes.
pub uninterp spec fn spec_pubkey_string(key: Seq<u8>) -> Seq<char>;

/// What `Pubkey::try_find_program_address` gives for the seeds and program id:
/// the derived address and its bump seed, or none.
pub uninterp spec fn spec_find_program_address(seeds: Seq<Seq<u8>>, program_id: Seq<u8>) -> Option<(Seq<u8>, u8)>;

/// What `Pubkey::create_program_address` gives for the seeds and program id:
/// the derived address, or none when it returns an error.
pub uninterp spec fn spec_create_program_address(seeds: Seq<Seq<u8>>, program_id: Seq<u8>) -> Option<Seq<u8>>;

/// Whether `c` is a character of the base58 alphabet: the digits and
/// letters without `0`, `O`, `I` and `l`.
pub open spec fn is_base58_char(c: char) -> bool {
    ('1' <= c && c <= '9') || ('A' <= c && c <= 'H') || ('J' <= c && c <= 'N') || ('P' <= c && c <= 'Z')
        || ('a' <= c && c <= 'k') || ('m' <= c && c <= 'z')
}

/// Calls `Pubkey::from_str` (base58, at most 44 characters, exactly 32 bytes).
/// Trusted: the result, key bytes or error message, is the one named
/// `spec_parse_pubkey` of the string, and it is an error for a string of
/// more than 44 characters or with a character outside the base58
/// alphabet; which other strings parse is not stated.
#[verifier::external_body]
pub(crate) fn parse_pubkey_bytes(s: &str) -> (r: Result<[u8; 32], String>)
    ensures
        match r {
            Ok(k) => spec_parse_pubkey(s@) == Ok::<Seq<u8>, Seq<char>>(k@),
            Err(m) => spec_parse_pubkey(s@) == Err::<Seq<u8>, Seq<char>>(m@),
        },
        s@.len() > 44 ==> r is Err,
        (exists|i: int| 0 <= i < s@.len() && !is_base58_char(#[trigger] s@[i])) ==> r is Err,
{
    match <anchor_lang::prelude::Pubkey as std::str::FromStr>::from_str(s) {
        Ok(k) => Ok(k.to_bytes()),
        Err(e) => Err(e.to_string()),
    }
}

/// Calls `Pubkey::to_string` on the key with the given bytes.
/// Trusted: the text is the one named `spec_pubkey_string` of the bytes.
#[verifier::external_body]
pub(crate) fn pubkey_to_string(key: &[u8; 32]) -> (s: String)
    ensures
        s@ == spec_pubkey_string(key@),
{
    anchor_lang::prelude::Pubkey::new_from_array(*key).to_string()
}

/// Calls `Pubkey::try_find_program_address` with the given seeds, in order.
/// Trusted: the address and bump are the ones named `spec_find_program_address`
/// of the seeds and program id.
#[verifier::external_body]
pub(crate) fn try_find_program_address(seeds: &Vec<Vec<u8>>, program_id: &[u8; 32]) -> (r: Option<([u8; 32], u8)>)
    ensures
        spec_find_program_address(views(seeds@), program_id@) == match r {
            Some(p) => Some((p.0@, p.1)),
            None => None,
        },
{
    let slices: Vec<&[u8]> = seeds.iter().map(|s| s.as_slice()).collect();
    let pid = anchor_lang::prelude::Pubkey::new_from_array(*program_id);
    anchor_lang::prelude::Pubkey::try_find_program_address(&slices, &pid).map(|(k, b)| (k.to_bytes(), b))
}

/// Calls `Pubkey::create_program_address` with the given seeds, in order.
/// Trusted: the address, or its absence when the call errs, is the one named
/// `spec_create_program_address` of the seeds and program id.
#[verifier::external_body]
pub(crate) fn create_program_address(seeds: &Vec<Vec<u8>>, program_id: &[u8; 32]) -> (r: Option<[u8; 32]>)
    ensures
        spec_create_program_address(views(seeds@), program_id@) == match r {
            Some(k) => Some(k@),
            None => None,
        },
{
    let slices: Vec<&[u8]> = seeds.iter().map(|s| s.as_slice()).collect();
    let pid = anchor_lang::prelude::Pubkey::new_from_array(*program_id);
    anchor_lang::prelude::Pubkey::create_program_address(&slices, &pid).ok().map(|k| k.to_bytes())
}

} // verus!
