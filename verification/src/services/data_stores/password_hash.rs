//! Salted, memory-hard password hashes.

use vstd::prelude::*;

use crate::domain::password::{byte_len, is_ascii_digit};

verus! {

/// Whether Argon2 accepts `candidate` for the PHC string `hash`: whether
/// `verify_password` of `argon2::Argon2` succeeds on the parsed string. A
/// text that is no PHC string is accepted for nothing.
pub uninterp spec fn hash_verifies(hash: Seq<char>, candidate: Seq<char>) -> bool;

/// The parameters that the PHC string `hash` carries, as
/// `argon2::PasswordHash::new` reads them: the pairs of name and value in
/// the order in which they stand; `None` where the text is no PHC string.
pub uninterp spec fn hash_param_pairs(hash: Seq<char>) -> Option<Seq<(Seq<char>, Seq<char>)>>;

/// Memory that one hash takes, in KiB.
pub const HASH_MEMORY_KIB: u32 = 15000;

/// Passes over that memory.
pub const HASH_ITERATIONS: u32 = 2;

/// Lanes computed in parallel.
pub const HASH_LANES: u32 = 1;

/// The most lanes that Argon2 takes. A hash that asks for more is not
/// handed to it.
pub const MAX_HASH_LANES: u32 = 0xFF_FFFF;

/// The most memory, in KiB, that a hash may ask for: what every target can
/// still address. A hash that asks for more is not handed to Argon2.
pub const MAX_HASH_MEMORY_KIB: u32 = 0x1F_FFFF;

/// The longest password, in bytes, that Argon2 hashes.
pub const MAX_PASSWORD_BYTES: usize = 0xFFFF_FFFF;

/// The number that the digit `c` stands for; 0 for any other character.
pub open spec fn digit_of(c: char) -> nat {
    if is_ascii_digit(c) {
        (c as int - '0' as int) as nat
    } else {
        0
    }
}

/// Every character of `text` is an ASCII digit.
pub open spec fn all_digits(text: Seq<char>) -> bool {
    forall|i: int| 0 <= i < text.len() ==> is_ascii_digit(#[trigger] text[i])
}

/// The number that the decimal digits of `text` spell.
pub open spec fn digits_value(text: Seq<char>) -> nat
    decreases text.len(),
{
    if text.len() == 0 {
        0
    } else {
        digits_value(text.drop_last()) * 10 + digit_of(text.last())
    }
}

/// Whether `value`, read as a decimal number, is at most `bound`. A value
/// that is no decimal number counts: it stands for no number at all.
pub open spec fn reads_at_most(value: Seq<char>, bound: nat) -> bool {
    !all_digits(value) || digits_value(value) <= bound
}

/// Whether the parameter `pair` may be handed to Argon2: lanes at most
/// [`MAX_HASH_LANES`], memory at most [`MAX_HASH_MEMORY_KIB`], anything of
/// another name.
pub open spec fn pair_allowed(pair: (Seq<char>, Seq<char>)) -> bool {
    &&& pair.0 == "p"@ ==> reads_at_most(pair.1, MAX_HASH_LANES as nat)
    &&& pair.0 == "m"@ ==> reads_at_most(pair.1, MAX_HASH_MEMORY_KIB as nat)
}

/// Whether `hash` is a PHC string all of whose parameters may be handed to
/// Argon2.
pub open spec fn hash_costs_allowed(hash: Seq<char>) -> bool {
    hash_param_pairs(hash) matches Some(pairs) && forall|i: int|
        0 <= i < pairs.len() ==> pair_allowed(#[trigger] pairs[i])
}

/// Whether a store of hashes takes `candidate` for the password kept as
/// `hash`: the hash's costs are allowed and Argon2 accepts the candidate.
pub open spec fn hash_accepts(hash: Seq<char>, candidate: Seq<char>) -> bool {
    hash_costs_allowed(hash) && hash_verifies(hash, candidate)
}

/// The parameters of a hash made at the cost of `memory_kib`, `iterations`
/// and `lanes`: the three pairs `m`, `t`, `p`, each with its number in
/// decimal digits.
pub open spec fn carries_costs(
    pairs: Seq<(Seq<char>, Seq<char>)>,
    memory_kib: u32,
    iterations: u32,
    lanes: u32,
) -> bool {
    &&& pairs.len() == 3
    &&& pairs[0].0 == "m"@ && all_digits(pairs[0].1) && digits_value(pairs[0].1) == memory_kib
    &&& pairs[1].0 == "t"@ && all_digits(pairs[1].1) && digits_value(pairs[1].1) == iterations
    &&& pairs[2].0 == "p"@ && all_digits(pairs[2].1) && digits_value(pairs[2].1) == lanes
}

/// Whether `hash` is a PHC string made at the cost of the three constants
/// of this module.
pub open spec fn made_at_configured_cost(hash: Seq<char>) -> bool {
    hash_param_pairs(hash) matches Some(pairs) && carries_costs(
        pairs,
        HASH_MEMORY_KIB,
        HASH_ITERATIONS,
        HASH_LANES,
    )
}

/// The texts of the pairs in `pairs`.
pub open spec fn pairs_view(pairs: Seq<(String, String)>) -> Seq<(Seq<char>, Seq<char>)> {
    pairs.map_values(|pair: (String, String)| (pair.0@, pair.1@))
}

/// Calls `hash_password` of `argon2::Argon2` (Argon2id, version 0x13, the
/// given parameters) with a salt from `SaltString::generate` on
/// `rand::thread_rng()`, and hands out the PHC string.
///
/// Trusted: a hash comes out whenever the parameters are in Argon2's range
/// and the password is at most [`MAX_PASSWORD_BYTES`] long; a hash that
/// comes out is one for which Argon2 accepts `password`, and it carries the
/// parameters it was made with. The salt is random, so nothing else is
/// claimed of it. More lanes than [`MAX_HASH_LANES`] overflow in
/// `Params::new`, and more memory than [`MAX_HASH_MEMORY_KIB`] cannot be
/// allocated on every target; both are left out.
#[verifier::external_body]
fn argon2id_hash(password: &str, memory_kib: u32, iterations: u32, lanes: u32) -> (hash: Option<
    String,
>)
    requires
        lanes <= MAX_HASH_LANES,
        memory_kib <= MAX_HASH_MEMORY_KIB,
    ensures
        hash matches Some(text) ==> hash_verifies(text@, password@),
        hash matches Some(text) ==> (hash_param_pairs(text@) matches Some(pairs) && carries_costs(
            pairs,
            memory_kib,
            iterations,
            lanes,
        )),
        1 <= lanes && 8 <= memory_kib && 8 * lanes <= memory_kib && 1 <= iterations && byte_len(
            password@,
        ) <= MAX_PASSWORD_BYTES ==> hash is Some,
{
    let salt = argon2::password_hash::SaltString::generate(&mut rand::thread_rng());
    let params = match argon2::Params::new(memory_kib, iterations, lanes, None) {
        Ok(params) => params,
        Err(_) => return None,
    };
    let hasher = argon2::Argon2::new(argon2::Algorithm::Argon2id, argon2::Version::V0x13, params);
    match argon2::PasswordHasher::hash_password(&hasher, password.as_bytes(), &salt) {
        Ok(hash) => Some(hash.to_string()),
        Err(_) => None,
    }
}

/// Calls `argon2::PasswordHash::new` on `hash` and hands out the pairs of
/// its `params`, each as two strings.
///
/// Trusted: the result is the parameter list that the parser reads.
#[verifier::external_body]
fn read_param_pairs(hash: &str) -> (pairs: Option<Vec<(String, String)>>)
    ensures
        match pairs {
            Some(read) => hash_param_pairs(hash@) == Some(pairs_view(read@)),
            None => hash_param_pairs(hash@) is None,
        },
{
    match argon2::PasswordHash::new(hash) {
        Ok(parsed) => Some(
            parsed.params.iter().map(|(name, value)| (name.to_string(), value.to_string())).collect(),
        ),
        Err(_) => None,
    }
}

/// Calls `argon2::PasswordHash::new` on `hash` and `verify_password` of
/// `argon2::Argon2::default()` on the result.
///
/// Trusted: the result says whether Argon2 accepts `candidate` for `hash`.
/// The verifier builds its parameters from the hash; lanes beyond
/// [`MAX_HASH_LANES`] overflow there and memory beyond
/// [`MAX_HASH_MEMORY_KIB`] cannot be allocated on every target, so a hash
/// that asks for either is left out.
#[verifier::external_body]
fn argon2_verify(hash: &str, candidate: &str) -> (accepted: bool)
    requires
        hash_costs_allowed(hash@),
    ensures
        accepted == hash_verifies(hash@, candidate@),
{
    match argon2::PasswordHash::new(hash) {
        Ok(parsed) => argon2::PasswordVerifier::verify_password(
            &argon2::Argon2::default(),
            candidate.as_bytes(),
            &parsed,
        ).is_ok(),
        Err(_) => false,
    }
}

/// Tests [`reads_at_most`].
pub fn value_at_most(value: &str, bound: u32) -> (within: bool)
    ensures
        within == reads_at_most(value@, bound as nat),
{
    broadcast use vstd::string::group_string_axioms;

    let limit: u64 = bound as u64;
    let mut digits = true;
    let mut spelled: u64 = 0;
    for c in it: value.chars()
        invariant
            it.seq() == value@,
            limit == bound,
            digits == all_digits(value@.take(it.index() as int)),
            spelled <= limit + 1,
            spelled == if digits_value(value@.take(it.index() as int)) > limit {
                limit + 1
            } else {
                digits_value(value@.take(it.index() as int)) as int
            },
    {
        let ghost i = it.index() as int;
        let ghost before = value@.take(i);
        let ghost after = value@.take(i + 1);
        assert(after.drop_last() == before);
        assert(after.last() == c);
        if c >= '0' && c <= '9' {
            assert forall|j: int| 0 <= j < after.len() && all_digits(before) implies is_ascii_digit(
                #[trigger] after[j],
            ) by {
                if j < i {
                    assert(before[j] == after[j]);
                }
            }
            assert(all_digits(after) ==> all_digits(before)) by {
                if all_digits(after) {
                    assert forall|j: int| 0 <= j < before.len() implies is_ascii_digit(
                        #[trigger] before[j],
                    ) by {
                        assert(before[j] == after[j]);
                    }
                }
            }
            let digit: u64 = (c as u32 - '0' as u32) as u64;
            assert(digit == digit_of(c));
            let next: u64 = spelled * 10 + digit;
            spelled = if next > limit {
                limit + 1
            } else {
                next
            };
        } else {
            digits = false;
            assert(!is_ascii_digit(after[i]));
            let next: u64 = spelled * 10;
            assert(digit_of(c) == 0);
            spelled = if next > limit {
                limit + 1
            } else {
                next
            };
        }
    }
    assert(value@.take(value@.len() as int) == value@);
    !digits || spelled <= limit
}

/// Tests whether every parameter in `pairs` may be handed to Argon2; see
/// [`pair_allowed`].
pub fn costs_allowed(pairs: &Vec<(String, String)>) -> (allowed: bool)
    ensures
        allowed == (forall|i: int|
            0 <= i < pairs@.len() ==> pair_allowed(#[trigger] pairs_view(pairs@)[i])),
{
    let lanes_name = "p".to_owned();
    let memory_name = "m".to_owned();
    let mut i: usize = 0;
    while i < pairs.len()
        invariant
            i <= pairs@.len(),
            lanes_name@ == "p"@,
            memory_name@ == "m"@,
            forall|j: int| 0 <= j < i ==> pair_allowed(#[trigger] pairs_view(pairs@)[j]),
        decreases pairs@.len() - i,
    {
        let pair = &pairs[i];
        assert(pairs_view(pairs@)[i as int] == (pair.0@, pair.1@));
        if pair.0 == lanes_name && !value_at_most(pair.1.as_str(), MAX_HASH_LANES) {
            assert(!pair_allowed(pairs_view(pairs@)[i as int]));
            return false;
        }
        if pair.0 == memory_name && !value_at_most(pair.1.as_str(), MAX_HASH_MEMORY_KIB) {
            assert(!pair_allowed(pairs_view(pairs@)[i as int]));
            return false;
        }
        i += 1;
    }
    true
}

/// A hash made at the configured cost is one whose costs are allowed.
pub proof fn configured_cost_is_allowed(hash: Seq<char>)
    requires
        made_at_configured_cost(hash),
    ensures
        hash_costs_allowed(hash),
{
    reveal_strlit("m");
    reveal_strlit("t");
    reveal_strlit("p");
    let pairs = hash_param_pairs(hash)->0;
    assert("m"@ != "p"@) by {
        assert("m"@[0] != "p"@[0]);
    }
    assert("t"@ != "p"@) by {
        assert("t"@[0] != "p"@[0]);
    }
    assert("t"@ != "m"@) by {
        assert("t"@[0] != "m"@[0]);
    }
    assert forall|i: int| 0 <= i < pairs.len() implies pair_allowed(#[trigger] pairs[i]) by {
        if i == 0 {
        } else if i == 1 {
        } else {
        }
    }
}

/// Hashes `password` under a fresh random salt, at the cost of
/// [`HASH_MEMORY_KIB`], [`HASH_ITERATIONS`] and [`HASH_LANES`]. A hash
/// comes out exactly when the password is at most [`MAX_PASSWORD_BYTES`]
/// long; it is accepted for `password` and carries these costs.
pub fn compute_password_hash(password: &str) -> (result: Result<String, String>)
    ensures
        result is Ok <==> byte_len(password@) <= MAX_PASSWORD_BYTES,
        result matches Ok(hash) ==> hash_accepts(hash@, password@) && made_at_configured_cost(
            hash@,
        ),
        result matches Err(cause) ==> cause@ == "Failed to hash password"@,
{
    if password.as_bytes().len() > MAX_PASSWORD_BYTES {
        return hashed_or_error(None);
    }
    let hash = argon2id_hash(password, HASH_MEMORY_KIB, HASH_ITERATIONS, HASH_LANES);
    proof {
        if hash is Some {
            configured_cost_is_allowed(hash->0@);
        }
    }
    hashed_or_error(hash)
}

/// What [`compute_password_hash`] makes of the hasher's answer.
pub fn hashed_or_error(hash: Option<String>) -> (result: Result<String, String>)
    ensures
        match hash {
            Some(text) => result == Ok::<String, String>(text),
            None => result matches Err(cause) && cause@ == "Failed to hash password"@,
        },
{
    match hash {
        Some(text) => Ok(text),
        None => Err("Failed to hash password".to_owned()),
    }
}

/// Succeeds exactly when `expected_password_hash` is a PHC string whose
/// costs are allowed and Argon2 accepts `password_candidate` for it. A hash
/// whose costs are not allowed is refused without being handed to Argon2.
pub fn verify_password_hash(expected_password_hash: &str, password_candidate: &str) -> (result:
    Result<(), String>)
    ensures
        result is Ok <==> hash_accepts(expected_password_hash@, password_candidate@),
        result matches Err(cause) ==> cause@ == "Failed to verify password hash"@,
{
    let allowed = match read_param_pairs(expected_password_hash) {
        Some(pairs) => costs_allowed(&pairs),
        None => false,
    };
    if allowed && argon2_verify(expected_password_hash, password_candidate) {
        Ok(())
    } else {
        Err("Failed to verify password hash".to_owned())
    }
}

} // verus!
