//! Passwords: how they are hashed and checked, and which are too weak to
//! be accepted.

use crate::error::Error;
use crate::model::text_view;
use crate::random::random_bytes;
use vstd::prelude::*;

verus! {

/// The encoded hash that `argon2::hash_encoded` makes of a password with a
/// salt, in the variant Argon2i and the version 1.3, at the given costs;
/// `None` where it refuses.
pub uninterp spec fn argon2i_encoded(
    password: Seq<char>,
    salt: Seq<u8>,
    mem_cost: u32,
    time_cost: u32,
    lanes: u32,
    hash_length: u32,
) -> Option<Seq<char>>;

/// What `argon2::verify_encoded` says of an encoded hash and a password:
/// whether they match, or `None` where the hash cannot be read.
pub uninterp spec fn argon2_verified(hash: Seq<char>, password: Seq<char>) -> Option<bool>;

/// The MD5 digest of a text's bytes, as `md5::compute` gives it: sixteen
/// bytes.
pub uninterp spec fn md5_of(text: Seq<char>) -> Seq<u8>;

/// Calls `argon2::hash_encoded` on the password's bytes, in the variant
/// Argon2i and the version 1.3, on parallel lanes, without a secret and
/// without associated data. The hash depends on the arguments alone. The
/// call takes `mem_cost` KiB of memory and a thread for each lane, so both
/// are bounded.
#[verifier::external_body]
fn argon2i_hash(
    password: &str,
    salt: &[u8],
    mem_cost: u32,
    time_cost: u32,
    lanes: u32,
    hash_length: u32,
) -> (r: Option<String>)
    requires
        mem_cost <= 1048576,
        lanes <= 64,
    ensures
        text_view(r) == argon2i_encoded(password@, salt@, mem_cost, time_cost, lanes, hash_length),
{
    let config = argon2::Config {
        variant: argon2::Variant::Argon2i,
        version: argon2::Version::Version13,
        mem_cost,
        time_cost,
        lanes,
        thread_mode: argon2::ThreadMode::Parallel,
        secret: &[],
        ad: &[],
        hash_length,
    };
    argon2::hash_encoded(password.as_bytes(), salt, &config).ok()
}

/// Calls `argon2::verify_encoded` on the password's bytes. The verdict
/// depends on the hash and the password alone. The call takes the memory and
/// the lanes that the hash names.
#[verifier::external_body]
fn argon2_verify(hash: &str, password: &str) -> (r: Option<bool>)
    ensures
        r == argon2_verified(hash@, password@),
{
    argon2::verify_encoded(hash, password.as_bytes()).ok()
}

/// Calls `md5::compute` on the text's bytes. The digest depends on the text
/// alone.
#[verifier::external_body]
fn md5_digest(text: &str) -> (r: [u8; 16])
    ensures
        r@ == md5_of(text@),
{
    md5::compute(text.as_bytes()).0
}

/// Hashing and checking of passwords.
pub struct Password {}

/// The hash of a password with a salt as it is stored: made in 64 MiB of
/// memory, ten passes and four lanes, thirty-two bytes long.
pub open spec fn password_hash(password: Seq<char>, salt: Seq<u8>) -> Option<Seq<char>> {
    argon2i_encoded(password, salt, 65536, 10, 4, 32)
}

impl Password {
    /// Hashes a password with a salt, or fails with `HashingError`.
    pub fn hash_with_salt(password: &String, salt: &Vec<u8>) -> (r: Result<String, Error>)
        ensures
            match password_hash(password@, salt@) {
                Some(h) => r matches Ok(s) && s@ == h,
                None => r matches Err(e) && e == Error::HashingError,
            },
    {
        match argon2i_hash(password.as_str(), salt.as_slice(), 65536, 10, 4, 32) {
            Some(hash) => Ok(hash),
            None => Err(Error::HashingError),
        }
    }

    /// Hashes a password with sixteen bytes of salt drawn at random, or fails
    /// with `HashingError`.
    pub fn hash(password: &String) -> (r: Result<String, Error>)
        ensures
            exists|salt: Seq<u8>|
                salt.len() == 16 && match #[trigger] password_hash(password@, salt) {
                    Some(h) => r matches Ok(s) && s@ == h,
                    None => r matches Err(e) && e == Error::HashingError,
                },
    {
        let salt = random_bytes(16);
        Password::hash_with_salt(password, &salt)
    }

    /// Whether a password is the one that a stored hash was made of; fails
    /// with `HashingError` where the hash cannot be read.
    pub fn matches(hash: &String, password: &String) -> (r: Result<bool, Error>)
        ensures
            match argon2_verified(hash@, password@) {
                Some(b) => r == Ok::<bool, Error>(b),
                None => r matches Err(e) && e == Error::HashingError,
            },
    {
        match argon2_verify(hash.as_str(), password.as_str()) {
            Some(matches) => Ok(matches),
            None => Err(Error::HashingError),
        }
    }
}

/// The number that sixteen bytes spell, the first byte weighing most.
pub open spec fn digest_value(bytes: Seq<u8>) -> int
    decreases bytes.len(),
{
    if bytes.len() == 0 {
        0
    } else {
        256 * digest_value(bytes.drop_last()) + bytes.last() as int
    }
}

/// 256 to the power of `n`.
pub open spec fn pow256(n: nat) -> int
    decreases n,
{
    if n == 0 {
        1
    } else {
        256 * pow256((n - 1) as nat)
    }
}

/// A number of `n` bytes is not negative and below 256 to the power of `n`.
proof fn lemma_digest_value_bound(bytes: Seq<u8>)
    ensures
        0 <= digest_value(bytes) < pow256(bytes.len()),
    decreases bytes.len(),
{
    if bytes.len() > 0 {
        lemma_digest_value_bound(bytes.drop_last());
    }
}

/// 256 to the power of sixteen is two to the power of 128.
proof fn lemma_pow256_16()
    ensures
        pow256(16) == 0x1_0000_0000_0000_0000_0000_0000_0000_0000,
{
    reveal_with_fuel(pow256, 17);
}

/// The number that a digest of sixteen bytes spells.
pub fn digest_number(digest: &[u8; 16]) -> (r: u128)
    ensures
        r == digest_value(digest@),
{
    let mut value: u128 = 0;
    let mut i: usize = 0;
    assert(digest@.take(0) =~= Seq::empty());
    while i < 16
        invariant
            i <= 16,
            value == digest_value(digest@.take(i as int)),
        decreases 16 - i,
    {
        proof {
            assert(digest@.take(i + 1).drop_last() =~= digest@.take(i as int));
            lemma_digest_value_bound(digest@.take(i as int));
            lemma_digest_value_bound(digest@.take(i + 1));
            lemma_pow256_16();
            lemma_pow256_monotonic((i + 1) as nat, 16);
        }
        value = value * 256 + digest[i] as u128;
        i += 1;
    }
    assert(digest@.take(16) =~= digest@);
    value
}

/// The powers of 256 are positive and grow.
proof fn lemma_pow256_monotonic(a: nat, b: nat)
    requires
        a <= b,
    ensures
        0 < pow256(a) <= pow256(b),
    decreases b,
{
    if a < b {
        lemma_pow256_monotonic(a, (b - 1) as nat);
    } else if a > 0 {
        lemma_pow256_monotonic((a - 1) as nat, (b - 1) as nat);
    }
}

/// Whether a list of numbers ascends.
pub open spec fn ascending(s: Seq<u128>) -> bool {
    forall|i: int, j: int| 0 <= i <= j < s.len() ==> s[i] <= s[j]
}

/// Looks a number up in a list by halving. A number that is found is in the
/// list; in a list that ascends, a number that is in the list is found.
pub fn search_sorted(list: &Vec<u128>, wanted: u128) -> (r: bool)
    ensures
        r ==> list@.contains(wanted),
        ascending(list@) ==> r == list@.contains(wanted),
{
    let mut lo: usize = 0;
    let mut hi: usize = list.len();
    while lo < hi
        invariant
            lo <= hi <= list.len(),
            ascending(list@) ==> forall|k: int| 0 <= k < lo ==> list@[k] < wanted,
            ascending(list@) ==> forall|k: int| hi <= k < list@.len() ==> list@[k] > wanted,
        decreases hi - lo,
    {
        let mid = lo + (hi - lo) / 2;
        let value = list[mid];
        if value == wanted {
            assert(list@[mid as int] == wanted);
            return true;
        } else if value < wanted {
            lo = mid + 1;
        } else {
            hi = mid;
        }
    }
    false
}

/// The known bad passwords: the MD5 digests of their bytes, as numbers, in a
/// list that ascends.
#[derive(Debug)]
pub struct BadPasswords {
    digests: Vec<u128>,
}

impl View for BadPasswords {
    type V = Seq<u128>;

    closed spec fn view(&self) -> Seq<u128> {
        self.digests@
    }
}

impl BadPasswords {
    #[verifier::type_invariant]
    spec fn ascends(self) -> bool {
        ascending(self.digests@)
    }

    /// No bad password is known.
    pub fn none() -> (r: BadPasswords)
        ensures
            r@ == Seq::<u128>::empty(),
    {
        BadPasswords { digests: Vec::new() }
    }

    /// The bad passwords with these digests, or `None` where the digests do
    /// not ascend.
    pub fn from_digests(digests: Vec<u128>) -> (r: Option<BadPasswords>)
        ensures
            r is Some <==> ascending(digests@),
            r matches Some(bad) ==> bad@ == digests@,
    {
        if is_ascending(&digests) {
            Some(BadPasswords { digests })
        } else {
            None
        }
    }

    /// The bad passwords whose digests a file holds, in records of sixteen
    /// bytes with the last byte weighing most, or `None` where the digests do
    /// not ascend.
    pub fn from_bytes(bytes: &Vec<u8>) -> (r: Option<BadPasswords>)
        ensures
            r is Some <==> ascending(digests_in(bytes@)),
            r matches Some(bad) ==> bad@ == digests_in(bytes@),
    {
        let digests = digests_from_bytes(bytes);
        assert(digests@ =~= digests_in(bytes@));
        BadPasswords::from_digests(digests)
    }

    /// How many bad passwords are known.
    pub fn len(&self) -> (r: usize)
        ensures
            r == self@.len(),
    {
        self.digests.len()
    }

    /// Whether a password is one of the known bad ones.
    pub fn holds(&self, password: &String) -> (r: bool)
        ensures
            r == self@.contains(digest_value(md5_of(password@)) as u128),
    {
        proof {
            use_type_invariant(self);
        }
        let digest = md5_digest(password.as_str());
        search_sorted(&self.digests, digest_number(&digest))
    }
}

/// Whether a password is one of the known bad ones.
pub fn is_bad_password(password: &String, bad: &BadPasswords) -> (r: bool)
    ensures
        r == bad@.contains(digest_value(md5_of(password@)) as u128),
{
    bad.holds(password)
}

/// The number that a record of a file of digests spells. A record holds its
/// number with the last byte weighing most, the other way round than a digest
/// holds its own.
pub open spec fn record_value(record: Seq<u8>) -> int {
    digest_value(record.reverse())
}

/// The digests that the bytes of a file of digests hold: each sixteen bytes
/// are one record, and bytes left over at the end are none.
pub open spec fn digests_in(bytes: Seq<u8>) -> Seq<u128> {
    Seq::new(
        (bytes.len() / 16) as nat,
        |k: int| record_value(bytes.subrange(16 * k, 16 * k + 16)) as u128,
    )
}

/// Reads a list of digests from the bytes of a file of digests: each sixteen
/// bytes are one record, read with the last byte weighing most, and bytes
/// left over at the end are none.
pub fn digests_from_bytes(bytes: &Vec<u8>) -> (r: Vec<u128>)
    ensures
        r@.len() == bytes@.len() / 16,
        forall|k: int|
            0 <= k < r@.len() ==> #[trigger] r@[k] == record_value(
                bytes@.subrange(16 * k, 16 * k + 16),
            ),
        r@ == digests_in(bytes@),
{
    let mut digests: Vec<u128> = Vec::new();
    let count = bytes.len() / 16;
    let mut k: usize = 0;
    while k < count
        invariant
            k <= count,
            count == bytes@.len() / 16,
            16 * count <= bytes.len(),
            digests@.len() == k,
            forall|j: int|
                0 <= j < k ==> #[trigger] digests@[j] == record_value(
                    bytes@.subrange(16 * j, 16 * j + 16),
                ),
        decreases count - k,
    {
        let mut record: [u8; 16] = [0u8; 16];
        let mut i: usize = 0;
        while i < 16
            invariant
                i <= 16,
                k < count,
                16 * count <= bytes.len(),
                forall|x: int| 0 <= x < i ==> record@[x] == bytes@[16 * k + 15 - x],
            decreases 16 - i,
        {
            record[i] = bytes[16 * k + (15 - i)];
            i += 1;
        }
        assert(record@ =~= bytes@.subrange(16 * k, 16 * k + 16).reverse());
        digests.push(digest_number(&record));
        k += 1;
    }
    assert(digests@ =~= digests_in(bytes@));
    digests
}

/// The least number of bytes that a password must have.
pub open spec fn min_password_len() -> usize {
    8
}

/// The number of bytes that a text has in UTF-8.
pub open spec fn byte_len(text: Seq<char>) -> usize {
    vstd::utf8::encode_utf8(text).len() as usize
}

/// Whether a password is long enough, counted in bytes.
pub fn is_long_enough(password: &String) -> (r: bool)
    ensures
        r == (byte_len(password@) >= min_password_len()),
{
    password.as_str().len() >= 8
}

/// Whether a list of numbers ascends.
pub fn is_ascending(list: &Vec<u128>) -> (r: bool)
    ensures
        r == ascending(list@),
{
    let mut i: usize = 1;
    while i < list.len()
        invariant
            1 <= i,
            forall|a: int, b: int| 0 <= a <= b < i && b < list@.len() ==> list@[a] <= list@[b],
        decreases list.len() - i,
    {
        if list[i - 1] > list[i] {
            return false;
        }
        assert forall|a: int, b: int| 0 <= a <= b < i + 1 && b < list@.len() implies list@[a]
            <= list@[b] by {
            if b == i && a < i {
                assert(list@[a] <= list@[i - 1]);
            }
        }
        i += 1;
    }
    true
}

/// Why a password is refused, if it is: it is shorter than eight bytes, or
/// one of the known bad ones.
pub open spec fn password_refusal(password: Seq<char>, bad_digests: Seq<u128>) -> Option<Error> {
    if byte_len(password) < min_password_len() {
        Some(Error::PasswordTooShortError)
    } else if bad_digests.contains(digest_value(md5_of(password)) as u128) {
        Some(Error::UnsafePasswordError)
    } else {
        None
    }
}

/// Decides whether a password is refused.
pub fn check_new_password(password: &String, bad_digests: &BadPasswords) -> (r: Result<(), Error>)
    ensures
        match password_refusal(password@, bad_digests@) {
            Some(e) => r matches Err(x) && x == e,
            None => r is Ok,
        },
{
    if !is_long_enough(password) {
        return Err(Error::PasswordTooShortError);
    }
    if is_bad_password(password, bad_digests) {
        return Err(Error::UnsafePasswordError);
    }
    Ok(())
}

} // verus!
