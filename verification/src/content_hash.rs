//! Whole-file content hashes: the bytes of a file, fed in pieces to a
//! streaming xxh3 hasher, give a 128-bit digest written as 32 lowercase
//! hexadecimal digits. An import skips a file whose hash it has seen.

use vstd::prelude::*;
use xxhash_rust::xxh3::Xxh3;
use crate::cells::{xxh3_128_of, xxh3_128};

verus! {

#[verifier::external_type_specification]
#[verifier::external_body]
pub struct ExXxh3(Xxh3);

/// The bytes fed to a streaming `Xxh3` hasher since it was created.
pub uninterp spec fn xxh3_fed(h: Xxh3) -> Seq<u8>;

/// Calls `Xxh3::new`: a hasher with seed 0 and the default secret, fed
/// nothing yet.
#[verifier::external_body]
fn xxh3_new() -> (r: Xxh3)
    ensures
        xxh3_fed(r) == Seq::<u8>::empty(),
{
    Xxh3::new()
}

/// Calls `Xxh3::update`: the bytes are appended to what the hasher was fed.
#[verifier::external_body]
fn xxh3_update(h: &mut Xxh3, data: &[u8])
    ensures
        xxh3_fed(*final(h)) == xxh3_fed(*old(h)) + data@,
{
    h.update(data)
}

/// Calls `Xxh3::digest128`: with seed 0 and the default secret this is the
/// one-shot `xxh3_128` of every byte fed, in order.
#[verifier::external_body]
fn xxh3_digest128(h: &Xxh3) -> (r: u128)
    ensures
        r == xxh3_128_of(xxh3_fed(*h)),
{
    h.digest128()
}

/// The lowercase hexadecimal digit for `d < 16`.
pub open spec fn hex_char(d: nat) -> char {
    if d < 10 {
        (48 + d) as char
    } else {
        (87 + d) as char
    }
}

/// The last `n` hexadecimal digits of `h`, most significant first, with
/// leading zeros.
pub open spec fn hex_digits(h: nat, n: nat) -> Seq<char>
    decreases n,
{
    if n == 0 {
        Seq::empty()
    } else {
        hex_digits(h / 16, (n - 1) as nat).push(hex_char(h % 16))
    }
}

/// A 128-bit digest as 32 lowercase hexadecimal digits (`{:032x}`).
pub open spec fn hex32(h: u128) -> Seq<char> {
    hex_digits(h as nat, 32)
}

fn hex_digit_char(d: u8) -> (r: char)
    requires
        d < 16,
    ensures
        r == hex_char(d as nat),
{
    if d < 10 {
        (48 + d) as char
    } else {
        (87 + d) as char
    }
}

fn push_hex(out: &mut Vec<char>, x: u128, n: usize)
    ensures
        final(out)@ == old(out)@ + hex_digits(x as nat, n as nat),
    decreases n,
{
    if n > 0 {
        push_hex(out, x / 16, n - 1);
        out.push(hex_digit_char((x % 16) as u8));
    }
    assert(final(out)@ =~= old(out)@ + hex_digits(x as nat, n as nat));
}

/// A digest written as 32 lowercase hexadecimal digits.
pub fn content_hash_hex(h: u128) -> (r: String)
    ensures
        r@ == hex32(h),
{
    let mut out: Vec<char> = Vec::new();
    push_hex(&mut out, h, 32);
    assert(out@ =~= hex32(h));
    crate::text::string_of(out.as_slice())
}

/// A hasher of file content, fed in pieces.
pub struct ContentHasher {
    h: Xxh3,
}

impl View for ContentHasher {
    /// The bytes fed so far.
    type V = Seq<u8>;

    closed spec fn view(&self) -> Seq<u8> {
        xxh3_fed(self.h)
    }
}

impl ContentHasher {
    /// A hasher fed nothing yet.
    pub fn new() -> (r: ContentHasher)
        ensures
            r@ == Seq::<u8>::empty(),
    {
        ContentHasher { h: xxh3_new() }
    }

    /// Feeds the next piece of the content.
    pub fn update(&mut self, data: &[u8])
        ensures
            final(self)@ == old(self)@ + data@,
    {
        xxh3_update(&mut self.h, data);
    }

    /// The digest of everything fed.
    pub fn digest(&self) -> (r: u128)
        ensures
            r == xxh3_128_of(self@),
    {
        xxh3_digest128(&self.h)
    }

    /// The content hash of everything fed, as the import log stores it.
    pub fn hex(&self) -> (r: String)
        ensures
            r@ == hex32(xxh3_128_of(self@)),
    {
        content_hash_hex(self.digest())
    }
}

/// The content hash of bytes held whole.
pub fn bytes_content_hash(data: &[u8]) -> (r: String)
    ensures
        r@ == hex32(xxh3_128_of(data@)),
{
    content_hash_hex(xxh3_128(data))
}

/// A content hash has 32 digits, each a lowercase hexadecimal digit.
pub proof fn lemma_hex32_shape(h: u128)
    ensures
        hex32(h).len() == 32,
        forall|i: int| 0 <= i < 32 ==> ('0' <= #[trigger] hex32(h)[i] <= '9' || 'a' <= hex32(h)[i] <= 'f'),
{
    lemma_hex_digits_shape(h as nat, 32);
}

proof fn lemma_hex_digits_shape(h: nat, n: nat)
    ensures
        hex_digits(h, n).len() == n,
        forall|i: int| 0 <= i < n ==> ('0' <= #[trigger] hex_digits(h, n)[i] <= '9' || 'a' <= hex_digits(h, n)[i] <= 'f'),
    decreases n,
{
    if n > 0 {
        lemma_hex_digits_shape(h / 16, (n - 1) as nat);
        let d = h % 16;
        assert(d < 16);
    }
}

} // verus!
