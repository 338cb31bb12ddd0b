//! The cache key and its stable, file-name-safe digest.
use vstd::prelude::*;
use vstd::string::*;
use vstd::utf8::*;
use sha2::Digest;

verus! {

/// What the cache is keyed by: a resource identifier and a pixel size.
/// Two keys are equal exactly when both fields are equal.
#[derive(Debug)]
pub struct IconKey {
    pub path: String,
    pub size: u32,
}

/// The mathematical value of a key.
pub struct KeyModel {
    pub path: Seq<char>,
    pub size: u32,
}

impl View for IconKey {
    type V = KeyModel;

    open spec fn view(&self) -> KeyModel {
        KeyModel { path: self.path@, size: self.size }
    }
}

impl IconKey {
    /// The key of `path` at `size` pixels.
    pub fn new(path: String, size: u32) -> (r: IconKey)
        ensures
            r@ == (KeyModel { path: path@, size: size }),
    {
        IconKey { path, size }
    }

    /// A copy of the key.
    pub fn duplicate(&self) -> (r: IconKey)
        ensures
            r@ == self@,
    {
        IconKey { path: self.path.clone(), size: self.size }
    }

    /// Field-wise equality, case-sensitive on the identifier.
    pub fn same_as(&self, other: &IconKey) -> (r: bool)
        ensures
            r == (self@ == other@),
    {
        self.size == other.size && self.path == other.path
    }
}

/// The ASCII decimal digits of `n`, most significant first, without leading zeros.
pub open spec fn decimal_ascii(n: nat) -> Seq<u8>
    decreases n,
{
    if n < 10 {
        seq![(48 + n) as u8]
    } else {
        decimal_ascii(n / 10).push((48 + n % 10) as u8)
    }
}

/// The bytes that are digested for a key: the UTF-8 text `"{path}:{size}"`.
pub open spec fn key_text(k: KeyModel) -> Seq<u8> {
    encode_utf8(k.path) + seq![58u8] + decimal_ascii(k.size as nat)
}

/// The lower-case hexadecimal digit for a value below sixteen.
pub open spec fn hex_digit(v: u8) -> char {
    if v < 10 {
        ((48 + v) as u8) as char
    } else {
        ((87 + v) as u8) as char
    }
}

/// Two lower-case hexadecimal digits per byte, high nibble first.
pub open spec fn hex_of(b: Seq<u8>) -> Seq<char> {
    Seq::new(
        2 * b.len(),
        |i: int|
            if i % 2 == 0 {
                hex_digit(b[i / 2] / 16)
            } else {
                hex_digit(b[i / 2] % 16)
            },
    )
}

/// The SHA-256 digest of a byte string.
pub uninterp spec fn sha256_of(b: Seq<u8>) -> Seq<u8>;

/// The stable hash of a key: hex of the SHA-256 digest of its text.
pub open spec fn key_hash(k: KeyModel) -> Seq<char> {
    hex_of(sha256_of(key_text(k)))
}

/// The name of the file that holds the cached image of a key.
pub open spec fn file_name_of(k: KeyModel) -> Seq<char> {
    key_hash(k) + ".png"@
}

/// Relies on sha2's `Sha256::digest`: the 32-byte SHA-256 digest of the input.
#[verifier::external_body]
fn sha256(b: &[u8]) -> (r: Vec<u8>)
    ensures
        r@ == sha256_of(b@),
        r@.len() == 32,
{
    sha2::Sha256::digest(b).to_vec()
}

/// Relies on `hex::encode`: two lower-case hex digits per byte, in order.
#[verifier::external_body]
fn hex_encode(b: &[u8]) -> (r: String)
    ensures
        r@ == hex_of(b@),
{
    hex::encode(b)
}

/// Appends the decimal digits of `n` to `out`.
fn push_decimal(out: &mut Vec<u8>, n: u32)
    ensures
        final(out)@ == old(out)@ + decimal_ascii(n as nat),
    decreases n,
{
    if n >= 10 {
        push_decimal(out, n / 10);
    }
    out.push(48u8 + (n % 10) as u8);
    proof {
        assert(final(out)@ =~= old(out)@ + decimal_ascii(n as nat));
    }
}

/// The UTF-8 bytes of `"{path}:{size}"` for a key.
pub fn key_bytes(key: &IconKey) -> (r: Vec<u8>)
    ensures
        r@ == key_text(key@),
{
    let mut out = key.path.as_str().as_bytes_vec();
    out.push(58u8);
    push_decimal(&mut out, key.size);
    proof {
        assert(out@ =~= key_text(key@));
    }
    out
}

/// The stable hash of a key, as a hex string usable in a file name.
pub fn hash_key(key: &IconKey) -> (r: String)
    ensures
        r@ == key_hash(key@),
        r@.len() == 64,
{
    let text = key_bytes(key);
    let digest = sha256(text.as_slice());
    hex_encode(digest.as_slice())
}

/// The cache file name of a key: its hash followed by the `.png` extension.
pub fn cache_file_name(key: &IconKey) -> (r: String)
    ensures
        r@ == file_name_of(key@),
{
    let mut name = hash_key(key);
    name.append(".png");
    name
}

/// Different numbers have different decimal spellings.
pub proof fn lemma_decimal_injective(a: nat, b: nat)
    requires
        a != b,
    ensures
        decimal_ascii(a) != decimal_ascii(b),
    decreases a + b,
{
    if a < 10 && b < 10 {
        assert(decimal_ascii(a)[0] != decimal_ascii(b)[0]);
    } else if a < 10 {
        lemma_decimal_len_pos(b / 10);
        assert(decimal_ascii(a).len() != decimal_ascii(b).len());
    } else if b < 10 {
        lemma_decimal_len_pos(a / 10);
        assert(decimal_ascii(a).len() != decimal_ascii(b).len());
    } else if a % 10 != b % 10 {
        let da = decimal_ascii(a);
        let db = decimal_ascii(b);
        assert(da[da.len() - 1] != db[db.len() - 1]);
    } else {
        lemma_decimal_injective(a / 10, b / 10);
        assert(decimal_ascii(a).drop_last() == decimal_ascii(a / 10));
        assert(decimal_ascii(b).drop_last() == decimal_ascii(b / 10));
    }
}

proof fn lemma_decimal_len_pos(n: nat)
    ensures
        decimal_ascii(n).len() >= 1,
    decreases n,
{
    if n >= 10 {
        lemma_decimal_len_pos(n / 10);
    }
}

/// Keys with one identifier and different sizes digest different texts.
pub proof fn lemma_key_text_sizes_differ(a: KeyModel, b: KeyModel)
    requires
        a.path == b.path,
        a.size != b.size,
    ensures
        key_text(a) != key_text(b),
{
    lemma_decimal_injective(a.size as nat, b.size as nat);
    let p = encode_utf8(a.path) + seq![58u8];
    assert(key_text(a) == p + decimal_ascii(a.size as nat));
    assert(key_text(b) == p + decimal_ascii(b.size as nat));
    if key_text(a) == key_text(b) {
        assert(key_text(a).subrange(p.len() as int, key_text(a).len() as int)
            =~= decimal_ascii(a.size as nat));
        assert(key_text(b).subrange(p.len() as int, key_text(b).len() as int)
            =~= decimal_ascii(b.size as nat));
    }
}

} // verus!
