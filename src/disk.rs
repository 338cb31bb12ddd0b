//! The disk tier: one file per successful extraction, named by the key's
//! hash, created only where no file of that name exists yet.
use vstd::prelude::*;
use vstd::string::*;
use base64::Engine;
use crate::codec::{IconKey, KeyModel, cache_file_name, file_name_of};

verus! {

/// The digit for a six-bit value in the standard base64 alphabet.
pub open spec fn base64_digit(v: int) -> char {
    if v < 26 {
        ((65 + v) as u8) as char
    } else if v < 52 {
        ((71 + v) as u8) as char
    } else if v < 62 {
        ((v - 4) as u8) as char
    } else if v == 62 {
        '+'
    } else {
        '/'
    }
}

/// The standard, padded base64 text of a byte string: each group of three
/// bytes gives four digits, high bits first; a final group of one or two
/// bytes is padded with `=` to four characters.
pub open spec fn base64_of(b: Seq<u8>) -> Seq<char>
    decreases b.len(),
{
    if b.len() == 0 {
        Seq::empty()
    } else if b.len() == 1 {
        seq![base64_digit(b[0] as int / 4), base64_digit((b[0] as int % 4) * 16), '=', '=']
    } else if b.len() == 2 {
        seq![
            base64_digit(b[0] as int / 4),
            base64_digit((b[0] as int % 4) * 16 + b[1] as int / 16),
            base64_digit((b[1] as int % 16) * 4),
            '=',
        ]
    } else {
        seq![
            base64_digit(b[0] as int / 4),
            base64_digit((b[0] as int % 4) * 16 + b[1] as int / 16),
            base64_digit((b[1] as int % 16) * 4 + b[2] as int / 64),
            base64_digit(b[2] as int % 64),
        ] + base64_of(b.skip(3))
    }
}

/// Relies on base64's `STANDARD.encode`: the padded standard-alphabet text,
/// as `base64_of` spells it out.
/// It panics only where the output length overflows `usize`.
#[verifier::external_body]
fn base64_encode(b: &[u8]) -> (r: String)
    requires
        b@.len() <= usize::MAX / 2,
    ensures
        r@ == base64_of(b@),
{
    base64::engine::general_purpose::STANDARD.encode(b)
}

/// The self-contained form in which an encoded PNG image is handed to callers.
pub open spec fn data_url_of(png: Seq<u8>) -> Seq<char> {
    "data:image/png;base64,"@ + base64_of(png)
}

/// Wraps encoded PNG bytes as a `data:` URL.
pub fn png_data_url(png: &[u8]) -> (r: String)
    requires
        png@.len() <= usize::MAX / 2,
    ensures
        r@ == data_url_of(png@),
{
    let mut url = String::from_str("data:image/png;base64,");
    let encoded = base64_encode(png);
    url.append(encoded.as_str());
    url
}

/// What the disk tier holds: file name to file contents.
pub type DiskModel = Map<Seq<char>, Seq<u8>>;

/// The decision of a disk-tier write.
#[derive(Debug)]
pub enum DiskWrite {
    /// A file of that name is already there: the first writer wins.
    Skip,
    /// Create the named file, holding exactly these bytes.
    Create { file_name: String, bytes: Vec<u8> },
}

pub enum DiskWriteModel {
    Skip,
    Create { file_name: Seq<char>, bytes: Seq<u8> },
}

impl View for DiskWrite {
    type V = DiskWriteModel;

    open spec fn view(&self) -> DiskWriteModel {
        match self {
            DiskWrite::Skip => DiskWriteModel::Skip,
            DiskWrite::Create { file_name, bytes } => DiskWriteModel::Create {
                file_name: file_name@,
                bytes: bytes@,
            },
        }
    }
}

/// What the disk holds once a write decision has been carried out.
pub open spec fn apply_write(d: DiskModel, w: DiskWriteModel) -> DiskModel {
    match w {
        DiskWriteModel::Skip => d,
        DiskWriteModel::Create { file_name, bytes } => if d.contains_key(file_name) {
            d
        } else {
            d.insert(file_name, bytes)
        },
    }
}

/// What the disk holds after `png` is offered for key `k`: unchanged where
/// the key's file exists, else with that file added.
pub open spec fn disk_after_put(d: DiskModel, k: KeyModel, png: Seq<u8>) -> DiskModel {
    if d.contains_key(file_name_of(k)) {
        d
    } else {
        d.insert(file_name_of(k), png)
    }
}

/// Decides the write that stores `png` for `key`, given whether the key's
/// file is already present.
pub fn disk_put(key: &IconKey, png: Vec<u8>, file_present: bool) -> (r: DiskWrite)
    ensures
        file_present ==> r@ == DiskWriteModel::Skip,
        !file_present ==> r@ == (DiskWriteModel::Create {
            file_name: file_name_of(key@),
            bytes: png@,
        }),
{
    if file_present {
        DiskWrite::Skip
    } else {
        DiskWrite::Create { file_name: cache_file_name(key), bytes: png }
    }
}

/// A write decided from the disk's own state carries out `disk_after_put`.
pub proof fn lemma_disk_put_applies(d: DiskModel, k: KeyModel, png: Seq<u8>, w: DiskWriteModel)
    requires
        d.contains_key(file_name_of(k)) ==> w == DiskWriteModel::Skip,
        !d.contains_key(file_name_of(k)) ==> w == (DiskWriteModel::Create {
            file_name: file_name_of(k),
            bytes: png,
        }),
    ensures
        apply_write(d, w) == disk_after_put(d, k, png),
{
}

} // verus!
