//! MessagePack encoding of section entries, as `rmp_serde` writes them:
//! an entry is an array of its fields in declaration order, a text field
//! a MessagePack string, an absent optional field `nil`.

use vstd::prelude::*;
use vstd::utf8::encode_utf8;

verus! {

/// `n` as four big-endian bytes.
pub open spec fn be_u32(n: nat) -> Seq<u8> {
    seq![
        ((n / 0x100_0000) % 0x100) as u8,
        ((n / 0x1_0000) % 0x100) as u8,
        ((n / 0x100) % 0x100) as u8,
        (n % 0x100) as u8,
    ]
}

/// The header of a MessagePack string of `n` bytes (`rmp::encode::write_str_len`),
/// the length already cut to 32 bits.
pub open spec fn str_header(n: nat) -> Seq<u8> {
    if n < 32 {
        seq![(0xa0 + n) as u8]
    } else if n < 0x100 {
        seq![0xd9u8, n as u8]
    } else if n < 0x1_0000 {
        seq![0xdau8, (n / 0x100) as u8, (n % 0x100) as u8]
    } else {
        seq![0xdbu8] + be_u32(n)
    }
}

/// The header of a MessagePack array of `n` elements (`rmp::encode::write_array_len`),
/// the count already cut to 32 bits.
pub open spec fn array_header(n: nat) -> Seq<u8> {
    if n < 16 {
        seq![(0x90 + n) as u8]
    } else if n < 0x1_0000 {
        seq![0xdcu8, (n / 0x100) as u8, (n % 0x100) as u8]
    } else {
        seq![0xddu8] + be_u32(n)
    }
}

/// A text as a MessagePack string: header, then its UTF-8 bytes.
pub open spec fn msgpack_str(s: Seq<char>) -> Seq<u8> {
    let b = encode_utf8(s);
    str_header(b.len() % 0x1_0000_0000) + b
}

/// One field: `nil` when absent, else a string.
pub open spec fn msgpack_field(f: Option<Seq<char>>) -> Seq<u8> {
    match f {
        None => seq![0xc0u8],
        Some(s) => msgpack_str(s),
    }
}

/// The encodings of the fields, one after the other.
pub open spec fn msgpack_field_list(fs: Seq<Option<Seq<char>>>) -> Seq<u8>
    decreases fs.len(),
{
    if fs.len() == 0 {
        Seq::<u8>::empty()
    } else {
        msgpack_field_list(fs.drop_last()) + msgpack_field(fs.last())
    }
}

/// A record of fields as a MessagePack array.
pub open spec fn msgpack_record(fs: Seq<Option<Seq<char>>>) -> Seq<u8> {
    array_header(fs.len() % 0x1_0000_0000) + msgpack_field_list(fs)
}

/// `rmp_serde::encode::write` of a list of optional strings into a `Vec<u8>`.
/// The source writes a list exactly as it writes a struct whose fields are
/// those strings: an array header, then each field (`nil` for `None`, a string
/// for `Some`), with the lengths cut to 32 bits. Its only errors come from the
/// writer, and writing into a `Vec<u8>` never fails (a refused allocation
/// aborts the process rather than returning), so the call always succeeds and
/// gives the encoding above; the error arm is never taken.
#[verifier::external_body]
pub(crate) fn encode_record(fields: &Vec<Option<String>>) -> (r: Vec<u8>)
    ensures
        r@ == msgpack_record(fields.deep_view()),
{
    let mut buf: Vec<u8> = Vec::new();
    match rmp_serde::encode::write(&mut buf, fields) {
        Ok(()) => buf,
        Err(_) => Vec::new(),
    }
}

/// Whether the counts of a record fit the 32-bit lengths of its headers: fewer
/// than 2^32 fields, and fewer than 2^32 bytes in each text.
pub open spec fn record_fits(fs: Seq<Option<Seq<char>>>) -> bool {
    &&& fs.len() < 0x1_0000_0000
    &&& forall|i: int|
        0 <= i < fs.len() ==> (#[trigger] fs[i] matches Some(t) ==> encode_utf8(t).len()
            < 0x1_0000_0000)
}

/// What `rmp_serde::from_slice` reads from `bytes` as a list of optional texts.
pub uninterp spec fn msgpack_decoded(bytes: Seq<u8>) -> Option<Seq<Option<Seq<char>>>>;

/// `rmp_serde::from_slice::<Vec<Option<String>>>`. Its result is a function of
/// the bytes alone, named `msgpack_decoded`, with the error dropped. The source
/// reads an array header, then each element: `nil` as an absent text, a string
/// (checked to be UTF-8) as a present one; so the encoding of a record whose
/// counts fit its headers is read back as that record.
#[verifier::external_body]
pub(crate) fn decode_record(bytes: &[u8]) -> (r: Option<Vec<Option<String>>>)
    ensures
        r.deep_view() == msgpack_decoded(bytes@),
        forall|fs: Seq<Option<Seq<char>>>|
            record_fits(fs) && bytes@ == #[trigger] msgpack_record(fs) ==> r.deep_view() == Some(fs),
{
    rmp_serde::from_slice(bytes).ok()
}

} // verus!
