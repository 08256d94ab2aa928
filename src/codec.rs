use vstd::prelude::*;
use crate::format::{Format, PersistError};

verus! {

/// The eight little-endian bytes of `x`.
pub open spec fn le_bytes(x: u64) -> Seq<u8> {
    seq![
        (x & 0xff) as u8,
        ((x >> 8u64) & 0xff) as u8,
        ((x >> 16u64) & 0xff) as u8,
        ((x >> 24u64) & 0xff) as u8,
        ((x >> 32u64) & 0xff) as u8,
        ((x >> 40u64) & 0xff) as u8,
        ((x >> 48u64) & 0xff) as u8,
        ((x >> 56u64) & 0xff) as u8,
    ]
}

/// The integer whose little-endian bytes are `b[at]` to `b[at + 7]`.
pub open spec fn le_value(b: Seq<u8>, at: int) -> u64 {
    (b[at] as u64) | ((b[at + 1] as u64) << 8u64) | ((b[at + 2] as u64) << 16u64) | ((b[at
        + 3] as u64) << 24u64) | ((b[at + 4] as u64) << 32u64) | ((b[at + 5] as u64) << 40u64)
        | ((b[at + 6] as u64) << 48u64) | ((b[at + 7] as u64) << 56u64)
}

/// The binary form of a record: its fields in order, eight little-endian
/// bytes each, with neither a count nor names, as bincode writes a struct.
pub open spec fn binary_encoding(v: Seq<u64>) -> Seq<u8>
    decreases v.len(),
{
    if v.len() == 0 {
        Seq::empty()
    } else {
        binary_encoding(v.drop_last()) + le_bytes(v.last())
    }
}

/// The record of `arity` fields that the binary form reads from `b`: the
/// fields from the front, any bytes after them ignored; `None` when the
/// bytes run out first.
pub open spec fn binary_decoding(b: Seq<u8>, arity: nat) -> Option<Seq<u64>> {
    if b.len() < 8 * arity {
        None
    } else {
        Some(Seq::new(arity, |i: int| le_value(b, 8 * i)))
    }
}

/// The UTF-8 bytes of the pretty RON text, with `\n` line endings, for a
/// record with these field values.
pub uninterp spec fn text_encoding(v: Seq<u64>) -> Seq<u8>;

/// The record that RON reads from these bytes, if any.
pub uninterp spec fn text_decoding(b: Seq<u8>) -> Option<Seq<u64>>;

/// The UTF-8 bytes of the pretty JSON text for a record with these field values.
pub uninterp spec fn json_encoding(v: Seq<u64>) -> Seq<u8>;

/// The record that serde_json reads from these bytes, if any.
pub uninterp spec fn json_decoding(b: Seq<u8>) -> Option<Seq<u64>>;

/// A record read from text counts only when it has the expected arity.
pub open spec fn with_arity(r: Option<Seq<u64>>, arity: nat) -> Option<Seq<u64>> {
    match r {
        Some(v) => if v.len() == arity {
            Some(v)
        } else {
            None
        },
        None => None,
    }
}

/// The bytes a record is stored as under `format`.
pub open spec fn encoding(format: Format, v: Seq<u64>) -> Seq<u8> {
    match format {
        Format::Binary => binary_encoding(v),
        Format::StructuredText => text_encoding(v),
        Format::Json => json_encoding(v),
    }
}

/// The record of `arity` fields that `format` reads from `b`, or `None` when
/// `b` holds none.
pub open spec fn decoding(format: Format, b: Seq<u8>, arity: nat) -> Option<Seq<u64>> {
    match format {
        Format::Binary => binary_decoding(b, arity),
        Format::StructuredText => with_arity(text_decoding(b), arity),
        Format::Json => with_arity(json_decoding(b), arity),
    }
}

/// Reading back the eight bytes of `x` gives `x`.
proof fn lemma_le_round_trip(x: u64)
    ensures
        le_value(le_bytes(x), 0) == x,
{
    assert(((x & 0xff) as u8 as u64) | ((((x >> 8u64) & 0xff) as u8 as u64) << 8u64) | ((((x
        >> 16u64) & 0xff) as u8 as u64) << 16u64) | ((((x >> 24u64) & 0xff) as u8 as u64)
        << 24u64) | ((((x >> 32u64) & 0xff) as u8 as u64) << 32u64) | ((((x >> 40u64) & 0xff)
        as u8 as u64) << 40u64) | ((((x >> 48u64) & 0xff) as u8 as u64) << 48u64) | ((((x
        >> 56u64) & 0xff) as u8 as u64) << 56u64) == x) by (bit_vector);
}

/// The fields take eight bytes each, field `i` at offset `8 * i`.
proof fn lemma_binary_layout(v: Seq<u64>)
    ensures
        binary_encoding(v).len() == 8 * v.len(),
        forall|i: int, k: int|
            0 <= i < v.len() && 0 <= k < 8 ==> #[trigger] binary_encoding(v)[8 * i + k]
                == le_bytes(v[i])[k],
    decreases v.len(),
{
    if v.len() > 0 {
        let w = v.drop_last();
        lemma_binary_layout(w);
        assert forall|i: int, k: int| 0 <= i < v.len() && 0 <= k < 8 implies #[trigger] binary_encoding(
            v,
        )[8 * i + k] == le_bytes(v[i])[k] by {
            if i < w.len() {
                assert(binary_encoding(w)[8 * i + k] == le_bytes(w[i])[k]);
            }
        }
    }
}

/// Reading the eight bytes at `at` gives `x` when they are the bytes of `x`.
proof fn lemma_le_value_at(b: Seq<u8>, at: int, x: u64)
    requires
        0 <= at,
        at + 8 <= b.len(),
        forall|k: int| 0 <= k < 8 ==> b[at + k] == #[trigger] le_bytes(x)[k],
    ensures
        le_value(b, at) == x,
{
    lemma_le_round_trip(x);
    let c = le_bytes(x);
    assert(b[at] == c[0]);
    assert(b[at + 1] == c[1]);
    assert(b[at + 2] == c[2]);
    assert(b[at + 3] == c[3]);
    assert(b[at + 4] == c[4]);
    assert(b[at + 5] == c[5]);
    assert(b[at + 6] == c[6]);
    assert(b[at + 7] == c[7]);
}

/// Every record comes back unchanged from its binary form, read with the
/// record's own arity.
pub proof fn lemma_binary_round_trip(v: Seq<u64>)
    ensures
        binary_decoding(binary_encoding(v), v.len()) == Some(v),
{
    let b = binary_encoding(v);
    lemma_binary_layout(v);
    let d = Seq::new(v.len(), |i: int| le_value(b, 8 * i));
    assert forall|i: int| 0 <= i < v.len() implies d[i] == v[i] by {
        assert forall|k: int| 0 <= k < 8 implies b[8 * i + k] == #[trigger] le_bytes(v[i])[k] by {
            assert(b[8 * i + k] == le_bytes(v[i])[k]);
        }
        lemma_le_value_at(b, 8 * i, v[i]);
    }
    assert(d =~= v);
}

/// Relies on bincode::serialize, whose default configuration writes a `u64`
/// as eight little-endian bytes into a growable buffer with no size limit,
/// so it cannot fail.
#[verifier::external_body]
fn bincode_serialize(x: u64) -> (r: Option<Vec<u8>>)
    ensures
        r is Some,
        r matches Some(b) ==> b@ == le_bytes(x),
{
    bincode::serialize(&x).ok()
}

/// Relies on bincode::deserialize, whose default configuration reads a `u64`
/// from the first eight bytes, little-endian, and allows bytes after it.
#[verifier::external_body]
fn bincode_deserialize(b: &[u8]) -> (r: Option<u64>)
    requires
        b@.len() >= 8,
    ensures
        r == Some(le_value(b@, 0)),
{
    bincode::deserialize::<u64>(b).ok()
}

/// Relies on ron::ser::to_string_pretty with the default pretty configuration
/// but `\n` line endings on every platform: the text depends on the field
/// values alone, and writing integers into a `String` cannot fail.
#[verifier::external_body]
fn ron_to_string_pretty(v: &Vec<u64>) -> (r: Option<Vec<u8>>)
    ensures
        r is Some,
        r matches Some(b) ==> b@ == text_encoding(v@),
{
    let config = ron::ser::PrettyConfig::default().new_line(String::from("\n"));
    ron::ser::to_string_pretty(v, config).ok().map(|s| s.into_bytes())
}

/// Relies on ron::de::from_bytes: the outcome depends on the bytes alone.
#[verifier::external_body]
fn ron_from_bytes(b: &[u8]) -> (r: Option<Vec<u64>>)
    ensures
        r matches Some(v) ==> text_decoding(b@) == Some(v@),
        r is None ==> text_decoding(b@) is None,
{
    ron::de::from_bytes::<Vec<u64>>(b).ok()
}

/// Relies on serde_json::to_string_pretty: the text depends on the field
/// values alone, and writing integers into a `Vec` cannot fail.
#[verifier::external_body]
fn json_to_string_pretty(v: &Vec<u64>) -> (r: Option<Vec<u8>>)
    ensures
        r is Some,
        r matches Some(b) ==> b@ == json_encoding(v@),
{
    serde_json::to_string_pretty(v).ok().map(|s| s.into_bytes())
}

/// Relies on serde_json::from_slice: the outcome depends on the bytes alone.
#[verifier::external_body]
fn json_from_slice(b: &[u8]) -> (r: Option<Vec<u64>>)
    ensures
        r matches Some(v) ==> json_decoding(b@) == Some(v@),
        r is None ==> json_decoding(b@) is None,
{
    serde_json::from_slice::<Vec<u64>>(b).ok()
}

/// Writes the fields one after another, each in bincode's form.
fn encode_binary(v: &Vec<u64>) -> (r: Vec<u8>)
    ensures
        r@ == binary_encoding(v@),
{
    let mut out: Vec<u8> = Vec::new();
    let mut i: usize = 0;
    while i < v.len()
        invariant
            i <= v.len(),
            out@ == binary_encoding(v@.subrange(0, i as int)),
        decreases v.len() - i,
    {
        let field = bincode_serialize(v[i]);
        let mut bytes = match field {
            Some(b) => b,
            None => Vec::new(),
        };
        assert(v@.subrange(0, i + 1).drop_last() =~= v@.subrange(0, i as int));
        out.append(&mut bytes);
        i = i + 1;
    }
    assert(v@.subrange(0, v.len() as int) =~= v@);
    out
}

/// Reads `arity` fields from the front of `b`, each through bincode.
fn decode_binary(b: &[u8], arity: usize) -> (r: Option<Vec<u64>>)
    ensures
        r matches Some(v) ==> binary_decoding(b@, arity as nat) == Some(v@),
        r is None ==> binary_decoding(b@, arity as nat) is None,
{
    if b.len() / 8 < arity {
        return None;
    }
    let mut out: Vec<u64> = Vec::new();
    let mut i: usize = 0;
    while i < arity
        invariant
            i <= arity,
            8 * arity <= b@.len(),
            out@ =~= Seq::new(i as nat, |j: int| le_value(b@, 8 * j)),
        decreases arity - i,
    {
        let mut chunk: Vec<u8> = Vec::new();
        let mut k: usize = 0;
        while k < 8
            invariant
                i < arity,
                8 * arity <= b@.len(),
                k <= 8,
                chunk@ =~= b@.subrange(8 * i as int, 8 * i + k as int),
            decreases 8 - k,
        {
            assert(8 * i + k < b.len()) by (nonlinear_arith)
                requires
                    i < arity,
                    k < 8,
                    8 * arity <= b@.len(),
                    b@.len() == b.len(),
            ;
            chunk.push(b[8 * i + k]);
            k = k + 1;
        }
        let x = bincode_deserialize(chunk.as_slice());
        match x {
            Some(x) => {
                out.push(x);
            },
            None => {
                return None;
            },
        }
        i = i + 1;
    }
    Some(out)
}

/// Encodes a record under `format`: always the record's encoding, which
/// depends on the field values alone.
pub fn encode(format: Format, v: &Vec<u64>) -> (r: Vec<u8>)
    ensures
        r@ == encoding(format, v@),
{
    let out = match format {
        Format::Binary => Some(encode_binary(v)),
        Format::StructuredText => ron_to_string_pretty(v),
        Format::Json => json_to_string_pretty(v),
    };
    match out {
        Some(b) => b,
        None => Vec::new(),
    }
}

/// Decodes a record of `arity` fields stored under `format`: `Ok` exactly
/// when the bytes hold such a record, and then that record; `Decode`
/// otherwise.
pub fn decode(format: Format, b: &[u8], arity: usize) -> (r: Result<Vec<u64>, PersistError>)
    ensures
        decoding(format, b@, arity as nat) matches Some(v) ==> r matches Ok(w) && w@ == v,
        decoding(format, b@, arity as nat) is None ==> r == Err::<Vec<u64>, PersistError>(
            PersistError::Decode,
        ),
{
    let out = match format {
        Format::Binary => decode_binary(b, arity),
        Format::StructuredText => ron_from_bytes(b),
        Format::Json => json_from_slice(b),
    };
    match out {
        Some(v) => if v.len() == arity {
            Ok(v)
        } else {
            Err(PersistError::Decode)
        },
        None => Err(PersistError::Decode),
    }
}

} // verus!
