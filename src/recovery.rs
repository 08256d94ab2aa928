use vstd::prelude::*;
use crate::codec::{decode, decoding, encoding, lemma_binary_round_trip};
use crate::format::Format;

verus! {

/// What came of looking for a file and reading it.
#[derive(Clone, Debug)]
pub enum Retrieved {
    /// Nothing exists at the path; no read was attempted.
    Absent,
    /// Something exists at the path but could not be opened or read.
    Unreadable,
    /// The file's full contents.
    Read(Vec<u8>),
}

impl View for Retrieved {
    /// The bytes that were read, if any were.
    type V = Option<Seq<u8>>;

    open spec fn view(&self) -> Option<Seq<u8>> {
        match self {
            Retrieved::Read(b) => Some(b@),
            _ => None,
        }
    }
}

/// The value and the used-default flag that fetch-or-default gives for a
/// file whose contents were `contents` (`None`: absent or unreadable). The
/// record read must have as many fields as the default.
pub open spec fn fetch_outcome(format: Format, contents: Option<Seq<u8>>, default: Seq<u64>) -> (
    Seq<u64>,
    bool,
) {
    match contents {
        None => (default, true),
        Some(b) => match decoding(format, b, default.len()) {
            Some(v) => (v, false),
            None => (default, true),
        },
    }
}

/// The value a lenient load gives for bytes that were read: the record they
/// hold, or the default when they hold none.
pub open spec fn lenient_value(format: Format, b: Seq<u8>, default: Seq<u64>) -> Seq<u64> {
    match decoding(format, b, default.len()) {
        Some(v) => v,
        None => default,
    }
}

/// Turns the result of a load attempt into a value and a flag: the loaded
/// value with `false`, or the default with `true` when nothing was loaded.
pub fn recover<T>(loaded: Option<T>, default: T) -> (r: (T, bool))
    ensures
        r == (match loaded {
            Some(v) => (v, false),
            None => (default, true),
        }),
{
    match loaded {
        Some(v) => (v, false),
        None => (default, true),
    }
}

/// Fetch-or-default: decodes what was read under `format`, and falls back on
/// `default`, flagged `true`, when the file was absent, unreadable or held no
/// record. It never fails.
pub fn fetch_or_default(format: Format, retrieved: &Retrieved, default: Vec<u64>) -> (r: (
    Vec<u64>,
    bool,
))
    ensures
        (r.0@, r.1) == fetch_outcome(format, retrieved@, default@),
{
    let loaded: Option<Vec<u64>> = match retrieved {
        Retrieved::Read(b) => match decode(format, b.as_slice(), default.len()) {
            Ok(v) => Some(v),
            Err(_) => None,
        },
        _ => None,
    };
    recover(loaded, default)
}

/// A lenient load: a read failure is passed on as it came, while bytes that
/// hold no record give the default in place of an error.
pub fn load<E>(format: Format, read: Result<Vec<u8>, E>, default: Vec<u64>) -> (r: Result<
    Vec<u64>,
    E,
>)
    ensures
        read matches Err(e) ==> r matches Err(f) && f == e,
        read matches Ok(b) ==> r matches Ok(v) && v@ == lenient_value(format, b@, default@),
{
    match read {
        Err(e) => Err(e),
        Ok(b) => match decode(format, b.as_slice(), default.len()) {
            Ok(v) => Ok(v),
            Err(_) => Ok(default),
        },
    }
}

/// Where nothing exists at the path, fetch-or-default gives the default,
/// flagged as such, whatever the format.
pub proof fn lemma_missing_path_default(format: Format, default: Seq<u64>)
    ensures
        fetch_outcome(format, Retrieved::Absent@, default) == (default, true),
{
}

/// Bytes that do not decode under the format give the default, flagged as
/// such; so does a file that could not be read.
pub proof fn lemma_corrupt_file_default(format: Format, b: Seq<u8>, default: Seq<u64>)
    requires
        decoding(format, b, default.len()) is None,
    ensures
        fetch_outcome(format, Some(b), default) == (default, true),
        fetch_outcome(format, Retrieved::Unreadable@, default) == (default, true),
{
}

/// Fetching the bytes that a save wrote gives back the saved record, not
/// flagged as a default, whenever the record round-trips through the format.
pub proof fn lemma_save_then_fetch(format: Format, v: Seq<u64>, default: Seq<u64>)
    requires
        default.len() == v.len(),
        decoding(format, encoding(format, v), v.len()) == Some(v),
    ensures
        fetch_outcome(format, Some(encoding(format, v)), default) == (v, false),
{
}

/// Under the binary format every record round-trips, so fetching the bytes
/// a save wrote always gives back the saved record.
pub proof fn lemma_binary_save_then_fetch(v: Seq<u64>, default: Seq<u64>)
    requires
        default.len() == v.len(),
    ensures
        fetch_outcome(Format::Binary, Some(encoding(Format::Binary, v)), default) == (v, false),
{
    lemma_binary_round_trip(v);
}

/// A record that round-trips through all three formats is fetched back as
/// the same record from each format's bytes, though the bytes differ.
pub proof fn lemma_format_independence(v: Seq<u64>, default: Seq<u64>)
    requires
        default.len() == v.len(),
        forall|f: Format| decoding(f, encoding(f, v), v.len()) == Some(v),
    ensures
        fetch_outcome(Format::Binary, Some(encoding(Format::Binary, v)), default) == (v, false),
        fetch_outcome(Format::StructuredText, Some(encoding(Format::StructuredText, v)), default)
            == (v, false),
        fetch_outcome(Format::Json, Some(encoding(Format::Json, v)), default) == (v, false),
{
    assert(decoding(Format::Binary, encoding(Format::Binary, v), v.len()) == Some(v));
    assert(decoding(Format::StructuredText, encoding(Format::StructuredText, v), v.len()) == Some(
        v,
    ));
    assert(decoding(Format::Json, encoding(Format::Json, v), v.len()) == Some(v));
}

} // verus!
