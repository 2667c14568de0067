use vstd::prelude::*;
use vstd::utf8::encode_utf8;
use crate::error::Error;
use crate::parse::{dec_value, parse_u64, u64_parseable};

verus! {

/// The block size the mounted file reports to the kernel.
pub const BLOCK_SIZE: u32 = 4096;

/// What the metadata probe learned about the remote resource.  Derived once
/// before the filesystem is attached and immutable thereafter;
/// `total_size` is the authoritative length reported for the file.
#[derive(Debug, Clone, Copy, PartialEq, Eq, Structural)]
pub struct ResourceMetadata {
    pub total_size: u64,
    pub block_size: u32,
}

/// The probe response announces byte-range support: it carries an
/// `accept-ranges` header whose value is exactly `bytes`.
pub open spec fn ranges_supported(accept_ranges: Option<&str>) -> bool {
    accept_ranges matches Some(a) && a@ == "bytes"@
}

/// The probe rejected the `content-length` value `cl`, keeping it verbatim.
pub open spec fn unparsable_length_result(r: Result<ResourceMetadata, Error>, cl: Seq<char>) -> bool {
    r matches Err(e) && e matches Error::UnparsableLength(raw) && raw@ == cl
}

/// The probe accepted the `content-length` value `cl`: the metadata carries
/// exactly the number written in `cl` and the fixed block size.
pub open spec fn parsed_length_result(r: Result<ResourceMetadata, Error>, cl: Seq<char>) -> bool {
    r matches Ok(m) && m.total_size == dec_value(encode_utf8(cl)) && m.block_size == BLOCK_SIZE
}

/// Validate the answer of the metadata probe and derive the resource
/// metadata.  The checks run in a fixed order: the status must be 200
/// (`UnexpectedStatus`), the `accept-ranges` header must equal `bytes`
/// (`RangesUnsupported`), a `content-length` header must be present
/// (`MissingLength`) and must parse as a non-negative 64-bit integer
/// (`UnparsableLength`, keeping the raw value).
pub fn probe(status: u16, accept_ranges: Option<&str>, content_length: Option<String>) -> (r:
    Result<ResourceMetadata, Error>)
    ensures
        status != 200 ==> r == Err::<ResourceMetadata, Error>(Error::UnexpectedStatus(status)),
        status == 200 && !ranges_supported(accept_ranges) ==> r == Err::<
            ResourceMetadata,
            Error,
        >(Error::RangesUnsupported),
        status == 200 && ranges_supported(accept_ranges) && content_length is None ==> r == Err::<
            ResourceMetadata,
            Error,
        >(Error::MissingLength),
        content_length matches Some(cl) ==> (status == 200 && ranges_supported(accept_ranges)
            && !u64_parseable(encode_utf8(cl@)) ==> unparsable_length_result(r, cl@)),
        content_length matches Some(cl) ==> (status == 200 && ranges_supported(accept_ranges)
            && u64_parseable(encode_utf8(cl@)) ==> parsed_length_result(r, cl@)),
{
    if status != 200 {
        return Err(Error::UnexpectedStatus(status));
    }
    let bytes_word: String = "bytes".to_owned();
    match accept_ranges {
        Some(a) => {
            if !(a.to_owned() == bytes_word) {
                return Err(Error::RangesUnsupported);
            }
        },
        None => {
            return Err(Error::RangesUnsupported);
        },
    }
    match content_length {
        None => Err(Error::MissingLength),
        Some(cl) => {
            match parse_u64(cl.as_str()) {
                Some(size) => Ok(ResourceMetadata { total_size: size, block_size: 4096 }),
                None => Err(Error::UnparsableLength(cl)),
            }
        },
    }
}

} // verus!
