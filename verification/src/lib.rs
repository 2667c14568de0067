mod attrs;
mod error;
mod fs;
mod parse;
mod probe;

pub use attrs::{
    ceil_div, file_attributes, lemma_blocks_is_ceil, lemma_file_attributes_report_size,
    root_attributes, spec_blocks, spec_file_attributes, spec_root_attributes, Attributes, FileKind,
    FILE_INO, ROOT_INO,
};
pub use error::Error;
pub use fs::{
    lemma_oversized_read_rejected, lemma_read_idempotent, lemma_read_within_window_is_hit,
    root_listing, CacheWindow, DirEntry, HttpFs, ReadPlan, ReadStep, TTL_SECS,
};
pub use parse::{all_dec_digits, dec_value, is_dec_digit, parse_u64, u64_parseable};
pub use probe::{
    parsed_length_result, probe, ranges_supported, unparsable_length_result, ResourceMetadata,
    BLOCK_SIZE,
};
