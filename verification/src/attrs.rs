use vstd::prelude::*;
use vstd::arithmetic::div_mod::{
    lemma_div_nonincreasing, lemma_div_pos_is_pos, lemma_fundamental_div_mod,
    lemma_fundamental_div_mod_converse, lemma_mod_bound,
};

verus! {

/// The kind of a filesystem object: this tree only ever holds the root
/// directory and one regular file.
#[derive(Debug, Clone, Copy, PartialEq, Eq, Structural)]
pub enum FileKind {
    Directory,
    RegularFile,
}

/// The attributes the kernel is told about an inode.  Timestamps, link and
/// owner fields are fixed process-wide constants and are filled in by the
/// mount layer; only the fields below carry any logic.
#[derive(Debug, Clone, Copy, PartialEq, Eq, Structural)]
pub struct Attributes {
    pub ino: u64,
    pub size: u64,
    pub blocks: u64,
    pub kind: FileKind,
    pub perm: u16,
    pub blksize: u32,
}

/// The inode number of the root directory.
pub const ROOT_INO: u64 = 1;

/// The inode number of the single mounted file.
pub const FILE_INO: u64 = 2;

/// `n / d` rounded upwards.
pub open spec fn ceil_div(n: int, d: int) -> int
    recommends
        n >= 0,
        d >= 1,
{
    (n + d - 1) / d
}

/// The number of blocks reported for a file of `size` bytes made of blocks
/// of `block` bytes: zero for an empty file, otherwise one block for every
/// started block.
pub open spec fn spec_blocks(size: int, block: int) -> int
    recommends
        size >= 0,
        block >= 1,
{
    if size == 0 {
        0
    } else {
        (size - 1) / block + 1
    }
}

/// The block count reported for any file is the ceiling of its size divided
/// by the block size (and zero for an empty file, where the ceiling is zero
/// as well).
pub proof fn lemma_blocks_is_ceil(size: int, block: int)
    requires
        size >= 0,
        block >= 1,
    ensures
        spec_blocks(size, block) == ceil_div(size, block),
{
    if size == 0 {
        lemma_fundamental_div_mod_converse(block - 1, block, 0, block - 1);
    } else {
        let q = (size - 1) / block;
        let r = (size - 1) % block;
        lemma_fundamental_div_mod(size - 1, block);
        lemma_mod_bound(size - 1, block);
        assert(size + block - 1 == (q + 1) * block + r) by (nonlinear_arith)
            requires
                size - 1 == q * block + r,
        ;
        lemma_fundamental_div_mod_converse(size + block - 1, block, q + 1, r);
    }
}

/// For a probed resource of `size` bytes, the attributes handed to the
/// kernel for the file inode report exactly that size, and a block count
/// equal to the ceiling of the size over the block size (zero for an empty
/// resource).
pub proof fn lemma_file_attributes_report_size(size: u64, block: u32)
    requires
        block >= 1,
    ensures
        spec_file_attributes(size, block).size == size,
        spec_file_attributes(size, block).blocks == ceil_div(size as int, block as int),
        size == 0 ==> spec_file_attributes(size, block).blocks == 0,
{
    lemma_blocks_is_ceil(size as int, block as int);
    if size > 0 {
        lemma_div_pos_is_pos((size - 1) as int, block as int);
        lemma_div_nonincreasing((size - 1) as int, block as int);
    }
}

/// The attributes of the root directory: inode 1, read-only, empty.
pub open spec fn spec_root_attributes() -> Attributes {
    Attributes {
        ino: ROOT_INO,
        size: 0,
        blocks: 0,
        kind: FileKind::Directory,
        perm: 0o444,
        blksize: 512,
    }
}

/// Build the root directory attributes.
pub fn root_attributes() -> (r: Attributes)
    ensures
        r == spec_root_attributes(),
{
    Attributes {
        ino: ROOT_INO,
        size: 0,
        blocks: 0,
        kind: FileKind::Directory,
        perm: 0o444,
        blksize: 512,
    }
}

/// The attributes of the mounted file for a resource of `size` bytes with
/// blocks of `block` bytes: inode 2, read-only, a regular file whose block
/// count rounds the size upwards.
pub open spec fn spec_file_attributes(size: u64, block: u32) -> Attributes
    recommends
        block >= 1,
{
    Attributes {
        ino: FILE_INO,
        size,
        blocks: spec_blocks(size as int, block as int) as u64,
        kind: FileKind::RegularFile,
        perm: 0o444,
        blksize: block,
    }
}

/// Build the attributes reported for the mounted file.
pub fn file_attributes(size: u64, block: u32) -> (r: Attributes)
    requires
        block >= 1,
    ensures
        r == spec_file_attributes(size, block),
        r.size == size,
        r.blocks == spec_blocks(size as int, block as int),
        r.ino == FILE_INO,
{
    let blocks: u64 = if size == 0 {
        0
    } else {
        proof {
            lemma_div_nonincreasing((size - 1) as int, block as int);
            lemma_div_pos_is_pos((size - 1) as int, block as int);
        }
        (size - 1) / (block as u64) + 1
    };
    Attributes { ino: FILE_INO, size, blocks, kind: FileKind::RegularFile, perm: 0o444, blksize: block }
}

} // verus!
