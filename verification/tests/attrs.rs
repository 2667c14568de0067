use httpfs::{file_attributes, root_attributes, FileKind, FILE_INO, ROOT_INO};

#[test]
fn root_attributes_describe_inode_one() {
    let a = root_attributes();
    assert_eq!(a.ino, ROOT_INO);
    assert_eq!(a.size, 0);
    assert_eq!(a.blocks, 0);
    assert_eq!(a.kind, FileKind::Directory);
    assert_eq!(a.perm, 0o444);
}

#[test]
fn file_attributes_carry_the_probed_size() {
    let a = file_attributes(100, 4096);
    assert_eq!(a.ino, FILE_INO);
    assert_eq!(a.size, 100);
    assert_eq!(a.kind, FileKind::RegularFile);
    assert_eq!(a.perm, 0o444);
    assert_eq!(a.blksize, 4096);
}

#[test]
fn block_count_rounds_upwards() {
    assert_eq!(file_attributes(0, 4096).blocks, 0);
    assert_eq!(file_attributes(1, 4096).blocks, 1);
    assert_eq!(file_attributes(4096, 4096).blocks, 1);
    assert_eq!(file_attributes(4097, 4096).blocks, 2);
    assert_eq!(file_attributes(100, 4096).blocks, 1);
    assert_eq!(file_attributes(3 * 4096 + 1, 4096).blocks, 4);
}

#[test]
fn block_count_for_the_largest_size() {
    let a = file_attributes(u64::MAX, 4096);
    assert_eq!(a.blocks, (u64::MAX - 1) / 4096 + 1);
}
