//! File metadata as plain values and the ownership predicates over it.
use vstd::prelude::*;

verus! {

/// The fields of a `stat` result that the ownership checks read.
#[derive(Clone, Copy, Debug, PartialEq, Eq, Structural)]
pub struct FileStat {
    pub mode: u32,
    pub uid: u32,
    pub nlink: u64,
    pub device: u64,
    pub inode: u64,
    pub size: i64,
    pub modified_secs: i64,
    pub modified_nsecs: u64,
    pub changed_secs: i64,
    pub changed_nsecs: u64,
}

/// The kind of a filesystem object.
#[derive(Clone, Copy, Debug, PartialEq, Eq, Structural)]
pub enum FileKind {
    RegularFile,
    Directory,
    Symlink,
    Fifo,
    Socket,
    CharacterDevice,
    BlockDevice,
    Unknown,
}

/// The `S_IFMT` type bits of a mode.
pub open spec fn type_bits(mode: u32) -> u32 {
    mode & 0o170000u32
}

/// The kind that the `S_IFMT` bits of a mode name.
pub open spec fn kind_of(mode: u32) -> FileKind {
    let t = type_bits(mode);
    if t == 0o100000u32 {
        FileKind::RegularFile
    } else if t == 0o040000u32 {
        FileKind::Directory
    } else if t == 0o120000u32 {
        FileKind::Symlink
    } else if t == 0o010000u32 {
        FileKind::Fifo
    } else if t == 0o140000u32 {
        FileKind::Socket
    } else if t == 0o020000u32 {
        FileKind::CharacterDevice
    } else if t == 0o060000u32 {
        FileKind::BlockDevice
    } else {
        FileKind::Unknown
    }
}

/// The kind that the `S_IFMT` bits of `mode` name, as
/// `rustix::fs::FileType::from_raw_mode` classifies them.
pub fn file_kind(mode: u32) -> (k: FileKind)
    ensures
        k == kind_of(mode),
{
    let t = mode & 0o170000;
    if t == 0o100000 {
        FileKind::RegularFile
    } else if t == 0o040000 {
        FileKind::Directory
    } else if t == 0o120000 {
        FileKind::Symlink
    } else if t == 0o010000 {
        FileKind::Fifo
    } else if t == 0o140000 {
        FileKind::Socket
    } else if t == 0o020000 {
        FileKind::CharacterDevice
    } else if t == 0o060000 {
        FileKind::BlockDevice
    } else {
        FileKind::Unknown
    }
}

/// A private manager file: a regular file of `uid` with mode 0600 and one link.
pub open spec fn is_private_file(stat: FileStat, uid: u32) -> bool {
    &&& type_bits(stat.mode) == 0o100000u32
    &&& stat.uid == uid
    &&& stat.mode & 0o7777u32 == 0o600u32
    &&& stat.nlink == 1
}

/// A safe directory: private ones belong to `uid` with mode 0700; ancestors
/// belong to `uid` or root and are not group- or world-writable.
pub open spec fn is_safe_directory(stat: FileStat, uid: u32, private: bool) -> bool {
    &&& type_bits(stat.mode) == 0o040000u32
    &&& if private {
        stat.uid == uid && stat.mode & 0o7777u32 == 0o700u32
    } else {
        (stat.uid == uid || stat.uid == 0) && stat.mode & 0o022u32 == 0
    }
}

/// Checks `is_private_file`.
pub fn private_file(stat: &FileStat, uid: u32) -> (r: bool)
    ensures
        r == is_private_file(*stat, uid),
{
    file_kind(stat.mode) == FileKind::RegularFile && stat.uid == uid && stat.mode & 0o7777 == 0o600
        && stat.nlink == 1
}

/// Checks `is_safe_directory`.
pub fn directory_safe(stat: &FileStat, uid: u32, private: bool) -> (r: bool)
    ensures
        r == is_safe_directory(*stat, uid, private),
{
    let mode = stat.mode & 0o7777;
    file_kind(stat.mode) == FileKind::Directory && if private {
        stat.uid == uid && mode == 0o700
    } else {
        (stat.uid == uid || stat.uid == 0) && stat.mode & 0o022 == 0
    }
}

/// Filesystems accepted for manager state: ext4, XFS, Btrfs, tmpfs, overlayfs.
pub open spec fn is_local_filesystem(kind: i64) -> bool {
    kind == 0xef53 || kind == 0x58465342 || kind == 0x9123683e || kind == 0x01021994 || kind
        == 0x794c7630
}

/// Checks `is_local_filesystem` for a `statfs` type magic.
pub fn local_filesystem(kind: i64) -> (r: bool)
    ensures
        r == is_local_filesystem(kind),
{
    kind == 0xef53 || kind == 0x58465342 || kind == 0x9123683e || kind == 0x01021994 || kind
        == 0x794c7630
}

/// A trusted executable: a regular file owned by root, executable by
/// someone, with none of the `forbidden` mode bits set.
pub open spec fn is_trusted_tool(stat: FileStat, forbidden: u32) -> bool {
    &&& type_bits(stat.mode) == 0o100000u32
    &&& stat.uid == 0
    &&& stat.mode & forbidden == 0
    &&& stat.mode & 0o111u32 != 0
}

/// Checks `is_trusted_tool`.
pub fn trusted_tool(stat: &FileStat, forbidden: u32) -> (r: bool)
    ensures
        r == is_trusted_tool(*stat, forbidden),
{
    file_kind(stat.mode) == FileKind::RegularFile && stat.uid == 0 && stat.mode & forbidden == 0
        && stat.mode & 0o111 != 0
}

/// A socket of `uid`, closed to group and others when `closed` is asked.
pub open spec fn is_owned_socket(stat: FileStat, uid: u32, closed: bool) -> bool {
    &&& type_bits(stat.mode) == 0o140000u32
    &&& stat.uid == uid
    &&& (closed ==> stat.mode & 0o077u32 == 0)
}

/// Checks `is_owned_socket`.
pub fn owned_socket(stat: &FileStat, uid: u32, closed: bool) -> (r: bool)
    ensures
        r == is_owned_socket(*stat, uid, closed),
{
    file_kind(stat.mode) == FileKind::Socket && stat.uid == uid && (!closed || stat.mode & 0o077
        == 0)
}

/// An opened directory of `uid` with exactly mode 0700.
pub open spec fn is_private_directory(stat: FileStat, uid: u32) -> bool {
    stat.uid == uid && stat.mode & 0o7777u32 == 0o700u32
}

/// Checks `is_private_directory`.
pub fn private_directory(stat: &FileStat, uid: u32) -> (r: bool)
    ensures
        r == is_private_directory(*stat, uid),
{
    stat.uid == uid && stat.mode & 0o7777 == 0o700
}

} // verus!
