use vstd::prelude::*;
use crate::text::{decimal, push_decimal};

verus! {

/// Kind of a filesystem entry.
#[derive(Clone, Copy, Debug, PartialEq, Eq, Structural)]
pub enum FileKind {
    NamedPipe,
    CharDevice,
    BlockDevice,
    Directory,
    RegularFile,
    Symlink,
    Socket,
}

/// A metadata record as the server's payload carried it: `None` for each
/// field that the payload left out.
#[derive(Clone, Copy, Debug, PartialEq, Eq)]
pub struct WireRecord {
    pub ino: Option<u64>,
    pub size: Option<u64>,
    pub blocks: Option<u64>,
    pub atime: Option<u64>,
    pub mtime: Option<u64>,
    pub ctime: Option<u64>,
    pub crtime: Option<u64>,
    pub file_type: Option<FileKind>,
    pub permissions: Option<u16>,
    pub nlink: Option<u32>,
    pub uid: Option<u32>,
    pub gid: Option<u32>,
    pub blksize: Option<u32>,
    pub flags: Option<u32>,
}

/// The fields that a metadata record must carry.
#[derive(Clone, Copy, Debug, PartialEq, Eq, Structural)]
pub enum WireField {
    Ino,
    Size,
    Blocks,
    Atime,
    Mtime,
    Ctime,
    FileType,
    Permissions,
    Nlink,
    Uid,
    Gid,
    Blksize,
}

#[derive(Clone, Copy, Debug, PartialEq, Eq, Structural)]
pub enum DecodeError {
    MissingField(WireField),
}

/// The first required field, in declaration order, that the record lacks.
pub open spec fn first_missing(r: WireRecord) -> Option<WireField> {
    if r.ino is None {
        Some(WireField::Ino)
    } else if r.size is None {
        Some(WireField::Size)
    } else if r.blocks is None {
        Some(WireField::Blocks)
    } else if r.atime is None {
        Some(WireField::Atime)
    } else if r.mtime is None {
        Some(WireField::Mtime)
    } else if r.ctime is None {
        Some(WireField::Ctime)
    } else if r.file_type is None {
        Some(WireField::FileType)
    } else if r.permissions is None {
        Some(WireField::Permissions)
    } else if r.nlink is None {
        Some(WireField::Nlink)
    } else if r.uid is None {
        Some(WireField::Uid)
    } else if r.gid is None {
        Some(WireField::Gid)
    } else if r.blksize is None {
        Some(WireField::Blksize)
    } else {
        None
    }
}

/// Metadata of one entry as the server reported it; the creation time and
/// the flags word are optional.
#[derive(Clone, Copy, Debug, PartialEq, Eq)]
pub struct FileMetadata {
    pub ino: u64,
    pub size: u64,
    pub blocks: u64,
    pub atime: u64,
    pub mtime: u64,
    pub ctime: u64,
    pub crtime: Option<u64>,
    pub file_type: FileKind,
    pub permissions: u16,
    pub nlink: u32,
    pub uid: u32,
    pub gid: u32,
    pub blksize: u32,
    pub flags: Option<u32>,
}

/// The metadata that a record with every required field stands for.
pub open spec fn metadata_of(r: WireRecord) -> FileMetadata {
    FileMetadata {
        ino: r.ino->0,
        size: r.size->0,
        blocks: r.blocks->0,
        atime: r.atime->0,
        mtime: r.mtime->0,
        ctime: r.ctime->0,
        crtime: r.crtime,
        file_type: r.file_type->0,
        permissions: r.permissions->0,
        nlink: r.nlink->0,
        uid: r.uid->0,
        gid: r.gid->0,
        blksize: r.blksize->0,
        flags: r.flags,
    }
}

/// Decoding of a record: the first missing required field, else its metadata.
pub open spec fn decode_spec(r: WireRecord) -> Result<FileMetadata, DecodeError> {
    match first_missing(r) {
        Some(f) => Err(DecodeError::MissingField(f)),
        None => Ok(metadata_of(r)),
    }
}

/// Attributes of an entry in the shape the kernel expects. Times are whole
/// seconds since the Unix epoch.
#[derive(Clone, Copy, Debug, PartialEq, Eq)]
pub struct FileAttributes {
    pub ino: u64,
    pub size: u64,
    pub blocks: u64,
    pub atime: u64,
    pub mtime: u64,
    pub ctime: u64,
    pub crtime: u64,
    pub kind: FileKind,
    pub perm: u16,
    pub nlink: u32,
    pub uid: u32,
    pub gid: u32,
    pub rdev: u32,
    pub blksize: u32,
    pub flags: u32,
}

/// Kernel attributes of reported metadata: a missing creation time is the
/// status-change time, missing flags are zero, and no device is named.
pub open spec fn attributes_of(m: FileMetadata) -> FileAttributes {
    FileAttributes {
        ino: m.ino,
        size: m.size,
        blocks: m.blocks,
        atime: m.atime,
        mtime: m.mtime,
        ctime: m.ctime,
        crtime: match m.crtime {
            Some(t) => t,
            None => m.ctime,
        },
        kind: m.file_type,
        perm: m.permissions,
        nlink: m.nlink,
        uid: m.uid,
        gid: m.gid,
        rdev: 0,
        blksize: m.blksize,
        flags: match m.flags {
            Some(f) => f,
            None => 0,
        },
    }
}

impl FileMetadata {
    /// Decodes a received record: fails on the first required field that is
    /// missing.
    pub fn decode(raw: &WireRecord) -> (r: Result<FileMetadata, DecodeError>)
        ensures
            r == decode_spec(*raw),
    {
        let ino = match raw.ino {
            Some(v) => v,
            None => return Err(DecodeError::MissingField(WireField::Ino)),
        };
        let size = match raw.size {
            Some(v) => v,
            None => return Err(DecodeError::MissingField(WireField::Size)),
        };
        let blocks = match raw.blocks {
            Some(v) => v,
            None => return Err(DecodeError::MissingField(WireField::Blocks)),
        };
        let atime = match raw.atime {
            Some(v) => v,
            None => return Err(DecodeError::MissingField(WireField::Atime)),
        };
        let mtime = match raw.mtime {
            Some(v) => v,
            None => return Err(DecodeError::MissingField(WireField::Mtime)),
        };
        let ctime = match raw.ctime {
            Some(v) => v,
            None => return Err(DecodeError::MissingField(WireField::Ctime)),
        };
        let file_type = match raw.file_type {
            Some(v) => v,
            None => return Err(DecodeError::MissingField(WireField::FileType)),
        };
        let permissions = match raw.permissions {
            Some(v) => v,
            None => return Err(DecodeError::MissingField(WireField::Permissions)),
        };
        let nlink = match raw.nlink {
            Some(v) => v,
            None => return Err(DecodeError::MissingField(WireField::Nlink)),
        };
        let uid = match raw.uid {
            Some(v) => v,
            None => return Err(DecodeError::MissingField(WireField::Uid)),
        };
        let gid = match raw.gid {
            Some(v) => v,
            None => return Err(DecodeError::MissingField(WireField::Gid)),
        };
        let blksize = match raw.blksize {
            Some(v) => v,
            None => return Err(DecodeError::MissingField(WireField::Blksize)),
        };
        Ok(FileMetadata {
            ino,
            size,
            blocks,
            atime,
            mtime,
            ctime,
            crtime: raw.crtime,
            file_type,
            permissions,
            nlink,
            uid,
            gid,
            blksize,
            flags: raw.flags,
        })
    }

    /// The attributes handed to the kernel for this metadata.
    pub fn to_file_attr(&self) -> (r: FileAttributes)
        ensures
            r == attributes_of(*self),
    {
        FileAttributes {
            ino: self.ino,
            size: self.size,
            blocks: self.blocks,
            atime: self.atime,
            mtime: self.mtime,
            ctime: self.ctime,
            crtime: match self.crtime {
                Some(t) => t,
                None => self.ctime,
            },
            kind: self.file_type,
            perm: self.permissions,
            nlink: self.nlink,
            uid: self.uid,
            gid: self.gid,
            rdev: 0,
            blksize: self.blksize,
            flags: match self.flags {
                Some(f) => f,
                None => 0,
            },
        }
    }
}

/// A sparse attribute change: only the fields that are `Some` are asked for.
#[derive(Clone, Copy, Debug, PartialEq, Eq)]
pub struct AttrUpdate {
    pub mode: Option<u32>,
    pub uid: Option<u32>,
    pub gid: Option<u32>,
    pub size: Option<u64>,
    pub flags: Option<u32>,
}

/// A JSON value for an optional number: the number, or `null` when unset.
pub open spec fn number_or_null(v: Option<nat>) -> Seq<char> {
    match v {
        Some(n) => decimal(n),
        None => "null"@,
    }
}

pub open spec fn opt_nat32(v: Option<u32>) -> Option<nat> {
    match v {
        Some(n) => Some(n as nat),
        None => None,
    }
}

pub open spec fn opt_nat64(v: Option<u64>) -> Option<nat> {
    match v {
        Some(n) => Some(n as nat),
        None => None,
    }
}

/// The JSON body of an attribute change: an object with all five keys, each
/// bound to its number or to `null` when the field is not asked for.
pub open spec fn update_body(u: AttrUpdate) -> Seq<char> {
    "{\"mode\":"@ + number_or_null(opt_nat32(u.mode))
        + ",\"uid\":"@ + number_or_null(opt_nat32(u.uid))
        + ",\"gid\":"@ + number_or_null(opt_nat32(u.gid))
        + ",\"size\":"@ + number_or_null(opt_nat64(u.size))
        + ",\"flags\":"@ + number_or_null(opt_nat32(u.flags))
        + "}"@
}

fn push_number_or_null(out: &mut String, v: Option<u64>)
    ensures
        final(out)@ == old(out)@ + number_or_null(opt_nat64(v)),
{
    match v {
        Some(n) => push_decimal(out, n),
        None => out.append("null"),
    }
}

impl AttrUpdate {
    /// The JSON body that asks the server for this change.
    pub fn encode(&self) -> (r: String)
        ensures
            r@ == update_body(*self),
    {
        let mut out = String::new();
        out.append("{\"mode\":");
        push_number_or_null(&mut out, match self.mode { Some(m) => Some(m as u64), None => None });
        out.append(",\"uid\":");
        push_number_or_null(&mut out, match self.uid { Some(m) => Some(m as u64), None => None });
        out.append(",\"gid\":");
        push_number_or_null(&mut out, match self.gid { Some(m) => Some(m as u64), None => None });
        out.append(",\"size\":");
        push_number_or_null(&mut out, self.size);
        out.append(",\"flags\":");
        push_number_or_null(&mut out, match self.flags { Some(m) => Some(m as u64), None => None });
        out.append("}");
        assert(out@ =~= update_body(*self));
        out
    }
}

} // verus!
