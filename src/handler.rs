use vstd::prelude::*;
use vstd::utf8::{decode_utf8, valid_utf8};
use crate::client::{
    get_text, health_url, join_path, metadata_request, path_source, update_request, PathSource,
    PathSourceView, RemoteFsClient,
};
use crate::codec::{attributes_of, AttrUpdate, FileAttributes};
use crate::gateway::{
    is_success, metadata_reply, metadata_result, resolve_reply, resolve_result, status_is_success,
    update_reply, update_result, GatewayError, HttpOutcome, HttpRequest, OutcomeView, RequestView,
};
use crate::text::utf8_text;

verus! {

/// Longest entry name, in bytes, that a lookup accepts.
pub const MAX_NAME_LENGTH: usize = 255;

/// Ceiling for read-ahead and for a single write, in bytes.
pub const MAX_TRANSFER: u32 = 131072;

/// How long the kernel may keep an answer, in seconds.
pub const TTL_SECS: u64 = 1;

/// Requests that this filesystem does not carry out.
#[derive(Clone, Copy, Debug, PartialEq, Eq, Structural)]
pub enum OtherOp {
    ReadLink,
    Mknod,
    Mkdir,
    Unlink,
    Rmdir,
    Symlink,
    Rename,
    Link,
    Read,
    Write,
    Flush,
    Fsync,
    ReadDir,
    ReadDirPlus,
    FsyncDir,
    SetXattr,
    GetXattr,
    ListXattr,
    RemoveXattr,
    Access,
    Create,
    GetLk,
    SetLk,
    Bmap,
    Ioctl,
    Fallocate,
    Lseek,
    CopyFileRange,
}

/// A request from the kernel.
#[derive(Clone, Debug, PartialEq, Eq)]
pub enum FsOp {
    Init,
    Destroy,
    Lookup { parent: u64, name: Vec<u8> },
    Forget { ino: u64, nlookup: u64 },
    GetAttr { ino: u64 },
    SetAttr { ino: u64, update: AttrUpdate },
    Open { ino: u64 },
    OpenDir { ino: u64 },
    Release { ino: u64 },
    ReleaseDir { ino: u64 },
    StatFs { ino: u64 },
    Other(OtherOp),
}

/// POSIX errors that a request can end in.
#[derive(Clone, Copy, Debug, PartialEq, Eq, Structural)]
pub enum FsError {
    NoEntry,
    NameTooLong,
    InvalidArgument,
    Io,
    NotSupported,
}

/// Filesystem statistics as reported to the kernel.
#[derive(Clone, Copy, Debug, PartialEq, Eq, Structural)]
pub struct StatfsReport {
    pub blocks: u64,
    pub bfree: u64,
    pub bavail: u64,
    pub files: u64,
    pub ffree: u64,
    pub bsize: u32,
    pub namelen: u32,
    pub frsize: u32,
}

/// The fixed statistics: nothing counted, 512-byte blocks and fragments,
/// names of up to 255 bytes.
pub open spec fn statfs_spec() -> StatfsReport {
    StatfsReport {
        blocks: 0,
        bfree: 0,
        bavail: 0,
        files: 0,
        ffree: 0,
        bsize: 512,
        namelen: 255,
        frsize: 512,
    }
}

/// The answer to a kernel request.
#[derive(Clone, Copy, Debug, PartialEq, Eq)]
pub enum FsReply {
    /// Initialisation succeeded; the mount goes on with these limits.
    Ready { max_readahead: u32, max_write: u32 },
    Entry { attr: FileAttributes, ttl_secs: u64, generation: u64 },
    Attr { attr: FileAttributes, ttl_secs: u64 },
    Opened { fh: u64, flags: u32 },
    Done,
    Statfs(StatfsReport),
    /// The request takes no answer.
    Silent,
    Error(FsError),
}

/// A request that waits for the answer of the remote service.
#[derive(Clone, Debug, PartialEq, Eq)]
pub enum Pending {
    /// Initialisation, waiting for the health probe.
    Probing,
    /// A lookup, waiting for the parent's path.
    LookupParent { name: String },
    /// A lookup, waiting for the entry's metadata.
    LookupEntry,
    /// An attribute query, waiting for the inode's path.
    AttrPath,
    /// An attribute query, waiting for the metadata.
    AttrFetch,
    /// An attribute change, waiting for the inode's path.
    SetAttrPath { update: AttrUpdate },
    /// An attribute change, waiting for the server's new attributes.
    SetAttrApply,
}

pub enum PendingView {
    Probing,
    LookupParent { name: Seq<char> },
    LookupEntry,
    AttrPath,
    AttrFetch,
    SetAttrPath { update: AttrUpdate },
    SetAttrApply,
}

impl View for Pending {
    type V = PendingView;

    open spec fn view(&self) -> PendingView {
        match self {
            Pending::Probing => PendingView::Probing,
            Pending::LookupParent { name } => PendingView::LookupParent { name: name@ },
            Pending::LookupEntry => PendingView::LookupEntry,
            Pending::AttrPath => PendingView::AttrPath,
            Pending::AttrFetch => PendingView::AttrFetch,
            Pending::SetAttrPath { update } => PendingView::SetAttrPath { update: *update },
            Pending::SetAttrApply => PendingView::SetAttrApply,
        }
    }
}

/// What to do next for a request: send one request to the service and wait,
/// or answer the kernel and finish.
#[derive(Clone, Debug, PartialEq, Eq)]
pub enum Step {
    Send { next: Pending, request: HttpRequest },
    Reply(FsReply),
}

pub enum StepView {
    Send { next: PendingView, request: RequestView },
    Reply(FsReply),
}

impl View for Step {
    type V = StepView;

    open spec fn view(&self) -> StepView {
        match self {
            Step::Send { next, request } => StepView::Send { next: next@, request: request@ },
            Step::Reply(r) => StepView::Reply(*r),
        }
    }
}

pub open spec fn fail(e: FsError) -> StepView {
    StepView::Reply(FsReply::Error(e))
}

/// After the path of a lookup's parent is known: fetch the child's metadata.
pub open spec fn lookup_fetch(base: Seq<char>, parent: Seq<char>, name: Seq<char>) -> StepView {
    StepView::Send {
        next: PendingView::LookupEntry,
        request: metadata_request(base, join_path(parent, name)),
    }
}

pub open spec fn attr_fetch(base: Seq<char>, path: Seq<char>) -> StepView {
    StepView::Send { next: PendingView::AttrFetch, request: metadata_request(base, path) }
}

pub open spec fn attr_apply(base: Seq<char>, path: Seq<char>, u: AttrUpdate) -> StepView {
    StepView::Send { next: PendingView::SetAttrApply, request: update_request(base, path, u) }
}

pub open spec fn lookup_start(base: Seq<char>, parent: u64, name: Seq<u8>) -> StepView {
    if name.len() > MAX_NAME_LENGTH {
        fail(FsError::NameTooLong)
    } else if !valid_utf8(name) {
        fail(FsError::InvalidArgument)
    } else {
        match path_source(base, parent) {
            PathSourceView::Known(p) => lookup_fetch(base, p, decode_utf8(name)),
            PathSourceView::Ask(req) => StepView::Send {
                next: PendingView::LookupParent { name: decode_utf8(name) },
                request: req,
            },
        }
    }
}

/// The first step of each kernel request.
pub open spec fn start_spec(base: Seq<char>, op: FsOp) -> StepView {
    match op {
        FsOp::Init => StepView::Send {
            next: PendingView::Probing,
            request: get_text(health_url(base)),
        },
        FsOp::Destroy => StepView::Reply(FsReply::Silent),
        FsOp::Lookup { parent, name } => lookup_start(base, parent, name@),
        FsOp::Forget { .. } => StepView::Reply(FsReply::Silent),
        FsOp::GetAttr { ino } => match path_source(base, ino) {
            PathSourceView::Known(p) => attr_fetch(base, p),
            PathSourceView::Ask(req) => StepView::Send { next: PendingView::AttrPath, request: req },
        },
        FsOp::SetAttr { ino, update } => match path_source(base, ino) {
            PathSourceView::Known(p) => attr_apply(base, p, update),
            PathSourceView::Ask(req) => StepView::Send {
                next: PendingView::SetAttrPath { update },
                request: req,
            },
        },
        FsOp::Open { .. } => StepView::Reply(FsReply::Opened { fh: 0, flags: 0 }),
        FsOp::OpenDir { .. } => StepView::Reply(FsReply::Opened { fh: 0, flags: 0 }),
        FsOp::Release { .. } => StepView::Reply(FsReply::Done),
        FsOp::ReleaseDir { .. } => StepView::Reply(FsReply::Done),
        FsOp::StatFs { .. } => StepView::Reply(FsReply::Statfs(statfs_spec())),
        FsOp::Other(_) => fail(FsError::NotSupported),
    }
}

/// Whether a health probe answered with a success status.
pub open spec fn probe_ok(o: OutcomeView) -> bool {
    match o {
        OutcomeView::Answered { status, .. } => is_success(status),
        OutcomeView::Unreachable => false,
    }
}

/// The step that follows the service's answer to a waiting request.
pub open spec fn step_spec(base: Seq<char>, p: PendingView, o: OutcomeView) -> StepView {
    match p {
        PendingView::Probing => if probe_ok(o) {
            StepView::Reply(FsReply::Ready { max_readahead: MAX_TRANSFER, max_write: MAX_TRANSFER })
        } else {
            fail(FsError::Io)
        },
        PendingView::LookupParent { name } => match resolve_result(o) {
            Ok(parent) => lookup_fetch(base, parent, name),
            Err(_) => fail(FsError::NoEntry),
        },
        PendingView::LookupEntry => match metadata_result(o) {
            Ok(m) => StepView::Reply(
                FsReply::Entry { attr: attributes_of(m), ttl_secs: TTL_SECS, generation: 0 },
            ),
            Err(_) => fail(FsError::NoEntry),
        },
        PendingView::AttrPath => match resolve_result(o) {
            Ok(path) => attr_fetch(base, path),
            Err(_) => fail(FsError::NoEntry),
        },
        PendingView::AttrFetch => match metadata_result(o) {
            Ok(m) => StepView::Reply(FsReply::Attr { attr: attributes_of(m), ttl_secs: TTL_SECS }),
            Err(_) => fail(FsError::NoEntry),
        },
        PendingView::SetAttrPath { update } => match resolve_result(o) {
            Ok(path) => attr_apply(base, path, update),
            Err(_) => fail(FsError::NoEntry),
        },
        PendingView::SetAttrApply => match update_result(o) {
            Ok(m) => StepView::Reply(FsReply::Attr { attr: attributes_of(m), ttl_secs: TTL_SECS }),
            Err(_) => fail(FsError::NoEntry),
        },
    }
}

impl RemoteFsClient {
    fn fetch_child(&self, parent: Result<String, GatewayError>, name: &str) -> (r: Step)
        ensures
            match parent {
                Ok(p) => r@ == lookup_fetch(self@, p@, name@),
                Err(_) => r@ == fail(FsError::NoEntry),
            },
    {
        match RemoteFsClient::build_path(parent, name) {
            Some(path) => Step::Send {
                next: Pending::LookupEntry,
                request: self.get_file_metadata(path.as_str()),
            },
            None => Step::Reply(FsReply::Error(FsError::NoEntry)),
        }
    }

    /// Checks a lookup's name, then finds its parent's path.
    pub fn lookup(&self, parent: u64, name: Vec<u8>) -> (r: Step)
        ensures
            r@ == lookup_start(self@, parent, name@),
    {
        if name.len() > MAX_NAME_LENGTH {
            return Step::Reply(FsReply::Error(FsError::NameTooLong));
        }
        let text = match utf8_text(name) {
            Some(t) => t,
            None => return Step::Reply(FsReply::Error(FsError::InvalidArgument)),
        };
        match self.inode_to_path(parent) {
            PathSource::Known(p) => self.fetch_child(Ok(p), text.as_str()),
            PathSource::Ask(request) => Step::Send {
                next: Pending::LookupParent { name: text },
                request,
            },
        }
    }

    /// Begins the handling of a kernel request.
    pub fn start(&self, op: FsOp) -> (r: Step)
        ensures
            r@ == start_spec(self@, op),
    {
        match op {
            FsOp::Init => Step::Send { next: Pending::Probing, request: self.health_request() },
            FsOp::Destroy => Step::Reply(FsReply::Silent),
            FsOp::Lookup { parent, name } => self.lookup(parent, name),
            FsOp::Forget { .. } => Step::Reply(FsReply::Silent),
            FsOp::GetAttr { ino } => match self.inode_to_path(ino) {
                PathSource::Known(p) => Step::Send {
                    next: Pending::AttrFetch,
                    request: self.get_file_metadata(p.as_str()),
                },
                PathSource::Ask(request) => Step::Send { next: Pending::AttrPath, request },
            },
            FsOp::SetAttr { ino, update } => match self.inode_to_path(ino) {
                PathSource::Known(p) => Step::Send {
                    next: Pending::SetAttrApply,
                    request: self.update_file_attributes(p.as_str(), &update),
                },
                PathSource::Ask(request) => Step::Send {
                    next: Pending::SetAttrPath { update },
                    request,
                },
            },
            FsOp::Open { .. } => Step::Reply(FsReply::Opened { fh: 0, flags: 0 }),
            FsOp::OpenDir { .. } => Step::Reply(FsReply::Opened { fh: 0, flags: 0 }),
            FsOp::Release { .. } => Step::Reply(FsReply::Done),
            FsOp::ReleaseDir { .. } => Step::Reply(FsReply::Done),
            FsOp::StatFs { .. } => Step::Reply(FsReply::Statfs(StatfsReport {
                blocks: 0,
                bfree: 0,
                bavail: 0,
                files: 0,
                ffree: 0,
                bsize: 512,
                namelen: 255,
                frsize: 512,
            })),
            FsOp::Other(_) => Step::Reply(FsReply::Error(FsError::NotSupported)),
        }
    }

    /// Carries a waiting request on with the service's answer.
    pub fn step(&self, pending: Pending, outcome: HttpOutcome) -> (r: Step)
        ensures
            r@ == step_spec(self@, pending@, outcome@),
    {
        match pending {
            Pending::Probing => {
                let ok = match &outcome {
                    HttpOutcome::Answered { status, .. } => status_is_success(*status),
                    HttpOutcome::Unreachable => false,
                };
                if ok {
                    Step::Reply(FsReply::Ready { max_readahead: MAX_TRANSFER, max_write: MAX_TRANSFER })
                } else {
                    Step::Reply(FsReply::Error(FsError::Io))
                }
            },
            Pending::LookupParent { name } => self.fetch_child(resolve_reply(outcome), name.as_str()),
            Pending::LookupEntry => match metadata_reply(&outcome) {
                Ok(m) => Step::Reply(
                    FsReply::Entry { attr: m.to_file_attr(), ttl_secs: TTL_SECS, generation: 0 },
                ),
                Err(_) => Step::Reply(FsReply::Error(FsError::NoEntry)),
            },
            Pending::AttrPath => match resolve_reply(outcome) {
                Ok(path) => Step::Send {
                    next: Pending::AttrFetch,
                    request: self.get_file_metadata(path.as_str()),
                },
                Err(_) => Step::Reply(FsReply::Error(FsError::NoEntry)),
            },
            Pending::AttrFetch => match metadata_reply(&outcome) {
                Ok(m) => Step::Reply(FsReply::Attr { attr: m.to_file_attr(), ttl_secs: TTL_SECS }),
                Err(_) => Step::Reply(FsReply::Error(FsError::NoEntry)),
            },
            Pending::SetAttrPath { update } => match resolve_reply(outcome) {
                Ok(path) => Step::Send {
                    next: Pending::SetAttrApply,
                    request: self.update_file_attributes(path.as_str(), &update),
                },
                Err(_) => Step::Reply(FsReply::Error(FsError::NoEntry)),
            },
            Pending::SetAttrApply => match update_reply(&outcome) {
                Ok(m) => Step::Reply(FsReply::Attr { attr: m.to_file_attr(), ttl_secs: TTL_SECS }),
                Err(_) => Step::Reply(FsReply::Error(FsError::NoEntry)),
            },
        }
    }
}

} // verus!
