use remote_fs::client::{PathSource, RemoteFsClient};
use remote_fs::codec::{
    AttrUpdate, DecodeError, FileAttributes, FileKind, FileMetadata, WireField, WireRecord,
};
use remote_fs::gateway::{
    metadata_reply, resolve_reply, update_reply, BodyKind, GatewayError, HttpOutcome,
    HttpRequest, Method, Payload,
};
use remote_fs::handler::{FsError, FsOp, FsReply, OtherOp, Pending, StatfsReport, Step};
use remote_fs::text::push_decimal;

const BASE: &str = "http://localhost:3000";

fn client() -> RemoteFsClient {
    RemoteFsClient::new(BASE.to_string())
}

fn full_record() -> WireRecord {
    WireRecord {
        ino: Some(42),
        size: Some(1024),
        blocks: Some(2),
        atime: Some(1_700_000_000),
        mtime: Some(1_700_000_100),
        ctime: Some(1_700_000_200),
        crtime: None,
        file_type: Some(FileKind::RegularFile),
        permissions: Some(0o644),
        nlink: Some(1),
        uid: Some(1000),
        gid: Some(100),
        blksize: Some(4096),
        flags: None,
    }
}

fn full_attributes() -> FileAttributes {
    FileAttributes {
        ino: 42,
        size: 1024,
        blocks: 2,
        atime: 1_700_000_000,
        mtime: 1_700_000_100,
        ctime: 1_700_000_200,
        crtime: 1_700_000_200,
        kind: FileKind::RegularFile,
        perm: 0o644,
        nlink: 1,
        uid: 1000,
        gid: 100,
        rdev: 0,
        blksize: 4096,
        flags: 0,
    }
}

fn answered(status: u16, payload: Payload) -> HttpOutcome {
    HttpOutcome::Answered { status, payload }
}

fn get(url: &str, read_as: BodyKind) -> HttpRequest {
    HttpRequest { method: Method::Get, url: url.to_string(), body: None, read_as }
}

fn error(e: FsError) -> Step {
    Step::Reply(FsReply::Error(e))
}

#[test]
fn build_path_under_root() {
    assert_eq!(RemoteFsClient::build_path(Ok("/".to_string()), "foo"), Some("/foo".to_string()));
}

#[test]
fn build_path_under_directory() {
    assert_eq!(
        RemoteFsClient::build_path(Ok("/foo".to_string()), "bar"),
        Some("/foo/bar".to_string())
    );
}

#[test]
fn build_path_does_not_normalise() {
    assert_eq!(
        RemoteFsClient::build_path(Ok("/a//b/".to_string()), ".."),
        Some("/a//b//..".to_string())
    );
}

#[test]
fn build_path_unresolved_parent() {
    assert_eq!(RemoteFsClient::build_path(Err(GatewayError::NotFound), "x"), None);
    assert_eq!(RemoteFsClient::build_path(Err(GatewayError::Server(500)), "x"), None);
    assert_eq!(RemoteFsClient::build_path(Err(GatewayError::Network), "x"), None);
}

#[test]
fn root_inode_needs_no_request() {
    assert_eq!(client().inode_to_path(1), PathSource::Known("/".to_string()));
    let other = RemoteFsClient::new("http://example.org:1".to_string());
    assert_eq!(other.inode_to_path(1), PathSource::Known("/".to_string()));
}

#[test]
fn other_inode_asks_resolution_endpoint() {
    assert_eq!(
        client().inode_to_path(42),
        PathSource::Ask(get("http://localhost:3000/resolve-inode/42", BodyKind::Text))
    );
    assert_eq!(
        client().inode_to_path(0),
        PathSource::Ask(get("http://localhost:3000/resolve-inode/0", BodyKind::Text))
    );
    assert_eq!(
        client().inode_to_path(u64::MAX),
        PathSource::Ask(get(
            "http://localhost:3000/resolve-inode/18446744073709551615",
            BodyKind::Text
        ))
    );
}

#[test]
fn resolve_reply_takes_body_verbatim() {
    let r = resolve_reply(answered(200, Payload::Text("/".to_string())));
    assert_eq!(r, Ok("/".to_string()));
    let r = resolve_reply(answered(204, Payload::Text("/a b/../c".to_string())));
    assert_eq!(r, Ok("/a b/../c".to_string()));
}

#[test]
fn resolve_reply_classifies_failures() {
    assert_eq!(resolve_reply(answered(404, Payload::Unreadable)), Err(GatewayError::NotFound));
    assert_eq!(
        resolve_reply(answered(500, Payload::Text("oops".to_string()))),
        Err(GatewayError::Server(500))
    );
    assert_eq!(resolve_reply(answered(302, Payload::Unreadable)), Err(GatewayError::Server(302)));
    assert_eq!(resolve_reply(HttpOutcome::Unreachable), Err(GatewayError::Network));
    assert_eq!(resolve_reply(answered(200, Payload::Unreadable)), Err(GatewayError::Network));
}

#[test]
fn metadata_reply_decodes_record() {
    let m = metadata_reply(&answered(200, Payload::Record(full_record()))).unwrap();
    assert_eq!(m.ino, 42);
    assert_eq!(m.uid, 1000);
    assert_eq!(m.to_file_attr(), full_attributes());
}

#[test]
fn metadata_reply_failures() {
    let mut raw = full_record();
    raw.uid = None;
    assert_eq!(metadata_reply(&answered(200, Payload::Record(raw))), Err(GatewayError::Server(200)));
    assert_eq!(metadata_reply(&answered(200, Payload::Unreadable)), Err(GatewayError::Server(200)));
    assert_eq!(metadata_reply(&answered(404, Payload::Unreadable)), Err(GatewayError::NotFound));
    assert_eq!(metadata_reply(&answered(503, Payload::Unreadable)), Err(GatewayError::Server(503)));
    assert_eq!(metadata_reply(&HttpOutcome::Unreachable), Err(GatewayError::Network));
}

#[test]
fn update_reply_not_found_is_server_error() {
    assert_eq!(update_reply(&answered(404, Payload::Unreadable)), Err(GatewayError::Server(404)));
    assert_eq!(update_reply(&HttpOutcome::Unreachable), Err(GatewayError::Network));
    let m = update_reply(&answered(200, Payload::Record(full_record()))).unwrap();
    assert_eq!(m.to_file_attr(), full_attributes());
}

#[test]
fn decode_reports_first_missing_field() {
    let mut raw = full_record();
    raw.gid = None;
    raw.blksize = None;
    assert_eq!(FileMetadata::decode(&raw), Err(DecodeError::MissingField(WireField::Gid)));
    let mut raw = full_record();
    raw.ino = None;
    raw.file_type = None;
    assert_eq!(FileMetadata::decode(&raw), Err(DecodeError::MissingField(WireField::Ino)));
    let mut raw = full_record();
    raw.file_type = None;
    assert_eq!(FileMetadata::decode(&raw), Err(DecodeError::MissingField(WireField::FileType)));
}

#[test]
fn decode_keeps_optional_fields_absent() {
    let m = FileMetadata::decode(&full_record()).unwrap();
    assert_eq!(m.crtime, None);
    assert_eq!(m.flags, None);
    assert_eq!(m.file_type, FileKind::RegularFile);
}

#[test]
fn to_file_attr_uses_given_creation_time_and_flags() {
    let mut raw = full_record();
    raw.crtime = Some(5);
    raw.flags = Some(0x10);
    raw.file_type = Some(FileKind::Directory);
    let a = FileMetadata::decode(&raw).unwrap().to_file_attr();
    assert_eq!(a.crtime, 5);
    assert_eq!(a.ctime, 1_700_000_200);
    assert_eq!(a.flags, 0x10);
    assert_eq!(a.kind, FileKind::Directory);
    assert_eq!(a.rdev, 0);
}

#[test]
fn encode_size_only_update() {
    let u = AttrUpdate { mode: None, uid: None, gid: None, size: Some(4096), flags: None };
    assert_eq!(u.encode(), "{\"mode\":null,\"uid\":null,\"gid\":null,\"size\":4096,\"flags\":null}");
}

#[test]
fn encode_zero_is_not_null() {
    let u = AttrUpdate { mode: Some(420), uid: Some(0), gid: Some(0), size: Some(0), flags: Some(0) };
    assert_eq!(u.encode(), "{\"mode\":420,\"uid\":0,\"gid\":0,\"size\":0,\"flags\":0}");
    let u = AttrUpdate { mode: None, uid: None, gid: None, size: None, flags: None };
    assert_eq!(u.encode(), "{\"mode\":null,\"uid\":null,\"gid\":null,\"size\":null,\"flags\":null}");
}

#[test]
fn push_decimal_values() {
    let mut s = String::from("n=");
    push_decimal(&mut s, 0);
    assert_eq!(s, "n=0");
    let mut s = String::new();
    push_decimal(&mut s, 10);
    assert_eq!(s, "10");
    let mut s = String::new();
    push_decimal(&mut s, u64::MAX);
    assert_eq!(s, "18446744073709551615");
}

#[test]
fn lookup_name_of_256_bytes_is_too_long() {
    let name = vec![b'a'; 256];
    assert_eq!(client().start(FsOp::Lookup { parent: 1, name }), error(FsError::NameTooLong));
    let name = vec![0xff; 300];
    assert_eq!(client().start(FsOp::Lookup { parent: 9, name }), error(FsError::NameTooLong));
}

#[test]
fn lookup_name_of_255_bytes_is_accepted() {
    let name = vec![b'a'; 255];
    let expected = format!("http://localhost:3000/metadata?path=/{}", "a".repeat(255));
    assert_eq!(
        client().start(FsOp::Lookup { parent: 1, name }),
        Step::Send { next: Pending::LookupEntry, request: get(&expected, BodyKind::Record) }
    );
}

#[test]
fn lookup_invalid_text_is_invalid_argument() {
    let name = vec![b'f', 0xff, b'o'];
    assert_eq!(client().start(FsOp::Lookup { parent: 1, name }), error(FsError::InvalidArgument));
    let name = vec![0xc3];
    assert_eq!(client().start(FsOp::Lookup { parent: 7, name }), error(FsError::InvalidArgument));
}

#[test]
fn lookup_in_root_fetches_metadata() {
    let step = client().start(FsOp::Lookup { parent: 1, name: b"foo".to_vec() });
    assert_eq!(
        step,
        Step::Send {
            next: Pending::LookupEntry,
            request: get("http://localhost:3000/metadata?path=/foo", BodyKind::Record),
        }
    );
}

#[test]
fn lookup_multibyte_name() {
    let step = client().start(FsOp::Lookup { parent: 1, name: "café".as_bytes().to_vec() });
    assert_eq!(
        step,
        Step::Send {
            next: Pending::LookupEntry,
            request: get("http://localhost:3000/metadata?path=/café", BodyKind::Record),
        }
    );
}

#[test]
fn lookup_in_subdirectory_session() {
    let c = client();
    let step = c.start(FsOp::Lookup { parent: 7, name: b"bar".to_vec() });
    assert_eq!(
        step,
        Step::Send {
            next: Pending::LookupParent { name: "bar".to_string() },
            request: get("http://localhost:3000/resolve-inode/7", BodyKind::Text),
        }
    );
    let step = c.step(
        Pending::LookupParent { name: "bar".to_string() },
        answered(200, Payload::Text("/foo".to_string())),
    );
    assert_eq!(
        step,
        Step::Send {
            next: Pending::LookupEntry,
            request: get("http://localhost:3000/metadata?path=/foo/bar", BodyKind::Record),
        }
    );
    let step = c.step(Pending::LookupEntry, answered(200, Payload::Record(full_record())));
    assert_eq!(
        step,
        Step::Reply(FsReply::Entry { attr: full_attributes(), ttl_secs: 1, generation: 0 })
    );
}

#[test]
fn lookup_failures_are_no_entry() {
    let c = client();
    let step = c.step(Pending::LookupParent { name: "x".to_string() }, HttpOutcome::Unreachable);
    assert_eq!(step, error(FsError::NoEntry));
    let step = c.step(Pending::LookupEntry, answered(404, Payload::Unreadable));
    assert_eq!(step, error(FsError::NoEntry));
    let step = c.step(Pending::LookupEntry, answered(500, Payload::Unreadable));
    assert_eq!(step, error(FsError::NoEntry));
}

#[test]
fn getattr_root_fetches_root_metadata() {
    assert_eq!(
        client().start(FsOp::GetAttr { ino: 1 }),
        Step::Send {
            next: Pending::AttrFetch,
            request: get("http://localhost:3000/metadata?path=/", BodyKind::Record),
        }
    );
}

#[test]
fn getattr_session() {
    let c = client();
    assert_eq!(
        c.start(FsOp::GetAttr { ino: 12 }),
        Step::Send {
            next: Pending::AttrPath,
            request: get("http://localhost:3000/resolve-inode/12", BodyKind::Text),
        }
    );
    assert_eq!(
        c.step(Pending::AttrPath, answered(200, Payload::Text("/docs/a.txt".to_string()))),
        Step::Send {
            next: Pending::AttrFetch,
            request: get("http://localhost:3000/metadata?path=/docs/a.txt", BodyKind::Record),
        }
    );
    assert_eq!(
        c.step(Pending::AttrFetch, answered(200, Payload::Record(full_record()))),
        Step::Reply(FsReply::Attr { attr: full_attributes(), ttl_secs: 1 })
    );
}

#[test]
fn getattr_not_found_replies_no_entry() {
    let c = client();
    assert_eq!(c.step(Pending::AttrFetch, answered(404, Payload::Unreadable)), error(FsError::NoEntry));
    assert_eq!(c.step(Pending::AttrPath, answered(404, Payload::Unreadable)), error(FsError::NoEntry));
}

#[test]
fn setattr_size_only_round_trip() {
    let c = client();
    let update = AttrUpdate { mode: None, uid: None, gid: None, size: Some(10), flags: None };
    assert_eq!(
        c.start(FsOp::SetAttr { ino: 5, update }),
        Step::Send {
            next: Pending::SetAttrPath { update },
            request: get("http://localhost:3000/resolve-inode/5", BodyKind::Text),
        }
    );
    let step = c.step(
        Pending::SetAttrPath { update },
        answered(200, Payload::Text("/f".to_string())),
    );
    assert_eq!(
        step,
        Step::Send {
            next: Pending::SetAttrApply,
            request: HttpRequest {
                method: Method::Patch,
                url: "http://localhost:3000/metadata?path=/f".to_string(),
                body: Some(
                    "{\"mode\":null,\"uid\":null,\"gid\":null,\"size\":10,\"flags\":null}"
                        .to_string()
                ),
                read_as: BodyKind::Record,
            },
        }
    );
    let mut raw = full_record();
    raw.size = Some(10);
    let step = c.step(Pending::SetAttrApply, answered(200, Payload::Record(raw)));
    match step {
        Step::Reply(FsReply::Attr { attr, ttl_secs }) => {
            assert_eq!(ttl_secs, 1);
            assert_eq!(attr.size, 10);
            assert_eq!(attr.uid, 1000);
            assert_eq!(attr.gid, 100);
            assert_eq!(attr.perm, 0o644);
        }
        other => panic!("unexpected step {:?}", other),
    }
}

#[test]
fn setattr_on_root_patches_root() {
    let update = AttrUpdate { mode: Some(493), uid: None, gid: None, size: None, flags: None };
    match client().start(FsOp::SetAttr { ino: 1, update }) {
        Step::Send { next, request } => {
            assert_eq!(next, Pending::SetAttrApply);
            assert_eq!(request.method, Method::Patch);
            assert_eq!(request.url, "http://localhost:3000/metadata?path=/");
        }
        other => panic!("unexpected step {:?}", other),
    }
}

#[test]
fn setattr_failures_are_no_entry() {
    let c = client();
    let update = AttrUpdate { mode: None, uid: Some(0), gid: None, size: None, flags: None };
    assert_eq!(
        c.step(Pending::SetAttrPath { update }, HttpOutcome::Unreachable),
        error(FsError::NoEntry)
    );
    assert_eq!(c.step(Pending::SetAttrApply, answered(404, Payload::Unreadable)), error(FsError::NoEntry));
    assert_eq!(c.step(Pending::SetAttrApply, answered(400, Payload::Unreadable)), error(FsError::NoEntry));
}

#[test]
fn init_probes_health() {
    let c = client();
    assert_eq!(
        c.start(FsOp::Init),
        Step::Send {
            next: Pending::Probing,
            request: get("http://localhost:3000/health", BodyKind::Text),
        }
    );
    assert_eq!(
        c.step(Pending::Probing, answered(200, Payload::Unreadable)),
        Step::Reply(FsReply::Ready { max_readahead: 131072, max_write: 131072 })
    );
}

#[test]
fn init_failed_probe_is_io_error() {
    let c = client();
    assert_eq!(c.step(Pending::Probing, answered(503, Payload::Unreadable)), error(FsError::Io));
    assert_eq!(c.step(Pending::Probing, answered(404, Payload::Unreadable)), error(FsError::Io));
    assert_eq!(c.step(Pending::Probing, HttpOutcome::Unreachable), error(FsError::Io));
}

#[test]
fn unsupported_ops_reply_not_supported() {
    let all = [
        OtherOp::ReadLink, OtherOp::Mknod, OtherOp::Mkdir, OtherOp::Unlink, OtherOp::Rmdir,
        OtherOp::Symlink, OtherOp::Rename, OtherOp::Link, OtherOp::Read, OtherOp::Write,
        OtherOp::Flush, OtherOp::Fsync, OtherOp::ReadDir, OtherOp::ReadDirPlus,
        OtherOp::FsyncDir, OtherOp::SetXattr, OtherOp::GetXattr, OtherOp::ListXattr,
        OtherOp::RemoveXattr, OtherOp::Access, OtherOp::Create, OtherOp::GetLk, OtherOp::SetLk,
        OtherOp::Bmap, OtherOp::Ioctl, OtherOp::Fallocate, OtherOp::Lseek,
        OtherOp::CopyFileRange,
    ];
    for op in all {
        assert_eq!(client().start(FsOp::Other(op)), error(FsError::NotSupported));
    }
}

#[test]
fn trivial_requests() {
    let c = client();
    assert_eq!(c.start(FsOp::Open { ino: 3 }), Step::Reply(FsReply::Opened { fh: 0, flags: 0 }));
    assert_eq!(c.start(FsOp::OpenDir { ino: 1 }), Step::Reply(FsReply::Opened { fh: 0, flags: 0 }));
    assert_eq!(c.start(FsOp::Release { ino: 3 }), Step::Reply(FsReply::Done));
    assert_eq!(c.start(FsOp::ReleaseDir { ino: 1 }), Step::Reply(FsReply::Done));
    assert_eq!(c.start(FsOp::Forget { ino: 3, nlookup: 2 }), Step::Reply(FsReply::Silent));
    assert_eq!(c.start(FsOp::Destroy), Step::Reply(FsReply::Silent));
    assert_eq!(
        c.start(FsOp::StatFs { ino: 1 }),
        Step::Reply(FsReply::Statfs(StatfsReport {
            blocks: 0,
            bfree: 0,
            bavail: 0,
            files: 0,
            ffree: 0,
            bsize: 512,
            namelen: 255,
            frsize: 512,
        }))
    );
}

#[test]
fn health_request_url() {
    let c = RemoteFsClient::new("http://10.0.0.2:8080".to_string());
    assert_eq!(c.health_request(), get("http://10.0.0.2:8080/health", BodyKind::Text));
}
