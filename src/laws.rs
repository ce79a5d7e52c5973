use vstd::prelude::*;
use vstd::utf8::valid_utf8;
use crate::client::{
    get_text, health_url, path_source, resolve_url, root_path, update_request, PathSourceView,
    ROOT_INODE,
};
use crate::codec::{attributes_of, first_missing, metadata_of, AttrUpdate, FileMetadata, WireRecord};
use crate::gateway::{
    is_success, metadata_result, resolve_result, GatewayError, OutcomeView, PayloadView,
};
use crate::handler::{
    attr_fetch, fail, probe_ok, start_spec, step_spec, FsError, FsOp, FsReply, OtherOp,
    PendingView, StepView, TTL_SECS,
};
use crate::text::decimal;

verus! {

/// Any handle other than the root is resolved by one read request to the
/// resolution endpoint, which is the whole first step of an attribute query;
/// a successful answer's text is the path, whatever it says.
pub proof fn lemma_resolution_is_one_read(base: Seq<char>, ino: u64, status: u16, body: Seq<char>)
    requires
        ino != ROOT_INODE,
        is_success(status),
    ensures
        path_source(base, ino) == PathSourceView::Ask(get_text(resolve_url(base, ino))),
        start_spec(base, FsOp::GetAttr { ino }) == (StepView::Send {
            next: PendingView::AttrPath,
            request: get_text(resolve_url(base, ino)),
        }),
        resolve_result(OutcomeView::Answered { status, payload: PayloadView::Text(body) })
            == Ok::<Seq<char>, GatewayError>(body),
{
}

/// The root handle resolves to the root path with no request, whatever the
/// service's address: an attribute query on it asks only for the metadata.
pub proof fn lemma_root_resolves_locally(base: Seq<char>)
    ensures
        path_source(base, ROOT_INODE) == PathSourceView::Known(root_path()),
        start_spec(base, FsOp::GetAttr { ino: ROOT_INODE }) == attr_fetch(base, root_path()),
{
}

/// An update that sets only the size sends every other field as `null`, and
/// the attributes then reported are the server's, owner, group and mode
/// included.
pub proof fn lemma_size_only_update_keeps_server_fields(
    base: Seq<char>,
    path: Seq<char>,
    size: u64,
    status: u16,
    raw: WireRecord,
)
    requires
        is_success(status),
        first_missing(raw) is None,
    ensures
        update_request(
            base,
            path,
            AttrUpdate { mode: None, uid: None, gid: None, size: Some(size), flags: None },
        ).body == Some(
            "{\"mode\":null,\"uid\":null,\"gid\":null,\"size\":"@ + decimal(size as nat)
                + ",\"flags\":null}"@,
        ),
        step_spec(
            base,
            PendingView::SetAttrApply,
            OutcomeView::Answered { status, payload: PayloadView::Record(raw) },
        ) == StepView::Reply(
            FsReply::Attr { attr: attributes_of(metadata_of(raw)), ttl_secs: TTL_SECS },
        ),
        attributes_of(metadata_of(raw)).uid == raw.uid->0,
        attributes_of(metadata_of(raw)).gid == raw.gid->0,
        attributes_of(metadata_of(raw)).perm == raw.permissions->0,
{
    reveal_strlit("{\"mode\":null,\"uid\":null,\"gid\":null,\"size\":");
    reveal_strlit(",\"flags\":null}");
    reveal_strlit("{\"mode\":");
    reveal_strlit(",\"uid\":");
    reveal_strlit(",\"gid\":");
    reveal_strlit(",\"size\":");
    reveal_strlit(",\"flags\":");
    reveal_strlit("}");
    reveal_strlit("null");
    let u = AttrUpdate { mode: None, uid: None, gid: None, size: Some(size), flags: None };
    assert(update_request(base, path, u).body->0 =~= "{\"mode\":null,\"uid\":null,\"gid\":null,\"size\":"@
        + decimal(size as nat) + ",\"flags\":null}"@);
}

/// A lookup of a name longer than 255 bytes fails with "name too long" and
/// sends nothing.
pub proof fn lemma_long_name_refused(base: Seq<char>, parent: u64, name: Vec<u8>)
    requires
        name@.len() > 255,
    ensures
        start_spec(base, FsOp::Lookup { parent, name }) == fail(FsError::NameTooLong),
{
}

/// A lookup of a name of acceptable length that is not valid UTF-8 fails with
/// "invalid argument" and sends nothing.
pub proof fn lemma_invalid_name_refused(base: Seq<char>, parent: u64, name: Vec<u8>)
    requires
        name@.len() <= 255,
        !valid_utf8(name@),
    ensures
        start_spec(base, FsOp::Lookup { parent, name }) == fail(FsError::InvalidArgument),
{
}

/// When the metadata fetch of an attribute query finds no entry, the reply is
/// "no such entry" and carries no attributes.
pub proof fn lemma_missing_entry_has_no_attributes(base: Seq<char>, o: OutcomeView)
    requires
        metadata_result(o) == Err::<FileMetadata, GatewayError>(GatewayError::NotFound),
    ensures
        step_spec(base, PendingView::AttrFetch, o) == fail(FsError::NoEntry),
{
}

/// Initialisation first probes the health endpoint; unless the probe answers
/// with a success status it fails with an I/O error and lets no mount proceed.
pub proof fn lemma_failed_probe_aborts(base: Seq<char>, o: OutcomeView)
    requires
        !probe_ok(o),
    ensures
        start_spec(base, FsOp::Init) == (StepView::Send {
            next: PendingView::Probing,
            request: get_text(health_url(base)),
        }),
        step_spec(base, PendingView::Probing, o) == fail(FsError::Io),
{
}

/// Every request outside the supported set is answered "operation not
/// supported" at once, with no request to the service.
pub proof fn lemma_other_ops_unsupported(base: Seq<char>, op: OtherOp)
    ensures
        start_spec(base, FsOp::Other(op)) == fail(FsError::NotSupported),
{
}

} // verus!
