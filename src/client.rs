use vstd::prelude::*;
use crate::codec::{update_body, AttrUpdate};
use crate::gateway::{BodyKind, GatewayError, HttpRequest, Method, RequestView};
use crate::text::{decimal, push_decimal};

verus! {

/// The inode handle that always names the root directory.
pub const ROOT_INODE: u64 = 1;

pub open spec fn root_path() -> Seq<char> {
    "/"@
}

pub open spec fn health_url(base: Seq<char>) -> Seq<char> {
    base + "/health"@
}

pub open spec fn resolve_url(base: Seq<char>, ino: u64) -> Seq<char> {
    base + "/resolve-inode/"@ + decimal(ino as nat)
}

pub open spec fn metadata_url(base: Seq<char>, path: Seq<char>) -> Seq<char> {
    base + "/metadata?path="@ + path
}

pub open spec fn get_text(url: Seq<char>) -> RequestView {
    RequestView { method: Method::Get, url, body: None, read_as: BodyKind::Text }
}

pub open spec fn metadata_request(base: Seq<char>, path: Seq<char>) -> RequestView {
    RequestView {
        method: Method::Get,
        url: metadata_url(base, path),
        body: None,
        read_as: BodyKind::Record,
    }
}

pub open spec fn update_request(base: Seq<char>, path: Seq<char>, u: AttrUpdate) -> RequestView {
    RequestView {
        method: Method::Patch,
        url: metadata_url(base, path),
        body: Some(update_body(u)),
        read_as: BodyKind::Record,
    }
}

/// Where the path of an inode comes from: known at once, or from one request.
#[derive(Clone, Debug, PartialEq, Eq)]
pub enum PathSource {
    Known(String),
    Ask(HttpRequest),
}

pub enum PathSourceView {
    Known(Seq<char>),
    Ask(RequestView),
}

impl View for PathSource {
    type V = PathSourceView;

    open spec fn view(&self) -> PathSourceView {
        match self {
            PathSource::Known(p) => PathSourceView::Known(p@),
            PathSource::Ask(r) => PathSourceView::Ask(r@),
        }
    }
}

/// The root is known without asking; every other handle takes one read
/// request to the resolution endpoint.
pub open spec fn path_source(base: Seq<char>, ino: u64) -> PathSourceView {
    if ino == ROOT_INODE {
        PathSourceView::Known(root_path())
    } else {
        PathSourceView::Ask(get_text(resolve_url(base, ino)))
    }
}

/// A child's path: the root joined with the name by one separator, or the
/// parent, a separator and the name.
pub open spec fn join_path(parent: Seq<char>, name: Seq<char>) -> Seq<char> {
    if parent == root_path() {
        root_path() + name
    } else {
        parent + "/"@ + name
    }
}

/// A client of the remote metadata service at one base address.
pub struct RemoteFsClient {
    api_url: String,
}

impl View for RemoteFsClient {
    type V = Seq<char>;

    /// The base address of the service.
    closed spec fn view(&self) -> Seq<char> {
        self.api_url@
    }
}

fn concat(a: &String, b: &str) -> (r: String)
    ensures
        r@ == a@ + b@,
{
    let mut s = a.clone();
    s.append(b);
    s
}

impl RemoteFsClient {
    pub fn new(api_url: String) -> (r: Self)
        ensures
            r@ == api_url@,
    {
        Self { api_url }
    }

    /// The request that probes the service's health endpoint.
    pub fn health_request(&self) -> (r: HttpRequest)
        ensures
            r@ == get_text(health_url(self@)),
    {
        HttpRequest {
            method: Method::Get,
            url: concat(&self.api_url, "/health"),
            body: None,
            read_as: BodyKind::Text,
        }
    }

    /// How the path of `ino` is found.
    pub fn inode_to_path(&self, ino: u64) -> (r: PathSource)
        ensures
            r@ == path_source(self@, ino),
    {
        if ino == ROOT_INODE {
            PathSource::Known(String::from_str("/"))
        } else {
            let mut url = concat(&self.api_url, "/resolve-inode/");
            push_decimal(&mut url, ino);
            PathSource::Ask(
                HttpRequest { method: Method::Get, url, body: None, read_as: BodyKind::Text },
            )
        }
    }

    /// The path of `name` inside the directory whose resolution is `parent`;
    /// `None` when the parent could not be resolved.
    pub fn build_path(parent: Result<String, GatewayError>, name: &str) -> (r: Option<String>)
        ensures
            match parent {
                Ok(p) => r matches Some(s) && s@ == join_path(p@, name@),
                Err(_) => r is None,
            },
    {
        match parent {
            Ok(p) => {
                let root = String::from_str("/");
                if p == root {
                    Some(concat(&root, name))
                } else {
                    let mut s = concat(&p, "/");
                    s.append(name);
                    Some(s)
                }
            },
            Err(_) => None,
        }
    }

    /// The request that fetches the metadata of `path`.
    pub fn get_file_metadata(&self, path: &str) -> (r: HttpRequest)
        ensures
            r@ == metadata_request(self@, path@),
    {
        let mut url = concat(&self.api_url, "/metadata?path=");
        url.append(path);
        HttpRequest { method: Method::Get, url, body: None, read_as: BodyKind::Record }
    }

    /// The request that applies `update` to `path`.
    pub fn update_file_attributes(&self, path: &str, update: &AttrUpdate) -> (r: HttpRequest)
        ensures
            r@ == update_request(self@, path@, *update),
    {
        let mut url = concat(&self.api_url, "/metadata?path=");
        url.append(path);
        HttpRequest {
            method: Method::Patch,
            url,
            body: Some(update.encode()),
            read_as: BodyKind::Record,
        }
    }
}

} // verus!
