use crate::error::ContainerError;
use vstd::prelude::*;
use vstd::string::StringExecFns;

verus! {

/// Media type of a multi-platform manifest list (Docker).
pub const MANIFEST_LIST_TYPE: &'static str = "application/vnd.docker.distribution.manifest.list.v2+json";

/// Media type of a multi-platform image index (OCI).
pub const IMAGE_INDEX_TYPE: &'static str = "application/vnd.oci.image.index.v1+json";

/// Media type of a single-platform image manifest (Docker).
pub const DOCKER_MANIFEST_TYPE: &'static str = "application/vnd.docker.distribution.manifest.v2+json";

/// Media type of a single-platform image manifest (OCI).
pub const OCI_MANIFEST_TYPE: &'static str = "application/vnd.oci.image.manifest.v1+json";

/// The status code of a successful registry response.
pub const STATUS_OK: u16 = 200;

/// Diagnostic of a token exchange whose answer holds no token.
pub const MISSING_TOKEN: &'static str = "no token in the token exchange's answer";

/// Diagnostic of a manifest of an unsupported media type.
pub const UNSUPPORTED_MEDIA_TYPE: &'static str = "unsupported media type";

/// Diagnostic of a manifest without a list of layers.
pub const MISSING_LAYERS: &'static str = "no layers";

/// The platform that an image is built for.
#[derive(Debug, Clone, PartialEq, Eq)]
pub struct Platform {
    pub architecture: String,
    pub os: String,
}

/// One entry of a manifest index: the digest of one platform's image manifest.
#[derive(Debug, Clone, PartialEq, Eq)]
pub struct PlatformManifestRef {
    pub digest: String,
    pub platform: Platform,
}

/// One layer of an image: the digest of its blob, its media type and its size in bytes.
#[derive(Debug, Clone, PartialEq, Eq)]
pub struct LayerDescriptor {
    pub digest: String,
    pub media_type: String,
    pub size: u64,
}

/// A single-platform image manifest: its layers, base first.
#[derive(Debug, Clone, PartialEq, Eq)]
pub struct ImageManifest {
    pub layers: Vec<LayerDescriptor>,
}

/// A GET request to the registry.
#[derive(Debug, Clone, PartialEq, Eq)]
pub struct HttpRequest {
    pub url: String,
    /// Value of the `Accept` header, where one is sent.
    pub accept: Option<String>,
    /// Bearer token sent in the `Authorization` header, where one is sent.
    pub bearer: Option<String>,
}

/// An authenticated session with one repository of a registry.
#[derive(Debug, Clone, PartialEq, Eq)]
pub struct RegistryClient {
    /// Base URL of the registry, without a trailing slash.
    pub registry: String,
    /// Repository (image) name.
    pub name: String,
    pub tag: String,
    /// Bearer token for pull access to the repository.
    pub token: String,
}

/// URL of the anonymous token exchange for pull access to a repository.
pub open spec fn token_url(registry: Seq<char>, name: Seq<char>) -> Seq<char> {
    registry + "/token?scope=repository:"@ + name + ":pull"@
}

/// URL of the manifest of a repository with a tag or digest.
pub open spec fn manifest_url(registry: Seq<char>, name: Seq<char>, reference: Seq<char>) -> Seq<char> {
    registry + "/v2/"@ + name + "/manifests/"@ + reference
}

/// URL of a blob of a repository.
pub open spec fn blob_url(registry: Seq<char>, name: Seq<char>, digest: Seq<char>) -> Seq<char> {
    registry + "/v2/"@ + name + "/blobs/"@ + digest
}

/// `Accept` header of the manifest index request.
pub open spec fn index_accept() -> Seq<char> {
    MANIFEST_LIST_TYPE@ + ", "@ + IMAGE_INDEX_TYPE@
}

/// `Accept` header of the image manifest request.
pub open spec fn manifest_accept() -> Seq<char> {
    DOCKER_MANIFEST_TYPE@ + ", "@ + OCI_MANIFEST_TYPE@
}

/// Whether a media type names a supported single-platform manifest schema.
pub open spec fn is_supported_manifest_type(t: Seq<char>) -> bool {
    t == DOCKER_MANIFEST_TYPE@ || t == OCI_MANIFEST_TYPE@
}

/// Whether an index entry is for this architecture and operating system.
pub open spec fn is_for(m: PlatformManifestRef, architecture: Seq<char>, os: Seq<char>) -> bool {
    m.platform.architecture@ == architecture && m.platform.os@ == os
}

fn join2(a: &str, b: &str) -> (r: String)
    ensures
        r@ == a@ + b@,
{
    let mut s = String::from_str(a);
    s.append(b);
    s
}

fn join4(a: &str, b: &str, c: &str, d: &str) -> (r: String)
    ensures
        r@ == a@ + b@ + c@ + d@,
{
    let mut s = String::from_str(a);
    s.append(b);
    s.append(c);
    s.append(d);
    s
}

/// Accepts a response status: only a success goes on, any other code
/// surfaces as an unhandled status code.
pub fn check_status(status: u16) -> (r: Result<(), ContainerError>)
    ensures
        status == STATUS_OK <==> r is Ok,
        status != STATUS_OK ==> r == Err::<(), ContainerError>(ContainerError::UnhandledStatusCode(status)),
{
    if status == STATUS_OK {
        Ok(())
    } else {
        Err(ContainerError::UnhandledStatusCode(status))
    }
}

/// The anonymous token exchange for pull access to a repository.
pub fn auth_request(registry: &str, name: &str) -> (r: HttpRequest)
    ensures
        r.url@ == token_url(registry@, name@),
        r.accept is None,
        r.bearer is None,
{
    let url = join4(registry, "/token?scope=repository:", name, ":pull");
    HttpRequest { url, accept: None, bearer: None }
}

/// Selects the index entry for an architecture and operating system: the
/// first entry that matches, or nothing where none does.
pub fn select_platform(manifests: Vec<PlatformManifestRef>, architecture: &String, os: &String) -> (r: Option<PlatformManifestRef>)
    ensures
        r is None <==> forall|k: int| 0 <= k < manifests@.len() ==> !is_for(#[trigger] manifests@[k], architecture@, os@),
        r matches Some(m) ==> exists|i: int|
            0 <= i < manifests@.len() && manifests@[i] == m && is_for(m, architecture@, os@)
                && forall|k: int| 0 <= k < i ==> !is_for(#[trigger] manifests@[k], architecture@, os@),
{
    let mut list = manifests;
    let ghost all = list@;
    let mut i: usize = 0;
    while i < list.len()
        invariant
            list@ == all,
            all == manifests@,
            i <= all.len(),
            forall|k: int| 0 <= k < i ==> !is_for(#[trigger] all[k], architecture@, os@),
        decreases all.len() - i,
    {
        if list[i].platform.architecture == *architecture && list[i].platform.os == *os {
            let m = list.remove(i);
            return Some(m);
        }
        i = i + 1;
    }
    None
}

/// The media type of a manifest: the one that its body declares, else the
/// response's `Content-Type`, else none.
pub open spec fn manifest_type(declared: Option<String>, content_type: Option<String>) -> Option<Seq<char>> {
    match declared {
        Some(t) => Some(t@),
        None => match content_type {
            Some(t) => Some(t@),
            None => None,
        },
    }
}

/// Whether a manifest's media type, as `manifest_type` chooses it, is supported.
pub open spec fn has_supported_type(declared: Option<String>, content_type: Option<String>) -> bool {
    manifest_type(declared, content_type) matches Some(t) && is_supported_manifest_type(t)
}

/// Reads a single-platform manifest from the media type that its body
/// declares, the response's `Content-Type`, and the layers as they stand
/// in the body (each absent where the body lacks it or cannot be read).
/// Supported are the Docker and OCI image manifest schemas; the layers are
/// kept in order, none dropped or merged.
pub fn image_manifest_from(
    declared: Option<String>,
    content_type: Option<String>,
    layers: Option<Vec<LayerDescriptor>>,
) -> (r: Result<ImageManifest, ContainerError>)
    ensures
        r is Ok <==> has_supported_type(declared, content_type) && layers is Some,
        !has_supported_type(declared, content_type) ==> r == Err::<ImageManifest, ContainerError>(ContainerError::Manifest(UNSUPPORTED_MEDIA_TYPE)),
        has_supported_type(declared, content_type) && layers is None ==> r == Err::<ImageManifest, ContainerError>(ContainerError::Manifest(MISSING_LAYERS)),
        r matches Ok(m) ==> layers == Some(m.layers),
{
    let media_type = match declared {
        Some(t) => t,
        None => match content_type {
            Some(t) => t,
            None => {
                return Err(ContainerError::Manifest(UNSUPPORTED_MEDIA_TYPE));
            },
        },
    };
    let docker = String::from_str(DOCKER_MANIFEST_TYPE);
    let oci = String::from_str(OCI_MANIFEST_TYPE);
    if !(media_type == docker || media_type == oci) {
        return Err(ContainerError::Manifest(UNSUPPORTED_MEDIA_TYPE));
    }
    match layers {
        Some(layers) => Ok(ImageManifest { layers }),
        None => Err(ContainerError::Manifest(MISSING_LAYERS)),
    }
}

impl RegistryClient {
    /// Completes the token exchange from its answer: the status code and the
    /// token field, where the answer holds one.
    pub fn from_token_response(registry: String, name: String, tag: String, status: u16, token: Option<String>) -> (r: Result<RegistryClient, ContainerError>)
        ensures
            r is Ok <==> status == STATUS_OK && token is Some,
            status != STATUS_OK ==> r == Err::<RegistryClient, ContainerError>(ContainerError::UnhandledStatusCode(status)),
            status == STATUS_OK && token is None ==> r == Err::<RegistryClient, ContainerError>(ContainerError::Auth(MISSING_TOKEN)),
            r matches Ok(c) ==> c.registry == registry && c.name == name && c.tag == tag && token == Some(c.token),
    {
        if status != STATUS_OK {
            return Err(ContainerError::UnhandledStatusCode(status));
        }
        match token {
            Some(token) => Ok(RegistryClient { registry, name, tag, token }),
            None => Err(ContainerError::Auth(MISSING_TOKEN)),
        }
    }

    /// The request for the manifest index of the session's tag.
    pub fn list_manifests_request(&self) -> (r: HttpRequest)
        ensures
            r.url@ == manifest_url(self.registry@, self.name@, self.tag@),
            r.accept matches Some(a) && a@ == index_accept(),
            r.bearer == Some(self.token),
    {
        let url = join4(self.registry.as_str(), "/v2/", self.name.as_str(), "/manifests/");
        let url = url.concat(self.tag.as_str());
        let accept = join2(MANIFEST_LIST_TYPE, ", ").concat(IMAGE_INDEX_TYPE);
        HttpRequest { url, accept: Some(accept), bearer: Some(self.token.clone()) }
    }

    /// The request for the image manifest that an index entry refers to.
    pub fn read_image_manifest_request(&self, entry: &PlatformManifestRef) -> (r: HttpRequest)
        ensures
            r.url@ == manifest_url(self.registry@, self.name@, entry.digest@),
            r.accept matches Some(a) && a@ == manifest_accept(),
            r.bearer == Some(self.token),
    {
        let url = join4(self.registry.as_str(), "/v2/", self.name.as_str(), "/manifests/");
        let url = url.concat(entry.digest.as_str());
        let accept = join2(DOCKER_MANIFEST_TYPE, ", ").concat(OCI_MANIFEST_TYPE);
        HttpRequest { url, accept: Some(accept), bearer: Some(self.token.clone()) }
    }

    /// The request for the blob of a layer.
    pub fn read_blob_request(&self, layer: &LayerDescriptor) -> (r: HttpRequest)
        ensures
            r.url@ == blob_url(self.registry@, self.name@, layer.digest@),
            r.accept is None,
            r.bearer == Some(self.token),
    {
        let url = join4(self.registry.as_str(), "/v2/", self.name.as_str(), "/blobs/");
        let url = url.concat(layer.digest.as_str());
        HttpRequest { url, accept: None, bearer: Some(self.token.clone()) }
    }
}

} // verus!
