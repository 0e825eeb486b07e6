//! The request builder of a Kubernetes resource type.
use vstd::prelude::*;
use crate::error::{Error, refuse, refused_with};
use crate::form::{encode_query, pair_views, query_of};
use crate::params::{push_dry_run, selector_pairs, ListParams, Patch, PatchParams, PostParams, list_pairs, patch_check, patch_content_type, patch_body, patch_pairs, dry_run_pairs, watch_pairs, timeout_too_long, timeout_message, field_manager_too_long, post_field_manager_message};
use crate::plural::{plural_of, to_plural};
use crate::text::{ascii_lower_seq, ascii_lowercase};
use crate::wire::{Verb, build_request, sent};

verus! {

/// What the API knows of a resource type: its group (empty for the core
/// group), its `apiVersion` (`group/version`, or the version alone in the
/// core group) and its kind.
#[derive(Debug)]
pub struct TypeInfo {
    pub group: String,
    pub api_version: String,
    pub kind: String,
}

/// A Kubernetes request builder
#[derive(Debug)]
pub struct Request<'a> {
    info: &'a TypeInfo,
    namespace: Option<&'a str>,
}

/// What a request builder holds: the type's group, `apiVersion` and kind,
/// and the namespace, if any.
pub struct RequestView {
    pub group: Seq<char>,
    pub api_version: Seq<char>,
    pub kind: Seq<char>,
    pub namespace: Option<Seq<char>>,
}

impl<'a> View for Request<'a> {
    type V = RequestView;

    closed spec fn view(&self) -> RequestView {
        RequestView {
            group: self.info.group@,
            api_version: self.info.api_version@,
            kind: self.info.kind@,
            namespace: match self.namespace {
                Some(ns) => Some(ns@),
                None => None,
            },
        }
    }
}

/// `namespaces/{ns}/` for a namespaced request, nothing otherwise.
pub open spec fn namespace_segment(namespace: Option<Seq<char>>) -> Seq<char> {
    match namespace {
        Some(ns) => "namespaces/"@ + ns + "/"@,
        None => Seq::empty(),
    }
}

/// `/api` for the core group, `/apis` for the others, then `/{apiVersion}/`.
pub open spec fn version_prefix(v: RequestView) -> Seq<char> {
    "/"@ + (if v.group.len() == 0 {
        "api"@
    } else {
        "apis"@
    }) + "/"@ + v.api_version + "/"@
}

/// The path of the resource collection.
pub open spec fn url_base(v: RequestView) -> Seq<char> {
    version_prefix(v) + namespace_segment(v.namespace) + plural_of(ascii_lower_seq(v.kind))
}

/// The collection path followed by `?`.
pub open spec fn collection_base(v: RequestView) -> Seq<char> {
    url_base(v) + "?"@
}

/// The path of one object, followed by `tail`.
pub open spec fn object_base(v: RequestView, name: Seq<char>, tail: Seq<char>) -> Seq<char> {
    url_base(v) + "/"@ + name + tail
}

/// The message of a watch with a limit.
pub open spec fn watch_limit_message() -> Seq<char> {
    "ListParams::limit cannot be used with a watch."@
}

/// The message of a watch with a continue token.
pub open spec fn watch_continue_message() -> Seq<char> {
    "ListParams::continue_token cannot be used with a watch."@
}

impl<'a> Request<'a> {
    /// New request base with type infomation and optional namespace
    pub fn new(info: &'a TypeInfo, namespace: Option<&'a str>) -> (r: Self)
        ensures
            r@ == (RequestView {
                group: info.group@,
                api_version: info.api_version@,
                kind: info.kind@,
                namespace: match namespace {
                    Some(ns) => Some(ns@),
                    None => None,
                },
            }),
    {
        Self { info, namespace }
    }

    /// The path of the resource collection: `/api` or `/apis`, the
    /// `apiVersion`, `namespaces/{ns}/` when namespaced, and the plural of the
    /// lower-cased kind.
    pub fn make_url(&self) -> (url: String)
        ensures
            url@ == url_base(self@),
    {
        let mut url = String::from_str("/");
        if self.info.group.as_str().is_empty() {
            url.append("api");
        } else {
            url.append("apis");
        }
        url.append("/");
        url.append(self.info.api_version.as_str());
        url.append("/");
        assert(url@ =~= version_prefix(self@));
        if let Some(ns) = self.namespace {
            url.append("namespaces/");
            url.append(ns);
            url.append("/");
        }
        assert(url@ =~= version_prefix(self@) + namespace_segment(self@.namespace));
        let kind = ascii_lowercase(self.info.kind.as_str());
        let plural = to_plural(kind.as_str());
        url.append(plural.as_str());
        assert(url@ =~= url_base(self@));
        url
    }

    /// The collection path followed by `?`.
    fn collection_url(&self) -> (url: String)
        ensures
            url@ == collection_base(self@),
    {
        let mut url = self.make_url();
        url.append("?");
        url
    }

    /// The path of object `name`, followed by `tail`.
    fn object_url(&self, name: &str, tail: &str) -> (url: String)
        ensures
            url@ == object_base(self@, name@, tail@),
    {
        let mut url = self.make_url();
        url.append("/");
        url.append(name);
        url.append(tail);
        url
    }

    /// A GET of the path of object `name` followed by `tail`.
    fn get_object(&self, name: &str, tail: &str) -> (r: Result<http::Request<Vec<u8>>, Error>)
        ensures
            r == sent(Verb::Get, object_base(self@, name@, tail@), None, Seq::empty()),
    {
        let pairs: Vec<(String, String)> = Vec::new();
        assert(pair_views(pairs@) =~= Seq::empty());
        let url = encode_query(self.object_url(name, tail), &pairs);
        build_request(Verb::Get, url, None, Vec::new())
    }

    /// A PATCH of object `name` (path followed by `tail`), after checking the
    /// parameters against the patch.
    fn patch_object(&self, name: &str, tail: &str, pp: &PatchParams, patch: &Patch) -> (r: Result<
        http::Request<Vec<u8>>,
        Error,
    >)
        ensures
            match patch_check(*pp, *patch) {
                Some(msg) => refused_with(r, msg),
                None => r == sent(
                    Verb::Patch,
                    query_of(object_base(self@, name@, tail@), patch_pairs(*pp)),
                    Some(patch_content_type(*patch)),
                    patch_body(*patch),
                ),
            },
    {
        pp.validate(patch)?;
        let mut pairs: Vec<(String, String)> = Vec::new();
        assert(pair_views(pairs@) =~= Seq::empty());
        pp.populate_qp(&mut pairs);
        assert(pair_views(pairs@) =~= patch_pairs(*pp));
        let url = encode_query(self.object_url(name, tail), &pairs);
        build_request(Verb::Patch, url, Some(patch.content_type()), patch.serialize())
    }

    /// A PUT of `data` to object `name` (path followed by `tail`).
    fn replace_object(&self, name: &str, tail: &str, pp: &PostParams, data: Vec<u8>) -> (r: Result<
        http::Request<Vec<u8>>,
        Error,
    >)
        ensures
            r == sent(
                Verb::Put,
                query_of(object_base(self@, name@, tail@), dry_run_pairs(pp.dry_run)),
                None,
                data@,
            ),
    {
        let mut pairs: Vec<(String, String)> = Vec::new();
        assert(pair_views(pairs@) =~= Seq::empty());
        push_dry_run(&mut pairs, pp.dry_run);
        assert(pair_views(pairs@) =~= dry_run_pairs(pp.dry_run));
        let url = encode_query(self.object_url(name, tail), &pairs);
        build_request(Verb::Put, url, None, data)
    }
}

/// Convenience methods found from API conventions
impl<'a> Request<'a> {
    /// List a collection of a resource
    pub fn list(&self, lp: &ListParams) -> (r: Result<http::Request<Vec<u8>>, Error>)
        ensures
            r == sent(Verb::Get, query_of(collection_base(self@), list_pairs(*lp)), None, Seq::empty()),
    {
        let url = encode_query(self.collection_url(), &lp.list_query());
        build_request(Verb::Get, url, None, Vec::new())
    }

    /// Watch a resource at a given version
    pub fn watch(&self, lp: &ListParams, ver: &str) -> (r: Result<http::Request<Vec<u8>>, Error>)
        ensures
            timeout_too_long(*lp) ==> refused_with(r, timeout_message()),
            !timeout_too_long(*lp) && lp.limit is Some ==> refused_with(r, watch_limit_message()),
            !timeout_too_long(*lp) && lp.limit is None && lp.continue_token is Some ==> refused_with(
                r,
                watch_continue_message(),
            ),
            !timeout_too_long(*lp) && lp.limit is None && lp.continue_token is None ==> r == sent(
                Verb::Get,
                query_of(collection_base(self@), watch_pairs(*lp, ver@)),
                None,
                Seq::empty(),
            ),
    {
        let base_url = self.collection_url();
        lp.validate()?;
        if lp.limit.is_some() {
            return refuse("ListParams::limit cannot be used with a watch.");
        }
        if lp.continue_token.is_some() {
            return refuse("ListParams::continue_token cannot be used with a watch.");
        }
        let url = encode_query(base_url, &lp.watch_query(ver));
        build_request(Verb::Get, url, None, Vec::new())
    }

    /// Get a single instance
    pub fn get(&self, name: &str) -> (r: Result<http::Request<Vec<u8>>, Error>)
        ensures
            r == sent(Verb::Get, object_base(self@, name@, ""@), None, Seq::empty()),
    {
        self.get_object(name, "")
    }

    /// Create an instance of a resource
    pub fn create(&self, pp: &PostParams, data: Vec<u8>) -> (r: Result<http::Request<Vec<u8>>, Error>)
        ensures
            field_manager_too_long(pp.field_manager) ==> refused_with(r, post_field_manager_message()),
            !field_manager_too_long(pp.field_manager) ==> r == sent(
                Verb::Post,
                query_of(collection_base(self@), dry_run_pairs(pp.dry_run)),
                None,
                data@,
            ),
    {
        pp.validate()?;
        let mut pairs: Vec<(String, String)> = Vec::new();
        assert(pair_views(pairs@) =~= Seq::empty());
        push_dry_run(&mut pairs, pp.dry_run);
        assert(pair_views(pairs@) =~= dry_run_pairs(pp.dry_run));
        let url = encode_query(self.collection_url(), &pairs);
        build_request(Verb::Post, url, None, data)
    }

    /// Delete an instance of a resource; `body` is the serialized delete options.
    pub fn delete(&self, name: &str, body: Vec<u8>) -> (r: Result<http::Request<Vec<u8>>, Error>)
        ensures
            r == sent(Verb::Delete, object_base(self@, name@, "?"@), None, body@),
    {
        let pairs: Vec<(String, String)> = Vec::new();
        assert(pair_views(pairs@) =~= Seq::empty());
        let url = encode_query(self.object_url(name, "?"), &pairs);
        build_request(Verb::Delete, url, None, body)
    }

    /// Delete a collection of a resource; `body` is the serialized delete options.
    pub fn delete_collection(&self, body: Vec<u8>, lp: &ListParams) -> (r: Result<
        http::Request<Vec<u8>>,
        Error,
    >)
        ensures
            r == sent(Verb::Delete, query_of(collection_base(self@), selector_pairs(*lp)), None, body@),
    {
        let mut pairs: Vec<(String, String)> = Vec::new();
        assert(pair_views(pairs@) =~= Seq::empty());
        lp.push_selectors(&mut pairs);
        assert(pair_views(pairs@) =~= selector_pairs(*lp));
        let url = encode_query(self.collection_url(), &pairs);
        build_request(Verb::Delete, url, None, body)
    }

    /// Patch an instance of a resource
    ///
    /// Requires a serialized merge-patch+json at the moment.
    pub fn patch(&self, name: &str, pp: &PatchParams, patch: &Patch) -> (r: Result<
        http::Request<Vec<u8>>,
        Error,
    >)
        ensures
            match patch_check(*pp, *patch) {
                Some(msg) => refused_with(r, msg),
                None => r == sent(
                    Verb::Patch,
                    query_of(object_base(self@, name@, "?"@), patch_pairs(*pp)),
                    Some(patch_content_type(*patch)),
                    patch_body(*patch),
                ),
            },
    {
        self.patch_object(name, "?", pp, patch)
    }

    /// Replace an instance of a resource
    ///
    /// Requires `metadata.resourceVersion` set in data
    pub fn replace(&self, name: &str, pp: &PostParams, data: Vec<u8>) -> (r: Result<
        http::Request<Vec<u8>>,
        Error,
    >)
        ensures
            r == sent(
                Verb::Put,
                query_of(object_base(self@, name@, "?"@), dry_run_pairs(pp.dry_run)),
                None,
                data@,
            ),
    {
        self.replace_object(name, "?", pp, data)
    }
}

/// Scale subresource
impl<'a> Request<'a> {
    /// Get an instance of the scale subresource
    pub fn get_scale(&self, name: &str) -> (r: Result<http::Request<Vec<u8>>, Error>)
        ensures
            r == sent(Verb::Get, object_base(self@, name@, "/scale"@), None, Seq::empty()),
    {
        self.get_object(name, "/scale")
    }

    /// Patch an instance of the scale subresource
    pub fn patch_scale(&self, name: &str, pp: &PatchParams, patch: &Patch) -> (r: Result<
        http::Request<Vec<u8>>,
        Error,
    >)
        ensures
            match patch_check(*pp, *patch) {
                Some(msg) => refused_with(r, msg),
                None => r == sent(
                    Verb::Patch,
                    query_of(object_base(self@, name@, "/scale?"@), patch_pairs(*pp)),
                    Some(patch_content_type(*patch)),
                    patch_body(*patch),
                ),
            },
    {
        self.patch_object(name, "/scale?", pp, patch)
    }

    /// Replace an instance of the scale subresource
    pub fn replace_scale(&self, name: &str, pp: &PostParams, data: Vec<u8>) -> (r: Result<
        http::Request<Vec<u8>>,
        Error,
    >)
        ensures
            r == sent(
                Verb::Put,
                query_of(object_base(self@, name@, "/scale?"@), dry_run_pairs(pp.dry_run)),
                None,
                data@,
            ),
    {
        self.replace_object(name, "/scale?", pp, data)
    }
}

/// Status subresource
impl<'a> Request<'a> {
    /// Get an instance of the status subresource
    pub fn get_status(&self, name: &str) -> (r: Result<http::Request<Vec<u8>>, Error>)
        ensures
            r == sent(Verb::Get, object_base(self@, name@, "/status"@), None, Seq::empty()),
    {
        self.get_object(name, "/status")
    }

    /// Patch an instance of the status subresource
    pub fn patch_status(&self, name: &str, pp: &PatchParams, patch: &Patch) -> (r: Result<
        http::Request<Vec<u8>>,
        Error,
    >)
        ensures
            match patch_check(*pp, *patch) {
                Some(msg) => refused_with(r, msg),
                None => r == sent(
                    Verb::Patch,
                    query_of(object_base(self@, name@, "/status?"@), patch_pairs(*pp)),
                    Some(patch_content_type(*patch)),
                    patch_body(*patch),
                ),
            },
    {
        self.patch_object(name, "/status?", pp, patch)
    }

    /// Replace an instance of the status subresource
    pub fn replace_status(&self, name: &str, pp: &PostParams, data: Vec<u8>) -> (r: Result<
        http::Request<Vec<u8>>,
        Error,
    >)
        ensures
            r == sent(
                Verb::Put,
                query_of(object_base(self@, name@, "/status?"@), dry_run_pairs(pp.dry_run)),
                None,
                data@,
            ),
    {
        self.replace_object(name, "/status?", pp, data)
    }
}

} // verus!
