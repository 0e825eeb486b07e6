//! Parameters of the requests and the query pairs they contribute.
use vstd::prelude::*;
use vstd::utf8::encode_utf8;
use crate::error::{Error, refuse, refused_with};
use crate::form::pair_views;
use crate::text::{decimal, decimal_string};

verus! {

/// The view of an optional string.
pub open spec fn opt_view(o: Option<String>) -> Option<Seq<char>> {
    match o {
        Some(s) => Some(s@),
        None => None,
    }
}

/// One `key=value` pair when the value is there, none otherwise.
pub open spec fn opt_pair(key: Seq<char>, value: Option<Seq<char>>) -> Seq<(Seq<char>, Seq<char>)> {
    match value {
        Some(v) => seq![(key, v)],
        None => Seq::empty(),
    }
}

/// Appends one pair to a list of query pairs.
pub fn push_pair(pairs: &mut Vec<(String, String)>, key: &str, value: String)
    ensures
        pair_views(final(pairs)@) == pair_views(old(pairs)@).push((key@, value@)),
{
    let ghost before = pairs@;
    pairs.push((String::from_str(key), value));
    assert(pair_views(pairs@) =~= pair_views(before).push((key@, value@))) by {
        assert(pairs@ =~= before.push(pairs@.last()));
    }
}

/// Appends the pair `key=value` when `value` is there.
pub fn push_opt_pair(pairs: &mut Vec<(String, String)>, key: &str, value: &Option<String>)
    ensures
        pair_views(final(pairs)@) == pair_views(old(pairs)@) + opt_pair(key@, opt_view(*value)),
{
    match value {
        Some(v) => {
            push_pair(pairs, key, v.clone());
            assert(pair_views(pairs@) =~= pair_views(old(pairs)@) + opt_pair(key@, opt_view(*value)));
        },
        None => {
            assert(pair_views(pairs@) =~= pair_views(old(pairs)@) + opt_pair(key@, opt_view(*value)));
        },
    }
}

/// Whether a field manager name is longer than the API accepts (128 bytes).
pub open spec fn field_manager_too_long(field_manager: Option<String>) -> bool {
    match field_manager {
        Some(fm) => encode_utf8(fm@).len() > 128,
        None => false,
    }
}

/// Whether a field manager name is longer than the API accepts.
fn check_field_manager(field_manager: &Option<String>) -> (too_long: bool)
    ensures
        too_long == field_manager_too_long(*field_manager),
{
    match field_manager {
        Some(fm) => fm.as_str().as_bytes().len() > 128,
        None => false,
    }
}

/// Parameters of list and watch requests.
pub struct ListParams {
    /// A selector on labels (`labelSelector`).
    pub label_selector: Option<String>,
    /// A selector on fields (`fieldSelector`).
    pub field_selector: Option<String>,
    /// How long a watch may stay open, in seconds; under 295.
    pub timeout: Option<u32>,
    /// Whether a watch asks for bookmark events.
    pub bookmarks: bool,
    /// How many items a list may return at most.
    pub limit: Option<u32>,
    /// Where a limited list goes on from.
    pub continue_token: Option<String>,
}

impl Default for ListParams {
    /// No selectors, no timeout, no limit, bookmarks asked for.
    fn default() -> (r: Self)
        ensures
            r.label_selector is None,
            r.field_selector is None,
            r.timeout is None,
            r.bookmarks,
            r.limit is None,
            r.continue_token is None,
    {
        ListParams {
            label_selector: None,
            field_selector: None,
            timeout: None,
            bookmarks: true,
            limit: None,
            continue_token: None,
        }
    }
}

/// The message of a watch timeout that the API would cut short.
pub open spec fn timeout_message() -> Seq<char> {
    "ListParams::timeout must be < 295s"@
}

/// Whether the timeout is one the API cuts short (295 seconds or more).
pub open spec fn timeout_too_long(lp: ListParams) -> bool {
    match lp.timeout {
        Some(t) => t >= 295,
        None => false,
    }
}

/// The selector pairs: `fieldSelector`, then `labelSelector`, each when set.
pub open spec fn selector_pairs(lp: ListParams) -> Seq<(Seq<char>, Seq<char>)> {
    opt_pair("fieldSelector"@, opt_view(lp.field_selector)) + opt_pair(
        "labelSelector"@,
        opt_view(lp.label_selector),
    )
}

/// The view of an optional number as its decimal notation.
pub open spec fn opt_decimal(n: Option<u32>) -> Option<Seq<char>> {
    match n {
        Some(k) => Some(decimal(k as nat)),
        None => None,
    }
}

/// The query pairs of a list: the selectors, `limit` and `continue`, each when set.
pub open spec fn list_pairs(lp: ListParams) -> Seq<(Seq<char>, Seq<char>)> {
    selector_pairs(lp) + opt_pair("limit"@, opt_decimal(lp.limit)) + opt_pair(
        "continue"@,
        opt_view(lp.continue_token),
    )
}

/// The timeout a watch asks for: the one set, else 290 seconds.
pub open spec fn watch_timeout(lp: ListParams) -> u32 {
    match lp.timeout {
        Some(t) => t,
        None => 290,
    }
}

/// The query pairs of a watch from `version`: `watch=true`, the version, the
/// timeout, the selectors, and `allowWatchBookmarks=true` when bookmarks are asked for.
pub open spec fn watch_pairs(lp: ListParams, version: Seq<char>) -> Seq<(Seq<char>, Seq<char>)> {
    seq![
        ("watch"@, "true"@),
        ("resourceVersion"@, version),
        ("timeoutSeconds"@, decimal(watch_timeout(lp) as nat)),
    ] + selector_pairs(lp) + if lp.bookmarks {
        seq![("allowWatchBookmarks"@, "true"@)]
    } else {
        Seq::empty()
    }
}

impl ListParams {
    /// Refuses a timeout of 295 seconds or more, which the API would cut short.
    pub(crate) fn validate(&self) -> (r: Result<(), Error>)
        ensures
            timeout_too_long(*self) ==> refused_with(r, timeout_message()),
            !timeout_too_long(*self) ==> r is Ok,
    {
        if let Some(to) = &self.timeout {
            if *to >= 295 {
                return refuse("ListParams::timeout must be < 295s");
            }
        }
        Ok(())
    }

    /// Appends the selector pairs.
    pub(crate) fn push_selectors(&self, pairs: &mut Vec<(String, String)>)
        ensures
            pair_views(final(pairs)@) == pair_views(old(pairs)@) + selector_pairs(*self),
    {
        push_opt_pair(pairs, "fieldSelector", &self.field_selector);
        push_opt_pair(pairs, "labelSelector", &self.label_selector);
        assert(pair_views(pairs@) =~= pair_views(old(pairs)@) + selector_pairs(*self));
    }

    /// The query pairs of a list.
    pub fn list_query(&self) -> (pairs: Vec<(String, String)>)
        ensures
            pair_views(pairs@) == list_pairs(*self),
    {
        let mut pairs: Vec<(String, String)> = Vec::new();
        assert(pair_views(pairs@) =~= Seq::empty());
        self.push_selectors(&mut pairs);
        let limit = match self.limit {
            Some(l) => Some(decimal_string(l)),
            None => None,
        };
        push_opt_pair(&mut pairs, "limit", &limit);
        push_opt_pair(&mut pairs, "continue", &self.continue_token);
        assert(opt_view(limit) == opt_decimal(self.limit));
        assert(pair_views(pairs@) =~= list_pairs(*self));
        pairs
    }

    /// The query pairs of a watch from `version`.
    pub fn watch_query(&self, version: &str) -> (pairs: Vec<(String, String)>)
        ensures
            pair_views(pairs@) == watch_pairs(*self, version@),
    {
        let mut pairs: Vec<(String, String)> = Vec::new();
        assert(pair_views(pairs@) =~= Seq::empty());
        push_pair(&mut pairs, "watch", String::from_str("true"));
        push_pair(&mut pairs, "resourceVersion", String::from_str(version));
        let timeout = match self.timeout {
            Some(t) => t,
            None => 290,
        };
        push_pair(&mut pairs, "timeoutSeconds", decimal_string(timeout));
        self.push_selectors(&mut pairs);
        if self.bookmarks {
            push_pair(&mut pairs, "allowWatchBookmarks", String::from_str("true"));
        }
        assert(pair_views(pairs@) =~= watch_pairs(*self, version@));
        pairs
    }
}

/// The dry-run pair, when asked for.
pub open spec fn dry_run_pairs(dry_run: bool) -> Seq<(Seq<char>, Seq<char>)> {
    if dry_run {
        seq![("dryRun"@, "All"@)]
    } else {
        Seq::empty()
    }
}

/// Appends `dryRun=All` when asked for.
pub fn push_dry_run(pairs: &mut Vec<(String, String)>, dry_run: bool)
    ensures
        pair_views(final(pairs)@) == pair_views(old(pairs)@) + dry_run_pairs(dry_run),
{
    if dry_run {
        push_pair(pairs, "dryRun", String::from_str("All"));
    }
    assert(pair_views(pairs@) =~= pair_views(old(pairs)@) + dry_run_pairs(dry_run));
}

/// Parameters of create and replace requests.
pub struct PostParams {
    /// Whether the server only checks the request and stores nothing.
    pub dry_run: bool,
    /// The name of the actor that makes the change.
    pub field_manager: Option<String>,
}

impl Default for PostParams {
    /// No dry run, no field manager.
    fn default() -> (r: Self)
        ensures
            !r.dry_run,
            r.field_manager is None,
    {
        PostParams { dry_run: false, field_manager: None }
    }
}

/// The message of a post field manager that is too long.
pub open spec fn post_field_manager_message() -> Seq<char> {
    "Failed to validate PostParams::field_manager!"@
}

impl PostParams {
    /// Refuses a field manager name longer than 128 bytes.
    pub(crate) fn validate(&self) -> (r: Result<(), Error>)
        ensures
            field_manager_too_long(self.field_manager) ==> refused_with(
                r,
                post_field_manager_message(),
            ),
            !field_manager_too_long(self.field_manager) ==> r is Ok,
    {
        if check_field_manager(&self.field_manager) {
            return refuse("Failed to validate PostParams::field_manager!");
        }
        Ok(())
    }
}

/// A patch, serialized, in one of the patch formats of the API.
pub enum Patch {
    /// A server-side apply patch.
    Apply(Vec<u8>),
    /// A JSON patch (RFC 6902).
    Json(Vec<u8>),
    /// A JSON merge patch (RFC 7386).
    Merge(Vec<u8>),
    /// A strategic merge patch.
    Strategic(Vec<u8>),
}

/// The content type of a patch format.
pub open spec fn patch_content_type(p: Patch) -> Seq<char> {
    match p {
        Patch::Json(_) => "application/json-patch+json"@,
        Patch::Merge(_) => "application/merge-patch+json"@,
        Patch::Strategic(_) => "application/strategic-merge-patch+json"@,
        Patch::Apply(_) => "application/apply-patch+yaml"@,
    }
}

/// The serialized body of a patch.
pub open spec fn patch_body(p: Patch) -> Seq<u8> {
    match p {
        Patch::Apply(b) => b@,
        Patch::Json(b) => b@,
        Patch::Merge(b) => b@,
        Patch::Strategic(b) => b@,
    }
}

impl Patch {
    /// Whether this is a server-side apply patch.
    pub fn is_apply(&self) -> (r: bool)
        ensures
            r == (*self is Apply),
    {
        match self {
            Patch::Apply(_) => true,
            _ => false,
        }
    }

    /// The content type the request announces for this patch.
    pub fn content_type(&self) -> (r: &'static str)
        ensures
            r@ == patch_content_type(*self),
    {
        match self {
            Patch::Json(_) => "application/json-patch+json",
            Patch::Merge(_) => "application/merge-patch+json",
            Patch::Strategic(_) => "application/strategic-merge-patch+json",
            Patch::Apply(_) => "application/apply-patch+yaml",
        }
    }

    /// The serialized patch, as the request body.
    pub fn serialize(&self) -> (r: Vec<u8>)
        ensures
            r@ == patch_body(*self),
    {
        let b = match self {
            Patch::Apply(b) => b,
            Patch::Json(b) => b,
            Patch::Merge(b) => b,
            Patch::Strategic(b) => b,
        };
        let r = b.clone();
        assert(r@ =~= b@);
        r
    }
}

/// Parameters of patch requests.
pub struct PatchParams {
    /// Whether the server only checks the request and stores nothing.
    pub dry_run: bool,
    /// Whether an apply patch takes over fields that other managers own.
    pub force: bool,
    /// The name of the actor that makes the change.
    pub field_manager: Option<String>,
}

impl Default for PatchParams {
    /// No dry run, no force, no field manager.
    fn default() -> (r: Self)
        ensures
            !r.dry_run,
            !r.force,
            r.field_manager is None,
    {
        PatchParams { dry_run: false, force: false, field_manager: None }
    }
}

/// The message of a patch field manager that is too long.
pub open spec fn patch_field_manager_message() -> Seq<char> {
    "Failed to validate PatchParams::field_manager!"@
}

/// The message of `force` on a patch that is not an apply patch.
pub open spec fn force_message() -> Seq<char> {
    "PatchParams::force only works with Patch::Apply"@
}

/// The query pairs of a patch: `dryRun=All`, `force=true`, `fieldManager`, each when set.
pub open spec fn patch_pairs(pp: PatchParams) -> Seq<(Seq<char>, Seq<char>)> {
    dry_run_pairs(pp.dry_run) + (if pp.force {
        seq![("force"@, "true"@)]
    } else {
        Seq::empty()
    }) + opt_pair("fieldManager"@, opt_view(pp.field_manager))
}

/// The outcome of checking patch parameters against a patch: the field
/// manager first, then `force`, which only an apply patch takes.
pub open spec fn patch_check(pp: PatchParams, patch: Patch) -> Option<Seq<char>> {
    if field_manager_too_long(pp.field_manager) {
        Some(patch_field_manager_message())
    } else if pp.force && !(patch is Apply) {
        Some(force_message())
    } else {
        None
    }
}

impl PatchParams {
    /// Refuses a field manager name longer than 128 bytes, and `force` on a
    /// patch that is not an apply patch.
    pub fn validate(&self, patch: &Patch) -> (r: Result<(), Error>)
        ensures
            match patch_check(*self, *patch) {
                Some(msg) => refused_with(r, msg),
                None => r is Ok,
            },
    {
        if check_field_manager(&self.field_manager) {
            return refuse("Failed to validate PatchParams::field_manager!");
        }
        if self.force && !patch.is_apply() {
            return refuse("PatchParams::force only works with Patch::Apply");
        }
        Ok(())
    }

    /// Appends the query pairs of these parameters.
    pub(crate) fn populate_qp(&self, pairs: &mut Vec<(String, String)>)
        ensures
            pair_views(final(pairs)@) == pair_views(old(pairs)@) + patch_pairs(*self),
    {
        push_dry_run(pairs, self.dry_run);
        if self.force {
            push_pair(pairs, "force", String::from_str("true"));
        }
        push_opt_pair(pairs, "fieldManager", &self.field_manager);
        assert(pair_views(pairs@) =~= pair_views(old(pairs)@) + patch_pairs(*self));
    }
}

} // verus!
