//! The exact query text of each request, stated on the parameters alone.
use vstd::prelude::*;
use crate::form::{form_encode, query_of};
use crate::laws::{is_unreserved, law_form_encode_keeps_unreserved, law_query_pair_separated};
use crate::params::{
    ListParams, PatchParams, list_pairs, opt_decimal, opt_pair, opt_view, patch_pairs,
    selector_pairs, watch_pairs,
};
use crate::resource::{RequestView, collection_base};
use crate::text::{decimal, digit_char};

verus! {

/// The text that pairs add after a non-empty base: `&name=value` for each,
/// name and value form-encoded.
pub open spec fn pairs_text(ps: Seq<(Seq<char>, Seq<char>)>) -> Seq<char>
    decreases ps.len(),
{
    if ps.len() == 0 {
        Seq::empty()
    } else {
        pairs_text(ps.drop_last()) + seq!['&'] + form_encode(ps.last().0) + seq!['='] + form_encode(
            ps.last().1,
        )
    }
}

/// `prefix` followed by the form encoding of the value, when the value is there.
pub open spec fn opt_text(prefix: Seq<char>, value: Option<String>) -> Seq<char> {
    match value {
        Some(v) => prefix + form_encode(v@),
        None => Seq::empty(),
    }
}

/// Whether `t` occurs in `s`.
pub open spec fn contains_text(s: Seq<char>, t: Seq<char>) -> bool {
    exists|i: int| 0 <= i && i + t.len() <= s.len() && #[trigger] s.subrange(i, i + t.len()) == t
}

/// Whether `s` ends with `t`.
pub open spec fn ends_with_text(s: Seq<char>, t: Seq<char>) -> bool {
    s.len() >= t.len() && s.skip(s.len() - t.len()) == t
}

/// After a non-empty base, the query is the base and the text of its pairs.
pub proof fn lemma_query_text(base: Seq<char>, ps: Seq<(Seq<char>, Seq<char>)>)
    requires
        base.len() > 0,
    ensures
        query_of(base, ps) == base + pairs_text(ps),
    decreases ps.len(),
{
    if ps.len() > 0 {
        let init = ps.drop_last();
        lemma_query_text(base, init);
        law_query_pair_separated(base, init, ps.last().0, ps.last().1);
        assert(init.push((ps.last().0, ps.last().1)) =~= ps);
        assert(query_of(base, ps) =~= base + pairs_text(ps));
    }
}

/// The text of a concatenation of pairs is the concatenation of their texts.
pub proof fn lemma_pairs_text_concat(ps: Seq<(Seq<char>, Seq<char>)>, qs: Seq<(Seq<char>, Seq<char>)>)
    ensures
        pairs_text(ps + qs) == pairs_text(ps) + pairs_text(qs),
    decreases qs.len(),
{
    if qs.len() == 0 {
        assert(ps + qs =~= ps);
        assert(pairs_text(ps) + pairs_text(qs) =~= pairs_text(ps));
    } else {
        lemma_pairs_text_concat(ps, qs.drop_last());
        assert((ps + qs).drop_last() =~= ps + qs.drop_last());
        assert(pairs_text(ps + qs) =~= pairs_text(ps) + pairs_text(qs));
    }
}

/// The text of an optional pair whose name is made of unreserved characters.
pub proof fn lemma_opt_pair_text(key: Seq<char>, prefix: Seq<char>, value: Option<Seq<char>>)
    requires
        forall|i: int| 0 <= i < key.len() ==> is_unreserved(#[trigger] key[i]),
        prefix == seq!['&'] + key + seq!['='],
    ensures
        pairs_text(opt_pair(key, value)) == match value {
            Some(v) => prefix + form_encode(v),
            None => Seq::empty(),
        },
{
    law_form_encode_keeps_unreserved(key);
    match value {
        Some(v) => {
            let one = seq![(key, v)];
            assert(one.drop_last() =~= Seq::<(Seq<char>, Seq<char>)>::empty());
            assert(pairs_text(one.drop_last()) =~= Seq::<char>::empty());
            assert(one.last() == (key, v));
            assert(pairs_text(one) == pairs_text(one.drop_last()) + seq!['&'] + form_encode(key)
                + seq!['='] + form_encode(v));
            assert(pairs_text(one) =~= prefix + form_encode(v));
        },
        None => {},
    }
}

/// The decimal notation of a number is made of digits.
pub proof fn lemma_decimal_unreserved(n: nat)
    ensures
        forall|i: int| 0 <= i < decimal(n).len() ==> is_unreserved(#[trigger] decimal(n)[i]),
        form_encode(decimal(n)) == decimal(n),
    decreases n,
{
    let d = (n % 10) as nat;
    assert(digit_char(d) as u32 == d + 0x30);
    if n >= 10 {
        lemma_decimal_unreserved(n / 10);
    }
    assert forall|i: int| 0 <= i < decimal(n).len() implies is_unreserved(#[trigger] decimal(n)[i]) by {
        if n >= 10 && i < decimal(n / 10).len() {
            assert(decimal(n)[i] == decimal(n / 10)[i]);
        }
    }
    law_form_encode_keeps_unreserved(decimal(n));
}

/// The collection path with its `?` is never empty.
pub proof fn lemma_collection_base_nonempty(v: RequestView)
    ensures
        collection_base(v).len() > 0,
{
    reveal_strlit("?");
}

/// The selector text: `&fieldSelector=…` then `&labelSelector=…`, each when set.
pub open spec fn selector_text(lp: ListParams) -> Seq<char> {
    opt_text("&fieldSelector="@, lp.field_selector) + opt_text("&labelSelector="@, lp.label_selector)
}

proof fn lemma_selector_text(lp: ListParams)
    ensures
        pairs_text(selector_pairs(lp)) == selector_text(lp),
{
    reveal_strlit("fieldSelector");
    reveal_strlit("&fieldSelector=");
    reveal_strlit("labelSelector");
    reveal_strlit("&labelSelector=");
    assert("&fieldSelector="@ =~= seq!['&'] + "fieldSelector"@ + seq!['=']);
    assert("&labelSelector="@ =~= seq!['&'] + "labelSelector"@ + seq!['=']);
    lemma_opt_pair_text("fieldSelector"@, "&fieldSelector="@, opt_view(lp.field_selector));
    lemma_opt_pair_text("labelSelector"@, "&labelSelector="@, opt_view(lp.label_selector));
    lemma_pairs_text_concat(
        opt_pair("fieldSelector"@, opt_view(lp.field_selector)),
        opt_pair("labelSelector"@, opt_view(lp.label_selector)),
    );
}

/// A selector query after a non-empty base: the base, then
/// `&fieldSelector=` and the encoded field selector when set, then
/// `&labelSelector=` and the encoded label selector when set. This is the
/// query of a collection delete.
pub proof fn law_selector_query(base: Seq<char>, lp: ListParams)
    requires
        base.len() > 0,
    ensures
        query_of(base, selector_pairs(lp)) == base + opt_text("&fieldSelector="@, lp.field_selector)
            + opt_text("&labelSelector="@, lp.label_selector),
{
    lemma_query_text(base, selector_pairs(lp));
    lemma_selector_text(lp);
}

/// The limit text: `&limit=` and the decimal limit, when set.
pub open spec fn limit_text(limit: Option<u32>) -> Seq<char> {
    match limit {
        Some(n) => "&limit="@ + decimal(n as nat),
        None => Seq::empty(),
    }
}

/// A list query after a non-empty base: the base, the selectors, then
/// `&limit=` and the decimal limit when set, then `&continue=` and the
/// encoded token when set; each independently of the others.
pub proof fn law_list_query(base: Seq<char>, lp: ListParams)
    requires
        base.len() > 0,
    ensures
        query_of(base, list_pairs(lp)) == base + opt_text("&fieldSelector="@, lp.field_selector)
            + opt_text("&labelSelector="@, lp.label_selector) + limit_text(lp.limit) + opt_text(
            "&continue="@,
            lp.continue_token,
        ),
{
    reveal_strlit("limit");
    reveal_strlit("&limit=");
    reveal_strlit("continue");
    reveal_strlit("&continue=");
    assert("&limit="@ =~= seq!['&'] + "limit"@ + seq!['=']);
    assert("&continue="@ =~= seq!['&'] + "continue"@ + seq!['=']);
    let sel = selector_pairs(lp);
    let lim = opt_pair("limit"@, opt_decimal(lp.limit));
    let cont = opt_pair("continue"@, opt_view(lp.continue_token));
    lemma_query_text(base, list_pairs(lp));
    lemma_selector_text(lp);
    lemma_opt_pair_text("limit"@, "&limit="@, opt_decimal(lp.limit));
    lemma_opt_pair_text("continue"@, "&continue="@, opt_view(lp.continue_token));
    if let Some(n) = lp.limit {
        lemma_decimal_unreserved(n as nat);
    }
    lemma_pairs_text_concat(sel, lim);
    lemma_pairs_text_concat(sel + lim, cont);
    assert(list_pairs(lp) == sel + lim + cont);
    assert(query_of(base, list_pairs(lp)) =~= base + opt_text("&fieldSelector="@, lp.field_selector)
        + opt_text("&labelSelector="@, lp.label_selector) + limit_text(lp.limit) + opt_text(
        "&continue="@,
        lp.continue_token,
    ));
}

/// A list with a limit sends `&limit=` and the decimal limit, whatever else
/// is set; with only a limit, the query is the collection path, `?`, and that.
pub proof fn law_list_sends_limit(v: RequestView, lp: ListParams, n: u32)
    requires
        lp.limit == Some(n),
    ensures
        contains_text(query_of(collection_base(v), list_pairs(lp)), "&limit="@ + decimal(n as nat)),
        lp.field_selector is None && lp.label_selector is None && lp.continue_token is None
            ==> query_of(collection_base(v), list_pairs(lp)) == collection_base(v) + "&limit="@
            + decimal(n as nat),
{
    let b = collection_base(v);
    lemma_collection_base_nonempty(v);
    law_list_query(b, lp);
    let pre = b + opt_text("&fieldSelector="@, lp.field_selector) + opt_text(
        "&labelSelector="@,
        lp.label_selector,
    );
    let t = "&limit="@ + decimal(n as nat);
    let q = query_of(b, list_pairs(lp));
    assert(q =~= pre + t + opt_text("&continue="@, lp.continue_token));
    assert(q.subrange(pre.len() as int, (pre.len() + t.len()) as int) =~= t);
    if lp.field_selector is None && lp.label_selector is None && lp.continue_token is None {
        assert(q =~= b + t);
    }
}

/// The watch text of a version and a timeout:
/// `&watch=true&resourceVersion=`, the encoded version, `&timeoutSeconds=`
/// and the decimal timeout, 290 when none is set.
pub open spec fn watch_head_text(version: Seq<char>, timeout: Option<u32>) -> Seq<char> {
    "&watch=true&resourceVersion="@ + form_encode(version) + "&timeoutSeconds="@ + match timeout {
        Some(t) => decimal(t as nat),
        None => "290"@,
    }
}

/// The first three pairs of a watch, with the timeout 290 when none is set.
spec fn head_pairs(version: Seq<char>, timeout: Option<u32>) -> Seq<(Seq<char>, Seq<char>)> {
    let t: u32 = match timeout {
        Some(x) => x,
        None => 290,
    };
    seq![("watch"@, "true"@), ("resourceVersion"@, version), ("timeoutSeconds"@, decimal(t as nat))]
}

/// The text of the first three pairs of a watch.
proof fn lemma_watch_head(version: Seq<char>, timeout: Option<u32>)
    ensures
        pairs_text(head_pairs(version, timeout)) == watch_head_text(version, timeout),
{
    reveal_strlit("watch");
    reveal_strlit("true");
    reveal_strlit("&watch=");
    reveal_strlit("resourceVersion");
    reveal_strlit("&resourceVersion=");
    reveal_strlit("timeoutSeconds");
    reveal_strlit("&timeoutSeconds=");
    reveal_strlit("&watch=true&resourceVersion=");
    reveal_strlit("290");
    let t: u32 = match timeout {
        Some(x) => x,
        None => 290,
    };
    let p1 = opt_pair("watch"@, Some("true"@));
    let p2 = opt_pair("resourceVersion"@, Some(version));
    let p3 = opt_pair("timeoutSeconds"@, Some(decimal(t as nat)));
    let head = seq![
        ("watch"@, "true"@),
        ("resourceVersion"@, version),
        ("timeoutSeconds"@, decimal(t as nat)),
    ];
    assert(head =~= p1 + p2 + p3);
    assert("&watch="@ =~= seq!['&'] + "watch"@ + seq!['=']);
    assert("&resourceVersion="@ =~= seq!['&'] + "resourceVersion"@ + seq!['=']);
    assert("&timeoutSeconds="@ =~= seq!['&'] + "timeoutSeconds"@ + seq!['=']);
    lemma_opt_pair_text("watch"@, "&watch="@, Some("true"@));
    lemma_opt_pair_text("resourceVersion"@, "&resourceVersion="@, Some(version));
    lemma_opt_pair_text("timeoutSeconds"@, "&timeoutSeconds="@, Some(decimal(t as nat)));
    law_form_encode_keeps_unreserved("true"@);
    lemma_decimal_unreserved(t as nat);
    assert(decimal(290) == "290"@) by {
        reveal_with_fuel(decimal, 4);
    }
    lemma_pairs_text_concat(p1, p2);
    lemma_pairs_text_concat(p1 + p2, p3);
    assert(head == head_pairs(version, timeout));
    assert(pairs_text(head) =~= watch_head_text(version, timeout));
}

/// The text of the bookmark pair of a watch.
proof fn lemma_bookmark_text(bookmarks: bool)
    ensures
        pairs_text(
            if bookmarks {
                seq![("allowWatchBookmarks"@, "true"@)]
            } else {
                Seq::empty()
            },
        ) == if bookmarks {
            "&allowWatchBookmarks=true"@
        } else {
            Seq::empty()
        },
{
    reveal_strlit("true");
    reveal_strlit("allowWatchBookmarks");
    reveal_strlit("&allowWatchBookmarks=");
    reveal_strlit("&allowWatchBookmarks=true");
    assert("&allowWatchBookmarks="@ =~= seq!['&'] + "allowWatchBookmarks"@ + seq!['=']);
    let v = if bookmarks { Some("true"@) } else { None };
    lemma_opt_pair_text("allowWatchBookmarks"@, "&allowWatchBookmarks="@, v);
    law_form_encode_keeps_unreserved("true"@);
    assert(opt_pair("allowWatchBookmarks"@, v) =~= if bookmarks {
        seq![("allowWatchBookmarks"@, "true"@)]
    } else {
        Seq::empty()
    });
    if bookmarks {
        assert("&allowWatchBookmarks="@ + "true"@ =~= "&allowWatchBookmarks=true"@);
    }
}

/// A watch query after a non-empty base: `&watch=true`, the version, the
/// timeout (290 when none is set), the selectors exactly as a list sends
/// them, and `&allowWatchBookmarks=true` when bookmarks are asked for.
pub proof fn law_watch_query(base: Seq<char>, lp: ListParams, version: Seq<char>)
    requires
        base.len() > 0,
    ensures
        query_of(base, watch_pairs(lp, version)) == base + watch_head_text(version, lp.timeout)
            + opt_text("&fieldSelector="@, lp.field_selector) + opt_text(
            "&labelSelector="@,
            lp.label_selector,
        ) + if lp.bookmarks {
            "&allowWatchBookmarks=true"@
        } else {
            Seq::empty()
        },
{
    let head = head_pairs(version, lp.timeout);
    let bm = if lp.bookmarks {
        seq![("allowWatchBookmarks"@, "true"@)]
    } else {
        Seq::<(Seq<char>, Seq<char>)>::empty()
    };
    assert(watch_pairs(lp, version) =~= head + selector_pairs(lp) + bm);
    lemma_watch_head(version, lp.timeout);
    lemma_bookmark_text(lp.bookmarks);
    lemma_selector_text(lp);
    lemma_pairs_text_concat(head, selector_pairs(lp));
    lemma_pairs_text_concat(head + selector_pairs(lp), bm);
    lemma_query_text(base, watch_pairs(lp, version));
    assert(pairs_text(watch_pairs(lp, version)) == pairs_text(head) + pairs_text(selector_pairs(lp))
        + pairs_text(bm));
    assert(query_of(base, watch_pairs(lp, version)) =~= base + watch_head_text(version, lp.timeout)
        + opt_text("&fieldSelector="@, lp.field_selector) + opt_text(
        "&labelSelector="@,
        lp.label_selector,
    ) + if lp.bookmarks {
        "&allowWatchBookmarks=true"@
    } else {
        Seq::empty()
    });
}

/// A watch and a list with the same parameters send the same selector text;
/// a label selector `s` is sent as `&labelSelector=` and the encoded `s`.
pub proof fn law_watch_sends_selectors(v: RequestView, lp: ListParams, version: Seq<char>)
    ensures
        contains_text(query_of(collection_base(v), watch_pairs(lp, version)), selector_text(lp)),
        contains_text(query_of(collection_base(v), list_pairs(lp)), selector_text(lp)),
        lp.label_selector is Some ==> contains_text(
            query_of(collection_base(v), watch_pairs(lp, version)),
            "&labelSelector="@ + form_encode(lp.label_selector->0@),
        ),
{
    let b = collection_base(v);
    lemma_collection_base_nonempty(v);
    law_watch_query(b, lp, version);
    law_list_query(b, lp);
    let sel = selector_text(lp);
    let wq = query_of(b, watch_pairs(lp, version));
    let lq = query_of(b, list_pairs(lp));
    let wpre = b + watch_head_text(version, lp.timeout);
    let bm = if lp.bookmarks {
        "&allowWatchBookmarks=true"@
    } else {
        Seq::empty()
    };
    assert(wq =~= wpre + sel + bm);
    assert(wq.subrange(wpre.len() as int, (wpre.len() + sel.len()) as int) =~= sel);
    assert(lq =~= b + sel + limit_text(lp.limit) + opt_text("&continue="@, lp.continue_token));
    assert(lq.subrange(b.len() as int, (b.len() + sel.len()) as int) =~= sel);
    if lp.label_selector is Some {
        let lt = "&labelSelector="@ + form_encode(lp.label_selector->0@);
        let pre = wpre + opt_text("&fieldSelector="@, lp.field_selector);
        assert(wq =~= pre + lt + bm);
        assert(wq.subrange(pre.len() as int, (pre.len() + lt.len()) as int) =~= lt);
    }
}

/// A collection delete with only a label selector `s` sends the collection
/// path, `?`, `&labelSelector=` and the encoded `s`, whatever `s` holds.
pub proof fn law_delete_collection_label_only(v: RequestView, lp: ListParams)
    requires
        lp.field_selector is None,
        lp.label_selector is Some,
    ensures
        query_of(collection_base(v), selector_pairs(lp)) == collection_base(v) + "&labelSelector="@
            + form_encode(lp.label_selector->0@),
{
    lemma_collection_base_nonempty(v);
    law_selector_query(collection_base(v), lp);
}

/// A patch query after a non-empty base: `&dryRun=All` when a dry run is
/// asked for, `&force=true` when forced, then `&fieldManager=` and the
/// encoded field manager when one is set; each independently of the others.
pub proof fn law_patch_query(base: Seq<char>, pp: PatchParams)
    requires
        base.len() > 0,
    ensures
        query_of(base, patch_pairs(pp)) == base + (if pp.dry_run {
            "&dryRun=All"@
        } else {
            Seq::empty()
        }) + (if pp.force {
            "&force=true"@
        } else {
            Seq::empty()
        }) + opt_text("&fieldManager="@, pp.field_manager),
{
    reveal_strlit("dryRun");
    reveal_strlit("&dryRun=");
    reveal_strlit("All");
    reveal_strlit("&dryRun=All");
    reveal_strlit("force");
    reveal_strlit("&force=");
    reveal_strlit("true");
    reveal_strlit("&force=true");
    reveal_strlit("fieldManager");
    reveal_strlit("&fieldManager=");
    assert("&dryRun="@ =~= seq!['&'] + "dryRun"@ + seq!['=']);
    assert("&force="@ =~= seq!['&'] + "force"@ + seq!['=']);
    assert("&fieldManager="@ =~= seq!['&'] + "fieldManager"@ + seq!['=']);
    let d = opt_pair("dryRun"@, if pp.dry_run { Some("All"@) } else { None });
    let f = opt_pair("force"@, if pp.force { Some("true"@) } else { None });
    let m = opt_pair("fieldManager"@, opt_view(pp.field_manager));
    assert(patch_pairs(pp) =~= d + f + m);
    lemma_opt_pair_text("dryRun"@, "&dryRun="@, if pp.dry_run { Some("All"@) } else { None });
    lemma_opt_pair_text("force"@, "&force="@, if pp.force { Some("true"@) } else { None });
    lemma_opt_pair_text("fieldManager"@, "&fieldManager="@, opt_view(pp.field_manager));
    law_form_encode_keeps_unreserved("All"@);
    law_form_encode_keeps_unreserved("true"@);
    lemma_pairs_text_concat(d, f);
    lemma_pairs_text_concat(d + f, m);
    lemma_query_text(base, patch_pairs(pp));
    assert(query_of(base, patch_pairs(pp)) =~= base + (if pp.dry_run {
        "&dryRun=All"@
    } else {
        Seq::empty()
    }) + (if pp.force {
        "&force=true"@
    } else {
        Seq::empty()
    }) + opt_text("&fieldManager="@, pp.field_manager));
}

/// A patch with a field manager `fm` ends its query with `&fieldManager=`
/// and the encoded `fm`, whether or not it is forced or a dry run.
pub proof fn law_patch_sends_field_manager(base: Seq<char>, pp: PatchParams)
    requires
        base.len() > 0,
        pp.field_manager is Some,
    ensures
        ends_with_text(
            query_of(base, patch_pairs(pp)),
            "&fieldManager="@ + form_encode(pp.field_manager->0@),
        ),
{
    law_patch_query(base, pp);
    let t = "&fieldManager="@ + form_encode(pp.field_manager->0@);
    let q = query_of(base, patch_pairs(pp));
    assert(q.skip(q.len() - t.len()) =~= t);
}

} // verus!
