//! What holds of the request paths and queries for every input.
use vstd::prelude::*;
use vstd::utf8::{encode_utf8, encode_scalar, leading_byte_width_1};
use crate::form::{form_byte, form_bytes, form_encode, form_unchanged_byte, query_of};
use crate::params::{ListParams, dry_run_pairs, timeout_too_long, watch_timeout};
use crate::plural::{plural_of, is_special_plural};
use crate::resource::{RequestView, url_base, version_prefix, namespace_segment, object_base, collection_base};
use crate::text::{ascii_lower_seq, decimal, digit_char};

verus! {

/// Whether `c` is a character that form encoding leaves as it is.
pub open spec fn is_unreserved(c: char) -> bool {
    ('a' <= c && c <= 'z') || ('A' <= c && c <= 'Z') || ('0' <= c && c <= '9') || c == '*'
        || c == '-' || c == '.' || c == '_'
}

/// Form encoding of a byte sequence distributes over concatenation.
proof fn lemma_form_bytes_concat(a: Seq<u8>, b: Seq<u8>)
    ensures
        form_bytes(a + b) == form_bytes(a) + form_bytes(b),
    decreases a.len(),
{
    if a.len() == 0 {
        assert(a + b =~= b);
    } else {
        lemma_form_bytes_concat(a.drop_first(), b);
        assert((a + b).drop_first() =~= a.drop_first() + b);
    }
}

/// An unreserved character is one byte in UTF-8, and form encoding keeps it.
proof fn lemma_unreserved_char(c: char)
    requires
        is_unreserved(c),
    ensures
        encode_scalar(c as u32) == seq![(c as u32) as u8],
        form_byte((c as u32) as u8) == seq![c],
{
    let v = c as u32;
    assert(v <= 0x7f);
    assert(v & 0x7f == v) by (bit_vector)
        requires
            v <= 0x7f,
    ;
    assert(leading_byte_width_1(v) == v as u8);
    assert(form_unchanged_byte(v as u8));
    assert(((v as u8) as u32) as char == c);
}

/// Form encoding keeps a text made of ASCII letters, digits and `*-._`.
pub proof fn law_form_encode_keeps_unreserved(s: Seq<char>)
    requires
        forall|i: int| 0 <= i < s.len() ==> is_unreserved(#[trigger] s[i]),
    ensures
        form_encode(s) == s,
    decreases s.len(),
{
    if s.len() > 0 {
        let rest = s.drop_first();
        law_form_encode_keeps_unreserved(rest);
        lemma_unreserved_char(s[0]);
        lemma_form_bytes_concat(encode_scalar(s[0] as u32), encode_utf8(rest));
        assert(form_bytes(seq![(s[0] as u32) as u8]) =~= form_byte((s[0] as u32) as u8)) by {
            let one = seq![(s[0] as u32) as u8];
            assert(one.drop_first() =~= Seq::<u8>::empty());
            assert(form_bytes(one.drop_first()) =~= Seq::<char>::empty());
            assert(form_bytes(one) == form_byte(one[0]) + form_bytes(one.drop_first()));
        }
        assert(s =~= seq![s[0]] + rest);
    }
}

/// Each character takes at least one byte in UTF-8.
proof fn lemma_utf8_len_at_least_chars(w: Seq<char>)
    ensures
        encode_utf8(w).len() >= w.len(),
    decreases w.len(),
{
    if w.len() > 0 {
        lemma_utf8_len_at_least_chars(w.drop_first());
    }
}

/// A non-empty text takes at least one byte.
proof fn lemma_nonempty_utf8(s: Seq<char>)
    requires
        s.len() > 0,
    ensures
        encode_utf8(s).len() > 0,
{
    lemma_utf8_len_at_least_chars(s);
}

/// Appending pairs only extends the text: the base is a prefix of the query.
pub proof fn law_query_extends_base(base: Seq<char>, pairs: Seq<(Seq<char>, Seq<char>)>)
    ensures
        query_of(base, pairs).len() >= base.len(),
        query_of(base, pairs).take(base.len() as int) == base,
    decreases pairs.len(),
{
    if pairs.len() > 0 {
        law_query_extends_base(base, pairs.drop_last());
        let prev = query_of(base, pairs.drop_last());
        let next = query_of(base, pairs);
        assert(next.take(prev.len() as int) =~= prev);
        assert(next.take(base.len() as int) =~= prev.take(base.len() as int));
    }
}

/// After a non-empty base every pair is written as `&name=value`.
pub proof fn law_query_pair_separated(
    base: Seq<char>,
    pairs: Seq<(Seq<char>, Seq<char>)>,
    name: Seq<char>,
    value: Seq<char>,
)
    requires
        base.len() > 0,
    ensures
        query_of(base, pairs.push((name, value))) == query_of(base, pairs) + seq!['&']
            + form_encode(name) + seq!['='] + form_encode(value),
{
    law_query_extends_base(base, pairs);
    lemma_nonempty_utf8(query_of(base, pairs));
    assert(pairs.push((name, value)).drop_last() =~= pairs);
}

/// Every request path built from an object or the collection begins with
/// the collection path of its resource type.
pub proof fn law_paths_start_with_collection(
    v: RequestView,
    name: Seq<char>,
    tail: Seq<char>,
    pairs: Seq<(Seq<char>, Seq<char>)>,
)
    ensures
        query_of(object_base(v, name, tail), pairs).take(url_base(v).len() as int) == url_base(v),
        query_of(collection_base(v), pairs).take(url_base(v).len() as int) == url_base(v),
{
    let b = url_base(v);
    let o = object_base(v, name, tail);
    let c = collection_base(v);
    law_query_extends_base(o, pairs);
    law_query_extends_base(c, pairs);
    assert(o.take(b.len() as int) =~= b);
    assert(c.take(b.len() as int) =~= b);
    assert(query_of(o, pairs).take(b.len() as int) =~= o.take(b.len() as int));
    assert(query_of(c, pairs).take(b.len() as int) =~= c.take(b.len() as int));
}

/// A watch that passes validation asks for a timeout under 295 seconds.
pub proof fn law_watch_timeout_bounded(lp: ListParams)
    requires
        !timeout_too_long(lp),
    ensures
        watch_timeout(lp) < 295,
{
}

/// A dry run appends `&dryRun=All` to a non-empty base.
pub proof fn law_dry_run_query(base: Seq<char>)
    requires
        base.len() > 0,
    ensures
        query_of(base, dry_run_pairs(true)) == base + "&dryRun=All"@,
        query_of(base, dry_run_pairs(false)) == base,
{
    reveal_strlit("dryRun");
    reveal_strlit("All");
    reveal_strlit("&dryRun=All");
    law_form_encode_keeps_unreserved("dryRun"@);
    law_form_encode_keeps_unreserved("All"@);
    law_query_pair_separated(base, Seq::empty(), "dryRun"@, "All"@);
    assert(Seq::<(Seq<char>, Seq<char>)>::empty().push(("dryRun"@, "All"@)) =~= dry_run_pairs(true));
    assert(base + seq!['&'] + "dryRun"@ + seq!['='] + "All"@ =~= base + "&dryRun=All"@);
}

/// A namespaced request's path is the cluster-wide path with
/// `namespaces/{ns}/` put before the plural.
pub proof fn law_namespaced_path(v: RequestView, ns: Seq<char>)
    ensures
        ({
            let cluster = url_base(RequestView { namespace: None, ..v });
            let namespaced = url_base(RequestView { namespace: Some(ns), ..v });
            let k = version_prefix(v).len() as int;
            namespaced == cluster.take(k) + "namespaces/"@ + ns + "/"@ + cluster.skip(k)
        }),
{
    let vc = RequestView { namespace: None, ..v };
    let vn = RequestView { namespace: Some(ns), ..v };
    let k = version_prefix(v).len() as int;
    let p = plural_of(ascii_lower_seq(v.kind));
    assert(version_prefix(vc) == version_prefix(v));
    assert(version_prefix(vn) == version_prefix(v));
    assert(url_base(vc) =~= version_prefix(v) + p);
    assert(url_base(vc).take(k) =~= version_prefix(v));
    assert(url_base(vc).skip(k) =~= p);
    assert(namespace_segment(Some(ns)) == "namespaces/"@ + ns + "/"@);
    assert(url_base(vn) =~= version_prefix(v) + "namespaces/"@ + ns + "/"@ + p);
}

/// Every plural ends in `s`.
pub proof fn law_plural_ends_in_s(w: Seq<char>)
    ensures
        plural_of(w).len() > 0,
        plural_of(w).last() == 's',
{
    reveal_strlit("endpoints");
    reveal_strlit("endpointslices");
    reveal_strlit("nodes");
    reveal_strlit("pods");
    reveal_strlit("es");
    reveal_strlit("ies");
    reveal_strlit("s");
}

/// Apart from the names with a plural of their own, the plural begins with
/// the word less its last character.
pub proof fn law_plural_keeps_stem(w: Seq<char>)
    requires
        !is_special_plural(w),
        w.len() > 0,
    ensures
        plural_of(w).len() >= w.len(),
        plural_of(w).take(w.len() - 1) == w.drop_last(),
{
    reveal_strlit("es");
    reveal_strlit("ies");
    reveal_strlit("s");
    assert(plural_of(w).take(w.len() - 1) =~= w.drop_last());
}


/// The rules of the plural, each stated on the word's letters:
/// `endpoints` and `endpointslices` stay as they are, `nodemetrics` and
/// `podmetrics` become `nodes` and `pods`; any other word ending in `s`, `x`,
/// `z`, `ch` or `sh` takes `es`; any other word ending in `y` right after a
/// letter other than `a`, `e`, `i`, `o`, `u` drops the `y` and takes `ies`;
/// every other word takes `s`.
pub proof fn law_plural_rules(w: Seq<char>)
    ensures
        w == "endpoints"@ ==> plural_of(w) == w,
        w == "endpointslices"@ ==> plural_of(w) == w,
        w == "nodemetrics"@ ==> plural_of(w) == "nodes"@,
        w == "podmetrics"@ ==> plural_of(w) == "pods"@,
        !is_special_plural(w) && w.len() >= 1 && (w.last() == 's' || w.last() == 'x' || w.last()
            == 'z') ==> plural_of(w) == w + "es"@,
        !is_special_plural(w) && w.len() >= 2 && w.last() == 'h' && (w[w.len() - 2] == 'c'
            || w[w.len() - 2] == 's') ==> plural_of(w) == w + "es"@,
        w.len() >= 2 && w.last() == 'y' && !(w[w.len() - 2] == 'a' || w[w.len() - 2] == 'e'
            || w[w.len() - 2] == 'i' || w[w.len() - 2] == 'o' || w[w.len() - 2] == 'u')
            ==> plural_of(w) == w.drop_last() + "ies"@,
        w.len() >= 2 && w.last() == 'y' && (w[w.len() - 2] == 'a' || w[w.len() - 2] == 'e'
            || w[w.len() - 2] == 'i' || w[w.len() - 2] == 'o' || w[w.len() - 2] == 'u')
            ==> plural_of(w) == w + "s"@,
        w == seq!['y'] ==> plural_of(w) == "ys"@,
        !is_special_plural(w) && !(w.len() >= 1 && (w.last() == 's' || w.last() == 'x'
            || w.last() == 'z' || w.last() == 'y')) && !(w.len() >= 2 && w.last() == 'h' && (
        w[w.len() - 2] == 'c' || w[w.len() - 2] == 's')) ==> plural_of(w) == w + "s"@,
{
    reveal_strlit("endpoints");
    reveal_strlit("endpointslices");
    reveal_strlit("nodemetrics");
    reveal_strlit("podmetrics");
    reveal_strlit("ys");
    reveal_strlit("s");
    if w == seq!['y'] {
        assert(w + "s"@ =~= "ys"@);
    }
    assert("endpoints"@[0] == 'e');
    assert("endpointslices"@[0] == 'e');
    assert("nodemetrics"@[0] == 'n');
    assert("podmetrics"@[0] == 'p');
}


/// The number that a text of decimal digits stands for.
pub open spec fn digits_value(s: Seq<char>) -> int
    decreases s.len(),
{
    if s.len() == 0 {
        0
    } else {
        digits_value(s.drop_last()) * 10 + (s.last() as int - '0' as int)
    }
}

/// The decimal notation of `n` is made of digits only, reads back as `n`,
/// and starts with `0` only for zero itself.
pub proof fn law_decimal_reads_back(n: nat)
    ensures
        decimal(n).len() > 0,
        forall|i: int| 0 <= i < decimal(n).len() ==> '0' <= #[trigger] decimal(n)[i] && decimal(n)[i] <= '9',
        digits_value(decimal(n)) == n,
        decimal(n)[0] == '0' ==> n == 0,
    decreases n,
{
    let d = (n % 10) as nat;
    assert(digit_char(d) as u32 == d + 0x30);
    if n >= 10 {
        law_decimal_reads_back(n / 10);
        let s = decimal(n);
        assert(s.drop_last() =~= decimal(n / 10));
        assert(s[0] == decimal(n / 10)[0]);
        assert(s.last() == digit_char(d));
        assert((s.last() as int) - ('0' as int) == d);
        assert((n / 10) * 10 + n % 10 == n) by (nonlinear_arith);
        assert(digits_value(s) == digits_value(decimal(n / 10)) * 10 + d);
        assert forall|i: int| 0 <= i < s.len() implies '0' <= #[trigger] s[i] && s[i] <= '9' by {
            if i < s.len() - 1 {
                assert(s[i] == decimal(n / 10)[i]);
            }
        }
    } else {
        assert(decimal(n) == seq![digit_char(n)]);
        assert(seq![digit_char(n)].drop_last() =~= Seq::<char>::empty());
        assert(digits_value(Seq::<char>::empty()) == 0);
        assert(digit_char(n) as int - '0' as int == n);
    }
}

/// Lower-casing maps each ASCII capital to its small letter, keeps every
/// other character, and leaves no ASCII capital behind.
pub proof fn law_ascii_lower(s: Seq<char>)
    ensures
        ascii_lower_seq(s).len() == s.len(),
        forall|i: int| 0 <= i < s.len() && 'A' <= s[i] && s[i] <= 'Z' ==> (#[trigger] ascii_lower_seq(
            s,
        )[i]) as u32 == (s[i] as u32) + 32,
        forall|i: int| 0 <= i < s.len() && !('A' <= s[i] && s[i] <= 'Z') ==> #[trigger] ascii_lower_seq(
            s,
        )[i] == s[i],
        forall|i: int| 0 <= i < s.len() ==> !('A' <= #[trigger] ascii_lower_seq(s)[i] && ascii_lower_seq(s)[i] <= 'Z'),
{
}

/// The core group's paths begin with `/api/`, every other group's with `/apis/`.
pub proof fn law_api_root(v: RequestView)
    ensures
        v.group.len() == 0 ==> url_base(v).take(5) == "/api/"@,
        v.group.len() != 0 ==> url_base(v).take(6) == "/apis/"@,
{
    reveal_strlit("/");
    reveal_strlit("api");
    reveal_strlit("apis");
    reveal_strlit("/api/");
    reveal_strlit("/apis/");
    assert(url_base(v).take(5) =~= version_prefix(v).take(5));
    assert(url_base(v).take(6) =~= version_prefix(v).take(6));
    if v.group.len() == 0 {
        assert(version_prefix(v).take(5) =~= "/api/"@);
    } else {
        assert(version_prefix(v).take(6) =~= "/apis/"@);
    }
}

} // verus!
