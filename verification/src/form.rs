//! Query strings in the `application/x-www-form-urlencoded` syntax, written
//! through `url::form_urlencoded::Serializer`.
use vstd::prelude::*;
use vstd::utf8::encode_utf8;
use url::form_urlencoded::Serializer;

verus! {

/// Whether `url::form_urlencoded::byte_serialize` copies the byte as it is:
/// `*`, `-`, `.`, `_`, ASCII digits and ASCII letters.
pub open spec fn form_unchanged_byte(b: u8) -> bool {
    b == 0x2a || b == 0x2d || b == 0x2e || (0x30 <= b && b <= 0x39) || (0x41 <= b && b <= 0x5a)
        || b == 0x5f || (0x61 <= b && b <= 0x7a)
}

/// Upper-case hexadecimal digit for `d < 16`.
pub open spec fn hex_upper(d: u8) -> char {
    if d < 10 {
        ((d + 0x30) as u32) as char
    } else {
        ((d + 0x37) as u32) as char
    }
}

/// What `byte_serialize` writes for one byte: the byte itself, `+` for a
/// space, else `%` and two upper-case hexadecimal digits.
pub open spec fn form_byte(b: u8) -> Seq<char> {
    if form_unchanged_byte(b) {
        seq![(b as u32) as char]
    } else if b == 0x20 {
        seq!['+']
    } else {
        seq!['%', hex_upper(b / 16), hex_upper(b % 16)]
    }
}

/// `form_byte` over a byte sequence.
pub open spec fn form_bytes(bs: Seq<u8>) -> Seq<char>
    decreases bs.len(),
{
    if bs.len() == 0 {
        seq![]
    } else {
        form_byte(bs[0]) + form_bytes(bs.drop_first())
    }
}

/// The form encoding of a text: its UTF-8 bytes through `form_byte`.
pub open spec fn form_encode(s: Seq<char>) -> Seq<char> {
    form_bytes(encode_utf8(s))
}

/// The text after `append_pair(name, value)` on a serializer holding `text`
/// that was made at byte position `start`: a `&` when the text has grown past
/// `start`, then the encoded name, `=`, and the encoded value.
pub open spec fn pair_appended(text: Seq<char>, start: nat, name: Seq<char>, value: Seq<char>) -> Seq<char> {
    let sep = if encode_utf8(text).len() > start {
        seq!['&']
    } else {
        Seq::<char>::empty()
    };
    text + sep + form_encode(name) + seq!['='] + form_encode(value)
}

/// The text of a serializer made on `base` after the pairs were appended in order.
pub open spec fn query_of(base: Seq<char>, pairs: Seq<(Seq<char>, Seq<char>)>) -> Seq<char>
    decreases pairs.len(),
{
    if pairs.len() == 0 {
        base
    } else {
        pair_appended(query_of(base, pairs.drop_last()), 0, pairs.last().0, pairs.last().1)
    }
}

/// The views of name/value pairs held as strings.
pub open spec fn pair_views(pairs: Seq<(String, String)>) -> Seq<(Seq<char>, Seq<char>)> {
    pairs.map_values(|p: (String, String)| (p.0@, p.1@))
}

/// A `url::form_urlencoded::Serializer` writing into a `String`. It is only
/// made by `form_new`, so it never carries an encoding override.
#[verifier::external_body]
pub struct QuerySerializer {
    inner: Serializer<'static, String>,
}

/// The serializer's target string, or `None` once `finish` has taken it.
pub uninterp spec fn form_target(s: QuerySerializer) -> Option<Seq<char>>;

/// The byte position the serializer was made for (`start_position`).
pub uninterp spec fn form_start(s: QuerySerializer) -> nat;

/// `Serializer::new(target)`: holds the target, made at position 0.
#[verifier::external_body]
fn form_new(target: String) -> (s: QuerySerializer)
    ensures
        form_target(s) == Some(target@),
        form_start(s) == 0,
{
    QuerySerializer { inner: Serializer::new(target) }
}

/// `Serializer::append_pair(name, value)`: appends `&` when the target has
/// grown past the start position, then `byte_serialize` of the UTF-8 bytes of
/// the name, `=`, and those of the value. It panics after `finish`, which
/// `requires` leaves out.
#[verifier::external_body]
fn form_append_pair(s: &mut QuerySerializer, name: &str, value: &str)
    requires
        form_target(*old(s)) is Some,
    ensures
        form_start(*final(s)) == form_start(*old(s)),
        form_target(*final(s)) == Some(
            pair_appended(form_target(*old(s))->0, form_start(*old(s)), name@, value@),
        ),
{
    s.inner.append_pair(name, value);
}

/// `Serializer::finish()`: hands back the target string. A second call
/// panics, which `requires` leaves out.
#[verifier::external_body]
fn form_finish(s: &mut QuerySerializer) -> (r: String)
    requires
        form_target(*old(s)) is Some,
    ensures
        r@ == form_target(*old(s))->0,
        form_target(*final(s)) is None,
        form_start(*final(s)) == form_start(*old(s)),
{
    s.inner.finish()
}

/// Serializes `pairs` in order after `base`, each as `append_pair` does.
pub fn encode_query(base: String, pairs: &Vec<(String, String)>) -> (r: String)
    ensures
        r@ == query_of(base@, pair_views(pairs@)),
{
    let ghost views = pair_views(pairs@);
    let mut qp = form_new(base);
    let n = pairs.len();
    let mut i: usize = 0;
    while i < n
        invariant
            n == pairs@.len(),
            views == pair_views(pairs@),
            i <= n,
            form_start(qp) == 0,
            form_target(qp) == Some(query_of(base@, views.take(i as int))),
        decreases n - i,
    {
        let pair = &pairs[i];
        form_append_pair(&mut qp, pair.0.as_str(), pair.1.as_str());
        assert(views.take(i + 1).drop_last() =~= views.take(i as int));
        assert(views[i as int] == (pairs@[i as int].0@, pairs@[i as int].1@));
        i = i + 1;
    }
    assert(views.take(n as int) =~= views);
    form_finish(&mut qp)
}

} // verus!
