//! Plural resource names, as used in the paths of the Kubernetes API.
use vstd::prelude::*;
use crate::text::str_eq;

verus! {

/// Whether `w` ends with `c`.
pub open spec fn ends_with_char(w: Seq<char>, c: char) -> bool {
    w.len() >= 1 && w.last() == c
}

/// Whether `w` ends with the two characters `a`, `b`.
pub open spec fn ends_with_two(w: Seq<char>, a: char, b: char) -> bool {
    w.len() >= 2 && w[w.len() - 2] == a && w.last() == b
}

pub open spec fn is_vowel(c: char) -> bool {
    c == 'a' || c == 'e' || c == 'i' || c == 'o' || c == 'u'
}

/// Words ending in s, x, z, ch or sh take `es`.
pub open spec fn takes_es(w: Seq<char>) -> bool {
    ends_with_char(w, 's') || ends_with_char(w, 'x') || ends_with_char(w, 'z')
        || ends_with_two(w, 'c', 'h') || ends_with_two(w, 's', 'h')
}

/// The character just before the last one, if the word has two or more.
pub open spec fn char_before_y(w: Seq<char>) -> Option<char> {
    if w.len() >= 2 {
        Some(w[w.len() - 2])
    } else {
        None
    }
}

/// Words ending in `y` right after a consonant take `ies` in place of the
/// `y`; a `y` with nothing before it takes the plain `s`.
pub open spec fn takes_ies(w: Seq<char>) -> bool {
    ends_with_char(w, 'y') && match char_before_y(w) {
        Some(c) => !is_vowel(c),
        None => false,
    }
}

/// Whether `w` is one of the names with a plural of their own.
pub open spec fn is_special_plural(w: Seq<char>) -> bool {
    w == "endpoints"@ || w == "endpointslices"@ || w == "nodemetrics"@ || w == "podmetrics"@
}

/// The plural of a lower-case resource kind.
pub open spec fn plural_of(w: Seq<char>) -> Seq<char> {
    if w == "endpoints"@ || w == "endpointslices"@ {
        w
    } else if w == "nodemetrics"@ {
        "nodes"@
    } else if w == "podmetrics"@ {
        "pods"@
    } else if takes_es(w) {
        w + "es"@
    } else if takes_ies(w) {
        w.drop_last() + "ies"@
    } else {
        w + "s"@
    }
}

/// The plural of a lower-case resource kind.
pub fn to_plural(word: &str) -> (r: String)
    ensures
        r@ == plural_of(word@),
{
    if str_eq(word, "endpoints") || str_eq(word, "endpointslices") {
        return word.to_owned();
    } else if str_eq(word, "nodemetrics") {
        return String::from_str("nodes");
    } else if str_eq(word, "podmetrics") {
        return String::from_str("pods");
    }
    let n = word.unicode_len();
    let last = if n >= 1 {
        Some(word.get_char(n - 1))
    } else {
        None
    };
    let before = if n >= 2 {
        Some(word.get_char(n - 2))
    } else {
        None
    };
    let es = match last {
        Some(l) => l == 's' || l == 'x' || l == 'z' || (l == 'h' && (before == Some('c')
            || before == Some('s'))),
        None => false,
    };
    if es {
        let mut r = String::from_str(word);
        r.append("es");
        return r;
    }
    if last == Some('y') {
        if let Some(c) = before {
            if !(c == 'a' || c == 'e' || c == 'i' || c == 'o' || c == 'u') {
                let stem = word.substring_char(0, n - 1);
                let mut r = String::from_str(stem);
                r.append("ies");
                assert(stem@ =~= word@.drop_last());
                return r;
            }
        }
    }
    let mut r = String::from_str(word);
    r.append("s");
    r
}

} // verus!
