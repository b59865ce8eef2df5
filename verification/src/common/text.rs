//! Texts: their order, their lowercase and trimmed forms, prefixes and
//! wildcard patterns; and where a name stands among names.

use vstd::prelude::*;
use vstd::string::*;

verus! {

/// The order of texts: character by character, each by its code point; a
/// text comes before every text that it begins.
pub open spec fn text_le(a: Seq<char>, b: Seq<char>) -> bool
    decreases a.len(),
{
    if a.len() == 0 {
        true
    } else if b.len() == 0 {
        false
    } else if a[0] != b[0] {
        (a[0] as int) < (b[0] as int)
    } else {
        text_le(a.drop_first(), b.drop_first())
    }
}

/// Every text is in order with itself.
pub proof fn lemma_text_le_reflexive(a: Seq<char>)
    ensures
        text_le(a, a),
    decreases a.len(),
{
    if a.len() > 0 {
        lemma_text_le_reflexive(a.drop_first());
    }
}

/// Of two texts one is in order with the other.
pub proof fn lemma_text_le_total(a: Seq<char>, b: Seq<char>)
    ensures
        text_le(a, b) || text_le(b, a),
    decreases a.len(),
{
    if a.len() > 0 && b.len() > 0 && a[0] == b[0] {
        lemma_text_le_total(a.drop_first(), b.drop_first());
    }
}

/// Two texts that are in order both ways are the same text.
pub proof fn lemma_text_le_antisymmetric(a: Seq<char>, b: Seq<char>)
    requires
        text_le(a, b),
        text_le(b, a),
    ensures
        a == b,
    decreases a.len(),
{
    if a.len() == 0 || b.len() == 0 {
        assert(a =~= b);
    } else {
        lemma_text_le_antisymmetric(a.drop_first(), b.drop_first());
        assert(a =~= seq![a[0]] + a.drop_first());
        assert(b =~= seq![b[0]] + b.drop_first());
    }
}

/// The order of texts carries over a text in between.
pub proof fn lemma_text_le_transitive(a: Seq<char>, b: Seq<char>, c: Seq<char>)
    requires
        text_le(a, b),
        text_le(b, c),
    ensures
        text_le(a, c),
    decreases a.len(),
{
    if a.len() > 0 && b.len() > 0 && c.len() > 0 && a[0] == b[0] && b[0] == c[0] {
        lemma_text_le_transitive(a.drop_first(), b.drop_first(), c.drop_first());
    }
}

/// The position of the first of the names that is the given one, or the
/// number of names where none is.
pub open spec fn first_position(names: Seq<Seq<char>>, name: Seq<char>) -> int
    decreases names.len(),
{
    if names.len() == 0 {
        0
    } else if names[0] == name {
        0
    } else {
        1 + first_position(names.drop_first(), name)
    }
}

/// The first position of a name lies among the names or just behind them;
/// it holds the name, and no position before it does.
pub proof fn lemma_first_position(names: Seq<Seq<char>>, name: Seq<char>)
    ensures
        0 <= first_position(names, name) <= names.len(),
        first_position(names, name) < names.len() ==> names[first_position(names, name)] == name,
        forall|k: int| 0 <= k < first_position(names, name) ==> names[k] != name,
    decreases names.len(),
{
    if names.len() > 0 && names[0] != name {
        lemma_first_position(names.drop_first(), name);
        assert forall|k: int| 0 <= k < first_position(names, name) implies names[k] != name by {
            if k > 0 {
                assert(names[k] == names.drop_first()[k - 1]);
            }
        }
    }
}

/// A position that holds the name, with none before it that does, is the
/// first position of the name.
pub proof fn lemma_first_position_is(names: Seq<Seq<char>>, name: Seq<char>, at: int)
    requires
        0 <= at <= names.len(),
        at < names.len() ==> names[at] == name,
        forall|k: int| 0 <= k < at ==> names[k] != name,
    ensures
        first_position(names, name) == at,
{
    lemma_first_position(names, name);
}

/// Whether a pattern covers a whole text: `?` stands for any one
/// character, `*` for any run of characters, the empty run too, and every
/// other character for itself.
pub open spec fn wildcard_covers(pattern: Seq<char>, text: Seq<char>) -> bool
    decreases pattern.len(), text.len(),
{
    if pattern.len() == 0 {
        text.len() == 0
    } else if pattern[0] == '*' {
        wildcard_covers(pattern.drop_first(), text) || (text.len() > 0 && wildcard_covers(
            pattern,
            text.drop_first(),
        ))
    } else {
        text.len() > 0 && (pattern[0] == '?' || pattern[0] == text[0]) && wildcard_covers(
            pattern.drop_first(),
            text.drop_first(),
        )
    }
}

/// The lowercase form that `str::to_lowercase` gives a text.
pub uninterp spec fn lowercase_form(text: Seq<char>) -> Seq<char>;

/// What `str::trim` leaves of a text: the text without the whitespace at
/// its two ends.
pub uninterp spec fn trimmed_form(text: Seq<char>) -> Seq<char>;

/// Calls `str::to_lowercase`. The result is taken to depend on the text
/// alone; nothing else is claimed of it.
#[verifier::external_body]
pub(crate) fn to_lowercase(text: &str) -> (lower: String)
    ensures
        lower@ == lowercase_form(text@),
{
    text.to_lowercase()
}

/// Calls `str::trim`. The result is taken to depend on the text alone;
/// nothing else is claimed of it.
#[verifier::external_body]
pub(crate) fn trim<'a>(text: &'a str) -> (trimmed: &'a str)
    ensures
        trimmed@ == trimmed_form(text@),
{
    text.trim()
}

/// Calls `str::starts_with` with a string as the pattern: whether the
/// text begins with the given characters.
#[verifier::external_body]
pub(crate) fn starts_with(text: &str, prefix: &str) -> (begins: bool)
    ensures
        begins == prefix@.is_prefix_of(text@),
{
    text.starts_with(prefix)
}

/// Compares two strings with `<=`, which std defines for `str` as the
/// order of their code points, one after the other.
#[verifier::external_body]
pub(crate) fn le(a: &str, b: &str) -> (in_order: bool)
    ensures
        in_order == text_le(a@, b@),
{
    a <= b
}

/// Calls `WildMatch::new` on the pattern and `matches` on the text: that
/// the pattern, with `*` and `?` as its wildcards and no escape, covers
/// the whole text.
#[verifier::external_body]
pub(crate) fn wildcard_matches(pattern: &str, text: &str) -> (covers: bool)
    ensures
        covers == wildcard_covers(pattern@, text@),
{
    wildmatch::WildMatch::new(pattern).matches(text)
}

/// Whether two texts are in the order asked for: ascending, or descending
/// where `desc` is set. Equal texts are in order either way.
pub open spec fn texts_in_order(a: Seq<char>, b: Seq<char>, desc: bool) -> bool {
    if desc {
        text_le(b, a)
    } else {
        text_le(a, b)
    }
}

/// Whether `a` may stand before `b` in the order asked for.
pub fn in_order(a: &str, b: &str, desc: bool) -> (ordered: bool)
    ensures
        ordered == texts_in_order(a@, b@, desc),
{
    if desc {
        le(b, a)
    } else {
        le(a, b)
    }
}

/// Whether two texts are the same.
pub fn same_text(a: &str, b: &str) -> (same: bool)
    ensures
        same == (a@ == b@),
{
    let x = a.as_bytes();
    let y = b.as_bytes();
    proof {
        vstd::utf8::encode_utf8_decode_utf8(a@);
        vstd::utf8::encode_utf8_decode_utf8(b@);
    }
    if x.len() != y.len() {
        return false;
    }
    let mut i: usize = 0;
    while i < x.len()
        invariant
            i <= x.len(),
            x.len() == y.len(),
            x@ == a.spec_bytes(),
            y@ == b.spec_bytes(),
            a@ == b@ ==> x@ == y@,
            forall|k: int| 0 <= k < i ==> x@[k] == y@[k],
        decreases x.len() - i,
    {
        if x[i] != y[i] {
            return false;
        }
        i += 1;
    }
    assert(x@ =~= y@);
    true
}

/// Puts the parts of a text together.
pub fn concat3(a: &str, b: &str, c: &str) -> (text: String)
    ensures
        text@ == a@ + b@ + c@,
{
    let mut text = a.to_string();
    text.append(b);
    text.append(c);
    text
}

} // verus!
