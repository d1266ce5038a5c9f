use vstd::prelude::*;

verus! {

/// Unicode `White_Space`: the characters that `char::is_whitespace` accepts.
pub open spec fn is_ws(c: char) -> bool {
    ('\u{9}' <= c && c <= '\u{d}') || c == ' ' || c == '\u{85}' || c == '\u{a0}'
        || c == '\u{1680}' || ('\u{2000}' <= c && c <= '\u{200a}') || c == '\u{2028}'
        || c == '\u{2029}' || c == '\u{202f}' || c == '\u{205f}' || c == '\u{3000}'
}

/// `s` with its leading whitespace removed.
pub open spec fn trim_start_of(s: Seq<char>) -> Seq<char>
    decreases s.len(),
{
    if s.len() > 0 && is_ws(s[0]) {
        trim_start_of(s.drop_first())
    } else {
        s
    }
}

/// `s` with its trailing whitespace removed.
pub open spec fn trim_end_of(s: Seq<char>) -> Seq<char>
    decreases s.len(),
{
    if s.len() > 0 && is_ws(s.last()) {
        trim_end_of(s.drop_last())
    } else {
        s
    }
}

/// `s` with leading and trailing whitespace removed.
pub open spec fn trimmed(s: Seq<char>) -> Seq<char> {
    trim_end_of(trim_start_of(s))
}

/// True when every character of `s` is whitespace.
pub open spec fn all_ws(s: Seq<char>) -> bool {
    forall|i: int| 0 <= i < s.len() ==> is_ws(#[trigger] s[i])
}

/// Leading whitespace vanishes under `trim_start_of`.
pub proof fn lemma_trim_start_skips_ws(w: Seq<char>, s: Seq<char>)
    requires
        all_ws(w),
    ensures
        trim_start_of(w + s) == trim_start_of(s),
    decreases w.len(),
{
    if w.len() > 0 {
        assert((w + s).drop_first() =~= w.drop_first() + s);
        lemma_trim_start_skips_ws(w.drop_first(), s);
    } else {
        assert(w + s =~= s);
    }
}

/// Trailing whitespace vanishes under `trim_end_of`.
pub proof fn lemma_trim_end_skips_ws(s: Seq<char>, w: Seq<char>)
    requires
        all_ws(w),
    ensures
        trim_end_of(s + w) == trim_end_of(s),
    decreases w.len(),
{
    if w.len() > 0 {
        assert((s + w).drop_last() =~= s + w.drop_last());
        lemma_trim_end_skips_ws(s, w.drop_last());
    } else {
        assert(s + w =~= s);
    }
}

/// An all-whitespace text trims to nothing from the front.
pub proof fn lemma_trim_start_all_ws(s: Seq<char>)
    requires
        all_ws(s),
    ensures
        trim_start_of(s) == Seq::<char>::empty(),
    decreases s.len(),
{
    if s.len() > 0 {
        lemma_trim_start_all_ws(s.drop_first());
    } else {
        assert(s =~= Seq::<char>::empty());
    }
}

/// Trimming the front stops inside `s` when `s` holds a non-whitespace
/// character, so what follows `s` is kept.
pub proof fn lemma_trim_start_stops(s: Seq<char>, w: Seq<char>)
    requires
        !all_ws(s),
    ensures
        trim_start_of(s + w) == trim_start_of(s) + w,
    decreases s.len(),
{
    assert(s.len() > 0);
    assert((s + w)[0] == s[0]);
    if is_ws(s[0]) {
        assert((s + w).drop_first() =~= s.drop_first() + w);
        assert(!all_ws(s.drop_first())) by {
            let i = choose|i: int| 0 <= i < s.len() && !is_ws(#[trigger] s[i]);
            assert(s.drop_first()[i - 1] == s[i]);
        }
        lemma_trim_start_stops(s.drop_first(), w);
    }
}

/// Whitespace around a text does not change what it trims to.
pub proof fn lemma_trimmed_ignores_padding(w1: Seq<char>, s: Seq<char>, w2: Seq<char>)
    requires
        all_ws(w1),
        all_ws(w2),
    ensures
        trimmed(w1 + s + w2) == trimmed(s),
{
    assert(w1 + s + w2 =~= w1 + (s + w2));
    lemma_trim_start_skips_ws(w1, s + w2);
    if all_ws(s) {
        assert(all_ws(s + w2)) by {
            assert forall|i: int| 0 <= i < (s + w2).len() implies is_ws(#[trigger] (s + w2)[i]) by {
                if i >= s.len() {
                    assert((s + w2)[i] == w2[i - s.len()]);
                }
            }
        }
        lemma_trim_start_all_ws(s + w2);
        lemma_trim_start_all_ws(s);
    } else {
        lemma_trim_start_stops(s, w2);
        lemma_trim_end_skips_ws(trim_start_of(s), w2);
    }
}

/// Relies on `str::trim`: it removes exactly the leading and trailing
/// characters for which `char::is_whitespace` holds.
#[verifier::external_body]
pub(crate) fn trim_text(s: &str) -> (r: String)
    ensures
        r@ == trimmed(s@),
{
    s.trim().to_string()
}

} // verus!
