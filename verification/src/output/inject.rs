//! How text is fed to the keyboard-injection backend.
//!
//! With no delay the whole string goes in one call; with a delay each
//! character goes separately, with a pause between them, which suits
//! applications that throttle rapid key events.
use vstd::prelude::*;

verus! {

/// The pieces of `text` that are typed one call each.
pub open spec fn chunks_of(text: Seq<char>, delay_ms: u64) -> Seq<Seq<char>> {
    if delay_ms == 0 {
        seq![text]
    } else {
        Seq::new(text.len(), |i: int| seq![text[i]])
    }
}

pub open spec fn strings_view(v: Seq<String>) -> Seq<Seq<char>> {
    v.map_values(|s: String| s@)
}

/// Split `text` into the pieces that are typed one call each: the whole
/// text when `delay_ms` is zero, else one piece per character.
pub fn type_chunks(text: &str, delay_ms: u64) -> (r: Vec<String>)
    ensures
        strings_view(r@) == chunks_of(text@, delay_ms),
{
    let mut r: Vec<String> = Vec::new();
    if delay_ms == 0 {
        r.push(text.to_string());
        assert(strings_view(r@) =~= chunks_of(text@, delay_ms));
        return r;
    }
    let n = text.unicode_len();
    let mut i: usize = 0;
    while i < n
        invariant
            n == text@.len(),
            i <= n,
            delay_ms != 0,
            strings_view(r@) =~= chunks_of(text@, delay_ms).take(i as int),
        decreases n - i,
    {
        let piece = text.substring_char(i, i + 1).to_string();
        let ghost before = r@;
        r.push(piece);
        proof {
            assert(text@.subrange(i as int, i + 1) =~= seq![text@[i as int]]);
            assert(strings_view(r@) =~= strings_view(before).push(seq![text@[i as int]]));
            assert(chunks_of(text@, delay_ms).take(i + 1) =~= chunks_of(text@, delay_ms).take(
                i as int,
            ).push(seq![text@[i as int]]));
        }
        i = i + 1;
    }
    assert(chunks_of(text@, delay_ms).take(n as int) =~= chunks_of(text@, delay_ms));
    r
}

/// The pieces, put back together, are the text.
pub proof fn lemma_chunks_rebuild_text(text: Seq<char>, delay_ms: u64)
    ensures
        chunks_of(text, delay_ms).flatten() == text,
{
    if delay_ms == 0 {
        seq![text].lemma_flatten_one_element();
    } else {
        lemma_single_chars_flatten(text);
    }
}

proof fn lemma_single_chars_flatten(text: Seq<char>)
    ensures
        Seq::new(text.len(), |i: int| seq![text[i]]).flatten() == text,
    decreases text.len(),
{
    let s = Seq::new(text.len(), |i: int| seq![text[i]]);
    if text.len() > 0 {
        let rest = text.drop_first();
        lemma_single_chars_flatten(rest);
        assert(s.drop_first() =~= Seq::new(rest.len(), |i: int| seq![rest[i]]));
        assert(s.flatten() == s[0] + s.drop_first().flatten());
        assert(s.flatten() =~= text);
    } else {
        assert(s =~= Seq::<Seq<char>>::empty());
    }
}

} // verus!
