//! Text handed to the kernel. The kernel reads each textual argument up to the
//! first NUL character, so a text with a NUL inside it cannot be passed on.

use vstd::prelude::*;

verus! {

/// No character of `text` is NUL.
pub open spec fn is_nul_free(text: Seq<char>) -> bool {
    forall|i: int| 0 <= i < text.len() ==> #[trigger] text[i] != '\0'
}

/// Every text of `texts` is free of NUL characters.
pub open spec fn all_nul_free(texts: Seq<Seq<char>>) -> bool {
    forall|i: int| 0 <= i < texts.len() ==> is_nul_free(#[trigger] texts[i])
}

/// Tells whether `text` can be handed to the kernel as it is.
pub fn nul_free(text: &str) -> (ok: bool)
    ensures
        ok == is_nul_free(text@),
{
    for c in it: text.chars()
        invariant
            it.seq() == text@,
            forall|i: int| 0 <= i < it.index() ==> text@[i] != '\0',
    {
        if c == '\0' {
            return false;
        }
    }
    true
}

/// Tells whether every text of `texts` can be handed to the kernel as it is.
pub fn nul_free_all(texts: &Vec<String>) -> (ok: bool)
    ensures
        ok == all_nul_free(texts.deep_view()),
{
    let mut i: usize = 0;
    while i < texts.len()
        invariant
            i <= texts.len(),
            forall|k: int| 0 <= k < i ==> is_nul_free(#[trigger] texts.deep_view()[k]),
        decreases texts.len() - i,
    {
        assert(texts.deep_view()[i as int] == texts[i as int]@);
        if !nul_free(texts[i].as_str()) {
            return false;
        }
        i = i + 1;
    }
    true
}

/// Two texts without a NUL character make one without it.
pub proof fn lemma_concat_nul_free(head: Seq<char>, tail: Seq<char>)
    requires
        is_nul_free(head),
        is_nul_free(tail),
    ensures
        is_nul_free(head + tail),
{
    assert forall|i: int| 0 <= i < (head + tail).len() implies (head + tail)[i] != '\0' by {
        if i < head.len() {
            assert((head + tail)[i] == head[i]);
        } else {
            assert((head + tail)[i] == tail[i - head.len()]);
        }
    }
}

} // verus!
