//! Mount options: an ordered collection of strings, flattened into the single
//! comma-separated string that the kernel's mount interface takes.

use vstd::prelude::*;
use crate::text::{all_nul_free, is_nul_free};

verus! {

/// The separator between two mount options.
pub open spec fn separator() -> Seq<char> {
    seq![',']
}

/// The options joined in order, one separator between each two neighbours,
/// none before the first or after the last. No options give the empty string.
pub open spec fn joined(options: Seq<Seq<char>>) -> Seq<char>
    decreases options.len(),
{
    if options.len() == 0 {
        Seq::empty()
    } else if options.len() == 1 {
        options[0]
    } else {
        joined(options.drop_last()) + separator() + options.last()
    }
}

/// Joins mount options into the flat option string.
pub fn join_options(options: &Vec<String>) -> (data: String)
    ensures
        data@ == joined(options.deep_view()),
{
    let mut data = String::new();
    let mut i: usize = 0;
    while i < options.len()
        invariant
            i <= options.len(),
            data@ == joined(options.deep_view().take(i as int)),
        decreases options.len() - i,
    {
        let ghost before = options.deep_view().take(i as int);
        let ghost after = options.deep_view().take(i + 1);
        proof {
            assert(after.drop_last() =~= before);
            assert(after.last() == options[i as int]@);
        }
        if i > 0 {
            data.append(",");
            proof {
                reveal_strlit(",");
                assert(","@ =~= separator());
            }
        }
        data.append(options[i].as_str());
        i = i + 1;
    }
    proof {
        assert(options.deep_view().take(options.len() as int) =~= options.deep_view());
    }
    data
}

/// Joining adds separators and nothing else: options without a NUL character
/// give an option string without one.
pub proof fn lemma_joined_nul_free(options: Seq<Seq<char>>)
    requires
        all_nul_free(options),
    ensures
        is_nul_free(joined(options)),
    decreases options.len(),
{
    if options.len() == 1 {
        assert(is_nul_free(options[0]));
    } else if options.len() > 1 {
        let front = options.drop_last();
        assert forall|i: int| 0 <= i < front.len() implies is_nul_free(#[trigger] front[i]) by {
            assert(front[i] == options[i]);
        }
        lemma_joined_nul_free(front);
        assert(is_nul_free(options[options.len() - 1]));
    }
}

} // verus!
