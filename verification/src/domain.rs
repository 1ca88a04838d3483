//! Domain-name normalization.
//!
//! Domain strings reported by the backend carry a representation-specific
//! trailing-dot form (`"local."`); normalization rewrites them to the
//! canonical public form (`"local"`) before they reach a delivered record.

use vstd::prelude::*;

verus! {

/// `s` with every trailing `'.'` removed.
pub open spec fn normalized(s: Seq<char>) -> Seq<char>
    decreases s.len(),
{
    if s.len() > 0 && s.last() == '.' {
        normalized(s.drop_last())
    } else {
        s
    }
}

/// A normalized domain is empty or does not end in a dot.
pub proof fn lemma_normalized_no_trailing_dot(s: Seq<char>)
    ensures
        normalized(s).len() == 0 || normalized(s).last() != '.',
    decreases s.len(),
{
    if s.len() > 0 && s.last() == '.' {
        lemma_normalized_no_trailing_dot(s.drop_last());
    }
}

/// Normalization is idempotent: normalizing an already normalized domain
/// changes nothing.
pub proof fn lemma_normalized_idempotent(s: Seq<char>)
    ensures
        normalized(normalized(s)) == normalized(s),
{
    lemma_normalized_no_trailing_dot(s);
}

/// Rewrites a backend-reported domain to its canonical form, stripping every
/// trailing dot.
pub fn normalize_domain(domain: &str) -> (r: String)
    ensures
        r@ == normalized(domain@),
{
    let len = domain.unicode_len();
    let mut keep = len;
    proof {
        assert(domain@.take(len as int) =~= domain@);
    }
    while keep > 0 && domain.get_char(keep - 1) == '.'
        invariant
            keep <= len,
            len == domain@.len(),
            normalized(domain@) == normalized(domain@.take(keep as int)),
        decreases keep,
    {
        proof {
            assert(domain@.take(keep as int).last() == '.');
            assert(domain@.take(keep as int).drop_last() =~= domain@.take(keep as int - 1));
        }
        keep = keep - 1;
    }
    proof {
        assert(normalized(domain@.take(keep as int)) == domain@.take(keep as int));
    }
    domain.substring_char(0, keep).to_owned()
}

} // verus!
