//! The combined pattern: every route's pattern, anchored and wrapped in a
//! capturing group of its own, joined by alternation.

use vstd::prelude::*;
use vstd::string::StringExecFns;
use crate::route::{patterns, route_views, Route};

verus! {

/// One route's branch of the alternation: `(^` pattern `$)`.
pub open spec fn wrap(pattern: Seq<char>) -> Seq<char> {
    seq!['(', '^'] + pattern + seq!['$', ')']
}

/// The branches of `patterns` joined by `|`, first pattern first.
pub open spec fn combined(patterns: Seq<Seq<char>>) -> Seq<char>
    decreases patterns.len(),
{
    if patterns.len() == 0 {
        Seq::empty()
    } else if patterns.len() == 1 {
        wrap(patterns[0])
    } else {
        combined(patterns.drop_last()) + seq!['|'] + wrap(patterns.last())
    }
}

/// The combined pattern grows by one branch per pattern, and every branch
/// but the first is preceded by the alternation sign.
pub proof fn lemma_combined_push(patterns: Seq<Seq<char>>, next: Seq<char>)
    ensures
        combined(patterns.push(next)) == if patterns.len() == 0 {
            wrap(next)
        } else {
            combined(patterns) + seq!['|'] + wrap(next)
        },
{
    assert(patterns.push(next).drop_last() =~= patterns);
}

/// Construct the combined pattern of `routes`, in their order.
pub fn construct_combined_regex<V>(routes: &[Route<V>]) -> (text: String)
    ensures
        text@ == combined(patterns(route_views(routes@))),
{
    let mut text = String::new();
    let mut i: usize = 0;
    while i < routes.len()
        invariant
            i <= routes.len(),
            text@ == combined(patterns(route_views(routes@)).take(i as int)),
        decreases routes.len() - i,
    {
        let ghost all = patterns(route_views(routes@));
        let ghost before = text@;
        if i > 0 {
            text.append("|");
        }
        text.append("(^");
        text.append(routes[i].regex());
        text.append("$)");
        proof {
            reveal_strlit("|");
            reveal_strlit("(^");
            reveal_strlit("$)");
            assert("|"@ =~= seq!['|']);
            assert("(^"@ =~= seq!['(', '^']);
            assert("$)"@ =~= seq!['$', ')']);
            assert(all.take(i + 1) =~= all.take(i as int).push(all[i as int]));
            lemma_combined_push(all.take(i as int), all[i as int]);
            assert(text@ =~= combined(all.take(i + 1)));
        }
        i += 1;
    }
    proof {
        let all = patterns(route_views(routes@));
        assert(all.take(i as int) =~= all);
    }
    text
}

} // verus!
