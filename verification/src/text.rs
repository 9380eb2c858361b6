//! Text assembly helpers shared by the two emitters.

use vstd::prelude::*;
use vstd::string::StringExecFns;

verus! {

/// The pieces of `items`, in order, separated by `sep`: the empty sequence
/// for an empty list, and no leading or trailing separator otherwise.
pub open spec fn join_model(items: Seq<Seq<char>>, sep: Seq<char>) -> Seq<char>
    decreases items.len(),
{
    if items.len() == 0 {
        Seq::empty()
    } else if items.len() == 1 {
        items[0]
    } else {
        join_model(items.drop_last(), sep) + sep + items.last()
    }
}

/// Concatenation of a list of texts, in order, with nothing in between.
pub open spec fn concat_model(items: Seq<Seq<char>>) -> Seq<char>
    decreases items.len(),
{
    if items.len() == 0 {
        Seq::empty()
    } else {
        concat_model(items.drop_last()) + items.last()
    }
}

/// Joins `items` with `sep` between consecutive elements.
pub fn join(items: &Vec<String>, sep: &str) -> (r: String)
    ensures
        r@ == join_model(items.deep_view(), sep@),
{
    let ghost t = items.deep_view();
    let mut r = String::new();
    let n = items.len();
    let mut i: usize = 0;
    while i < n
        invariant
            t == items.deep_view(),
            n == t.len(),
            i <= n,
            r@ == join_model(t.take(i as int), sep@),
        decreases n - i,
    {
        if i > 0 {
            r.append(sep);
        }
        r.append(items[i].as_str());
        proof {
            let pre = t.take(i as int + 1);
            assert(pre.drop_last() =~= t.take(i as int));
            assert(pre.last() == t[i as int]);
            assert(r@ =~= join_model(pre, sep@));
        }
        i = i + 1;
    }
    proof {
        assert(t.take(n as int) =~= t);
    }
    r
}

} // verus!
