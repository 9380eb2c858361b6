//! The name-pattern whitelist handed to the downstream binding extractor.

use vstd::prelude::*;
use vstd::string::{StringExecFns, StrSliceExecFns};
use crate::table::{MacroFunctionDesc, DescModel};

verus! {

/// `pre` is a prefix of `s`.
pub open spec fn is_prefix_of(pre: Seq<char>, s: Seq<char>) -> bool {
    pre.len() <= s.len() && s.subrange(0, pre.len() as int) == pre
}

/// Decides whether `s` begins with `pre`, character by character.
pub fn has_prefix(s: &str, pre: &str) -> (r: bool)
    ensures
        r == is_prefix_of(pre@, s@),
{
    let sn = s.unicode_len();
    let pn = pre.unicode_len();
    if pn > sn {
        return false;
    }
    let mut i: usize = 0;
    while i < pn
        invariant
            pn == pre@.len(),
            sn == s@.len(),
            pn <= sn,
            i <= pn,
            forall|k: int| 0 <= k < i ==> s@[k] == pre@[k],
        decreases pn - i,
    {
        if s.get_char(i) != pre.get_char(i) {
            proof {
                assert(s@.subrange(0, pn as int)[i as int] == s@[i as int]);
                assert(s@.subrange(0, pn as int) != pre@);
            }
            return false;
        }
        i = i + 1;
    }
    proof {
        assert(s@.subrange(0, pn as int) =~= pre@);
    }
    true
}

/// The whitelist given to the binding extractor: name prefixes for the
/// functions, the types, and the constants that may appear in the produced
/// bindings. Anything in the header that matches no rule is silently omitted,
/// so the function prefix must cover every wrapper name in the table.
pub struct NamePatternFilter {
    pub function_prefix: String,
    pub type_prefix: String,
    pub constant_prefix: String,
}

/// Every entry name of the table matches the given function-name prefix.
pub open spec fn covers_names(pre: Seq<char>, t: Seq<DescModel>) -> bool {
    forall|i: int| 0 <= i < t.len() ==> is_prefix_of(pre, t[i].name)
}

impl NamePatternFilter {
    /// Decides whether every wrapper name in the table matches this filter's
    /// function-name prefix, so that no synthesized wrapper silently drops
    /// out of the produced bindings.
    pub fn covers_table(&self, table: &Vec<MacroFunctionDesc>) -> (r: bool)
        ensures
            r == covers_names(self.function_prefix@, table.deep_view()),
    {
        let ghost t = table.deep_view();
        let n = table.len();
        let mut i: usize = 0;
        while i < n
            invariant
                t == table.deep_view(),
                n == t.len(),
                i <= n,
                forall|k: int| 0 <= k < i ==> is_prefix_of(self.function_prefix@, t[k].name),
            decreases n - i,
        {
            if !has_prefix(table[i].name.as_str(), self.function_prefix.as_str()) {
                proof {
                    assert(!is_prefix_of(self.function_prefix@, t[i as int].name));
                    assert(!covers_names(self.function_prefix@, t));
                }
                return false;
            }
            i = i + 1;
        }
        true
    }

    /// The anchored pattern for function names, as the extractor takes it.
    pub fn function_pattern(&self) -> (r: String)
        ensures
            r@ == anchored_pattern(self.function_prefix@),
    {
        render_anchored(self.function_prefix.as_str())
    }

    /// The anchored pattern for type names, as the extractor takes it.
    pub fn type_pattern(&self) -> (r: String)
        ensures
            r@ == anchored_pattern(self.type_prefix@),
    {
        render_anchored(self.type_prefix.as_str())
    }

    /// The anchored pattern for constant names, as the extractor takes it.
    pub fn constant_pattern(&self) -> (r: String)
        ensures
            r@ == anchored_pattern(self.constant_prefix@),
    {
        render_anchored(self.constant_prefix.as_str())
    }
}

/// A prefix rule as an anchored match-all pattern: `^`, the prefix, `.*`.
pub open spec fn anchored_pattern(prefix: Seq<char>) -> Seq<char> {
    "^"@ + prefix + ".*"@
}

/// Renders a prefix rule as its anchored pattern.
fn render_anchored(prefix: &str) -> (r: String)
    ensures
        r@ == anchored_pattern(prefix@),
{
    let mut s = String::new();
    s.append("^");
    s.append(prefix);
    s.append(".*");
    proof {
        assert(s@ =~= anchored_pattern(prefix@));
    }
    s
}

/// Law (whitelist): the wrapper names the emitters put into the artifacts are
/// exactly the table's entry names, one per entry; so a filter whose
/// function-name prefix covers the table covers every emitted wrapper name,
/// and none of the synthesized wrappers is lost from the produced bindings.
pub proof fn lemma_whitelist_covers_emitted_names(pre: Seq<char>, t: Seq<DescModel>)
    requires
        covers_names(pre, t),
    ensures
        forall|i: int| 0 <= i < t.len() ==> is_prefix_of(pre, t[i].name),
        forall|i: int| 0 <= i < t.len() ==> crate::emit::header_blocks(t)[i]
            == crate::emit::header_block(t[i]),
        forall|i: int| 0 <= i < t.len() ==> crate::emit::impl_blocks(t)[i]
            == crate::emit::impl_block(t[i]),
{
}

} // verus!
