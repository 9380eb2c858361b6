//! The signature table: descriptors of the macros that are wrapped.

use vstd::prelude::*;

verus! {

/// One parameter of a wrapped macro: a C type and a parameter name, both kept
/// verbatim. No type analysis is performed on `ty`; a pointer or qualified
/// type is emitted exactly as written here.
pub struct Param {
    pub ty: String,
    pub name: String,
}

/// Mathematical image of a `Param`: both fields as character sequences.
#[verifier::ext_equal]
pub struct ParamModel {
    pub ty: Seq<char>,
    pub name: Seq<char>,
}

impl DeepView for Param {
    type V = ParamModel;

    open spec fn deep_view(&self) -> ParamModel {
        ParamModel { ty: self.ty@, name: self.name@ }
    }
}

/// Descriptor of one wrapped macro: its return type, its name, and its
/// ordered parameter list. `name` must match the macro identifier being
/// shadowed, and the parameter order must match the macro's call-site
/// argument order. A return type of exactly `"void"` is a sentinel meaning
/// that the wrapper body has no `return` keyword; any other string is emitted
/// verbatim as a real C type.
pub struct MacroFunctionDesc {
    pub return_type: String,
    pub name: String,
    pub params: Vec<Param>,
}

/// Mathematical image of a `MacroFunctionDesc`.
#[verifier::ext_equal]
pub struct DescModel {
    pub return_type: Seq<char>,
    pub name: Seq<char>,
    pub params: Seq<ParamModel>,
}

impl DeepView for MacroFunctionDesc {
    type V = DescModel;

    open spec fn deep_view(&self) -> DescModel {
        DescModel {
            return_type: self.return_type@,
            name: self.name@,
            params: self.params.deep_view(),
        }
    }
}

/// A well-formed table has pairwise distinct macro names; two entries of the
/// same name would emit two conflicting C function definitions.
pub open spec fn names_unique(t: Seq<DescModel>) -> bool {
    forall|i: int, j: int| 0 <= i < j < t.len() ==> t[i].name != t[j].name
}

/// Decides whether every pair of entries carries distinct names, so that a
/// table defect is caught before any C text is emitted.
pub fn check_unique_names(table: &Vec<MacroFunctionDesc>) -> (r: bool)
    ensures
        r == names_unique(table.deep_view()),
{
    let ghost t = table.deep_view();
    let n = table.len();
    let mut i: usize = 0;
    while i < n
        invariant
            t == table.deep_view(),
            n == t.len(),
            i <= n,
            forall|a: int, b: int| 0 <= a < b < t.len() && a < i ==> t[a].name != t[b].name,
        decreases n - i,
    {
        let mut j: usize = i + 1;
        while j < n
            invariant
                t == table.deep_view(),
                n == t.len(),
                i < j <= n,
                forall|a: int, b: int| 0 <= a < b < t.len() && a < i ==> t[a].name != t[b].name,
                forall|b: int| i < b < j ==> t[i as int].name != t[b].name,
            decreases n - j,
        {
            if table[i].name == table[j].name {
                proof {
                    assert(t[i as int].name == t[j as int].name);
                    assert(!names_unique(t));
                }
                return false;
            }
            j = j + 1;
        }
        i = i + 1;
    }
    true
}

} // verus!
