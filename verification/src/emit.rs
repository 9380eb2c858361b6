//! The two emitters: C header text and C implementation text, one guarded
//! block per table entry.

use vstd::prelude::*;
use vstd::string::StringExecFns;
use crate::table::{Param, ParamModel, MacroFunctionDesc, DescModel};
use crate::text::{join, join_model, concat_model};

verus! {

// ---------------------------------------------------------------------------
// Shared text models
// ---------------------------------------------------------------------------

/// One parameter as it appears in a signature: `type name`.
pub open spec fn param_decl(p: ParamModel) -> Seq<char> {
    p.ty + " "@ + p.name
}

/// The declarations of all parameters, in order.
pub open spec fn param_decls_model(ps: Seq<ParamModel>) -> Seq<Seq<char>> {
    Seq::new(ps.len(), |i: int| param_decl(ps[i]))
}

/// The comma-joined parameter list of a signature.
pub open spec fn param_list(ps: Seq<ParamModel>) -> Seq<char> {
    join_model(param_decls_model(ps), ", "@)
}

/// The names of all parameters, in order.
pub open spec fn param_names_model(ps: Seq<ParamModel>) -> Seq<Seq<char>> {
    Seq::new(ps.len(), |i: int| ps[i].name)
}

/// The comma-joined argument list of the forwarding call.
pub open spec fn arg_list(ps: Seq<ParamModel>) -> Seq<char> {
    join_model(param_names_model(ps), ", "@)
}

/// The directive that saves the macro's current definition.
pub open spec fn push_macro_line(name: Seq<char>) -> Seq<char> {
    "#pragma push_macro(\""@ + name + "\")\n"@
}

/// The directive that removes the macro definition for the guarded scope.
pub open spec fn undef_line(name: Seq<char>) -> Seq<char> {
    "#undef "@ + name + "\n"@
}

/// The directive that restores the saved macro definition.
pub open spec fn pop_macro_line(name: Seq<char>) -> Seq<char> {
    "#pragma pop_macro(\""@ + name + "\")\n"@
}

/// The function signature shared by prototype and definition:
/// `return_type name(parameter list)`.
pub open spec fn signature_text(d: DescModel) -> Seq<char> {
    d.return_type + " "@ + d.name + "("@ + param_list(d.params) + ")"@
}

/// A descriptor whose return type is the `void` sentinel: its wrapper body
/// forwards without a `return` keyword.
pub open spec fn is_void(d: DescModel) -> bool {
    d.return_type == "void"@
}

// ---------------------------------------------------------------------------
// Header model
// ---------------------------------------------------------------------------

/// The prototype declared for one entry.
pub open spec fn prototype_line(d: DescModel) -> Seq<char> {
    signature_text(d) + ";\n"@
}

/// One header block: a blank line, then the prototype guarded by
/// save / undefine / restore of the macro of the same name.
pub open spec fn header_block(d: DescModel) -> Seq<char> {
    "\n"@ + push_macro_line(d.name) + undef_line(d.name) + prototype_line(d)
        + pop_macro_line(d.name)
}

/// The header blocks of all entries, in table order.
pub open spec fn header_blocks(t: Seq<DescModel>) -> Seq<Seq<char>> {
    Seq::new(t.len(), |i: int| header_block(t[i]))
}

/// The whole header artifact: the given first line, a line break, then one
/// block per entry, in table order.
pub open spec fn header_text(top: Seq<char>, t: Seq<DescModel>) -> Seq<char> {
    top + "\n"@ + concat_model(header_blocks(t))
}

// ---------------------------------------------------------------------------
// Implementation model
// ---------------------------------------------------------------------------

/// The line that opens a function definition: the signature and `{`.
pub open spec fn body_open_line(d: DescModel) -> Seq<char> {
    signature_text(d) + " {\n"@
}

/// The single statement of a wrapper body: the macro called with the
/// parameter names in order, prefixed by `return ` unless the return type is
/// the `void` sentinel.
pub open spec fn call_statement(d: DescModel) -> Seq<char> {
    (if is_void(d) { Seq::<char>::empty() } else { "return "@ }) + d.name + "("@
        + arg_list(d.params) + ");"@
}

/// The indented body line holding the call statement.
pub open spec fn call_line(d: DescModel) -> Seq<char> {
    "  "@ + call_statement(d) + "\n"@
}

/// One implementation block: a blank line, then save / undefine, the opened
/// definition, restore — so the call below again names the macro — the
/// forwarding statement, and the closing brace.
pub open spec fn impl_block(d: DescModel) -> Seq<char> {
    "\n"@ + push_macro_line(d.name) + undef_line(d.name) + body_open_line(d)
        + pop_macro_line(d.name) + call_line(d) + "}\n"@
}

/// The implementation blocks of all entries, in table order.
pub open spec fn impl_blocks(t: Seq<DescModel>) -> Seq<Seq<char>> {
    Seq::new(t.len(), |i: int| impl_block(t[i]))
}

/// The whole implementation artifact: the given first line, a line break,
/// then one block per entry, in table order.
pub open spec fn impl_text(top: Seq<char>, t: Seq<DescModel>) -> Seq<char> {
    top + "\n"@ + concat_model(impl_blocks(t))
}

// ---------------------------------------------------------------------------
// Executable emitters
// ---------------------------------------------------------------------------

/// Formats every parameter as `type name`, in order.
fn param_decls(params: &Vec<Param>) -> (r: Vec<String>)
    ensures
        r.deep_view() == param_decls_model(params.deep_view()),
{
    let ghost ps = params.deep_view();
    let mut r: Vec<String> = Vec::new();
    let n = params.len();
    let mut i: usize = 0;
    while i < n
        invariant
            ps == params.deep_view(),
            n == ps.len(),
            i <= n,
            r.deep_view() =~~= param_decls_model(ps).take(i as int),
        decreases n - i,
    {
        let p = &params[i];
        let mut s = String::new();
        s.append(p.ty.as_str());
        s.append(" ");
        s.append(p.name.as_str());
        proof {
            assert(s@ =~= param_decl(ps[i as int]));
        }
        let ghost sv = s@;
        let ghost r0 = r@;
        let ghost r0dv = r.deep_view();
        r.push(s);
        proof {
            let m = param_decls_model(ps);
            assert(r0dv.len() == i as int);
            assert(r0.len() == i as int);
            assert forall|k: int| 0 <= k < r@.len() implies #[trigger] r.deep_view()[k]
                == m.take(i as int + 1)[k] by {
                assert(r.deep_view()[k] == r@[k]@);
                if k < i as int {
                    assert(r@[k] == r0[k]);
                    assert(r0dv[k] == r0[k]@);
                } else {
                    assert(r@[k]@ == sv);
                }
            }
            assert(r.deep_view() =~~= m.take(i as int + 1));
        }
        i = i + 1;
    }
    proof {
        assert(param_decls_model(ps).take(n as int) =~= param_decls_model(ps));
    }
    r
}

/// Collects every parameter name, in order.
fn param_names(params: &Vec<Param>) -> (r: Vec<String>)
    ensures
        r.deep_view() == param_names_model(params.deep_view()),
{
    let ghost ps = params.deep_view();
    let mut r: Vec<String> = Vec::new();
    let n = params.len();
    let mut i: usize = 0;
    while i < n
        invariant
            ps == params.deep_view(),
            n == ps.len(),
            i <= n,
            r.deep_view() =~~= param_names_model(ps).take(i as int),
        decreases n - i,
    {
        let s = params[i].name.clone();
        let ghost sv = s@;
        let ghost r0 = r@;
        let ghost r0dv = r.deep_view();
        r.push(s);
        proof {
            let m = param_names_model(ps);
            assert(r0dv.len() == i as int);
            assert(r0.len() == i as int);
            assert forall|k: int| 0 <= k < r@.len() implies #[trigger] r.deep_view()[k]
                == m.take(i as int + 1)[k] by {
                assert(r.deep_view()[k] == r@[k]@);
                if k < i as int {
                    assert(r@[k] == r0[k]);
                    assert(r0dv[k] == r0[k]@);
                } else {
                    assert(r@[k]@ == sv);
                }
            }
            assert(r.deep_view() =~~= m.take(i as int + 1));
        }
        i = i + 1;
    }
    proof {
        assert(param_names_model(ps).take(n as int) =~= param_names_model(ps));
    }
    r
}

/// Emits the comma-joined parameter list of one entry.
pub fn emit_param_list(params: &Vec<Param>) -> (r: String)
    ensures
        r@ == param_list(params.deep_view()),
{
    let decls = param_decls(params);
    join(&decls, ", ")
}

/// Emits the comma-joined argument list of one entry's forwarding call.
pub fn emit_arg_list(params: &Vec<Param>) -> (r: String)
    ensures
        r@ == arg_list(params.deep_view()),
{
    let names = param_names(params);
    join(&names, ", ")
}

/// Decides whether an entry's return type is the `void` sentinel.
pub fn returns_void(d: &MacroFunctionDesc) -> (r: bool)
    ensures
        r == is_void(d.deep_view()),
{
    let v: String = "void".to_owned();
    d.return_type == v
}

/// Emits the directive line that saves the macro definition.
fn emit_push_macro_line(name: &str) -> (r: String)
    ensures
        r@ == push_macro_line(name@),
{
    let mut s = String::new();
    s.append("#pragma push_macro(\"");
    s.append(name);
    s.append("\")\n");
    proof {
        assert(s@ =~= push_macro_line(name@));
    }
    s
}

/// Emits the directive line that removes the macro definition.
fn emit_undef_line(name: &str) -> (r: String)
    ensures
        r@ == undef_line(name@),
{
    let mut s = String::new();
    s.append("#undef ");
    s.append(name);
    s.append("\n");
    proof {
        assert(s@ =~= undef_line(name@));
    }
    s
}

/// Emits the directive line that restores the macro definition.
fn emit_pop_macro_line(name: &str) -> (r: String)
    ensures
        r@ == pop_macro_line(name@),
{
    let mut s = String::new();
    s.append("#pragma pop_macro(\"");
    s.append(name);
    s.append("\")\n");
    proof {
        assert(s@ =~= pop_macro_line(name@));
    }
    s
}

/// Emits the shared signature `return_type name(parameter list)`.
fn emit_signature(d: &MacroFunctionDesc) -> (r: String)
    ensures
        r@ == signature_text(d.deep_view()),
{
    let params = emit_param_list(&d.params);
    let mut s = String::new();
    s.append(d.return_type.as_str());
    s.append(" ");
    s.append(d.name.as_str());
    s.append("(");
    s.append(params.as_str());
    s.append(")");
    proof {
        assert(s@ =~= signature_text(d.deep_view()));
    }
    s
}

/// Emits the indented forwarding statement of one wrapper body.
fn emit_call_line(d: &MacroFunctionDesc) -> (r: String)
    ensures
        r@ == call_line(d.deep_view()),
{
    let args = emit_arg_list(&d.params);
    let mut s = String::new();
    s.append("  ");
    if !returns_void(d) {
        s.append("return ");
    }
    s.append(d.name.as_str());
    s.append("(");
    s.append(args.as_str());
    s.append(");");
    s.append("\n");
    proof {
        assert(s@ =~= call_line(d.deep_view()));
    }
    s
}

/// Emits the guarded header block of one entry.
pub fn emit_header_block(d: &MacroFunctionDesc) -> (r: String)
    ensures
        r@ == header_block(d.deep_view()),
{
    let push_line = emit_push_macro_line(d.name.as_str());
    let un_line = emit_undef_line(d.name.as_str());
    let sig = emit_signature(d);
    let pop_line = emit_pop_macro_line(d.name.as_str());
    let mut s = String::new();
    s.append("\n");
    s.append(push_line.as_str());
    s.append(un_line.as_str());
    s.append(sig.as_str());
    s.append(";\n");
    s.append(pop_line.as_str());
    proof {
        assert(s@ =~= header_block(d.deep_view()));
    }
    s
}

/// Emits the guarded implementation block of one entry.
pub fn emit_impl_block(d: &MacroFunctionDesc) -> (r: String)
    ensures
        r@ == impl_block(d.deep_view()),
{
    let push_line = emit_push_macro_line(d.name.as_str());
    let un_line = emit_undef_line(d.name.as_str());
    let sig = emit_signature(d);
    let pop_line = emit_pop_macro_line(d.name.as_str());
    let forwarding = emit_call_line(d);
    let mut s = String::new();
    s.append("\n");
    s.append(push_line.as_str());
    s.append(un_line.as_str());
    s.append(sig.as_str());
    s.append(" {\n");
    s.append(pop_line.as_str());
    s.append(forwarding.as_str());
    s.append("}\n");
    proof {
        assert(s@ =~= impl_block(d.deep_view()));
    }
    s
}

/// Emits the whole header artifact: `top_line`, then one guarded prototype
/// block per table entry, in table order.
pub fn emit_header(top_line: &str, table: &Vec<MacroFunctionDesc>) -> (r: String)
    ensures
        r@ == header_text(top_line@, table.deep_view()),
{
    let ghost t = table.deep_view();
    let mut out = String::new();
    out.append(top_line);
    out.append("\n");
    let n = table.len();
    let mut i: usize = 0;
    proof {
        assert(header_blocks(t).take(0) =~= header_blocks(t.take(0)));
        assert(out@ =~= top_line@ + "\n"@ + concat_model(header_blocks(t.take(0))));
    }
    while i < n
        invariant
            t == table.deep_view(),
            n == t.len(),
            i <= n,
            out@ == top_line@ + "\n"@ + concat_model(header_blocks(t.take(i as int))),
        decreases n - i,
    {
        let block = emit_header_block(&table[i]);
        out.append(block.as_str());
        proof {
            let pre = header_blocks(t.take(i as int + 1));
            assert(pre.drop_last() =~= header_blocks(t.take(i as int)));
            assert(pre.last() == header_block(t[i as int]));
            assert(out@ =~= top_line@ + "\n"@ + concat_model(pre));
        }
        i = i + 1;
    }
    proof {
        assert(t.take(n as int) =~= t);
    }
    out
}

/// Emits the whole implementation artifact: `top_line`, then one guarded
/// definition block per table entry, in table order.
pub fn emit_implementation(top_line: &str, table: &Vec<MacroFunctionDesc>) -> (r: String)
    ensures
        r@ == impl_text(top_line@, table.deep_view()),
{
    let ghost t = table.deep_view();
    let mut out = String::new();
    out.append(top_line);
    out.append("\n");
    let n = table.len();
    let mut i: usize = 0;
    proof {
        assert(impl_blocks(t).take(0) =~= impl_blocks(t.take(0)));
        assert(out@ =~= top_line@ + "\n"@ + concat_model(impl_blocks(t.take(0))));
    }
    while i < n
        invariant
            t == table.deep_view(),
            n == t.len(),
            i <= n,
            out@ == top_line@ + "\n"@ + concat_model(impl_blocks(t.take(i as int))),
        decreases n - i,
    {
        let block = emit_impl_block(&table[i]);
        out.append(block.as_str());
        proof {
            let pre = impl_blocks(t.take(i as int + 1));
            assert(pre.drop_last() =~= impl_blocks(t.take(i as int)));
            assert(pre.last() == impl_block(t[i as int]));
            assert(out@ =~= top_line@ + "\n"@ + concat_model(pre));
        }
        i = i + 1;
    }
    proof {
        assert(t.take(n as int) =~= t);
    }
    out
}

// ---------------------------------------------------------------------------
// Laws
// ---------------------------------------------------------------------------

/// Law: the header is its first line followed by one guarded block per table
/// entry, in table order, and block `i` declares exactly one prototype — the
/// one whose return type, name, and parameter list (types and names, in
/// order) are entry `i`'s, verbatim.
pub proof fn lemma_header_one_prototype_per_entry(top: Seq<char>, t: Seq<DescModel>)
    ensures
        header_text(top, t) == top + "\n"@ + concat_model(header_blocks(t)),
        header_blocks(t).len() == t.len(),
        forall|i: int| 0 <= i < t.len() ==> header_blocks(t)[i] == "\n"@ + push_macro_line(
            t[i].name,
        ) + undef_line(t[i].name) + (signature_text(t[i]) + ";\n"@) + pop_macro_line(t[i].name),
        forall|i: int| 0 <= i < t.len() ==> signature_text(t[i]) == t[i].return_type + " "@
            + t[i].name + "("@ + param_list(t[i].params) + ")"@,
{
}

/// Law: the implementation holds one function definition per entry, at the
/// same table position as the header's prototype; its signature is
/// character-for-character the signature the header declares, and its body is
/// the single statement that calls the macro with the entry's parameter
/// names, in order.
pub proof fn lemma_impl_matches_header(t: Seq<DescModel>)
    ensures
        impl_blocks(t).len() == header_blocks(t).len(),
        forall|i: int| 0 <= i < t.len() ==> prototype_line(t[i]) == signature_text(t[i]) + ";\n"@,
        forall|i: int| 0 <= i < t.len() ==> impl_blocks(t)[i] == "\n"@ + push_macro_line(t[i].name)
            + undef_line(t[i].name) + (signature_text(t[i]) + " {\n"@) + pop_macro_line(t[i].name)
            + ("  "@ + call_statement(t[i]) + "\n"@) + "}\n"@,
        forall|i: int| 0 <= i < t.len() ==> call_statement(t[i]) == (if is_void(t[i]) {
            Seq::<char>::empty()
        } else {
            "return "@
        }) + t[i].name + "("@ + arg_list(t[i].params) + ");"@,
{
}

/// Law: the `void` sentinel suppresses the `return` keyword — a void entry's
/// forwarding statement is exactly the macro call, while any other entry's
/// statement is the same call preceded by `return `.
pub proof fn lemma_void_suppresses_return(d: DescModel)
    ensures
        is_void(d) ==> call_statement(d) == d.name + "("@ + arg_list(d.params) + ");"@,
        !is_void(d) ==> call_statement(d) == "return "@ + (d.name + "("@ + arg_list(d.params)
            + ");"@),
{
    if is_void(d) {
        assert(call_statement(d) =~= d.name + "("@ + arg_list(d.params) + ");"@);
    } else {
        assert(call_statement(d) =~= "return "@ + (d.name + "("@ + arg_list(d.params) + ");"@));
    }
}

/// Law (round trip): a table of N entries yields exactly N header blocks and
/// N implementation blocks — none merged, none dropped — and a block's text
/// is a function of its entry alone, so reordering the table only moves
/// blocks, never changes their content or their count.
pub proof fn lemma_block_count_and_order(t1: Seq<DescModel>, t2: Seq<DescModel>, i: int, j: int)
    requires
        0 <= i < t1.len(),
        0 <= j < t2.len(),
        t1[i] == t2[j],
    ensures
        header_blocks(t1).len() == t1.len(),
        impl_blocks(t1).len() == t1.len(),
        header_blocks(t1)[i] == header_blocks(t2)[j],
        impl_blocks(t1)[i] == impl_blocks(t2)[j],
{
}

/// Law (idempotence): emission is deterministic — each artifact is a function
/// of the first line and the table alone, so a second run on an unchanged
/// table produces byte-identical header and implementation text.
pub proof fn lemma_idempotent(
    top: Seq<char>,
    t: Seq<DescModel>,
    h1: Seq<char>,
    h2: Seq<char>,
    c1: Seq<char>,
    c2: Seq<char>,
)
    requires
        h1 == header_text(top, t),
        h2 == header_text(top, t),
        c1 == impl_text(top, t),
        c2 == impl_text(top, t),
    ensures
        h1 == h2,
        c1 == c2,
{
}

} // verus!
