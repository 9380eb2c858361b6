//! The hand-maintained signature table for the scripting engine's macro-only
//! entry points, and the whitelist its bindings use.

use vstd::prelude::*;
use crate::table::{Param, ParamModel, MacroFunctionDesc, DescModel};
use crate::filter::{NamePatternFilter, covers_names, is_prefix_of};

verus! {

/// Builds one parameter descriptor.
fn p(ty: &str, name: &str) -> (r: Param)
    ensures
        r.deep_view() == (ParamModel { ty: ty@, name: name@ }),
{
    Param { ty: ty.to_owned(), name: name.to_owned() }
}

/// Builds an entry with no parameters.
fn mk0(rt: &str, name: &str) -> (r: MacroFunctionDesc)
    ensures
        r.deep_view().return_type == rt@,
        r.deep_view().name == name@,
        r.deep_view().params.len() == 0,
{
    MacroFunctionDesc { return_type: rt.to_owned(), name: name.to_owned(), params: Vec::new() }
}

/// Builds an entry with one parameter.
fn mk1(rt: &str, name: &str, t1: &str, n1: &str) -> (r: MacroFunctionDesc)
    ensures
        r.deep_view().return_type == rt@,
        r.deep_view().name == name@,
        r.deep_view().params.len() == 1,
        r.deep_view().params[0] == (ParamModel { ty: t1@, name: n1@ }),
{
    let mut params: Vec<Param> = Vec::new();
    params.push(p(t1, n1));
    MacroFunctionDesc { return_type: rt.to_owned(), name: name.to_owned(), params }
}

/// Builds an entry with two parameters.
fn mk2(rt: &str, name: &str, t1: &str, n1: &str, t2: &str, n2: &str) -> (r: MacroFunctionDesc)
    ensures
        r.deep_view().return_type == rt@,
        r.deep_view().name == name@,
        r.deep_view().params.len() == 2,
        r.deep_view().params[0] == (ParamModel { ty: t1@, name: n1@ }),
        r.deep_view().params[1] == (ParamModel { ty: t2@, name: n2@ }),
{
    let mut params: Vec<Param> = Vec::new();
    params.push(p(t1, n1));
    params.push(p(t2, n2));
    MacroFunctionDesc { return_type: rt.to_owned(), name: name.to_owned(), params }
}

/// Builds an entry with three parameters.
fn mk3(
    rt: &str,
    name: &str,
    t1: &str,
    n1: &str,
    t2: &str,
    n2: &str,
    t3: &str,
    n3: &str,
) -> (r: MacroFunctionDesc)
    ensures
        r.deep_view().return_type == rt@,
        r.deep_view().name == name@,
        r.deep_view().params.len() == 3,
        r.deep_view().params[0] == (ParamModel { ty: t1@, name: n1@ }),
        r.deep_view().params[1] == (ParamModel { ty: t2@, name: n2@ }),
        r.deep_view().params[2] == (ParamModel { ty: t3@, name: n3@ }),
{
    let mut params: Vec<Param> = Vec::new();
    params.push(p(t1, n1));
    params.push(p(t2, n2));
    params.push(p(t3, n3));
    MacroFunctionDesc { return_type: rt.to_owned(), name: name.to_owned(), params }
}

/// Builds an entry with four parameters.
fn mk4(
    rt: &str,
    name: &str,
    t1: &str,
    n1: &str,
    t2: &str,
    n2: &str,
    t3: &str,
    n3: &str,
    t4: &str,
    n4: &str,
) -> (r: MacroFunctionDesc)
    ensures
        r.deep_view().return_type == rt@,
        r.deep_view().name == name@,
        r.deep_view().params.len() == 4,
        r.deep_view().params[0] == (ParamModel { ty: t1@, name: n1@ }),
        r.deep_view().params[1] == (ParamModel { ty: t2@, name: n2@ }),
        r.deep_view().params[2] == (ParamModel { ty: t3@, name: n3@ }),
        r.deep_view().params[3] == (ParamModel { ty: t4@, name: n4@ }),
{
    let mut params: Vec<Param> = Vec::new();
    params.push(p(t1, n1));
    params.push(p(t2, n2));
    params.push(p(t3, n3));
    params.push(p(t4, n4));
    MacroFunctionDesc { return_type: rt.to_owned(), name: name.to_owned(), params }
}

/// The table's mathematical content: all 58 entries, in order.
pub open spec fn duktape_table_model() -> Seq<DescModel> {
    seq![
        DescModel { return_type: "duk_context *"@, name: "duk_create_heap_default"@, params: Seq::empty() },
        DescModel { return_type: "void"@, name: "duk_xmove_top"@, params: seq![ParamModel { ty: "duk_context *"@, name: "to_ctx"@ }, ParamModel { ty: "duk_context *"@, name: "from_ctx"@ }, ParamModel { ty: "duk_idx_t"@, name: "count"@ }] },
        DescModel { return_type: "void"@, name: "duk_xcopy_top"@, params: seq![ParamModel { ty: "duk_context *"@, name: "to_ctx"@ }, ParamModel { ty: "duk_context *"@, name: "from_ctx"@ }, ParamModel { ty: "duk_idx_t"@, name: "count"@ }] },
        DescModel { return_type: "const char *"@, name: "duk_push_string_file"@, params: seq![ParamModel { ty: "duk_context *"@, name: "ctx"@ }, ParamModel { ty: "const char *"@, name: "path"@ }] },
        DescModel { return_type: "duk_idx_t"@, name: "duk_push_thread"@, params: seq![ParamModel { ty: "duk_context *"@, name: "ctx"@ }] },
        DescModel { return_type: "duk_idx_t"@, name: "duk_push_thread_new_globalenv"@, params: seq![ParamModel { ty: "duk_context *"@, name: "ctx"@ }] },
        DescModel { return_type: "duk_idx_t"@, name: "duk_push_error_object"@, params: seq![ParamModel { ty: "duk_context *"@, name: "ctx"@ }, ParamModel { ty: "duk_errcode_t"@, name: "err_code"@ }, ParamModel { ty: "const char *"@, name: "fmt"@ }] },
        DescModel { return_type: "void *"@, name: "duk_push_buffer"@, params: seq![ParamModel { ty: "duk_context *"@, name: "ctx"@ }, ParamModel { ty: "duk_size_t"@, name: "size"@ }, ParamModel { ty: "duk_bool_t"@, name: "dynamic"@ }] },
        DescModel { return_type: "void *"@, name: "duk_push_fixed_buffer"@, params: seq![ParamModel { ty: "duk_context *"@, name: "ctx"@ }, ParamModel { ty: "duk_size_t"@, name: "size"@ }] },
        DescModel { return_type: "void *"@, name: "duk_push_dynamic_buffer"@, params: seq![ParamModel { ty: "duk_context *"@, name: "ctx"@ }, ParamModel { ty: "duk_size_t"@, name: "size"@ }] },
        DescModel { return_type: "void"@, name: "duk_push_external_buffer"@, params: seq![ParamModel { ty: "duk_context *"@, name: "ctx"@ }] },
        DescModel { return_type: "duk_bool_t"@, name: "duk_is_callable"@, params: seq![ParamModel { ty: "duk_context *"@, name: "ctx"@ }, ParamModel { ty: "duk_idx_t"@, name: "index"@ }] },
        DescModel { return_type: "duk_bool_t"@, name: "duk_is_primitive"@, params: seq![ParamModel { ty: "duk_context *"@, name: "ctx"@ }, ParamModel { ty: "duk_idx_t"@, name: "index"@ }] },
        DescModel { return_type: "duk_bool_t"@, name: "duk_is_object_coercible"@, params: seq![ParamModel { ty: "duk_context *"@, name: "ctx"@ }, ParamModel { ty: "duk_idx_t"@, name: "index"@ }] },
        DescModel { return_type: "duk_bool_t"@, name: "duk_is_error"@, params: seq![ParamModel { ty: "duk_context *"@, name: "ctx"@ }, ParamModel { ty: "duk_idx_t"@, name: "index"@ }] },
        DescModel { return_type: "duk_bool_t"@, name: "duk_is_eval_error"@, params: seq![ParamModel { ty: "duk_context *"@, name: "ctx"@ }, ParamModel { ty: "duk_idx_t"@, name: "index"@ }] },
        DescModel { return_type: "duk_bool_t"@, name: "duk_is_range_error"@, params: seq![ParamModel { ty: "duk_context *"@, name: "ctx"@ }, ParamModel { ty: "duk_idx_t"@, name: "index"@ }] },
        DescModel { return_type: "duk_bool_t"@, name: "duk_is_reference_error"@, params: seq![ParamModel { ty: "duk_context *"@, name: "ctx"@ }, ParamModel { ty: "duk_idx_t"@, name: "index"@ }] },
        DescModel { return_type: "duk_bool_t"@, name: "duk_is_syntax_error"@, params: seq![ParamModel { ty: "duk_context *"@, name: "ctx"@ }, ParamModel { ty: "duk_idx_t"@, name: "index"@ }] },
        DescModel { return_type: "duk_bool_t"@, name: "duk_is_type_error"@, params: seq![ParamModel { ty: "duk_context *"@, name: "ctx"@ }, ParamModel { ty: "duk_idx_t"@, name: "index"@ }] },
        DescModel { return_type: "duk_bool_t"@, name: "duk_is_uri_error"@, params: seq![ParamModel { ty: "duk_context *"@, name: "ctx"@ }, ParamModel { ty: "duk_idx_t"@, name: "index"@ }] },
        DescModel { return_type: "void"@, name: "duk_require_type_mask"@, params: seq![ParamModel { ty: "duk_context *"@, name: "ctx"@ }, ParamModel { ty: "duk_idx_t"@, name: "index"@ }, ParamModel { ty: "duk_uint_t"@, name: "mask"@ }] },
        DescModel { return_type: "void"@, name: "duk_require_callable"@, params: seq![ParamModel { ty: "duk_context *"@, name: "ctx"@ }, ParamModel { ty: "duk_idx_t"@, name: "index"@ }] },
        DescModel { return_type: "void"@, name: "duk_require_object_coercible"@, params: seq![ParamModel { ty: "duk_context *"@, name: "ctx"@ }, ParamModel { ty: "duk_idx_t"@, name: "index"@ }] },
        DescModel { return_type: "void *"@, name: "duk_to_buffer"@, params: seq![ParamModel { ty: "duk_context *"@, name: "ctx"@ }, ParamModel { ty: "duk_idx_t"@, name: "index"@ }, ParamModel { ty: "duk_size_t *"@, name: "out_size"@ }] },
        DescModel { return_type: "void *"@, name: "duk_to_fixed_buffer"@, params: seq![ParamModel { ty: "duk_context *"@, name: "ctx"@ }, ParamModel { ty: "duk_idx_t"@, name: "index"@ }, ParamModel { ty: "duk_size_t *"@, name: "out_size"@ }] },
        DescModel { return_type: "void *"@, name: "duk_to_dynamic_buffer"@, params: seq![ParamModel { ty: "duk_context *"@, name: "ctx"@ }, ParamModel { ty: "duk_idx_t"@, name: "index"@ }, ParamModel { ty: "duk_size_t *"@, name: "out_size"@ }] },
        DescModel { return_type: "const char *"@, name: "duk_safe_to_string"@, params: seq![ParamModel { ty: "duk_context *"@, name: "ctx"@ }, ParamModel { ty: "duk_idx_t"@, name: "index"@ }] },
        DescModel { return_type: "void"@, name: "duk_eval"@, params: seq![ParamModel { ty: "duk_context *"@, name: "ctx"@ }] },
        DescModel { return_type: "void"@, name: "duk_eval_noresult"@, params: seq![ParamModel { ty: "duk_context *"@, name: "ctx"@ }] },
        DescModel { return_type: "duk_int_t"@, name: "duk_peval"@, params: seq![ParamModel { ty: "duk_context *"@, name: "ctx"@ }] },
        DescModel { return_type: "duk_int_t"@, name: "duk_peval_noresult"@, params: seq![ParamModel { ty: "duk_context *"@, name: "ctx"@ }] },
        DescModel { return_type: "void"@, name: "duk_compile"@, params: seq![ParamModel { ty: "duk_context *"@, name: "ctx"@ }, ParamModel { ty: "duk_uint_t"@, name: "flags"@ }] },
        DescModel { return_type: "duk_int_t"@, name: "duk_pcompile"@, params: seq![ParamModel { ty: "duk_context *"@, name: "ctx"@ }, ParamModel { ty: "duk_uint_t"@, name: "flags"@ }] },
        DescModel { return_type: "void"@, name: "duk_eval_string"@, params: seq![ParamModel { ty: "duk_context *"@, name: "ctx"@ }, ParamModel { ty: "const char *"@, name: "src"@ }] },
        DescModel { return_type: "void"@, name: "duk_eval_string_noresult"@, params: seq![ParamModel { ty: "duk_context *"@, name: "ctx"@ }, ParamModel { ty: "const char *"@, name: "src"@ }] },
        DescModel { return_type: "duk_int_t"@, name: "duk_peval_string"@, params: seq![ParamModel { ty: "duk_context *"@, name: "ctx"@ }, ParamModel { ty: "const char *"@, name: "src"@ }] },
        DescModel { return_type: "duk_int_t"@, name: "duk_peval_string_noresult"@, params: seq![ParamModel { ty: "duk_context *"@, name: "ctx"@ }, ParamModel { ty: "const char *"@, name: "src"@ }] },
        DescModel { return_type: "void"@, name: "duk_compile_string"@, params: seq![ParamModel { ty: "duk_context *"@, name: "ctx"@ }, ParamModel { ty: "duk_uint_t"@, name: "flags"@ }, ParamModel { ty: "const char *"@, name: "src"@ }] },
        DescModel { return_type: "void"@, name: "duk_compile_string_filename"@, params: seq![ParamModel { ty: "duk_context *"@, name: "ctx"@ }, ParamModel { ty: "duk_uint_t"@, name: "flags"@ }, ParamModel { ty: "const char *"@, name: "src"@ }] },
        DescModel { return_type: "duk_int_t"@, name: "duk_pcompile_string"@, params: seq![ParamModel { ty: "duk_context *"@, name: "ctx"@ }, ParamModel { ty: "duk_uint_t"@, name: "flags"@ }, ParamModel { ty: "const char *"@, name: "src"@ }] },
        DescModel { return_type: "duk_int_t"@, name: "duk_pcompile_string_filename"@, params: seq![ParamModel { ty: "duk_context *"@, name: "ctx"@ }, ParamModel { ty: "duk_uint_t"@, name: "flags"@ }, ParamModel { ty: "const char *"@, name: "src"@ }] },
        DescModel { return_type: "void"@, name: "duk_eval_lstring"@, params: seq![ParamModel { ty: "duk_context *"@, name: "ctx"@ }, ParamModel { ty: "const char *"@, name: "buf"@ }, ParamModel { ty: "duk_size_t"@, name: "len"@ }] },
        DescModel { return_type: "void"@, name: "duk_eval_lstring_noresult"@, params: seq![ParamModel { ty: "duk_context *"@, name: "ctx"@ }, ParamModel { ty: "const char *"@, name: "buf"@ }, ParamModel { ty: "duk_size_t"@, name: "len"@ }] },
        DescModel { return_type: "duk_int_t"@, name: "duk_peval_lstring"@, params: seq![ParamModel { ty: "duk_context *"@, name: "ctx"@ }, ParamModel { ty: "const char *"@, name: "buf"@ }, ParamModel { ty: "duk_size_t"@, name: "len"@ }] },
        DescModel { return_type: "duk_int_t"@, name: "duk_peval_lstring_noresult"@, params: seq![ParamModel { ty: "duk_context *"@, name: "ctx"@ }, ParamModel { ty: "const char *"@, name: "buf"@ }, ParamModel { ty: "duk_size_t"@, name: "len"@ }] },
        DescModel { return_type: "void"@, name: "duk_compile_lstring"@, params: seq![ParamModel { ty: "duk_context *"@, name: "ctx"@ }, ParamModel { ty: "duk_uint_t"@, name: "flags"@ }, ParamModel { ty: "const char *"@, name: "buf"@ }, ParamModel { ty: "duk_size_t"@, name: "len"@ }] },
        DescModel { return_type: "void"@, name: "duk_compile_lstring_filename"@, params: seq![ParamModel { ty: "duk_context *"@, name: "ctx"@ }, ParamModel { ty: "duk_uint_t"@, name: "flags"@ }, ParamModel { ty: "const char *"@, name: "buf"@ }, ParamModel { ty: "duk_size_t"@, name: "len"@ }] },
        DescModel { return_type: "duk_int_t"@, name: "duk_pcompile_lstring"@, params: seq![ParamModel { ty: "duk_context *"@, name: "ctx"@ }, ParamModel { ty: "duk_uint_t"@, name: "flags"@ }, ParamModel { ty: "const char *"@, name: "buf"@ }, ParamModel { ty: "duk_size_t"@, name: "len"@ }] },
        DescModel { return_type: "duk_int_t"@, name: "duk_pcompile_lstring_filename"@, params: seq![ParamModel { ty: "duk_context *"@, name: "ctx"@ }, ParamModel { ty: "duk_uint_t"@, name: "flags"@ }, ParamModel { ty: "const char *"@, name: "buf"@ }, ParamModel { ty: "duk_size_t"@, name: "len"@ }] },
        DescModel { return_type: "void"@, name: "duk_eval_file"@, params: seq![ParamModel { ty: "duk_context *"@, name: "ctx"@ }, ParamModel { ty: "const char *"@, name: "path"@ }] },
        DescModel { return_type: "void"@, name: "duk_eval_file_noresult"@, params: seq![ParamModel { ty: "duk_context *"@, name: "ctx"@ }, ParamModel { ty: "const char *"@, name: "path"@ }] },
        DescModel { return_type: "duk_int_t"@, name: "duk_peval_file"@, params: seq![ParamModel { ty: "duk_context *"@, name: "ctx"@ }, ParamModel { ty: "const char *"@, name: "path"@ }] },
        DescModel { return_type: "duk_int_t"@, name: "duk_peval_file_noresult"@, params: seq![ParamModel { ty: "duk_context *"@, name: "ctx"@ }, ParamModel { ty: "const char *"@, name: "path"@ }] },
        DescModel { return_type: "void"@, name: "duk_compile_file"@, params: seq![ParamModel { ty: "duk_context *"@, name: "ctx"@ }, ParamModel { ty: "duk_uint_t"@, name: "flags"@ }, ParamModel { ty: "const char *"@, name: "path"@ }] },
        DescModel { return_type: "duk_int_t"@, name: "duk_pcompile_file"@, params: seq![ParamModel { ty: "duk_context *"@, name: "ctx"@ }, ParamModel { ty: "duk_uint_t"@, name: "flags"@ }, ParamModel { ty: "const char *"@, name: "path"@ }] },
        DescModel { return_type: "void"@, name: "duk_dump_context_stdout"@, params: seq![ParamModel { ty: "duk_context *"@, name: "ctx"@ }] },
        DescModel { return_type: "void"@, name: "duk_dump_context_stderr"@, params: seq![ParamModel { ty: "duk_context *"@, name: "ctx"@ }] },
    ]
}

/// The signature table: every macro of the engine's API that must become a
/// real, linkable symbol, with its return type and its ordered parameters.
/// Hand-maintained data, pinned entry for entry by `duktape_table_model`:
/// adding a macro to the wrapped set is solely an edit here and in the model.
/// Name uniqueness is not validated at this layer; `check_unique_names`
/// decides it at run time, and `lemma_engine_table_covered` shows that the
/// default whitelist covers every entry.
#[verifier::rlimit(60)]
pub fn duktape_table() -> (r: Vec<MacroFunctionDesc>)
    ensures
        r@.len() == 58,
        r.deep_view() == duktape_table_model(),
{
    let mut t: Vec<MacroFunctionDesc> = Vec::new();
    t.push(mk0("duk_context *", "duk_create_heap_default"));
    proof {
        assert(t.deep_view() =~~= duktape_table_model().take(1));
    }
    t.push(mk3("void", "duk_xmove_top", "duk_context *", "to_ctx", "duk_context *", "from_ctx", "duk_idx_t", "count"));
    proof {
        assert(t.deep_view() =~~= duktape_table_model().take(2));
    }
    t.push(mk3("void", "duk_xcopy_top", "duk_context *", "to_ctx", "duk_context *", "from_ctx", "duk_idx_t", "count"));
    proof {
        assert(t.deep_view() =~~= duktape_table_model().take(3));
    }
    t.push(mk2("const char *", "duk_push_string_file", "duk_context *", "ctx", "const char *", "path"));
    proof {
        assert(t.deep_view() =~~= duktape_table_model().take(4));
    }
    t.push(mk1("duk_idx_t", "duk_push_thread", "duk_context *", "ctx"));
    proof {
        assert(t.deep_view() =~~= duktape_table_model().take(5));
    }
    t.push(mk1("duk_idx_t", "duk_push_thread_new_globalenv", "duk_context *", "ctx"));
    proof {
        assert(t.deep_view() =~~= duktape_table_model().take(6));
    }
    t.push(mk3("duk_idx_t", "duk_push_error_object", "duk_context *", "ctx", "duk_errcode_t", "err_code", "const char *", "fmt"));
    proof {
        assert(t.deep_view() =~~= duktape_table_model().take(7));
    }
    t.push(mk3("void *", "duk_push_buffer", "duk_context *", "ctx", "duk_size_t", "size", "duk_bool_t", "dynamic"));
    proof {
        assert(t.deep_view() =~~= duktape_table_model().take(8));
    }
    t.push(mk2("void *", "duk_push_fixed_buffer", "duk_context *", "ctx", "duk_size_t", "size"));
    proof {
        assert(t.deep_view() =~~= duktape_table_model().take(9));
    }
    t.push(mk2("void *", "duk_push_dynamic_buffer", "duk_context *", "ctx", "duk_size_t", "size"));
    proof {
        assert(t.deep_view() =~~= duktape_table_model().take(10));
    }
    t.push(mk1("void", "duk_push_external_buffer", "duk_context *", "ctx"));
    proof {
        assert(t.deep_view() =~~= duktape_table_model().take(11));
    }
    t.push(mk2("duk_bool_t", "duk_is_callable", "duk_context *", "ctx", "duk_idx_t", "index"));
    proof {
        assert(t.deep_view() =~~= duktape_table_model().take(12));
    }
    t.push(mk2("duk_bool_t", "duk_is_primitive", "duk_context *", "ctx", "duk_idx_t", "index"));
    proof {
        assert(t.deep_view() =~~= duktape_table_model().take(13));
    }
    t.push(mk2("duk_bool_t", "duk_is_object_coercible", "duk_context *", "ctx", "duk_idx_t", "index"));
    proof {
        assert(t.deep_view() =~~= duktape_table_model().take(14));
    }
    t.push(mk2("duk_bool_t", "duk_is_error", "duk_context *", "ctx", "duk_idx_t", "index"));
    proof {
        assert(t.deep_view() =~~= duktape_table_model().take(15));
    }
    t.push(mk2("duk_bool_t", "duk_is_eval_error", "duk_context *", "ctx", "duk_idx_t", "index"));
    proof {
        assert(t.deep_view() =~~= duktape_table_model().take(16));
    }
    t.push(mk2("duk_bool_t", "duk_is_range_error", "duk_context *", "ctx", "duk_idx_t", "index"));
    proof {
        assert(t.deep_view() =~~= duktape_table_model().take(17));
    }
    t.push(mk2("duk_bool_t", "duk_is_reference_error", "duk_context *", "ctx", "duk_idx_t", "index"));
    proof {
        assert(t.deep_view() =~~= duktape_table_model().take(18));
    }
    t.push(mk2("duk_bool_t", "duk_is_syntax_error", "duk_context *", "ctx", "duk_idx_t", "index"));
    proof {
        assert(t.deep_view() =~~= duktape_table_model().take(19));
    }
    t.push(mk2("duk_bool_t", "duk_is_type_error", "duk_context *", "ctx", "duk_idx_t", "index"));
    proof {
        assert(t.deep_view() =~~= duktape_table_model().take(20));
    }
    t.push(mk2("duk_bool_t", "duk_is_uri_error", "duk_context *", "ctx", "duk_idx_t", "index"));
    proof {
        assert(t.deep_view() =~~= duktape_table_model().take(21));
    }
    t.push(mk3("void", "duk_require_type_mask", "duk_context *", "ctx", "duk_idx_t", "index", "duk_uint_t", "mask"));
    proof {
        assert(t.deep_view() =~~= duktape_table_model().take(22));
    }
    t.push(mk2("void", "duk_require_callable", "duk_context *", "ctx", "duk_idx_t", "index"));
    proof {
        assert(t.deep_view() =~~= duktape_table_model().take(23));
    }
    t.push(mk2("void", "duk_require_object_coercible", "duk_context *", "ctx", "duk_idx_t", "index"));
    proof {
        assert(t.deep_view() =~~= duktape_table_model().take(24));
    }
    t.push(mk3("void *", "duk_to_buffer", "duk_context *", "ctx", "duk_idx_t", "index", "duk_size_t *", "out_size"));
    proof {
        assert(t.deep_view() =~~= duktape_table_model().take(25));
    }
    t.push(mk3("void *", "duk_to_fixed_buffer", "duk_context *", "ctx", "duk_idx_t", "index", "duk_size_t *", "out_size"));
    proof {
        assert(t.deep_view() =~~= duktape_table_model().take(26));
    }
    t.push(mk3("void *", "duk_to_dynamic_buffer", "duk_context *", "ctx", "duk_idx_t", "index", "duk_size_t *", "out_size"));
    proof {
        assert(t.deep_view() =~~= duktape_table_model().take(27));
    }
    t.push(mk2("const char *", "duk_safe_to_string", "duk_context *", "ctx", "duk_idx_t", "index"));
    proof {
        assert(t.deep_view() =~~= duktape_table_model().take(28));
    }
    t.push(mk1("void", "duk_eval", "duk_context *", "ctx"));
    proof {
        assert(t.deep_view() =~~= duktape_table_model().take(29));
    }
    t.push(mk1("void", "duk_eval_noresult", "duk_context *", "ctx"));
    proof {
        assert(t.deep_view() =~~= duktape_table_model().take(30));
    }
    t.push(mk1("duk_int_t", "duk_peval", "duk_context *", "ctx"));
    proof {
        assert(t.deep_view() =~~= duktape_table_model().take(31));
    }
    t.push(mk1("duk_int_t", "duk_peval_noresult", "duk_context *", "ctx"));
    proof {
        assert(t.deep_view() =~~= duktape_table_model().take(32));
    }
    t.push(mk2("void", "duk_compile", "duk_context *", "ctx", "duk_uint_t", "flags"));
    proof {
        assert(t.deep_view() =~~= duktape_table_model().take(33));
    }
    t.push(mk2("duk_int_t", "duk_pcompile", "duk_context *", "ctx", "duk_uint_t", "flags"));
    proof {
        assert(t.deep_view() =~~= duktape_table_model().take(34));
    }
    t.push(mk2("void", "duk_eval_string", "duk_context *", "ctx", "const char *", "src"));
    proof {
        assert(t.deep_view() =~~= duktape_table_model().take(35));
    }
    t.push(mk2("void", "duk_eval_string_noresult", "duk_context *", "ctx", "const char *", "src"));
    proof {
        assert(t.deep_view() =~~= duktape_table_model().take(36));
    }
    t.push(mk2("duk_int_t", "duk_peval_string", "duk_context *", "ctx", "const char *", "src"));
    proof {
        assert(t.deep_view() =~~= duktape_table_model().take(37));
    }
    t.push(mk2("duk_int_t", "duk_peval_string_noresult", "duk_context *", "ctx", "const char *", "src"));
    proof {
        assert(t.deep_view() =~~= duktape_table_model().take(38));
    }
    t.push(mk3("void", "duk_compile_string", "duk_context *", "ctx", "duk_uint_t", "flags", "const char *", "src"));
    proof {
        assert(t.deep_view() =~~= duktape_table_model().take(39));
    }
    t.push(mk3("void", "duk_compile_string_filename", "duk_context *", "ctx", "duk_uint_t", "flags", "const char *", "src"));
    proof {
        assert(t.deep_view() =~~= duktape_table_model().take(40));
    }
    t.push(mk3("duk_int_t", "duk_pcompile_string", "duk_context *", "ctx", "duk_uint_t", "flags", "const char *", "src"));
    proof {
        assert(t.deep_view() =~~= duktape_table_model().take(41));
    }
    t.push(mk3("duk_int_t", "duk_pcompile_string_filename", "duk_context *", "ctx", "duk_uint_t", "flags", "const char *", "src"));
    proof {
        assert(t.deep_view() =~~= duktape_table_model().take(42));
    }
    t.push(mk3("void", "duk_eval_lstring", "duk_context *", "ctx", "const char *", "buf", "duk_size_t", "len"));
    proof {
        assert(t.deep_view() =~~= duktape_table_model().take(43));
    }
    t.push(mk3("void", "duk_eval_lstring_noresult", "duk_context *", "ctx", "const char *", "buf", "duk_size_t", "len"));
    proof {
        assert(t.deep_view() =~~= duktape_table_model().take(44));
    }
    t.push(mk3("duk_int_t", "duk_peval_lstring", "duk_context *", "ctx", "const char *", "buf", "duk_size_t", "len"));
    proof {
        assert(t.deep_view() =~~= duktape_table_model().take(45));
    }
    t.push(mk3("duk_int_t", "duk_peval_lstring_noresult", "duk_context *", "ctx", "const char *", "buf", "duk_size_t", "len"));
    proof {
        assert(t.deep_view() =~~= duktape_table_model().take(46));
    }
    t.push(mk4("void", "duk_compile_lstring", "duk_context *", "ctx", "duk_uint_t", "flags", "const char *", "buf", "duk_size_t", "len"));
    proof {
        assert(t.deep_view() =~~= duktape_table_model().take(47));
    }
    t.push(mk4("void", "duk_compile_lstring_filename", "duk_context *", "ctx", "duk_uint_t", "flags", "const char *", "buf", "duk_size_t", "len"));
    proof {
        assert(t.deep_view() =~~= duktape_table_model().take(48));
    }
    t.push(mk4("duk_int_t", "duk_pcompile_lstring", "duk_context *", "ctx", "duk_uint_t", "flags", "const char *", "buf", "duk_size_t", "len"));
    proof {
        assert(t.deep_view() =~~= duktape_table_model().take(49));
    }
    t.push(mk4("duk_int_t", "duk_pcompile_lstring_filename", "duk_context *", "ctx", "duk_uint_t", "flags", "const char *", "buf", "duk_size_t", "len"));
    proof {
        assert(t.deep_view() =~~= duktape_table_model().take(50));
    }
    t.push(mk2("void", "duk_eval_file", "duk_context *", "ctx", "const char *", "path"));
    proof {
        assert(t.deep_view() =~~= duktape_table_model().take(51));
    }
    t.push(mk2("void", "duk_eval_file_noresult", "duk_context *", "ctx", "const char *", "path"));
    proof {
        assert(t.deep_view() =~~= duktape_table_model().take(52));
    }
    t.push(mk2("duk_int_t", "duk_peval_file", "duk_context *", "ctx", "const char *", "path"));
    proof {
        assert(t.deep_view() =~~= duktape_table_model().take(53));
    }
    t.push(mk2("duk_int_t", "duk_peval_file_noresult", "duk_context *", "ctx", "const char *", "path"));
    proof {
        assert(t.deep_view() =~~= duktape_table_model().take(54));
    }
    t.push(mk3("void", "duk_compile_file", "duk_context *", "ctx", "duk_uint_t", "flags", "const char *", "path"));
    proof {
        assert(t.deep_view() =~~= duktape_table_model().take(55));
    }
    t.push(mk3("duk_int_t", "duk_pcompile_file", "duk_context *", "ctx", "duk_uint_t", "flags", "const char *", "path"));
    proof {
        assert(t.deep_view() =~~= duktape_table_model().take(56));
    }
    t.push(mk1("void", "duk_dump_context_stdout", "duk_context *", "ctx"));
    proof {
        assert(t.deep_view() =~~= duktape_table_model().take(57));
    }
    t.push(mk1("void", "duk_dump_context_stderr", "duk_context *", "ctx"));
    proof {
        assert(t.deep_view() =~~= duktape_table_model().take(58));
    }
    proof {
        assert(duktape_table_model().take(58) =~= duktape_table_model());
    }
    t
}

/// The whitelist for this engine: functions and types beginning with `duk_`,
/// constants beginning with `DUK_`.
pub fn default_filter() -> (r: NamePatternFilter)
    ensures
        r.function_prefix@ == "duk_"@,
        r.type_prefix@ == "duk_"@,
        r.constant_prefix@ == "DUK_"@,
{
    NamePatternFilter {
        function_prefix: "duk_".to_owned(),
        type_prefix: "duk_".to_owned(),
        constant_prefix: "DUK_".to_owned(),
    }
}

/// Law: every wrapper name in the engine table begins with `duk_`, so the
/// default whitelist covers the whole emitted API surface and no synthesized
/// wrapper is dropped from the produced bindings.
#[verifier::rlimit(100)]
pub proof fn lemma_engine_table_covered()
    ensures
        covers_names("duk_"@, duktape_table_model()),
{
    let m = duktape_table_model();
    reveal_strlit("duk_");
    reveal_strlit("duk_create_heap_default");
    reveal_strlit("duk_xmove_top");
    reveal_strlit("duk_xcopy_top");
    reveal_strlit("duk_push_string_file");
    reveal_strlit("duk_push_thread");
    reveal_strlit("duk_push_thread_new_globalenv");
    reveal_strlit("duk_push_error_object");
    reveal_strlit("duk_push_buffer");
    reveal_strlit("duk_push_fixed_buffer");
    reveal_strlit("duk_push_dynamic_buffer");
    reveal_strlit("duk_push_external_buffer");
    reveal_strlit("duk_is_callable");
    reveal_strlit("duk_is_primitive");
    reveal_strlit("duk_is_object_coercible");
    reveal_strlit("duk_is_error");
    reveal_strlit("duk_is_eval_error");
    reveal_strlit("duk_is_range_error");
    reveal_strlit("duk_is_reference_error");
    reveal_strlit("duk_is_syntax_error");
    reveal_strlit("duk_is_type_error");
    reveal_strlit("duk_is_uri_error");
    reveal_strlit("duk_require_type_mask");
    reveal_strlit("duk_require_callable");
    reveal_strlit("duk_require_object_coercible");
    reveal_strlit("duk_to_buffer");
    reveal_strlit("duk_to_fixed_buffer");
    reveal_strlit("duk_to_dynamic_buffer");
    reveal_strlit("duk_safe_to_string");
    reveal_strlit("duk_eval");
    reveal_strlit("duk_eval_noresult");
    reveal_strlit("duk_peval");
    reveal_strlit("duk_peval_noresult");
    reveal_strlit("duk_compile");
    reveal_strlit("duk_pcompile");
    reveal_strlit("duk_eval_string");
    reveal_strlit("duk_eval_string_noresult");
    reveal_strlit("duk_peval_string");
    reveal_strlit("duk_peval_string_noresult");
    reveal_strlit("duk_compile_string");
    reveal_strlit("duk_compile_string_filename");
    reveal_strlit("duk_pcompile_string");
    reveal_strlit("duk_pcompile_string_filename");
    reveal_strlit("duk_eval_lstring");
    reveal_strlit("duk_eval_lstring_noresult");
    reveal_strlit("duk_peval_lstring");
    reveal_strlit("duk_peval_lstring_noresult");
    reveal_strlit("duk_compile_lstring");
    reveal_strlit("duk_compile_lstring_filename");
    reveal_strlit("duk_pcompile_lstring");
    reveal_strlit("duk_pcompile_lstring_filename");
    reveal_strlit("duk_eval_file");
    reveal_strlit("duk_eval_file_noresult");
    reveal_strlit("duk_peval_file");
    reveal_strlit("duk_peval_file_noresult");
    reveal_strlit("duk_compile_file");
    reveal_strlit("duk_pcompile_file");
    reveal_strlit("duk_dump_context_stdout");
    reveal_strlit("duk_dump_context_stderr");
    assert forall|i: int| 0 <= i < m.len() implies is_prefix_of("duk_"@, m[i].name) by {
        assert(m[i].name.subrange(0, 4) =~= "duk_"@);
    }
}


} // verus!
