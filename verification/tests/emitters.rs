use dukgen::emit::{
    emit_arg_list, emit_header, emit_header_block, emit_impl_block, emit_implementation,
    emit_param_list, returns_void,
};
use dukgen::table::{MacroFunctionDesc, Param};

fn param(ty: &str, name: &str) -> Param {
    Param { ty: ty.to_owned(), name: name.to_owned() }
}

fn desc(rt: &str, name: &str, params: Vec<Param>) -> MacroFunctionDesc {
    MacroFunctionDesc { return_type: rt.to_owned(), name: name.to_owned(), params }
}

#[test]
fn header_scenario_void_no_params() {
    let table = vec![desc("void", "foo", vec![])];
    let header = emit_header("/* api */", &table);
    let expected = "/* api */\n\
                    \n\
                    #pragma push_macro(\"foo\")\n\
                    #undef foo\n\
                    void foo();\n\
                    #pragma pop_macro(\"foo\")\n";
    assert_eq!(header, expected);
}

#[test]
fn impl_scenario_void_no_params() {
    let table = vec![desc("void", "foo", vec![])];
    let implementation = emit_implementation("/* impl */", &table);
    let expected = "/* impl */\n\
                    \n\
                    #pragma push_macro(\"foo\")\n\
                    #undef foo\n\
                    void foo() {\n\
                    #pragma pop_macro(\"foo\")\n\
                    \x20 foo();\n\
                    }\n";
    assert_eq!(implementation, expected);
    assert!(!implementation.contains("return"));
}

#[test]
fn impl_scenario_int_two_params() {
    let table = vec![desc("int", "bar", vec![param("int", "x"), param("int", "y")])];
    let implementation = emit_implementation("/* impl */", &table);
    assert!(implementation.contains("int bar(int x, int y) {\n"));
    assert!(implementation.contains("  return bar(x, y);\n"));
}

#[test]
fn header_prototype_matches_entry_verbatim() {
    let table = vec![desc(
        "duk_bool_t",
        "duk_is_callable",
        vec![param("duk_context *", "ctx"), param("duk_idx_t", "index")],
    )];
    let header = emit_header("/* api */", &table);
    assert!(header.contains("duk_bool_t duk_is_callable(duk_context * ctx, duk_idx_t index);\n"));
}

#[test]
fn impl_signature_matches_header_prototype() {
    let entry = desc(
        "duk_int_t",
        "duk_peval",
        vec![param("duk_context *", "ctx")],
    );
    let header_block = emit_header_block(&entry);
    let impl_block = emit_impl_block(&entry);
    let signature = "duk_int_t duk_peval(duk_context * ctx)";
    assert!(header_block.contains(&format!("{};\n", signature)));
    assert!(impl_block.contains(&format!("{} {{\n", signature)));
    assert!(impl_block.contains("  return duk_peval(ctx);\n"));
}

#[test]
fn void_block_has_no_return_keyword() {
    let entry = desc(
        "void",
        "duk_eval",
        vec![param("duk_context *", "ctx")],
    );
    assert!(returns_void(&entry));
    let block = emit_impl_block(&entry);
    assert!(block.contains("  duk_eval(ctx);\n"));
    assert!(!block.contains("return"));
}

#[test]
fn non_void_block_has_return_keyword() {
    let entry = desc(
        "void *",
        "duk_push_buffer",
        vec![
            param("duk_context *", "ctx"),
            param("duk_size_t", "size"),
            param("duk_bool_t", "dynamic"),
        ],
    );
    assert!(!returns_void(&entry));
    let block = emit_impl_block(&entry);
    assert!(block.contains("  return duk_push_buffer(ctx, size, dynamic);\n"));
}

#[test]
fn pop_macro_precedes_call_in_body() {
    let entry = desc("int", "qux", vec![param("int", "a")]);
    let block = emit_impl_block(&entry);
    let pop_at = block.find("#pragma pop_macro(\"qux\")").unwrap();
    let call_at = block.find("  return qux(a);").unwrap();
    assert!(pop_at < call_at);
}

#[test]
fn one_block_per_entry_in_table_order() {
    let a = desc("void", "alpha", vec![]);
    let b = desc("int", "beta", vec![param("int", "n")]);
    let c = desc("void", "gamma", vec![]);
    let table = vec![a, b, c];
    let header = emit_header("/* api */", &table);
    let implementation = emit_implementation("/* impl */", &table);
    assert_eq!(header.matches("#pragma push_macro(").count(), 3);
    assert_eq!(header.matches("#undef ").count(), 3);
    assert_eq!(header.matches("#pragma pop_macro(").count(), 3);
    assert_eq!(implementation.matches("#pragma push_macro(").count(), 3);
    assert_eq!(implementation.matches("#pragma pop_macro(").count(), 3);
    let alpha_at = header.find("void alpha();").unwrap();
    let beta_at = header.find("int beta(int n);").unwrap();
    let gamma_at = header.find("void gamma();").unwrap();
    assert!(alpha_at < beta_at && beta_at < gamma_at);
}

#[test]
fn reordering_keeps_block_content() {
    let mk = || {
        vec![
            desc("void", "alpha", vec![]),
            desc("int", "beta", vec![param("int", "n")]),
        ]
    };
    let forward = mk();
    let mut backward = mk();
    backward.reverse();
    let block_of = |t: &Vec<MacroFunctionDesc>, i: usize| emit_header_block(&t[i]);
    assert_eq!(block_of(&forward, 0), block_of(&backward, 1));
    assert_eq!(block_of(&forward, 1), block_of(&backward, 0));
}

#[test]
fn emission_is_idempotent() {
    let table = vec![
        desc("void", "foo", vec![]),
        desc("int", "bar", vec![param("int", "x"), param("int", "y")]),
    ];
    let h1 = emit_header("/* api */", &table);
    let h2 = emit_header("/* api */", &table);
    let c1 = emit_implementation("/* impl */", &table);
    let c2 = emit_implementation("/* impl */", &table);
    assert_eq!(h1, h2);
    assert_eq!(c1, c2);
}

#[test]
fn param_and_arg_lists() {
    let params = vec![param("duk_context *", "ctx"), param("duk_uint_t", "flags")];
    assert_eq!(emit_param_list(&params), "duk_context * ctx, duk_uint_t flags");
    assert_eq!(emit_arg_list(&params), "ctx, flags");
    let empty: Vec<Param> = vec![];
    assert_eq!(emit_param_list(&empty), "");
    assert_eq!(emit_arg_list(&empty), "");
}

#[test]
fn empty_table_emits_only_first_line() {
    let table: Vec<MacroFunctionDesc> = vec![];
    assert_eq!(emit_header("/* api */", &table), "/* api */\n");
    assert_eq!(emit_implementation("/* impl */", &table), "/* impl */\n");
}
