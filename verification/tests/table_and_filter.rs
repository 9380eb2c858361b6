use dukgen::duktape::{default_filter, duktape_table};
use dukgen::emit::emit_header;
use dukgen::filter::{has_prefix, NamePatternFilter};
use dukgen::table::{check_unique_names, MacroFunctionDesc, Param};
use dukgen::text::join;

fn param(ty: &str, name: &str) -> Param {
    Param { ty: ty.to_owned(), name: name.to_owned() }
}

#[test]
fn join_empty_one_many() {
    let empty: Vec<String> = vec![];
    assert_eq!(join(&empty, ", "), "");
    let one = vec!["a".to_owned()];
    assert_eq!(join(&one, ", "), "a");
    let many = vec!["a".to_owned(), "b".to_owned(), "c".to_owned()];
    assert_eq!(join(&many, ", "), "a, b, c");
    assert_eq!(join(&many, ""), "abc");
}

#[test]
fn unique_names_accepts_distinct() {
    let table = vec![
        MacroFunctionDesc { return_type: "void".to_owned(), name: "a".to_owned(), params: vec![] },
        MacroFunctionDesc { return_type: "int".to_owned(), name: "b".to_owned(), params: vec![] },
    ];
    assert!(check_unique_names(&table));
}

#[test]
fn unique_names_rejects_duplicate() {
    let table = vec![
        MacroFunctionDesc { return_type: "void".to_owned(), name: "a".to_owned(), params: vec![] },
        MacroFunctionDesc { return_type: "int".to_owned(), name: "a".to_owned(), params: vec![] },
    ];
    assert!(!check_unique_names(&table));
}

#[test]
fn prefix_matching() {
    assert!(has_prefix("duk_eval", "duk_"));
    assert!(has_prefix("duk_", "duk_"));
    assert!(has_prefix("anything", ""));
    assert!(!has_prefix("duk", "duk_"));
    assert!(!has_prefix("dAk_eval", "duk_"));
    assert!(!has_prefix("DUK_VERSION", "duk_"));
}

#[test]
fn filter_covers_matching_table() {
    let filter = default_filter();
    let table = vec![
        MacroFunctionDesc {
            return_type: "void".to_owned(),
            name: "duk_eval".to_owned(),
            params: vec![param("duk_context *", "ctx")],
        },
    ];
    assert!(filter.covers_table(&table));
}

#[test]
fn filter_rejects_uncovered_name() {
    let filter = default_filter();
    let table = vec![
        MacroFunctionDesc {
            return_type: "void".to_owned(),
            name: "internal_helper".to_owned(),
            params: vec![],
        },
    ];
    assert!(!filter.covers_table(&table));
}

#[test]
fn anchored_patterns() {
    let filter = NamePatternFilter {
        function_prefix: "duk_".to_owned(),
        type_prefix: "duk_".to_owned(),
        constant_prefix: "DUK_".to_owned(),
    };
    assert_eq!(filter.function_pattern(), "^duk_.*");
    assert_eq!(filter.type_pattern(), "^duk_.*");
    assert_eq!(filter.constant_pattern(), "^DUK_.*");
}

#[test]
fn engine_table_is_well_formed() {
    let table = duktape_table();
    assert_eq!(table.len(), 58);
    assert!(check_unique_names(&table));
    assert!(default_filter().covers_table(&table));
}

#[test]
fn engine_table_sample_entries() {
    let table = duktape_table();
    assert_eq!(table[0].return_type, "duk_context *");
    assert_eq!(table[0].name, "duk_create_heap_default");
    assert!(table[0].params.is_empty());
    let eval = table.iter().find(|d| d.name == "duk_eval").unwrap();
    assert_eq!(eval.return_type, "void");
    assert_eq!(eval.params.len(), 1);
    assert_eq!(eval.params[0].ty, "duk_context *");
    assert_eq!(eval.params[0].name, "ctx");
    let pcl = table.iter().find(|d| d.name == "duk_pcompile_lstring_filename").unwrap();
    assert_eq!(pcl.return_type, "duk_int_t");
    assert_eq!(pcl.params.len(), 4);
    assert_eq!(pcl.params[3].name, "len");
}

#[test]
fn engine_header_has_one_block_per_entry() {
    let table = duktape_table();
    let header = emit_header("/* api */", &table);
    assert_eq!(header.matches("#pragma push_macro(").count(), 58);
    assert_eq!(header.matches("#pragma pop_macro(").count(), 58);
    assert!(header.contains("duk_context * duk_create_heap_default();\n"));
    assert!(header.contains(
        "void duk_xmove_top(duk_context * to_ctx, duk_context * from_ctx, duk_idx_t count);\n"
    ));
}
