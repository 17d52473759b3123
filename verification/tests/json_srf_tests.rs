use databend_query_core::jsonb_binary::jsonb_check;
use databend_query_core::json_srf::{
    flatten_arguments, flatten_eval, json_array_elements_eval, json_each_eval, json_path_query_eval, json_path_valid,
    path_quotes_closed_check, srf_signature,
    unnest_variant_array, unnest_variant_obj, ArgValue, FlattenColumns, FlattenGenerator, FlattenMode, ScalarValue,
    SrfName, SrfType,
};

fn jsonb(text: &str) -> Vec<u8> {
    jsonb::parse_value(text.as_bytes()).unwrap().to_vec()
}

fn text_of(value: &[u8]) -> String {
    jsonb::to_string(value)
}

fn json_column(texts: &[&str]) -> ArgValue {
    ArgValue::Column(texts.iter().map(|t| ScalarValue::Json(jsonb(t))).collect())
}

fn text_arg(s: &str) -> ArgValue {
    ArgValue::Scalar(ScalarValue::Text(s.to_string()))
}

fn columns_of(args: Vec<ArgValue>, params: Vec<i64>) -> FlattenColumns {
    let mut max = vec![0usize];
    let mut out = flatten_eval(&args, 1, &params, &mut max).ok().unwrap();
    assert_eq!(out.len(), 1);
    let (cols, n) = out.remove(0);
    let cols = cols.unwrap();
    assert_eq!(n, cols.seq.len());
    assert_eq!(max[0], n);
    cols
}

#[test]
fn flatten_generator_is_created_with_its_settings() {
    let g = FlattenGenerator::create(true, false, FlattenMode::Array);
    assert!(g.outer);
    assert!(!g.recursive);
    assert_eq!(g.mode, FlattenMode::Array);
}

#[test]
fn flatten_array_rows() {
    let cols = columns_of(vec![json_column(&["[10,20]"])], vec![]);
    assert_eq!(cols.seq, vec![Some(1), Some(1)]);
    assert_eq!(cols.key, vec![None, None]);
    assert_eq!(cols.path, vec![Some("[0]".to_string()), Some("[1]".to_string())]);
    assert_eq!(cols.index, vec![Some(0), Some(1)]);
    assert_eq!(text_of(cols.value[0].as_ref().unwrap()), "10");
    assert_eq!(text_of(cols.value[1].as_ref().unwrap()), "20");
    assert_eq!(cols.this[0].as_ref().unwrap(), &jsonb("[10,20]"));
}

#[test]
fn flatten_object_rows_in_key_order() {
    let cols = columns_of(vec![json_column(&["{\"a\":1,\"b\":\"x\"}"])], vec![]);
    assert_eq!(cols.key, vec![Some("a".to_string()), Some("b".to_string())]);
    assert_eq!(cols.path, vec![Some("a".to_string()), Some("b".to_string())]);
    assert_eq!(cols.index, vec![None, None]);
    assert_eq!(text_of(cols.value[1].as_ref().unwrap()), "\"x\"");
}

#[test]
fn flatten_recursive_rows_follow_their_parent() {
    let args = vec![
        json_column(&["{\"a\":[1,2],\"b\":3}"]),
        ArgValue::Scalar(ScalarValue::Null),
        ArgValue::Scalar(ScalarValue::Bool(false)),
        ArgValue::Scalar(ScalarValue::Bool(true)),
    ];
    let cols = columns_of(args, vec![]);
    assert_eq!(
        cols.path,
        vec![
            Some("a".to_string()),
            Some("a[0]".to_string()),
            Some("a[1]".to_string()),
            Some("b".to_string()),
        ]
    );
    assert_eq!(cols.index, vec![None, Some(0), Some(1), None]);
}

#[test]
fn flatten_outer_gives_one_row_for_nothing() {
    let args = vec![json_column(&["[]"]), ArgValue::Scalar(ScalarValue::Null), ArgValue::Scalar(ScalarValue::Bool(true))];
    let cols = columns_of(args, vec![]);
    assert_eq!(cols.seq, vec![Some(1)]);
    assert_eq!(cols.key, vec![None]);
    assert_eq!(cols.path, vec![None]);
    assert_eq!(cols.index, vec![None]);
    assert_eq!(cols.value, vec![None]);
    assert_eq!(cols.this, vec![None]);
}

#[test]
fn flatten_without_outer_gives_nothing_for_nothing() {
    let cols = columns_of(vec![json_column(&["[]"])], vec![]);
    assert_eq!(cols.seq.len(), 0);
    assert_eq!(cols.key.len(), 0);
}

#[test]
fn flatten_mode_array_skips_objects() {
    let args = vec![
        json_column(&["{\"a\":1}"]),
        ArgValue::Scalar(ScalarValue::Null),
        ArgValue::Scalar(ScalarValue::Null),
        ArgValue::Scalar(ScalarValue::Null),
        text_arg("ARRAY"),
    ];
    let cols = columns_of(args, vec![]);
    assert_eq!(cols.seq.len(), 0);
}

#[test]
fn flatten_unread_columns_hold_placeholders() {
    let cols = columns_of(vec![json_column(&["{\"a\":1}"])], vec![3]);
    assert_eq!(cols.path, vec![Some("a".to_string())]);
    assert_eq!(cols.key, vec![Some(String::new())]);
    assert_eq!(cols.index, vec![Some(0)]);
    assert_eq!(cols.value, vec![Some(Vec::new())]);
    assert_eq!(cols.this, vec![Some(Vec::new())]);
}

#[test]
fn flatten_columns_have_equal_lengths() {
    let cols = columns_of(vec![json_column(&["[1,[2,3],{\"k\":4}]"])], vec![]);
    let n = cols.seq.len();
    assert_eq!(n, 3);
    assert_eq!(cols.key.len(), n);
    assert_eq!(cols.path.len(), n);
    assert_eq!(cols.index.len(), n);
    assert_eq!(cols.value.len(), n);
    assert_eq!(cols.this.len(), n);
}

#[test]
fn flatten_with_a_path_expands_the_selected_value() {
    let cols = columns_of(vec![json_column(&["{\"a\":[7,8]}"]), text_arg("$.a")], vec![]);
    assert_eq!(cols.path, vec![Some("$.a[0]".to_string()), Some("$.a[1]".to_string())]);
    assert_eq!(text_of(cols.value[0].as_ref().unwrap()), "7");
}

#[test]
fn flatten_of_null_rows() {
    let args = vec![ArgValue::Column(vec![ScalarValue::Null, ScalarValue::Json(jsonb("[1]"))])];
    let mut max = vec![5usize, 0usize];
    let out = flatten_eval(&args, 2, &vec![], &mut max).ok().unwrap();
    assert!(out[0].0.is_none());
    assert_eq!(out[0].1, 0);
    assert_eq!(out[1].1, 1);
    assert_eq!(out[1].0.as_ref().unwrap().seq, vec![Some(2)]);
    assert_eq!(max, vec![5, 1]);
}

#[test]
fn flatten_argument_errors() {
    let args = vec![json_column(&["[]"]), ArgValue::Column(vec![])];
    let e = flatten_arguments(&args).err().unwrap();
    assert_eq!(e, "argument `path` to function FLATTEN needs to be constant");
    let args = vec![json_column(&["[]"]), ArgValue::Scalar(ScalarValue::Null), ArgValue::Column(vec![])];
    let e = flatten_arguments(&args).err().unwrap();
    assert_eq!(e, "argument `outer` to function FLATTEN needs to be constant");
    let args = vec![
        json_column(&["[]"]),
        ArgValue::Scalar(ScalarValue::Null),
        ArgValue::Scalar(ScalarValue::Null),
        ArgValue::Column(vec![]),
    ];
    let e = flatten_arguments(&args).err().unwrap();
    assert_eq!(e, "argument `recursive` to function FLATTEN needs to be constant");
    let args = vec![
        json_column(&["[]"]),
        ArgValue::Scalar(ScalarValue::Null),
        ArgValue::Scalar(ScalarValue::Null),
        ArgValue::Scalar(ScalarValue::Null),
        ArgValue::Column(vec![]),
    ];
    let e = flatten_arguments(&args).err().unwrap();
    assert_eq!(e, "argument `mode` to function FLATTEN needs to be constant");
    let args = vec![
        json_column(&["[]"]),
        ArgValue::Scalar(ScalarValue::Null),
        ArgValue::Scalar(ScalarValue::Null),
        ArgValue::Scalar(ScalarValue::Null),
        text_arg("sideways"),
    ];
    let e = flatten_arguments(&args).err().unwrap();
    assert_eq!(e, "Invalid mode \"sideways\"");
    let args = vec![json_column(&["[]"]), text_arg("$$$")];
    let e = flatten_arguments(&args).err().unwrap();
    assert_eq!(e, "Invalid JSON Path \"$$$\"");
}

#[test]
fn flatten_error_is_reported_for_row_zero() {
    let args = vec![json_column(&["[]"]), ArgValue::Column(vec![])];
    let mut max = vec![3usize];
    let e = flatten_eval(&args, 1, &vec![], &mut max).err().unwrap();
    assert_eq!(e.row, 0);
    assert_eq!(max, vec![3]);
}

#[test]
fn flatten_modes_in_any_case() {
    for (text, mode) in [("Object", FlattenMode::Object), ("array", FlattenMode::Array), ("BOTH", FlattenMode::Both)] {
        let args = vec![
            json_column(&["[]"]),
            ArgValue::Scalar(ScalarValue::Null),
            ArgValue::Scalar(ScalarValue::Bool(true)),
            ArgValue::Scalar(ScalarValue::Bool(true)),
            text_arg(text),
        ];
        let (path, g) = flatten_arguments(&args).ok().unwrap();
        assert!(path.is_none());
        assert!(g.outer && g.recursive);
        assert_eq!(g.mode, mode);
    }
}

#[test]
fn array_elements_of_rows() {
    let args = vec![ArgValue::Column(vec![
        ScalarValue::Json(jsonb("[1,2,3]")),
        ScalarValue::Null,
        ScalarValue::Json(jsonb("{\"a\":1}")),
        ScalarValue::Json(jsonb("[]")),
    ])];
    let mut max = vec![0usize, 7, 0, 0];
    let out = json_array_elements_eval(&args, 4, &mut max);
    assert_eq!(out[0].1, 3);
    let vals = out[0].0.as_ref().unwrap();
    assert_eq!(text_of(&vals[2]), "3");
    assert!(out[1].0.is_none() && out[2].0.is_none() && out[3].0.is_none());
    assert_eq!(max, vec![3, 7, 0, 0]);
}

#[test]
fn unnest_array_directly() {
    let mut max = vec![1usize];
    let (vals, n) = unnest_variant_array(&jsonb("[true,false]"), 0, &mut max);
    assert_eq!(n, 2);
    assert_eq!(text_of(&vals.unwrap()[1]), "false");
    assert_eq!(max, vec![2]);
    let (vals, n) = unnest_variant_array(&jsonb("5"), 0, &mut max);
    assert!(vals.is_none());
    assert_eq!(n, 0);
}

#[test]
fn each_field_of_an_object() {
    let args = vec![json_column(&["{\"k\":\"v\",\"n\":2}"])];
    let mut max = vec![0usize];
    let out = json_each_eval(&args, 1, &mut max);
    let fields = out[0].0.as_ref().unwrap();
    assert_eq!(out[0].1, 2);
    assert_eq!(fields[0].0, "k");
    assert_eq!(text_of(&fields[0].1), "\"v\"");
    assert_eq!(fields[1].0, "n");
    assert_eq!(max, vec![2]);
    let mut max = vec![0usize];
    let (f, n) = unnest_variant_obj(&jsonb("[1]"), 0, &mut max);
    assert!(f.is_none());
    assert_eq!(n, 0);
}

#[test]
fn path_query_with_a_constant_path() {
    let args = vec![json_column(&["{\"a\":[1,2]}", "{\"b\":1}"]), text_arg("$.a[*]")];
    let mut max = vec![0usize, 0];
    let out = json_path_query_eval(&args, 2, &mut max);
    assert!(out.error.is_none());
    assert_eq!(out.results.len(), 2);
    assert_eq!(out.results[0].1, 2);
    assert_eq!(text_of(&out.results[0].0[1]), "2");
    assert_eq!(out.results[1].1, 0);
    assert_eq!(max, vec![2, 0]);
}

#[test]
fn path_query_with_an_invalid_constant_path() {
    let args = vec![json_column(&["{}"]), text_arg("$$$")];
    let mut max = vec![0usize];
    let out = json_path_query_eval(&args, 1, &mut max);
    assert_eq!(out.results.len(), 0);
    let e = out.error.unwrap();
    assert_eq!(e.row, 0);
    assert_eq!(e.message, "Invalid JSON Path '$$$'");
}

#[test]
fn path_query_stops_at_a_bad_path_in_a_column() {
    let args = vec![
        json_column(&["{\"a\":1}", "{\"a\":2}", "{\"a\":3}"]),
        ArgValue::Column(vec![
            ScalarValue::Text("$.a".to_string()),
            ScalarValue::Text("$$$".to_string()),
            ScalarValue::Text("$.a".to_string()),
        ]),
    ];
    let mut max = vec![0usize, 0, 0];
    let out = json_path_query_eval(&args, 3, &mut max);
    assert_eq!(out.results.len(), 1);
    assert_eq!(text_of(&out.results[0].0[0]), "1");
    let e = out.error.unwrap();
    assert_eq!(e.row, 1);
    assert_eq!(e.message, "Invalid JSON Path '$$$'");
    assert_eq!(max, vec![1, 0, 0]);
}

#[test]
fn signatures_of_the_functions() {
    let nullable_variant = SrfType::Nullable(Box::new(SrfType::Variant));
    match srf_signature(SrfName::JsonEach, &vec![nullable_variant]) {
        Some(SrfType::Tuple(cols)) => assert_eq!(cols.len(), 2),
        _ => panic!("json_each takes a nullable variant"),
    }
    assert!(srf_signature(SrfName::JsonEach, &vec![SrfType::Text]).is_none());
    assert!(srf_signature(SrfName::JsonArrayElements, &vec![SrfType::Variant, SrfType::Variant]).is_none());
    match srf_signature(SrfName::JsonPathQuery, &vec![SrfType::Variant, SrfType::Nullable(Box::new(SrfType::Text))]) {
        Some(SrfType::Tuple(cols)) => assert_eq!(cols.len(), 1),
        _ => panic!("json_path_query takes a variant and a path"),
    }
    match srf_signature(SrfName::Flatten, &vec![SrfType::Variant, SrfType::Text, SrfType::Boolean, SrfType::Null]) {
        Some(SrfType::Tuple(cols)) => assert_eq!(cols.len(), 6),
        _ => panic!("flatten takes these arguments"),
    }
    assert!(srf_signature(SrfName::Flatten, &vec![SrfType::Variant, SrfType::Nullable(Box::new(SrfType::Text))]).is_none());
    assert!(srf_signature(SrfName::Flatten, &vec![]).is_none());
    let six = vec![SrfType::Variant, SrfType::Null, SrfType::Null, SrfType::Null, SrfType::Null, SrfType::Null];
    assert!(srf_signature(SrfName::Flatten, &six).is_none());
}

#[test]
fn flatten_of_object_with_non_text_key_is_an_error() {
    // an object of one field whose key is encoded as `true`, not as a text
    let bad: Vec<u8> = vec![0x40, 0, 0, 1, 0x40, 0, 0, 0, 0x40, 0, 0, 0];
    let args = vec![ArgValue::Column(vec![ScalarValue::Json(jsonb("[1]")), ScalarValue::Json(bad)])];
    let mut max = vec![0usize, 0usize];
    let e = flatten_eval(&args, 2, &vec![], &mut max).err().unwrap();
    assert_eq!(e.row, 1);
    assert_eq!(e.message, "Invalid JSONB value");
    assert_eq!(max, vec![0, 0]);
}

#[test]
fn well_formed_jsonb_is_recognised() {
    for text in ["1", "-3", "1.5", "\"héllo\"", "null", "true", "[1,[2,{\"a\":3}],\"x\"]", "{\"k\":{\"n\":[]},\"z\":false}", "[]", "{}"] {
        assert!(jsonb_check(&jsonb(text)), "{}", text);
    }
    // a header with nothing after it
    assert!(!jsonb_check(&[0x80]));
    // an array claiming one element, with no entry
    assert!(!jsonb_check(&[0x80, 0, 0, 1]));
    // a string entry whose data is not UTF-8
    assert!(!jsonb_check(&[0x20, 0, 0, 0, 0x10, 0, 0, 1, 0xFF]));
    // an object key that is not a text
    assert!(!jsonb_check(&[0x40, 0, 0, 1, 0x40, 0, 0, 0, 0x40, 0, 0, 0]));
    // text JSON is not binary JSONB
    assert!(!jsonb_check(b"[1,2]"));
    // a number with a bad width
    assert!(!jsonb_check(&[0x20, 0, 0, 0, 0x20, 0, 0, 4, 0x40, 1, 2, 3]));
}

#[test]
fn flatten_of_malformed_binary_is_an_error() {
    let args = vec![ArgValue::Column(vec![ScalarValue::Json(vec![0x80])])];
    let mut max = vec![0usize];
    let e = flatten_eval(&args, 1, &vec![], &mut max).err().unwrap();
    assert_eq!(e.row, 0);
    assert_eq!(e.message, "Invalid JSONB value");
}

#[test]
fn flatten_params_keep_the_rows() {
    let all = columns_of(vec![json_column(&["{\"a\":1,\"b\":[2,3]}"])], vec![]);
    let some = columns_of(vec![json_column(&["{\"a\":1,\"b\":[2,3]}"])], vec![2, 5]);
    assert_eq!(some.seq, all.seq);
    assert_eq!(some.key, all.key);
    assert_eq!(some.value, all.value);
    assert_eq!(some.path.len(), all.path.len());
    assert_eq!(some.index.len(), all.index.len());
    assert_eq!(some.this.len(), all.this.len());
    assert!(some.path.iter().all(|p| p == &Some(String::new())));
    assert!(some.index.iter().all(|i| i == &Some(0)));
    assert!(some.this.iter().all(|t| t == &Some(Vec::new())));
}

#[test]
fn unterminated_quoted_names_are_invalid_paths() {
    assert!(path_quotes_closed_check(br#"$."a"."b""#));
    assert!(path_quotes_closed_check(br#"$."a\"b".c"#));
    assert!(!path_quotes_closed_check(br#"$."abc"#));
    assert!(!path_quotes_closed_check(br#"$:"x"#));
    assert!(!path_quotes_closed_check(br#"$["k"#));
    // an escape cut short by the end stops the reading
    assert!(path_quotes_closed_check(br#"$."a\u12"#));
    assert!(json_path_valid(r#"$."a".b"#));
    assert!(json_path_valid("$.a[0]"));
    assert!(!json_path_valid(r#"$."abc"#));
    assert!(!json_path_valid("$$$"));

    let args = vec![json_column(&["{}"]), text_arg(r#"$."abc"#)];
    let e = flatten_arguments(&args).err().unwrap();
    assert_eq!(e, r#"Invalid JSON Path "$.\"abc""#);

    let args = vec![json_column(&["{\"abc\":1}"]), text_arg(r#"$."abc"#)];
    let mut max = vec![0usize];
    let out = json_path_query_eval(&args, 1, &mut max);
    assert_eq!(out.results.len(), 0);
    let e = out.error.unwrap();
    assert_eq!(e.row, 0);
    assert_eq!(e.message, r#"Invalid JSON Path '$."abc'"#);

    let args = vec![json_column(&["{\"abc\":1}"]), text_arg(r#"$."abc""#)];
    let mut max = vec![0usize];
    let out = json_path_query_eval(&args, 1, &mut max);
    assert!(out.error.is_none());
    assert_eq!(text_of(&out.results[0].0[0]), "1");
}

#[test]
fn every_well_formed_object_flattens() {
    let cols = columns_of(vec![json_column(&["{\"\":1,\"b\":{\"c\":[1,{\"d\":null}]},\"é\":\"x\"}"])], vec![]);
    assert_eq!(cols.seq.len(), 3);
    let mut args = vec![json_column(&["{\"a\":{\"b\":2}}", "[{\"k\":[]},3]"])];
    args.push(ArgValue::Scalar(ScalarValue::Null));
    args.push(ArgValue::Scalar(ScalarValue::Null));
    args.push(ArgValue::Scalar(ScalarValue::Bool(true)));
    args.push(text_arg("both"));
    let mut max = vec![0usize, 0usize];
    let out = flatten_eval(&args, 2, &vec![], &mut max).ok().unwrap();
    assert_eq!(out.len(), 2);
    assert!(out.iter().all(|(c, n)| c.is_some() && *n > 0));
}
