use databend_query_core::union_all::expand_union_all;

#[test]
fn test_union_all_registers_right_main_then_sources() {
    let mut pipelines = vec!["left-source"];
    let r: Result<(), String> = expand_union_all(&mut pipelines, "right-main", vec!["right-src-1", "right-src-2"], Ok(true));
    assert!(r.is_ok());
    assert_eq!(pipelines, vec!["left-source", "right-main", "right-src-1", "right-src-2"]);
}

#[test]
fn test_union_all_error_registers_nothing() {
    let mut pipelines = vec!["left-source"];
    let r = expand_union_all(&mut pipelines, "right-main", vec!["right-src"], Err("no pipe".to_string()));
    assert_eq!(r, Err("no pipe".to_string()));
    assert_eq!(pipelines, vec!["left-source"]);
}
