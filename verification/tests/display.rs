use lambstock::Func;
use lambstock::FunctionRecord;
use lambstock::Sort;
use lambstock::Tag;
use lambstock::TagFilter;
use lambstock::filters;
use lambstock::parse_key_val;
use lambstock::rows;
use lambstock::sort_funcs;

fn record(name: &str, runtime: &str, size: Option<i64>) -> FunctionRecord {
    FunctionRecord {
        function_name: Some(name.to_string()),
        function_arn: Some(format!("arn:{}", name)),
        runtime: Some(runtime.to_string()),
        code_size: size,
    }
}

fn func(name: &str, runtime: &str, size: Option<i64>) -> Func {
    Func { config: record(name, runtime, size), tags: Vec::new() }
}

fn names(funcs: &[Func]) -> Vec<String> {
    funcs.iter().map(|f| f.name().unwrap()).collect()
}

#[test]
fn func_human_size() {
    assert_eq!(
        "1 KB",
        Func {
            config: FunctionRecord {
                function_name: None,
                function_arn: None,
                runtime: None,
                code_size: Some(1024),
            },
            tags: Vec::new(),
        }
        .human_size()
    )
}

#[test]
fn cli_tags_to_filters() {
    let filters = filters(vec![("foo".into(), "bar".into())]);
    assert_eq!(
        filters,
        vec![TagFilter { key: Some("foo".into()), values: Some(vec!["bar".into()]) }]
    )
}

#[test]
fn no_tags_no_filters() {
    assert!(filters(Vec::new()).is_empty());
}

#[test]
fn zero_size_renders_stably() {
    assert_eq!("0 B", func("f", "r", Some(0)).human_size());
    assert_eq!("0 B", func("f", "r", None).human_size());
}

#[test]
fn sort_by_codesize_numeric_ascending() {
    let mut funcs = vec![
        func("large", "a", Some(300)),
        func("sizeless", "b", None),
        func("small", "c", Some(200)),
    ];
    sort_funcs(&mut funcs, Sort::CodeSize);
    assert_eq!(names(&funcs), vec!["sizeless", "small", "large"]);
}

#[test]
fn sort_by_name_lexicographic() {
    let mut funcs = vec![
        func("beta", "x", Some(1)),
        func("alpha", "y", Some(2)),
        func("gamma", "z", Some(3)),
    ];
    sort_funcs(&mut funcs, Sort::Name);
    assert_eq!(names(&funcs), vec!["alpha", "beta", "gamma"]);
}

#[test]
fn sort_by_runtime_lexicographic() {
    let mut funcs = vec![
        func("one", "python3.8", Some(1)),
        func("two", "go1.x", Some(2)),
        func("three", "nodejs12.x", Some(3)),
    ];
    sort_funcs(&mut funcs, Sort::Runtime);
    assert_eq!(names(&funcs), vec!["two", "three", "one"]);
}

#[test]
fn rows_are_tab_separated() {
    let f = Func {
        config: record("f1", "rust", Some(1024)),
        tags: vec![Tag { key: "env".into(), value: "prod".into() }],
    };
    assert_eq!(rows(&vec![f]), vec!["f1\trust\t1 KB".to_string()]);
}

#[test]
fn sort_selector_spellings() {
    assert_eq!(Sort::variants(), ["name", "runtime", "codesize"]);
    assert_eq!(Sort::from_str("name"), Ok(Sort::Name));
    assert_eq!(Sort::from_str("runtime"), Ok(Sort::Runtime));
    assert_eq!(Sort::from_str("codesize"), Ok(Sort::CodeSize));
    assert_eq!(Sort::from_str("Name"), Err("no match"));
    assert_eq!(Sort::from_str(""), Err("no match"));
    assert_eq!(Sort::Runtime.label(), "runtime");
    assert_eq!(Sort::Name.label(), "name");
    assert_eq!(Sort::CodeSize.label(), "codesize");
}

#[test]
fn parse_key_val_splits_on_first_equals() {
    assert_eq!(parse_key_val("foo=bar").unwrap(), ("foo".to_string(), "bar".to_string()));
    assert_eq!(parse_key_val("a=b=c").unwrap(), ("a".to_string(), "b=c".to_string()));
    assert_eq!(parse_key_val("=v").unwrap(), ("".to_string(), "v".to_string()));
    assert_eq!(parse_key_val("k=").unwrap(), ("k".to_string(), "".to_string()));
}

#[test]
fn parse_key_val_rejects_missing_equals() {
    let err = parse_key_val("nobueno").unwrap_err();
    assert_eq!(err, "invalid KEY=value: no `=` found in `nobueno`");
}
