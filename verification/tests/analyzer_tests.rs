use pydeadcode::analyzer::DeadCodeAnalyzer;
use pydeadcode::analyzer::DeadCodeItem;

fn scan(sources: &[(&str, &str)]) -> Vec<DeadCodeItem> {
    let mut analyzer = DeadCodeAnalyzer::new(60, Vec::new());
    for (file, content) in sources {
        analyzer
            .analyze_source(&file.to_string(), &content.to_string())
            .expect("source should parse");
    }
    analyzer.get_results()
}

#[test]
fn definition_discovery() {
    let results = scan(&[("a.py", "def f():\n    pass\n")]);
    assert_eq!(results.len(), 1);
    assert_eq!(results[0].name, "f");
    assert_eq!(results[0].file, "a.py");
    assert_eq!(results[0].line, 1);
    assert_eq!(results[0].code_type, "function/class");
    assert_eq!(results[0].confidence, 80);
    assert_eq!(results[0].size, 0);
}

#[test]
fn definition_line_is_def_line() {
    let results = scan(&[("a.py", "x = 1\n\ndef late():\n    pass\n")]);
    assert_eq!(results.len(), 1);
    assert_eq!(results[0].name, "late");
    assert_eq!(results[0].line, 3);
}

#[test]
fn decorated_definition() {
    let results = scan(&[("a.py", "@decorator\ndef handler():\n    pass\n")]);
    assert_eq!(results.len(), 1);
    assert_eq!(results[0].name, "handler");
    assert_eq!(results[0].line, 2);
}

#[test]
fn class_definition_discovered() {
    let results = scan(&[("a.py", "class Widget:\n    pass\n")]);
    assert_eq!(results.len(), 1);
    assert_eq!(results[0].name, "Widget");
    assert_eq!(results[0].line, 1);
    assert_eq!(results[0].code_type, "function/class");
}

#[test]
fn usage_in_unrelated_file_suppresses() {
    let results = scan(&[("a.py", "def f():\n    pass\n"), ("b.py", "y = f\n")]);
    assert!(results.is_empty());
}

#[test]
fn usage_as_attribute_component_suppresses() {
    let results = scan(&[("a.py", "def f():\n    pass\n"), ("b.py", "y = obj.f\n")]);
    assert!(results.is_empty());
}

#[test]
fn usage_in_own_body_suppresses() {
    let results = scan(&[("a.py", "def again():\n    again()\n")]);
    assert!(results.is_empty());
}

#[test]
fn underscore_convention() {
    let results = scan(&[("a.py", "def _hidden():\n    pass\n")]);
    assert!(results.is_empty());
}

#[test]
fn underscore_class_suppressed() {
    let results = scan(&[("a.py", "class _Private:\n    pass\n")]);
    assert!(results.is_empty());
}

#[test]
fn multiple_definition_sites() {
    let results = scan(&[
        ("a.py", "def dup():\n    pass\n"),
        ("b.py", "x = 1\n\ndef dup():\n    pass\n"),
    ]);
    assert_eq!(results.len(), 2);
    assert_eq!(results[0].name, "dup");
    assert_eq!(results[0].file, "a.py");
    assert_eq!(results[0].line, 1);
    assert_eq!(results[1].name, "dup");
    assert_eq!(results[1].file, "b.py");
    assert_eq!(results[1].line, 3);
}

#[test]
fn empty_corpus() {
    let analyzer = DeadCodeAnalyzer::new(60, Vec::new());
    assert!(analyzer.get_results().is_empty());
}

#[test]
fn end_to_end_example() {
    let results = scan(&[("a.py", "def helper():\n    pass\n\ndef main():\n    helper()\n")]);
    assert_eq!(results.len(), 1);
    assert_eq!(results[0].name, "main");
    assert_eq!(results[0].line, 4);
}

#[test]
fn configuration_does_not_filter() {
    let mut analyzer = DeadCodeAnalyzer::new(100, vec!["a.py", "*"]);
    analyzer
        .analyze_source(&"a.py".to_string(), &"def f():\n    pass\n".to_string())
        .expect("source should parse");
    let results = analyzer.get_results();
    assert_eq!(results.len(), 1);
    assert_eq!(results[0].name, "f");
}

#[test]
fn results_are_stable_across_reads() {
    let mut analyzer = DeadCodeAnalyzer::new(60, Vec::new());
    analyzer
        .analyze_source(&"a.py".to_string(), &"def f():\n    pass\n".to_string())
        .expect("source should parse");
    let first = analyzer.get_results();
    let second = analyzer.get_results();
    assert_eq!(first.len(), second.len());
    for (a, b) in first.iter().zip(second.iter()) {
        assert_eq!(a.name, b.name);
        assert_eq!(a.file, b.file);
        assert_eq!(a.line, b.line);
    }
}

#[test]
fn class_usage_suppresses() {
    let results = scan(&[("a.py", "class A:\n    pass\n\nx = A()\n")]);
    assert!(results.is_empty());
}

#[test]
fn decorated_class_definition() {
    let results = scan(&[("a.py", "@register\nclass C:\n    pass\n")]);
    assert_eq!(results.len(), 1);
    assert_eq!(results[0].name, "C");
    assert_eq!(results[0].line, 2);
}

#[test]
fn syntax_errors_still_yield_a_tree() {
    let mut analyzer = DeadCodeAnalyzer::new(60, Vec::new());
    let outcome = analyzer.analyze_source(&"a.py".to_string(), &"def broken(:\n".to_string());
    assert!(outcome.is_ok());
}
