use cr_prep::{collect, process_file, render_section, Candidate, FileFault, Skipped};

fn readable(path: &str, content: &str) -> Candidate {
    Candidate { path: path.to_string(), content: Ok(content.to_string()) }
}

fn unreadable(path: &str) -> Candidate {
    Candidate { path: path.to_string(), content: Err("No such file or directory".to_string()) }
}

#[test]
fn test_process_file() {
    let base_path = "/tmp/cr_prep_case";
    let file_path = "/tmp/cr_prep_case/test.rs";

    let test_content = "fn main() {\n    println!(\"Hello\");\n}\n";

    let result = process_file(file_path, base_path, test_content).unwrap();
    let expected = format!("## test.rs\n```\n{}```\n\n", test_content);

    assert_eq!(result, expected);
}

#[test]
fn process_file_outside_base_fails() {
    assert_eq!(process_file("/elsewhere/test.rs", "/tmp/base", "x"), Err(FileFault::OutsideBase));
    assert_eq!(process_file("/tmp/basement/a.rs", "/tmp/base", "x"), Err(FileFault::OutsideBase));
}

#[test]
fn process_file_uses_the_relative_path() {
    let r = process_file("root/src/deep/mod.rs", "root", "x\n").unwrap();
    assert_eq!(r, "## src/deep/mod.rs\n```\nx\n```\n\n");
    let r = process_file("root/src/deep/mod.rs", "root/src/", "x\n").unwrap();
    assert_eq!(r, "## deep/mod.rs\n```\nx\n```\n\n");
}

#[test]
fn render_section_exact() {
    assert_eq!(render_section("a/b.rs", "fn f() {}\n"), "## a/b.rs\n```\nfn f() {}\n```\n\n");
    assert_eq!(render_section("x.py", ""), "## x.py\n```\n```\n\n");
}

#[test]
fn single_target_beside_other_file() {
    let cands = vec![readable("base/a/b.rs", "fn main() {}\n"), readable("base/a/c.txt", "ignore me")];
    let r = collect("base", &cands);
    assert_eq!(r.output, "## a/b.rs\n```\nfn main() {}\n```\n\n");
    assert!(!r.output.contains("c.txt"));
    assert!(!r.output.contains("ignore me"));
    assert!(r.skipped.is_empty());
}

#[test]
fn content_is_kept_verbatim() {
    let content = "/// ```\n/// let x = 1;\n/// ```\nfn f() {}\n";
    let cands = vec![readable("b/one.js", "a\n"), readable("b/docs.rs", content), readable("b/z.go", "z\n")];
    let r = collect("b", &cands);
    let block = format!("## docs.rs\n```\n{}```\n\n", content);
    assert!(r.output.contains(&block));
    assert_eq!(
        r.output,
        format!("## one.js\n```\na\n```\n\n{}## z.go\n```\nz\n```\n\n", block)
    );
}

#[test]
fn no_target_files_give_empty_output() {
    let r = collect("base", &vec![]);
    assert_eq!(r.output, "");
    assert!(r.skipped.is_empty());
    let cands = vec![readable("base/README.md", "# hi\n"), readable("base/x.RS", "no"), unreadable("base/Makefile")];
    let r = collect("base", &cands);
    assert_eq!(r.output, "");
    assert!(r.skipped.is_empty());
}

#[test]
fn unreadable_target_is_skipped() {
    let cands = vec![readable("d/a.rs", "a\n"), unreadable("d/gone.rs"), readable("d/c.ts", "c\n")];
    let r = collect("d", &cands);
    assert_eq!(r.output, "## a.rs\n```\na\n```\n\n## c.ts\n```\nc\n```\n\n");
    assert!(!r.output.contains("gone.rs"));
    assert_eq!(r.skipped, vec![Skipped { index: 1, fault: FileFault::Unreadable }]);
}

#[test]
fn target_outside_base_is_skipped() {
    let cands = vec![readable("other/a.py", "a\n"), readable("d/b.py", "b\n")];
    let r = collect("d", &cands);
    assert_eq!(r.output, "## b.py\n```\nb\n```\n\n");
    assert_eq!(r.skipped, vec![Skipped { index: 0, fault: FileFault::OutsideBase }]);
}

#[test]
fn order_of_the_walk_is_kept() {
    let cands = vec![readable("w/z.rs", "1"), readable("w/a.rs", "2"), readable("w/m/k.go", "3")];
    let r = collect("w", &cands);
    assert_eq!(
        r.output,
        "## z.rs\n```\n1```\n\n## a.rs\n```\n2```\n\n## m/k.go\n```\n3```\n\n"
    );
}
