//! The whole composition run, and its determinism.

use create_rzpack::engine::compose;
use create_rzpack::prompts::Prompts;

fn record(commit_lint: bool, rs: bool, style_lint: bool) -> Prompts {
    Prompts {
        project_name: "demo".to_string(),
        overwrite: false,
        package_name: "demo".to_string(),
        template: "antd".to_string(),
        jts_loader: "babel".to_string(),
        css_scoped: true,
        js_lint: "eslint".to_string(),
        style_lint,
        commit_lint,
        rs,
        root: "/tmp/demo".to_string(),
    }
}

fn store() -> Vec<String> {
    vec![
        "base/src/main.tsx".to_string(),
        "antd/src/app.tsx".to_string(),
        "eslint/.eslintrc".to_string(),
        "stylelint/.stylelintrc".to_string(),
    ]
}

#[test]
fn all_conditional_documents_appear_when_their_toggles_are_on() {
    let plan = compose(&record(true, true, true), &store(), None, None);
    let names: Vec<&str> = plan.documents.iter().map(|(n, _)| n.as_str()).collect();
    assert_eq!(
        names,
        vec![
            "package.json",
            "rzpack.config.ts",
            ".gitignore",
            "commitlint.config.js",
            "cz.config.js",
            "nodemon.json",
            "README.md",
        ]
    );
    let rels: Vec<&str> = plan.assets.iter().map(|(r, _)| r.as_str()).collect();
    assert_eq!(rels, vec!["src/main.tsx", "src/app.tsx", ".eslintrc", ".stylelintrc"]);
}

#[test]
fn conditional_documents_stay_away_when_their_toggles_are_off() {
    let plan = compose(&record(false, false, false), &store(), None, None);
    let names: Vec<&str> = plan.documents.iter().map(|(n, _)| n.as_str()).collect();
    assert_eq!(
        names,
        vec!["package.json", "rzpack.config.ts", ".gitignore", "README.md"]
    );
    let rels: Vec<&str> = plan.assets.iter().map(|(r, _)| r.as_str()).collect();
    assert!(!rels.contains(&".stylelintrc"));
}

#[test]
fn documents_come_after_assets_so_they_win_at_the_same_path() {
    let mut st = store();
    st.push("base/package.json".to_string());
    let plan = compose(&record(false, false, false), &st, None, None);
    assert!(plan
        .assets
        .iter()
        .any(|(rel, src)| rel == "package.json" && src == "base/package.json"));
    assert!(plan.documents.iter().any(|(n, _)| n == "package.json"));
}

#[test]
fn two_runs_with_equal_inputs_are_byte_identical() {
    let a = compose(&record(true, true, true), &store(), Some("1.2.3".to_string()), None);
    let b = compose(&record(true, true, true), &store(), Some("1.2.3".to_string()), None);
    assert_eq!(a.assets, b.assets);
    assert_eq!(a.documents, b.documents);
}
