//! The Selector on concrete stores and group lists.

use create_rzpack::render::template::copy;

fn store() -> Vec<String> {
    vec![
        "base/src/main.tsx".to_string(),
        "base/package.nope".to_string(),
        "react_ts/src/app.tsx".to_string(),
        "antd/src/app.tsx".to_string(),
        "antd/src/theme/index.ts".to_string(),
        "eslint/.eslintrc".to_string(),
        "stylelint/.stylelintrc".to_string(),
    ]
}

fn groups(names: &[&str]) -> Vec<String> {
    names.iter().map(|n| n.to_string()).collect()
}

#[test]
fn selects_only_requested_groups_and_strips_the_prefix() {
    let out = copy(groups(&["base", "react_ts"]), &store());
    assert_eq!(
        out,
        vec![
            ("src/main.tsx".to_string(), "base/src/main.tsx".to_string()),
            ("package.nope".to_string(), "base/package.nope".to_string()),
            ("src/app.tsx".to_string(), "react_ts/src/app.tsx".to_string()),
        ]
    );
}

#[test]
fn later_group_wins_on_the_same_relative_path() {
    let out = copy(groups(&["react_ts", "antd"]), &store());
    let app = out.iter().find(|(rel, _)| rel == "src/app.tsx").unwrap();
    assert_eq!(app.1, "antd/src/app.tsx");
    let out2 = copy(groups(&["antd", "react_ts"]), &store());
    let app2 = out2.iter().find(|(rel, _)| rel == "src/app.tsx").unwrap();
    assert_eq!(app2.1, "react_ts/src/app.tsx");
    assert_ne!(out, out2);
}

#[test]
fn reordering_groups_without_collisions_selects_the_same_set() {
    let mut a = copy(groups(&["base", "eslint", "stylelint"]), &store());
    let mut b = copy(groups(&["stylelint", "base", "eslint"]), &store());
    a.sort();
    b.sort();
    assert_eq!(a, b);
}

#[test]
fn unknown_group_names_are_silently_empty() {
    let out = copy(groups(&["missing"]), &store());
    assert!(out.is_empty());
    let out2 = copy(groups(&[]), &store());
    assert!(out2.is_empty());
    let out3 = copy(groups(&["base", "missing"]), &store());
    assert_eq!(out3.len(), 2);
}

#[test]
fn relative_paths_stay_inside_the_destination() {
    let out = copy(groups(&["base", "antd", "eslint", "stylelint"]), &store());
    for (rel, _) in out {
        assert!(!rel.starts_with('/'));
        assert!(!rel.split('/').any(|c| c == ".."));
    }
}

#[test]
fn a_group_level_file_maps_to_the_empty_relative_path() {
    let st = vec!["base".to_string()];
    let out = copy(groups(&["base"]), &st);
    assert_eq!(out, vec![("".to_string(), "base".to_string())]);
}
