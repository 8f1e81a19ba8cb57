//! The Config Composer on concrete Configuration Records.

use create_rzpack::prompts::Prompts;
use create_rzpack::render::config::{
    commit_lint_config, gitignore, nodemon, readme, rzpack_config,
};
use create_rzpack::render::package::create;

fn record(
    template: &str,
    jts_loader: &str,
    js_lint: &str,
    css_scoped: bool,
    style_lint: bool,
    commit_lint: bool,
    rs: bool,
) -> Prompts {
    Prompts {
        project_name: "demo".to_string(),
        overwrite: false,
        package_name: "demo".to_string(),
        template: template.to_string(),
        jts_loader: jts_loader.to_string(),
        css_scoped,
        js_lint: js_lint.to_string(),
        style_lint,
        commit_lint,
        rs,
        root: "/tmp/demo".to_string(),
    }
}

#[test]
fn typescript_only_record_with_all_toggles_off() {
    let o = record("react_ts", "", "", false, false, false, false);
    let manifest = create(&o, Some("1.0.0".to_string()), None);
    assert!(!manifest.contains("\"antd\""));
    assert!(!manifest.contains("@ant-design/icons"));
    assert!(!manifest.contains("axios"));
    assert!(!manifest.contains("\"lint-staged\": {"));
    assert!(!manifest.contains("\"config\""));
    assert!(!manifest.contains("\"cz\""));
    assert!(!manifest.contains("commit-msg"));
    assert!(!manifest.contains("\"dev:rs\""));
    let bundler = rzpack_config(&o);
    assert!(!bundler.contains("antdTheme"));
    assert!(!bundler.contains("lessVars"));
    assert!(!bundler.contains("assets"));
    assert!(!bundler.contains("JSX_TOOLS"));
}

#[test]
fn admin_record_with_lint_toggles_on() {
    let o = record("admin", "swc", "eslint", true, true, true, false);
    let manifest = create(&o, Some("1.0.0".to_string()), Some("2.0.0".to_string()));
    assert!(manifest.contains("\"axios\""));
    assert!(manifest.contains("\"zustand\""));
    assert!(manifest.contains("\"@types/lodash-es\""));
    assert!(manifest.contains("\"eslint\": \"^8.46.0\""));
    assert!(manifest.contains("\"eslint-config-rzpack\": \"^2.0.0\""));
    assert!(manifest.contains("\"stylelint\": \"^14.16.1\""));
    assert!(manifest.contains("\"postcss-less\""));
    assert!(manifest.contains("\"@commitlint/cli\""));
    assert!(manifest.contains("\"commit-msg\""));
    assert!(manifest.contains("\"config\""));
    assert!(manifest.contains("\"src/**/*.{js,jsx,ts,tsx}\""));
    assert!(manifest.contains("\"src/**/*.{less,css}\""));
    assert!(manifest.contains("\"stylelint --fix\""));
    let bundler = rzpack_config(&o);
    assert!(bundler.contains("import { defineConfig, JSX_TOOLS} from 'rzpack'"));
    assert!(bundler.contains("\"jsxTools\": JSX_TOOLS.SWC"));
    assert!(bundler.contains("\"cssScoped\": true"));
    assert!(bundler.contains("antdTheme"));
    assert!(bundler.contains("lessVars"));
}

#[test]
fn version_lookup_failures_fall_back_to_the_documented_constants() {
    let o = record("antd", "babel", "eslint", false, false, false, false);
    let manifest = create(&o, None, None);
    assert!(manifest.contains("\"rzpack\": \"^0.1.13\""));
    assert!(manifest.contains("\"eslint-config-rzpack\": \"^0.0.1\""));
}

#[test]
fn manifest_carries_the_fixed_entries() {
    let o = record("antd", "babel", "", false, false, false, true);
    let manifest = create(&o, Some("0.2.0".to_string()), None);
    assert!(manifest.contains("\"name\": \"demo\""));
    assert!(manifest.contains("\"version\": \"0.0.1\""));
    assert!(manifest.contains("\"dev\": \"rzpack\""));
    assert!(manifest.contains("\"dev:rs\": \"nodemon\""));
    assert!(manifest.contains("\"rzpack\": \"^0.2.0\""));
    assert!(manifest.contains("\"license\": \"MIT\""));
    assert!(manifest.contains("\"pre-commit\": \"npx lint-staged\""));
    assert!(!manifest.contains("\"lint-staged\": {"));
}

#[test]
fn rome_gets_its_own_package_and_staged_commands() {
    let o = record("antd", "babel", "rome", false, false, false, false);
    let manifest = create(&o, None, None);
    assert!(manifest.contains("\"rome\": \"^12.1.3\""));
    assert!(!manifest.contains("\"prettier\""));
    assert!(manifest.contains("\"rome check\""));
    assert!(manifest.contains("\"rome format --write\""));
}

#[test]
fn gitignore_is_fixed() {
    assert_eq!(
        gitignore(),
        "node_modules\nbin\n*.log\n.vscode\n.DS_Store\ndist"
    );
}

#[test]
fn nodemon_watches_the_bundler_config() {
    assert_eq!(
        nodemon(),
        "{\n  \"watch\": [\n    \"rzpack.config.ts\"\n  ],\n  \"exec\": \"npm run dev\"\n}"
    );
}

#[test]
fn commit_lint_documents_have_the_fixed_shape() {
    let (lint, cz) = commit_lint_config();
    assert_eq!(
        lint,
        "module.exports = {\n  extends: ['@commitlint/config-conventional', 'cz'],\n}\n"
    );
    assert!(cz.starts_with("module.exports = {"));
    assert!(cz.contains("\"subjectLimit\": 100"));
    assert!(cz.contains("\"value\": \"feat\""));
    assert!(cz.contains("\"value\": \"revert\""));
    assert!(cz.contains("\"skipQuestions\""));
}

#[test]
fn readme_follows_the_linter_choice() {
    let eslint = readme(&record("antd", "babel", "eslint", false, false, false, false));
    assert!(eslint.starts_with("# demo\n\n"));
    assert!(eslint.contains("- `ESLint`\n- `Prettier - Code formatter`\n"));
    assert!(eslint.contains("### 配置 Eslint+Prettier"));
    assert!(!eslint.contains("### 配置 Rome"));
    assert!(!eslint.contains("- `Stylelint`"));

    let rome = readme(&record("antd", "babel", "rome", false, true, false, false));
    assert!(rome.contains("- `Rome`\n"));
    assert!(rome.contains("- `Stylelint`\n"));
    assert!(rome.contains("### 配置 Rome"));
    assert!(rome.contains("\"editor.defaultFormatter\": \"rome.rome\""));
    assert!(!rome.contains("### 配置 Eslint+Prettier"));

    let none = readme(&record("antd", "babel", "", false, false, false, false));
    assert!(!none.contains("- `Rome`"));
    assert!(!none.contains("- `ESLint`"));
    assert!(none.contains("- `CSS Modules`\n"));
}
