//! The Configuration Record decisions and the package-name rule.

use create_rzpack::file::resolve_path;
use create_rzpack::log::{blue, bold, cyan, red, yellow};
use create_rzpack::pkg::is_valid_package_name;
use create_rzpack::prompts::{
    get_js_lint_value, get_jts_loader_value, get_prompts, get_template_value, overwrite_dir, Args,
};
use create_rzpack::text::ascii_upper;

#[test]
fn package_name_rule_accepts_plain_names() {
    assert!(is_valid_package_name("demo"));
    assert!(is_valid_package_name("my-app"));
    assert!(is_valid_package_name("a"));
    assert!(is_valid_package_name("0number-first"));
    assert!(is_valid_package_name("~tilde"));
    assert!(is_valid_package_name("name.with_dots~"));
}

#[test]
fn package_name_rule_accepts_scoped_names() {
    assert!(is_valid_package_name("@scope/pkg"));
    assert!(is_valid_package_name("@s0-*~/p"));
    assert!(is_valid_package_name("@a.b_c/d.e_f"));
}

#[test]
fn package_name_rule_rejects_bad_names() {
    assert!(!is_valid_package_name(""));
    assert!(!is_valid_package_name("Demo"));
    assert!(!is_valid_package_name(".start-dot"));
    assert!(!is_valid_package_name("_start-underscore"));
    assert!(!is_valid_package_name("has space"));
    assert!(!is_valid_package_name("@/pkg"));
    assert!(!is_valid_package_name("@scope/"));
    assert!(!is_valid_package_name("@scope"));
    assert!(!is_valid_package_name("@scope/a/b"));
    assert!(!is_valid_package_name("@.bad/p"));
    assert!(!is_valid_package_name("*star-first"));
    assert!(!is_valid_package_name("@ok/*star"));
}

#[test]
fn template_argument_wins_only_when_it_names_a_template() {
    assert_eq!(get_template_value(Some("antd".to_string()), 0), "antd");
    assert_eq!(get_template_value(Some("nope".to_string()), 2), "admin");
    assert_eq!(get_template_value(None, 0), "react_ts");
    assert_eq!(get_template_value(None, 3), "admin_header_menu");
}

#[test]
fn selections_map_to_their_offered_values() {
    assert_eq!(get_jts_loader_value(0), "babel");
    assert_eq!(get_jts_loader_value(1), "esbuild");
    assert_eq!(get_jts_loader_value(2), "swc");
    assert_eq!(get_js_lint_value(0), "eslint");
    assert_eq!(get_js_lint_value(1), "rome");
    assert_eq!(get_js_lint_value(2), "");
}

#[test]
fn overwrite_follows_occupancy_or_force() {
    assert!(!overwrite_dir(false, None, false));
    assert!(!overwrite_dir(false, Some(false), false));
    assert!(overwrite_dir(true, None, true));
    assert!(overwrite_dir(false, Some(true), true));
}

#[test]
fn the_record_collects_the_answers() {
    let args = Args {
        project_name: "demo".to_string(),
        template: Some("admin".to_string()),
        force: None,
    };
    let r = get_prompts(
        args,
        "/home/user",
        "demo".to_string(),
        false,
        false,
        "unused-fallback".to_string(),
        0,
        2,
        0,
        true,
        false,
        true,
        false,
    );
    assert_eq!(r.project_name, "demo");
    assert_eq!(r.package_name, "demo");
    assert_eq!(r.template, "admin");
    assert_eq!(r.jts_loader, "swc");
    assert_eq!(r.js_lint, "eslint");
    assert!(r.css_scoped);
    assert!(!r.style_lint);
    assert!(r.commit_lint);
    assert!(!r.rs);
    assert!(!r.overwrite);
    assert_eq!(r.root, "/home/user/demo");
}

#[test]
fn an_invalid_project_name_takes_the_asked_package_name() {
    let args = Args {
        project_name: "My App".to_string(),
        template: None,
        force: None,
    };
    let r = get_prompts(
        args,
        "/home/user",
        "My App".to_string(),
        false,
        false,
        "my-app".to_string(),
        1,
        0,
        2,
        false,
        false,
        false,
        false,
    );
    assert_eq!(r.package_name, "my-app");
    assert_eq!(r.template, "antd");
    assert_eq!(r.root, "/home/user/My App");
}

#[test]
fn paths_resolve_against_the_base_unless_absolute() {
    assert_eq!(resolve_path("/home/user", "demo"), "/home/user/demo");
    assert_eq!(resolve_path("/home/user/", "demo"), "/home/user/demo");
    assert_eq!(resolve_path("/home/user", "/opt/demo"), "/opt/demo");
    assert_eq!(resolve_path("", "demo"), "demo");
}

#[test]
fn ascii_upper_leaves_other_characters_alone() {
    assert_eq!(ascii_upper("babel"), "BABEL");
    assert_eq!(ascii_upper("swc"), "SWC");
    assert_eq!(ascii_upper("a-Z0 ü"), "A-Z0 ü");
    assert_eq!(ascii_upper(""), "");
}

#[test]
fn styled_text_wraps_in_the_expected_escapes() {
    assert_eq!(bold("hi"), "\u{1b}[1mhi\u{1b}[0m");
    assert_eq!(yellow("hi"), "\u{1b}[38;5;3;1mhi\u{1b}[0m");
    assert_eq!(cyan("hi"), "\u{1b}[38;5;6;1mhi\u{1b}[0m");
    assert_eq!(blue("hi"), "\u{1b}[38;5;4;1mhi\u{1b}[0m");
    assert_eq!(red("hi"), "\u{1b}[38;5;1;1mhi\u{1b}[0m");
}
