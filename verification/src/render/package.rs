//! Composes the package manifest from the Configuration Record.
//!
//! Every function here is a pure derivation; the two external version
//! lookups are taken as arguments (`None` standing for a failed
//! lookup), so the one impure step stays outside the library.

use vstd::prelude::*;

use crate::emit::render;
use crate::json::lemma_view_entries_concat;
use crate::json::{
    has_key, json_insert, keys_unique, lemma_obj_insert, lemma_view_entries, obj_insert,
    view_entries, wf, Json, JsonV,
};
use crate::prompts::Prompts;
use crate::text::{push_str, str_eq};

verus! {

broadcast use crate::json::lemma_view_entries_push, crate::json::lemma_view_items_push;

/// The fixed fallback for the bundler-tool version when the lookup
/// fails.
pub open spec fn rzpack_fallback() -> Seq<char> {
    "0.1.13"@
}

/// The fixed fallback for the linter-preset version when the lookup
/// fails.
pub open spec fn lint_fallback() -> Seq<char> {
    "0.0.1"@
}

/// A caret version range: `^` before the looked-up version, or before
/// the fallback when the lookup failed.
pub open spec fn caret(v: Option<Seq<char>>, fallback: Seq<char>) -> Seq<char> {
    match v {
        Some(s) => seq!['^'] + s,
        None => seq!['^'] + fallback,
    }
}

/// Whether the template belongs to the "admin" family.
pub open spec fn is_admin_template(t: Seq<char>) -> bool {
    t == "admin"@ || t == "admin_header_menu"@
}

/// The `scripts` table: the fixed dev/build/preview entries, a
/// watch-restart script exactly when auto-restart is on, and the
/// commit/release scripts exactly when commit-lint is on.
pub open spec fn scripts_v(rs: bool, commit_lint: bool) -> Seq<(Seq<char>, JsonV)> {
    let base = seq![
        ("dev"@, JsonV::Str("rzpack"@)),
        ("build"@, JsonV::Str("rzpack build"@)),
        ("build:time"@, JsonV::Str("rzpack build --bundle-time"@)),
        ("build:size"@, JsonV::Str("rzpack build --bundle-size"@)),
        ("preview"@, JsonV::Str("rzpack preview"@)),
        ("prepare"@, JsonV::Str("npx simple-git-hooks"@)),
    ];
    let with_rs = if rs {
        base.push(("dev:rs"@, JsonV::Str("nodemon"@)))
    } else {
        base
    };
    if commit_lint {
        with_rs.push(("cz"@, JsonV::Str("git-cz"@))).push(
            ("release"@, JsonV::Str("standard-version"@)),
        )
    } else {
        with_rs
    }
}

/// The git-hooks table: the lint-staged pre-commit hook, and a
/// commit-message hook exactly when commit-lint is on.
pub open spec fn git_hooks_v(commit_lint: bool) -> Seq<(Seq<char>, JsonV)> {
    let base = seq![("pre-commit"@, JsonV::Str("npx lint-staged"@))];
    if commit_lint {
        base.push(("commit-msg"@, JsonV::Str("npx --no -- commitlint --edit $1"@)))
    } else {
        base
    }
}

/// The staged commands for source files, by linter choice.
pub open spec fn js_staged_v(js_lint: Seq<char>) -> JsonV {
    if js_lint == "rome"@ {
        JsonV::Arr(seq![JsonV::Str("rome check"@), JsonV::Str("rome format --write"@)])
    } else {
        JsonV::Arr(seq![JsonV::Str("eslint --fix"@), JsonV::Str("prettier --write"@)])
    }
}

/// The lint-staged table: present exactly when a linter is chosen or
/// style-lint is on; a source-file entry for the chosen linter, a
/// style-file entry when style-lint is on.
pub open spec fn lint_staged_v(js_lint: Seq<char>, style_lint: bool) -> Option<
    Seq<(Seq<char>, JsonV)>,
> {
    let js = if js_lint.len() > 0 {
        seq![("src/**/*.{js,jsx,ts,tsx}"@, js_staged_v(js_lint))]
    } else {
        Seq::empty()
    };
    let both = if style_lint {
        js.push(("src/**/*.{less,css}"@, JsonV::Arr(seq![JsonV::Str("stylelint --fix"@)])))
    } else {
        js
    };
    if both.len() > 0 {
        Some(both)
    } else {
        None
    }
}

/// The `dependencies` table: React and the date library always, the
/// design-system packages unless the TypeScript-only template is
/// chosen, and the admin-family packages for an admin template.
pub open spec fn dependencies_v(template: Seq<char>) -> Seq<(Seq<char>, JsonV)> {
    let base = seq![
        ("react"@, JsonV::Str("^18.2.0"@)),
        ("react-dom"@, JsonV::Str("^18.2.0"@)),
        ("dayjs"@, JsonV::Str("^1.11.9"@)),
    ];
    let with_design = if template != "react_ts"@ {
        base.push(("@ant-design/icons"@, JsonV::Str("^5.2.4"@))).push(
            ("antd"@, JsonV::Str("^5.8.1"@)),
        )
    } else {
        base
    };
    if is_admin_template(template) {
        with_design.push(("@renzp/storage"@, JsonV::Str("^0.0.1"@))).push(
            ("axios"@, JsonV::Str("^1.4.0"@)),
        ).push(("lodash-es"@, JsonV::Str("^4.17.21"@))).push(
            ("nprogress"@, JsonV::Str("^0.2.0"@)),
        ).push(("react-router-dom"@, JsonV::Str("^6.14.2"@))).push(
            ("zustand"@, JsonV::Str("^4.4.0"@)),
        )
    } else {
        with_design
    }
}

/// The linter packages: the eslint set (with the looked-up preset
/// version) or the rome set, and none when no linter is chosen.
pub open spec fn js_lint_packages_v(js_lint: Seq<char>, lint_version: Option<Seq<char>>) -> Option<
    Seq<(Seq<char>, JsonV)>,
> {
    if js_lint.len() == 0 {
        None
    } else if js_lint == "rome"@ {
        Some(seq![("rome"@, JsonV::Str("^12.1.3"@))])
    } else {
        Some(
            seq![
                ("eslint"@, JsonV::Str("^8.46.0"@)),
                ("prettier"@, JsonV::Str("^2.8.8"@)),
                ("eslint-config-rzpack"@, JsonV::Str(caret(lint_version, lint_fallback()))),
            ],
        )
    }
}

/// The fixed tooling packages opening the `devDependencies` table.
pub open spec fn dev_base_v(rzpack_version: Option<Seq<char>>) -> Seq<(Seq<char>, JsonV)> {
    seq![
        ("@types/react"@, JsonV::Str("^18.0.25"@)),
        ("@types/react-dom"@, JsonV::Str("^18.0.9"@)),
        ("rzpack"@, JsonV::Str(caret(rzpack_version, rzpack_fallback()))),
        ("typescript"@, JsonV::Str("5.1.6"@)),
        ("nodemon"@, JsonV::Str("^3.0.1"@)),
        ("simple-git-hooks"@, JsonV::Str("^2.9.0"@)),
        ("lint-staged"@, JsonV::Str("^13.2.3"@)),
    ]
}

/// The `devDependencies` table: the fixed tooling set (with the
/// looked-up bundler version), the chosen linter's packages, the
/// admin-family typings, the commit-lint packages exactly when
/// commit-lint is on, and the style-lint packages exactly when
/// style-lint is on.
pub open spec fn dev_dependencies_v(
    template: Seq<char>,
    commit_lint: bool,
    js_lint: Seq<char>,
    style_lint: bool,
    rzpack_version: Option<Seq<char>>,
    lint_version: Option<Seq<char>>,
) -> Seq<(Seq<char>, JsonV)> {
    let base = dev_base_v(rzpack_version);
    let with_lint = match js_lint_packages_v(js_lint, lint_version) {
        Some(p) => base + p,
        None => base,
    };
    let with_admin = if is_admin_template(template) {
        with_lint.push(("@types/lodash-es"@, JsonV::Str("^4.17.8"@))).push(
            ("@types/nprogress"@, JsonV::Str("^0.2.0"@)),
        )
    } else {
        with_lint
    };
    let with_commit = if commit_lint {
        with_admin.push(("@commitlint/cli"@, JsonV::Str("^17.6.7"@))).push(
            ("@commitlint/config-conventional"@, JsonV::Str("^17.6.7"@)),
        ).push(("commitlint-config-cz"@, JsonV::Str("^0.13.3"@))).push(
            ("cz-customizable"@, JsonV::Str("^7.0.0"@)),
        ).push(("commitizen"@, JsonV::Str("^4.3.0"@))).push(
            ("standard-version"@, JsonV::Str("^9.5.0"@)),
        )
    } else {
        with_admin
    };
    if style_lint {
        with_commit.push(("stylelint"@, JsonV::Str("^14.16.1"@))).push(
            ("stylelint-config-property-sort-order-smacss"@, JsonV::Str("^9.1.0"@)),
        ).push(("stylelint-config-standard"@, JsonV::Str("^29.0.0"@))).push(
            ("stylelint-order"@, JsonV::Str("^5.0.0"@)),
        ).push(("postcss-less"@, JsonV::Str("^6.0.0"@)))
    } else {
        with_commit
    }
}

/// The commit tooling configuration stored under the manifest's
/// `config` key when commit-lint is on.
pub open spec fn commit_config_v() -> JsonV {
    JsonV::Obj(
        seq![
            (
                "commitizen"@,
                JsonV::Obj(seq![("path"@, JsonV::Str("node_modules/cz-customizable"@))]),
            ),
            ("cz-customizable"@, JsonV::Obj(seq![("config"@, JsonV::Str("cz.config.js"@))])),
        ],
    )
}

/// The whole package manifest of a Configuration Record: the fixed
/// part, and a `config` section exactly when commit-lint is on.
pub open spec fn manifest_v(
    options: Prompts,
    rzpack_version: Option<Seq<char>>,
    lint_version: Option<Seq<char>>,
) -> Seq<(Seq<char>, JsonV)> {
    let fixed = manifest_base(options, rzpack_version, lint_version);
    if options.commit_lint {
        obj_insert(fixed, "config"@, commit_config_v())
    } else {
        fixed
    }
}

/// A quoted string value.
fn jstr(t: &str) -> (r: Json)
    ensures
        r@ == JsonV::Str(t@),
{
    Json::Str(t.to_owned())
}

/// One table entry holding a quoted string.
fn sentry(k: &str, t: &str) -> (r: (String, Json))
    ensures
        r.0@ == k@,
        r.1@ == JsonV::Str(t@),
{
    (k.to_owned(), Json::Str(t.to_owned()))
}

/// The caret version range for a lookup result, with its fallback.
fn caret_version(v: Option<String>, fallback: &str) -> (r: String)
    ensures
        v matches Some(s) ==> r@ == seq!['^'] + s@,
        v matches None ==> r@ == seq!['^'] + fallback@,
{
    let mut out = "^".to_owned();
    proof {
        reveal_strlit("^");
        assert("^"@ =~= seq!['^']);
    }
    match v {
        Some(s) => {
            push_str(&mut out, s.as_str());
        },
        None => {
            push_str(&mut out, fallback);
        },
    }
    out
}

/// The `scripts` table of the manifest.
pub fn get_scripts(rs: bool, commit_lint: bool) -> (r: Json)
    ensures
        r@ == JsonV::Obj(scripts_v(rs, commit_lint)),
{
    let mut v: Vec<(String, Json)> = Vec::new();
    v.push(sentry("dev", "rzpack"));
    v.push(sentry("build", "rzpack build"));
    v.push(sentry("build:time", "rzpack build --bundle-time"));
    v.push(sentry("build:size", "rzpack build --bundle-size"));
    v.push(sentry("preview", "rzpack preview"));
    v.push(sentry("prepare", "npx simple-git-hooks"));
    if rs {
        v.push(sentry("dev:rs", "nodemon"));
    }
    if commit_lint {
        v.push(sentry("cz", "git-cz"));
        v.push(sentry("release", "standard-version"));
    }
    proof {
        lemma_view_entries(v@);
        assert(view_entries(v@) =~~= scripts_v(rs, commit_lint));
    }
    Json::Obj(v)
}

/// The git-hooks table of the manifest.
pub fn get_simple_git_hooks(commit_lint: bool) -> (r: Json)
    ensures
        r@ == JsonV::Obj(git_hooks_v(commit_lint)),
{
    let mut v: Vec<(String, Json)> = Vec::new();
    v.push(sentry("pre-commit", "npx lint-staged"));
    if commit_lint {
        v.push(sentry("commit-msg", "npx --no -- commitlint --edit $1"));
    }
    proof {
        lemma_view_entries(v@);
        assert(view_entries(v@) =~~= git_hooks_v(commit_lint));
    }
    Json::Obj(v)
}

/// The lint-staged table, present exactly when a linter is chosen or
/// style-lint is on.
pub fn get_lint_staged_scripts(js_lint: &String, style_lint: bool) -> (r: Option<Json>)
    ensures
        match lint_staged_v(js_lint@, style_lint) {
            Some(t) => r matches Some(j) && j@ == JsonV::Obj(t),
            None => r matches None,
        },
{
    let mut v: Vec<(String, Json)> = Vec::new();
    if !js_lint.as_str().is_empty() {
        let mut cmds: Vec<Json> = Vec::new();
        if str_eq(js_lint.as_str(), "rome") {
            cmds.push(jstr("rome check"));
            cmds.push(jstr("rome format --write"));
            proof {
                crate::json::lemma_view_items(cmds@);
                assert(crate::json::view_items(cmds@) =~= seq![
                    JsonV::Str("rome check"@),
                    JsonV::Str("rome format --write"@),
                ]);
            }
        } else {
            cmds.push(jstr("eslint --fix"));
            cmds.push(jstr("prettier --write"));
            proof {
                crate::json::lemma_view_items(cmds@);
                assert(crate::json::view_items(cmds@) =~= seq![
                    JsonV::Str("eslint --fix"@),
                    JsonV::Str("prettier --write"@),
                ]);
            }
        }
        let item = Json::Arr(cmds);
        proof {
            assert(item@ == js_staged_v(js_lint@));
        }
        v.push(("src/**/*.{js,jsx,ts,tsx}".to_owned(), item));
    }
    if style_lint {
        let mut cmds: Vec<Json> = Vec::new();
        cmds.push(jstr("stylelint --fix"));
        let item = Json::Arr(cmds);
        proof {
            crate::json::lemma_view_items(cmds@);
            assert(crate::json::view_items(cmds@) =~= seq![JsonV::Str("stylelint --fix"@)]);
            assert(item@ == JsonV::Arr(seq![JsonV::Str("stylelint --fix"@)]));
        }
        v.push(("src/**/*.{less,css}".to_owned(), item));
    }
    if v.len() == 0 {
        proof {
            assert(js_lint@.len() == 0);
            assert(lint_staged_v(js_lint@, style_lint) matches None);
        }
        None
    } else {
        proof {
            lemma_view_entries(v@);
            assert(lint_staged_v(js_lint@, style_lint) matches Some(t) && view_entries(v@) =~~= t);
        }
        Some(Json::Obj(v))
    }
}

/// The `dependencies` table of the manifest.
pub fn get_dependencies(template: &String) -> (r: Json)
    ensures
        r@ == JsonV::Obj(dependencies_v(template@)),
{
    let is_admin = str_eq(template.as_str(), "admin") || str_eq(
        template.as_str(),
        "admin_header_menu",
    );
    let mut v: Vec<(String, Json)> = Vec::new();
    v.push(sentry("react", "^18.2.0"));
    v.push(sentry("react-dom", "^18.2.0"));
    v.push(sentry("dayjs", "^1.11.9"));
    if !str_eq(template.as_str(), "react_ts") {
        v.push(sentry("@ant-design/icons", "^5.2.4"));
        v.push(sentry("antd", "^5.8.1"));
    }
    if is_admin {
        v.push(sentry("@renzp/storage", "^0.0.1"));
        v.push(sentry("axios", "^1.4.0"));
        v.push(sentry("lodash-es", "^4.17.21"));
        v.push(sentry("nprogress", "^0.2.0"));
        v.push(sentry("react-router-dom", "^6.14.2"));
        v.push(sentry("zustand", "^4.4.0"));
    }
    proof {
        lemma_view_entries(v@);
        assert(view_entries(v@) =~~= dependencies_v(template@));
    }
    Json::Obj(v)
}

/// The chosen linter's package set, with the looked-up preset version.
pub fn get_js_lint_packages(js_lint: &str, lint_version: Option<String>) -> (r: Option<
    Vec<(String, Json)>,
>)
    ensures
        match js_lint_packages_v(js_lint@, spec_version(lint_version)) {
            Some(t) => r matches Some(v) && view_entries(v@) == t,
            None => r matches None,
        },
{
    if js_lint.unicode_len() == 0 {
        return None;
    }
    let mut v: Vec<(String, Json)> = Vec::new();
    if str_eq(js_lint, "rome") {
        v.push(sentry("rome", "^12.1.3"));
    } else {
        v.push(sentry("eslint", "^8.46.0"));
        v.push(sentry("prettier", "^2.8.8"));
        let ghost lv = spec_version(lint_version);
        let ver = caret_version(lint_version, "0.0.1");
        proof {
            reveal_strlit("0.0.1");
            assert(ver@ == caret(lv, lint_fallback()));
        }
        v.push(("eslint-config-rzpack".to_owned(), Json::Str(ver)));
    }
    proof {
        lemma_view_entries(v@);
        assert(js_lint_packages_v(js_lint@, spec_version(lint_version)) matches Some(t)
            && view_entries(v@) =~~= t);
    }
    Some(v)
}

/// The view of a lookup result.
pub open spec fn spec_version(v: Option<String>) -> Option<Seq<char>> {
    match v {
        Some(s) => Some(s@),
        None => None,
    }
}

/// The `devDependencies` table of the manifest.
pub fn get_dev_dependencies(
    template: &String,
    commit_lint: bool,
    js_lint: &String,
    style_lint: bool,
    rzpack_version: Option<String>,
    lint_version: Option<String>,
) -> (r: Json)
    ensures
        r@ == JsonV::Obj(
            dev_dependencies_v(
                template@,
                commit_lint,
                js_lint@,
                style_lint,
                spec_version(rzpack_version),
                spec_version(lint_version),
            ),
        ),
{
    let ghost rv = spec_version(rzpack_version);
    let is_admin = str_eq(template.as_str(), "admin") || str_eq(
        template.as_str(),
        "admin_header_menu",
    );
    let mut v: Vec<(String, Json)> = Vec::new();
    v.push(sentry("@types/react", "^18.0.25"));
    v.push(sentry("@types/react-dom", "^18.0.9"));
    let rz = caret_version(rzpack_version, "0.1.13");
    proof {
        reveal_strlit("0.1.13");
        assert(rz@ == caret(rv, rzpack_fallback()));
    }
    v.push(("rzpack".to_owned(), Json::Str(rz)));
    v.push(sentry("typescript", "5.1.6"));
    v.push(sentry("nodemon", "^3.0.1"));
    v.push(sentry("simple-git-hooks", "^2.9.0"));
    v.push(sentry("lint-staged", "^13.2.3"));
    proof {
        lemma_view_entries(v@);
        assert(view_entries(v@) =~= dev_base_v(rv));
    }
    match get_js_lint_packages(js_lint.as_str(), lint_version) {
        Some(mut pkgs) => {
            let ghost pseq = pkgs@;
            let ghost vpre = v@;
            v.append(&mut pkgs);
            proof {
                lemma_view_entries_concat(vpre, pseq);
                assert(view_entries(v@) == view_entries(vpre) + view_entries(pseq));
            }
        },
        None => {},
    }
    if is_admin {
        v.push(sentry("@types/lodash-es", "^4.17.8"));
        v.push(sentry("@types/nprogress", "^0.2.0"));
    }
    if commit_lint {
        v.push(sentry("@commitlint/cli", "^17.6.7"));
        v.push(sentry("@commitlint/config-conventional", "^17.6.7"));
        v.push(sentry("commitlint-config-cz", "^0.13.3"));
        v.push(sentry("cz-customizable", "^7.0.0"));
        v.push(sentry("commitizen", "^4.3.0"));
        v.push(sentry("standard-version", "^9.5.0"));
    }
    if style_lint {
        v.push(sentry("stylelint", "^14.16.1"));
        v.push(sentry("stylelint-config-property-sort-order-smacss", "^9.1.0"));
        v.push(sentry("stylelint-config-standard", "^29.0.0"));
        v.push(sentry("stylelint-order", "^5.0.0"));
        v.push(sentry("postcss-less", "^6.0.0"));
    }
    proof {
        lemma_view_entries(v@);
        assert(view_entries(v@) =~~= dev_dependencies_v(
            template@,
            commit_lint,
            js_lint@,
            style_lint,
            rv,
            spec_version(lint_version),
        ));
    }
    Json::Obj(v)
}

/// The whole package manifest as its serialized text.
///
/// The result is exactly the rendering of `manifest_v`; the manifest
/// carries a `config` section exactly when commit-lint is on, and the
/// two version fields fall back to their documented constants when a
/// lookup failed.
pub fn create(
    options: &Prompts,
    rzpack_version: Option<String>,
    lint_version: Option<String>,
) -> (r: String)
    ensures
        r@ == render(
            JsonV::Obj(
                manifest_v(*options, spec_version(rzpack_version), spec_version(lint_version)),
            ),
            Seq::<char>::empty(),
        ),
{
    let scripts = get_scripts(options.rs, options.commit_lint);
    let simple_git_hooks = get_simple_git_hooks(options.commit_lint);
    let lint_staged = get_lint_staged_scripts(&options.js_lint, options.style_lint);
    let dependencies = get_dependencies(&options.template);
    let dev_dependencies = get_dev_dependencies(
        &options.template,
        options.commit_lint,
        &options.js_lint,
        options.style_lint,
        rzpack_version,
        lint_version,
    );

    let mut v: Vec<(String, Json)> = Vec::new();
    v.push(("name".to_owned(), Json::Str(options.package_name.clone())));
    v.push(sentry("version", "0.0.1"));
    v.push(("scripts".to_owned(), scripts));
    let mut browserslist: Vec<Json> = Vec::new();
    browserslist.push(jstr(">0.2%"));
    browserslist.push(jstr("not dead"));
    browserslist.push(jstr("not IE 11"));
    browserslist.push(jstr("not op_mini all"));
    let browserslist = Json::Arr(browserslist);
    proof {
        crate::json::lemma_view_items(browserslist->Arr_0@);
        assert(crate::json::view_items(browserslist->Arr_0@) =~= seq![
            JsonV::Str(">0.2%"@),
            JsonV::Str("not dead"@),
            JsonV::Str("not IE 11"@),
            JsonV::Str("not op_mini all"@),
        ]);
    }
    v.push(("browserslist".to_owned(), browserslist));
    v.push(("simple-git-hooks".to_owned(), simple_git_hooks));
    let ghost head = view_entries(v@);
    proof {
        lemma_view_entries(v@);
        assert(head =~= manifest_head(*options));
    }
    match lint_staged {
        Some(t) => {
            v.push(("lint-staged".to_owned(), t));
        },
        None => {},
    }
    v.push(sentry("license", "MIT"));
    v.push(("dependencies".to_owned(), dependencies));
    v.push(("devDependencies".to_owned(), dev_dependencies));

    let mut pkgs = Json::Obj(v);
    let ghost fixed = match pkgs@ {
        JsonV::Obj(es) => es,
        _ => Seq::empty(),
    };
    proof {
        lemma_view_entries(v@);
        assert(fixed =~= manifest_base(
            *options,
            spec_version(rzpack_version),
            spec_version(lint_version),
        ));
    }
    if options.commit_lint {
        let commit_config = build_commit_config();
        json_insert(&mut pkgs, "config", commit_config);
    }
    proof {
        assert(match pkgs@ {
            JsonV::Obj(es) => es =~= manifest_v(
                *options,
                spec_version(rzpack_version),
                spec_version(lint_version),
            ),
            _ => false,
        });
    }
    pkgs.to_pretty_string()
}

/// The opening entries of the manifest, before the conditional
/// lint-staged section.
pub open spec fn manifest_head(options: Prompts) -> Seq<(Seq<char>, JsonV)> {
    seq![
        ("name"@, JsonV::Str(options.package_name@)),
        ("version"@, JsonV::Str("0.0.1"@)),
        ("scripts"@, JsonV::Obj(scripts_v(options.rs, options.commit_lint))),
        (
            "browserslist"@,
            JsonV::Arr(
                seq![
                    JsonV::Str(">0.2%"@),
                    JsonV::Str("not dead"@),
                    JsonV::Str("not IE 11"@),
                    JsonV::Str("not op_mini all"@),
                ],
            ),
        ),
        ("simple-git-hooks"@, JsonV::Obj(git_hooks_v(options.commit_lint))),
    ]
}

/// The manifest before the optional `config` section.
pub open spec fn manifest_base(
    options: Prompts,
    rzpack_version: Option<Seq<char>>,
    lint_version: Option<Seq<char>>,
) -> Seq<(Seq<char>, JsonV)> {
    let base = manifest_head(options);
    let with_staged = match lint_staged_v(options.js_lint@, options.style_lint) {
        Some(t) => base.push(("lint-staged"@, JsonV::Obj(t))),
        None => base,
    };
    with_staged.push(("license"@, JsonV::Str("MIT"@))).push(
        ("dependencies"@, JsonV::Obj(dependencies_v(options.template@))),
    ).push(
        (
            "devDependencies"@,
            JsonV::Obj(
                dev_dependencies_v(
                    options.template@,
                    options.commit_lint,
                    options.js_lint@,
                    options.style_lint,
                    rzpack_version,
                    lint_version,
                ),
            ),
        ),
    )
}

/// The `scripts` table holds the watch-restart script exactly when
/// auto-restart is on, and the commit and release scripts exactly when
/// commit-lint is on; the fixed entries are always there.
pub proof fn lemma_scripts_keys(rs: bool, commit_lint: bool)
    ensures
        has_key(scripts_v(rs, commit_lint), "dev"@),
        has_key(scripts_v(rs, commit_lint), "build"@),
        has_key(scripts_v(rs, commit_lint), "preview"@),
        has_key(scripts_v(rs, commit_lint), "prepare"@),
        has_key(scripts_v(rs, commit_lint), "dev:rs"@) <==> rs,
        has_key(scripts_v(rs, commit_lint), "cz"@) <==> commit_lint,
        has_key(scripts_v(rs, commit_lint), "release"@) <==> commit_lint,
        keys_unique(scripts_v(rs, commit_lint)),
{
    reveal_strlit("dev");
    reveal_strlit("build");
    reveal_strlit("build:time");
    reveal_strlit("build:size");
    reveal_strlit("preview");
    reveal_strlit("prepare");
    reveal_strlit("dev:rs");
    reveal_strlit("cz");
    reveal_strlit("release");
    assert("dev"@.len() == 3);
    assert("build"@.len() == 5);
    assert("build:time"@.len() == 10);
    assert("build:size"@.len() == 10);
    assert("preview"@.len() == 7);
    assert("prepare"@.len() == 7);
    assert("dev:rs"@.len() == 6);
    assert("cz"@.len() == 2);
    assert("release"@.len() == 7);
    assert("build:time"@[6] == 't' && "build:size"@[6] == 's');
    assert("preview"@[3] == 'v' && "prepare"@[3] == 'p');
    assert("release"@[0] == 'r' && "preview"@[0] == 'p' && "prepare"@[0] == 'p');
    let s = scripts_v(rs, commit_lint);
    assert(s[0].0 == "dev"@ && s[1].0 == "build"@ && s[4].0 == "preview"@ && s[5].0
        == "prepare"@);
    if rs {
        assert(s[6].0 == "dev:rs"@);
    }
    if commit_lint {
        if rs {
            assert(s[7].0 == "cz"@ && s[8].0 == "release"@);
        } else {
            assert(s[6].0 == "cz"@ && s[7].0 == "release"@);
        }
    }
}

/// The git-hooks table holds the commit-message hook exactly when
/// commit-lint is on, beside the fixed pre-commit hook.
pub proof fn lemma_git_hooks_keys(commit_lint: bool)
    ensures
        has_key(git_hooks_v(commit_lint), "pre-commit"@),
        has_key(git_hooks_v(commit_lint), "commit-msg"@) <==> commit_lint,
        keys_unique(git_hooks_v(commit_lint)),
{
    reveal_strlit("pre-commit");
    reveal_strlit("commit-msg");
    assert("pre-commit"@.len() == 10 && "commit-msg"@.len() == 10);
    assert("pre-commit"@[0] == 'p' && "commit-msg"@[0] == 'c');
    let s = git_hooks_v(commit_lint);
    assert(s[0].0 == "pre-commit"@);
    if commit_lint {
        assert(s[1].0 == "commit-msg"@);
    }
}

/// The `dependencies` table holds the design-system packages exactly
/// unless the TypeScript-only template is chosen, and the admin-family
/// packages exactly for an admin template.
pub proof fn lemma_dependencies_keys(template: Seq<char>)
    ensures
        has_key(dependencies_v(template), "react"@),
        has_key(dependencies_v(template), "antd"@) <==> template != "react_ts"@,
        has_key(dependencies_v(template), "@ant-design/icons"@) <==> template != "react_ts"@,
        has_key(dependencies_v(template), "axios"@) <==> is_admin_template(template),
        has_key(dependencies_v(template), "zustand"@) <==> is_admin_template(template),
        keys_unique(dependencies_v(template)),
{
    reveal_strlit("react");
    reveal_strlit("react-dom");
    reveal_strlit("dayjs");
    reveal_strlit("@ant-design/icons");
    reveal_strlit("antd");
    reveal_strlit("@renzp/storage");
    reveal_strlit("axios");
    reveal_strlit("lodash-es");
    reveal_strlit("nprogress");
    reveal_strlit("react-router-dom");
    reveal_strlit("zustand");
    reveal_strlit("react_ts");
    reveal_strlit("admin");
    reveal_strlit("admin_header_menu");
    assert("react"@.len() == 5);
    assert("react-dom"@.len() == 9);
    assert("dayjs"@.len() == 5);
    assert("@ant-design/icons"@.len() == 17);
    assert("antd"@.len() == 4);
    assert("@renzp/storage"@.len() == 14);
    assert("axios"@.len() == 5);
    assert("lodash-es"@.len() == 9);
    assert("nprogress"@.len() == 9);
    assert("react-router-dom"@.len() == 16);
    assert("zustand"@.len() == 7);
    assert("react"@[0] == 'r' && "dayjs"@[0] == 'd' && "axios"@[0] == 'a');
    assert("react-dom"@[0] == 'r' && "lodash-es"@[0] == 'l' && "nprogress"@[0] == 'n');
    assert("react_ts"@.len() == 8 && "admin"@.len() == 5 && "admin_header_menu"@.len() == 17);
    assert("admin"@[0] == 'a');
    let s = dependencies_v(template);
    assert(s[0].0 == "react"@);
    if template != "react_ts"@ {
        assert(s[3].0 == "@ant-design/icons"@ && s[4].0 == "antd"@);
    }
    if is_admin_template(template) {
        assert(s[6].0 == "axios"@ && s[10].0 == "zustand"@);
    }
}

/// The `devDependencies` table holds the style-lint package set
/// exactly when style-lint is on, the commit-lint package set exactly
/// when commit-lint is on, and the chosen linter's packages exactly
/// when a linter is chosen.
#[verifier::rlimit(100)]
pub proof fn lemma_dev_dependencies_keys(
    template: Seq<char>,
    commit_lint: bool,
    js_lint: Seq<char>,
    style_lint: bool,
    rzpack_version: Option<Seq<char>>,
    lint_version: Option<Seq<char>>,
)
    ensures
        has_key(
            dev_dependencies_v(
                template,
                commit_lint,
                js_lint,
                style_lint,
                rzpack_version,
                lint_version,
            ),
            "rzpack"@,
        ),
        has_key(
            dev_dependencies_v(
                template,
                commit_lint,
                js_lint,
                style_lint,
                rzpack_version,
                lint_version,
            ),
            "stylelint"@,
        ) <==> style_lint,
        has_key(
            dev_dependencies_v(
                template,
                commit_lint,
                js_lint,
                style_lint,
                rzpack_version,
                lint_version,
            ),
            "@commitlint/cli"@,
        ) <==> commit_lint,
        has_key(
            dev_dependencies_v(
                template,
                commit_lint,
                js_lint,
                style_lint,
                rzpack_version,
                lint_version,
            ),
            "rome"@,
        ) <==> js_lint == "rome"@,
        has_key(
            dev_dependencies_v(
                template,
                commit_lint,
                js_lint,
                style_lint,
                rzpack_version,
                lint_version,
            ),
            "eslint"@,
        ) <==> (js_lint.len() > 0 && js_lint != "rome"@),
        keys_unique(
            dev_dependencies_v(
                template,
                commit_lint,
                js_lint,
                style_lint,
                rzpack_version,
                lint_version,
            ),
        ),
{
    reveal_strlit("@types/react");
    reveal_strlit("@types/react-dom");
    reveal_strlit("rzpack");
    reveal_strlit("typescript");
    reveal_strlit("nodemon");
    reveal_strlit("simple-git-hooks");
    reveal_strlit("lint-staged");
    reveal_strlit("rome");
    reveal_strlit("eslint");
    reveal_strlit("prettier");
    reveal_strlit("eslint-config-rzpack");
    reveal_strlit("@types/lodash-es");
    reveal_strlit("@types/nprogress");
    reveal_strlit("@commitlint/cli");
    reveal_strlit("@commitlint/config-conventional");
    reveal_strlit("commitlint-config-cz");
    reveal_strlit("cz-customizable");
    reveal_strlit("commitizen");
    reveal_strlit("standard-version");
    reveal_strlit("stylelint");
    reveal_strlit("stylelint-config-property-sort-order-smacss");
    reveal_strlit("stylelint-config-standard");
    reveal_strlit("stylelint-order");
    reveal_strlit("postcss-less");
    assert("@types/react"@.len() == 12);
    assert("@types/react-dom"@.len() == 16);
    assert("rzpack"@.len() == 6);
    assert("typescript"@.len() == 10);
    assert("nodemon"@.len() == 7);
    assert("simple-git-hooks"@.len() == 16);
    assert("lint-staged"@.len() == 11);
    assert("rome"@.len() == 4);
    assert("eslint"@.len() == 6);
    assert("prettier"@.len() == 8);
    assert("eslint-config-rzpack"@.len() == 20);
    assert("@types/lodash-es"@.len() == 16);
    assert("@types/nprogress"@.len() == 16);
    assert("@commitlint/cli"@.len() == 15);
    assert("@commitlint/config-conventional"@.len() == 31);
    assert("commitlint-config-cz"@.len() == 20);
    assert("cz-customizable"@.len() == 15);
    assert("commitizen"@.len() == 10);
    assert("standard-version"@.len() == 16);
    assert("stylelint"@.len() == 9);
    assert("stylelint-config-property-sort-order-smacss"@.len() == 43);
    assert("stylelint-config-standard"@.len() == 25);
    assert("stylelint-order"@.len() == 15);
    assert("postcss-less"@.len() == 12);
    assert("@types/react"@[0] == '@' && "postcss-less"@[0] == 'p');
    assert("@types/react-dom"@[7] == 'r' && "@types/lodash-es"@[7] == 'l');
    assert("@types/nprogress"@[7] == 'n');
    assert("simple-git-hooks"@[0] == 's' && "standard-version"@[0] == 's');
    assert("simple-git-hooks"@[1] == 'i' && "standard-version"@[1] == 't');
    assert("@types/react-dom"@[0] == '@' && "@types/lodash-es"@[0] == '@');
    assert("@types/nprogress"@[0] == '@');
    assert("rzpack"@[0] == 'r' && "eslint"@[0] == 'e');
    assert("typescript"@[0] == 't' && "commitizen"@[0] == 'c');
    assert("@commitlint/cli"@[0] == '@' && "cz-customizable"@[0] == 'c');
    assert("stylelint-order"@[0] == 's');
    assert("@commitlint/cli"@[1] == 'c');
    assert("eslint-config-rzpack"@[0] == 'e' && "commitlint-config-cz"@[0] == 'c');
    let s = dev_dependencies_v(
        template,
        commit_lint,
        js_lint,
        style_lint,
        rzpack_version,
        lint_version,
    );
    let base = dev_base_v(rzpack_version);
    assert(s[2].0 == "rzpack"@);
    if js_lint.len() > 0 {
        if js_lint == "rome"@ {
            assert((base + js_lint_packages_v(js_lint, lint_version)->Some_0)[7].0 == "rome"@);
            assert(s[7].0 == "rome"@);
        } else {
            assert((base + js_lint_packages_v(js_lint, lint_version)->Some_0)[7].0 == "eslint"@);
            assert(s[7].0 == "eslint"@);
        }
    }
    if style_lint {
        assert(s[s.len() - 5].0 == "stylelint"@);
    }
    if commit_lint {
        if style_lint {
            assert(s[s.len() - 11].0 == "@commitlint/cli"@);
        } else {
            assert(s[s.len() - 6].0 == "@commitlint/cli"@);
        }
    }
}

/// The manifest is well-formed (no object key repeats at top level)
/// and carries a `config` section exactly when commit-lint is on, and
/// a lint-staged section exactly when a linter is chosen or style-lint
/// is on.
pub proof fn lemma_manifest_keys(
    o: Prompts,
    rzpack_version: Option<Seq<char>>,
    lint_version: Option<Seq<char>>,
)
    ensures
        keys_unique(manifest_v(o, rzpack_version, lint_version)),
        has_key(manifest_v(o, rzpack_version, lint_version), "config"@) <==> o.commit_lint,
        has_key(manifest_v(o, rzpack_version, lint_version), "lint-staged"@) <==> (o.js_lint@.len()
            > 0 || o.style_lint),
        has_key(manifest_v(o, rzpack_version, lint_version), "scripts"@),
        has_key(manifest_v(o, rzpack_version, lint_version), "dependencies"@),
        has_key(manifest_v(o, rzpack_version, lint_version), "devDependencies"@),
        keys_unique(manifest_base(o, rzpack_version, lint_version)),
        !has_key(manifest_base(o, rzpack_version, lint_version), "config"@),
{
    reveal_strlit("name");
    reveal_strlit("version");
    reveal_strlit("scripts");
    reveal_strlit("browserslist");
    reveal_strlit("simple-git-hooks");
    reveal_strlit("lint-staged");
    reveal_strlit("license");
    reveal_strlit("dependencies");
    reveal_strlit("devDependencies");
    reveal_strlit("config");
    assert("name"@.len() == 4);
    assert("version"@.len() == 7);
    assert("scripts"@.len() == 7);
    assert("browserslist"@.len() == 12);
    assert("simple-git-hooks"@.len() == 16);
    assert("lint-staged"@.len() == 11);
    assert("license"@.len() == 7);
    assert("dependencies"@.len() == 12);
    assert("devDependencies"@.len() == 15);
    assert("config"@.len() == 6);
    assert("version"@[0] == 'v' && "scripts"@[0] == 's' && "license"@[0] == 'l');
    assert("browserslist"@[0] == 'b' && "dependencies"@[0] == 'd');
    let base = manifest_base(o, rzpack_version, lint_version);
    let staged = o.js_lint@.len() > 0 || o.style_lint;
    assert(base[0].0 == "name"@ && base[2].0 == "scripts"@);
    if staged {
        assert(lint_staged_v(o.js_lint@, o.style_lint) matches Some(_));
        assert(base[5].0 == "lint-staged"@);
        assert(base[7].0 == "dependencies"@ && base[8].0 == "devDependencies"@);
    } else {
        assert(lint_staged_v(o.js_lint@, o.style_lint) matches None);
        assert(base[6].0 == "dependencies"@ && base[7].0 == "devDependencies"@);
    }
    assert(keys_unique(base));
    assert(!has_key(base, "config"@)) by {
        if has_key(base, "config"@) {
            let i = choose|i: int| 0 <= i < base.len() && base[i].0 == "config"@;
        }
    }
    assert(has_key(base, "scripts"@));
    assert(has_key(base, "dependencies"@));
    assert(has_key(base, "devDependencies"@));
    if staged {
        assert(has_key(base, "lint-staged"@));
    } else {
        assert(!has_key(base, "lint-staged"@)) by {
            if has_key(base, "lint-staged"@) {
                let i = choose|i: int| 0 <= i < base.len() && base[i].0 == "lint-staged"@;
            }
        }
    }
    if o.commit_lint {
        lemma_obj_insert(base, "config"@, commit_config_v());
        assert(has_key(manifest_v(o, rzpack_version, lint_version), "scripts"@));
        assert(has_key(manifest_v(o, rzpack_version, lint_version), "dependencies"@));
        assert(has_key(manifest_v(o, rzpack_version, lint_version), "devDependencies"@));
        assert(has_key(manifest_v(o, rzpack_version, lint_version), "lint-staged"@) <==> staged);
    }
}

/// The `scripts` table is well-formed.
proof fn lemma_scripts_wf(rs: bool, commit_lint: bool)
    ensures
        wf(JsonV::Obj(scripts_v(rs, commit_lint))),
{
    lemma_scripts_keys(rs, commit_lint);
    let s = scripts_v(rs, commit_lint);
    assert forall|i: int| 0 <= i < s.len() implies wf((#[trigger] s[i]).1) by {
        assert(s[i].1 matches JsonV::Str(_));
        assert(wf(s[i].1));
    }
}

/// The git-hooks table is well-formed.
proof fn lemma_git_hooks_wf(commit_lint: bool)
    ensures
        wf(JsonV::Obj(git_hooks_v(commit_lint))),
{
    lemma_git_hooks_keys(commit_lint);
    let s = git_hooks_v(commit_lint);
    assert forall|i: int| 0 <= i < s.len() implies wf((#[trigger] s[i]).1) by {
        assert(s[i].1 matches JsonV::Str(_));
        assert(wf(s[i].1));
    }
}

/// The `dependencies` table is well-formed.
proof fn lemma_dependencies_wf(template: Seq<char>)
    ensures
        wf(JsonV::Obj(dependencies_v(template))),
{
    lemma_dependencies_keys(template);
    let s = dependencies_v(template);
    assert forall|i: int| 0 <= i < s.len() implies wf((#[trigger] s[i]).1) by {
        assert(s[i].1 matches JsonV::Str(_));
        assert(wf(s[i].1));
    }
}

/// The `devDependencies` table is well-formed.
#[verifier::rlimit(100)]
proof fn lemma_dev_dependencies_wf(
    template: Seq<char>,
    commit_lint: bool,
    js_lint: Seq<char>,
    style_lint: bool,
    rzpack_version: Option<Seq<char>>,
    lint_version: Option<Seq<char>>,
)
    ensures
        wf(
            JsonV::Obj(
                dev_dependencies_v(
                    template,
                    commit_lint,
                    js_lint,
                    style_lint,
                    rzpack_version,
                    lint_version,
                ),
            ),
        ),
{
    lemma_dev_dependencies_keys(
        template,
        commit_lint,
        js_lint,
        style_lint,
        rzpack_version,
        lint_version,
    );
    let s = dev_dependencies_v(
        template,
        commit_lint,
        js_lint,
        style_lint,
        rzpack_version,
        lint_version,
    );
    assert forall|i: int| 0 <= i < s.len() implies wf((#[trigger] s[i]).1) by {
        assert(s[i].1 matches JsonV::Str(_));
        assert(wf(s[i].1));
    }
}

/// The lint-staged table is well-formed whenever it is owed.
proof fn lemma_lint_staged_wf(js_lint: Seq<char>, style_lint: bool)
    ensures
        match lint_staged_v(js_lint, style_lint) {
            Some(t) => wf(JsonV::Obj(t)),
            None => true,
        },
{
    let staged_cmds = js_staged_v(js_lint);
    assert forall|i: int|
        0 <= i < staged_cmds->Arr_0.len() implies wf(#[trigger] staged_cmds->Arr_0[i]) by {
        assert(staged_cmds->Arr_0[i] matches JsonV::Str(_));
        assert(wf(staged_cmds->Arr_0[i]));
    }
    assert(wf(staged_cmds));
    let style_cmds = JsonV::Arr(seq![JsonV::Str("stylelint --fix"@)]);
    assert(wf(style_cmds->Arr_0[0]));
    assert(wf(style_cmds));
    reveal_strlit("src/**/*.{js,jsx,ts,tsx}");
    reveal_strlit("src/**/*.{less,css}");
    assert("src/**/*.{js,jsx,ts,tsx}"@.len() == 24);
    assert("src/**/*.{less,css}"@.len() == 19);
    match lint_staged_v(js_lint, style_lint) {
        Some(t) => {
            assert forall|i: int| 0 <= i < t.len() implies wf((#[trigger] t[i]).1) by {
                assert(t[i].1 == staged_cmds || t[i].1 == style_cmds);
            }
            assert(wf(JsonV::Obj(t)));
        },
        None => {},
    }
}

/// The commit tooling configuration is well-formed.
proof fn lemma_commit_config_wf()
    ensures
        wf(commit_config_v()),
{
    reveal_strlit("commitizen");
    reveal_strlit("cz-customizable");
    assert("commitizen"@.len() == 10 && "cz-customizable"@.len() == 15);
    let cc = commit_config_v();
    assert(wf(cc->Obj_0[0].1)) by {
        assert(wf(cc->Obj_0[0].1->Obj_0[0].1));
        assert(keys_unique(cc->Obj_0[0].1->Obj_0));
    }
    assert(wf(cc->Obj_0[1].1)) by {
        assert(wf(cc->Obj_0[1].1->Obj_0[0].1));
        assert(keys_unique(cc->Obj_0[1].1->Obj_0));
    }
    assert forall|i: int| 0 <= i < cc->Obj_0.len() implies wf((#[trigger] cc->Obj_0[i]).1) by {}
    assert(wf(cc));
}

/// The composed manifest is well-formed structured data: no object
/// anywhere in it carries a key twice.
pub proof fn lemma_manifest_wf(
    o: Prompts,
    rzpack_version: Option<Seq<char>>,
    lint_version: Option<Seq<char>>,
)
    ensures
        wf(JsonV::Obj(manifest_v(o, rzpack_version, lint_version))),
{
    lemma_manifest_keys(o, rzpack_version, lint_version);
    lemma_scripts_wf(o.rs, o.commit_lint);
    lemma_git_hooks_wf(o.commit_lint);
    lemma_dependencies_wf(o.template@);
    lemma_dev_dependencies_wf(
        o.template@,
        o.commit_lint,
        o.js_lint@,
        o.style_lint,
        rzpack_version,
        lint_version,
    );
    lemma_lint_staged_wf(o.js_lint@, o.style_lint);
    lemma_commit_config_wf();
    let blist = JsonV::Arr(
        seq![
            JsonV::Str(">0.2%"@),
            JsonV::Str("not dead"@),
            JsonV::Str("not IE 11"@),
            JsonV::Str("not op_mini all"@),
        ],
    );
    assert forall|i: int| 0 <= i < blist->Arr_0.len() implies wf(#[trigger] blist->Arr_0[i]) by {
        assert(blist->Arr_0[i] matches JsonV::Str(_));
        assert(wf(blist->Arr_0[i]));
    }
    assert(wf(blist));
    let base = manifest_base(o, rzpack_version, lint_version);
    assert forall|i: int| 0 <= i < base.len() implies wf((#[trigger] base[i]).1) by {
        if base[i].1 matches JsonV::Str(_) {
            assert(wf(base[i].1));
        }
    }
    assert(wf(JsonV::Obj(base)));
    if o.commit_lint {
        lemma_obj_insert(base, "config"@, commit_config_v());
        let m = manifest_v(o, rzpack_version, lint_version);
        assert(m == base.push(("config"@, commit_config_v())));
        assert forall|i: int| 0 <= i < m.len() implies wf((#[trigger] m[i]).1) by {
            if i < base.len() {
                assert(m[i] == base[i]);
            }
        }
        assert(wf(JsonV::Obj(m)));
    }
}

/// The commit tooling configuration value.
fn build_commit_config() -> (r: Json)
    ensures
        r@ == commit_config_v(),
{
    let mut commitizen: Vec<(String, Json)> = Vec::new();
    commitizen.push(sentry("path", "node_modules/cz-customizable"));
    let mut customizable: Vec<(String, Json)> = Vec::new();
    customizable.push(sentry("config", "cz.config.js"));
    let mut v: Vec<(String, Json)> = Vec::new();
    proof {
        lemma_view_entries(commitizen@);
        lemma_view_entries(customizable@);
        assert(view_entries(commitizen@) =~= seq![
            ("path"@, JsonV::Str("node_modules/cz-customizable"@)),
        ]);
        assert(view_entries(customizable@) =~= seq![("config"@, JsonV::Str("cz.config.js"@))]);
    }
    v.push(("commitizen".to_owned(), Json::Obj(commitizen)));
    v.push(("cz-customizable".to_owned(), Json::Obj(customizable)));
    proof {
        lemma_view_entries(v@);
        assert(view_entries(v@) =~= commit_config_v()->Obj_0);
        assert(JsonV::Obj(view_entries(v@)) == commit_config_v());
    }
    Json::Obj(v)
}

} // verus!
