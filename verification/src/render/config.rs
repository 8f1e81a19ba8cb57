//! Composes the bundler configuration source, the git-related
//! documents, the watch configuration and the README.

use vstd::prelude::*;

use crate::emit::render;
use crate::json::{json_insert, lemma_view_entries, obj_insert, view_entries, Json, JsonV};
use crate::prompts::Prompts;
use crate::text::{ascii_upper, push_str, str_eq, upper_seq};

verus! {

broadcast use crate::json::lemma_view_entries_push, crate::json::lemma_view_items_push;

/// The `assets` section of the bundler configuration: a css-scoping
/// switch when that is chosen, and the transform-tool reference (a
/// bare identifier, not a string) when a transform tool is chosen.
pub open spec fn assets_v(o: Prompts) -> Seq<(Seq<char>, JsonV)> {
    let base = if o.css_scoped {
        seq![("cssScoped"@, JsonV::Bool(true))]
    } else {
        Seq::empty()
    };
    if o.jts_loader@.len() > 0 {
        base.push(("jsxTools"@, JsonV::Raw("JSX_TOOLS."@ + upper_seq(o.jts_loader@))))
    } else {
        base
    }
}

/// The bundler configuration object: the page title always, the
/// `assets` section when css-scoping or a transform tool is chosen,
/// and the theme-file pointers unless the TypeScript-only template is
/// chosen.
pub open spec fn bundler_config_v(o: Prompts) -> Seq<(Seq<char>, JsonV)> {
    let base = seq![("html"@, JsonV::Obj(seq![("title"@, JsonV::Str(o.project_name@))]))];
    let with_assets = if o.css_scoped || o.jts_loader@.len() > 0 {
        base.push(("assets"@, JsonV::Obj(assets_v(o))))
    } else {
        base
    };
    if o.template@ != "react_ts"@ {
        with_assets.push(
            ("antdTheme"@, JsonV::Obj(seq![("file"@, JsonV::Str("./src/theme/index.ts"@))])),
        ).push(
            ("lessVars"@, JsonV::Obj(seq![("file"@, JsonV::Str("./src/theme/globalVars.ts"@))])),
        )
    } else {
        with_assets
    }
}

/// The generated bundler configuration source: the import line (which
/// names the transform-tool token exactly when one is chosen), and the
/// rendered configuration object handed to the configuration-definition
/// function.
pub open spec fn bundler_config_text(o: Prompts) -> Seq<char> {
    "import { defineConfig"@ + (if o.jts_loader@.len() > 0 {
        ", JSX_TOOLS"@
    } else {
        Seq::<char>::empty()
    }) + "} from 'rzpack'\n\n"@ + "export default defineConfig(\n"@ + render(
        JsonV::Obj(bundler_config_v(o)),
        Seq::<char>::empty(),
    ) + ")\n"@
}

/// The generated bundler configuration source of a Configuration
/// Record.
///
/// A chosen transform tool appears twice: imported in the first line,
/// and referenced (as a bare identifier, never a quoted string) inside
/// the configuration object.
pub fn rzpack_config(options: &Prompts) -> (r: String)
    ensures
        r@ == bundler_config_text(*options),
{
    let has_loader = !options.jts_loader.as_str().is_empty();
    let mut assets = Json::Obj(Vec::new());
    proof {
        assert(assets@ =~~= JsonV::Obj(Seq::empty()));
    }
    if options.css_scoped {
        json_insert(&mut assets, "cssScoped", Json::Bool(true));
        proof {
            assert(assets@ =~~= JsonV::Obj(seq![("cssScoped"@, JsonV::Bool(true))]));
        }
    }
    if has_loader {
        let mut token = "JSX_TOOLS.".to_owned();
        let upper = ascii_upper(options.jts_loader.as_str());
        push_str(&mut token, upper.as_str());
        let ghost pre = match assets@ {
            JsonV::Obj(es) => es,
            _ => Seq::empty(),
        };
        json_insert(&mut assets, "jsxTools", Json::Raw(token));
        proof {
            let raw = JsonV::Raw("JSX_TOOLS."@ + upper_seq(options.jts_loader@));
            assert(!crate::json::has_key(pre, "jsxTools"@)) by {
                if crate::json::has_key(pre, "jsxTools"@) {
                    let i = choose|i: int| 0 <= i < pre.len() && pre[i].0 == "jsxTools"@;
                    reveal_strlit("cssScoped");
                    reveal_strlit("jsxTools");
                    assert(pre[i].0 == "cssScoped"@);
                }
            }
            crate::json::lemma_obj_insert(pre, "jsxTools"@, raw);
            assert(obj_insert(pre, "jsxTools"@, raw) == pre.push(("jsxTools"@, raw)));
            assert(pre.push(("jsxTools"@, raw)) =~~= assets_v(*options));
        }
    }
    proof {
        assert(assets@ =~~= JsonV::Obj(assets_v(*options)));
    }

    let mut config_entries: Vec<(String, Json)> = Vec::new();
    let mut html: Vec<(String, Json)> = Vec::new();
    html.push(("title".to_owned(), Json::Str(options.project_name.clone())));
    proof {
        lemma_view_entries(html@);
        assert(view_entries(html@) =~= seq![("title"@, JsonV::Str(options.project_name@))]);
    }
    config_entries.push(("html".to_owned(), Json::Obj(html)));
    if options.css_scoped || has_loader {
        config_entries.push(("assets".to_owned(), assets));
    }
    if !str_eq(options.template.as_str(), "react_ts") {
        let mut antd_theme: Vec<(String, Json)> = Vec::new();
        antd_theme.push(("file".to_owned(), Json::Str("./src/theme/index.ts".to_owned())));
        proof {
            lemma_view_entries(antd_theme@);
            assert(view_entries(antd_theme@) =~= seq![
                ("file"@, JsonV::Str("./src/theme/index.ts"@)),
            ]);
        }
        config_entries.push(("antdTheme".to_owned(), Json::Obj(antd_theme)));
        let mut less_vars: Vec<(String, Json)> = Vec::new();
        less_vars.push(("file".to_owned(), Json::Str("./src/theme/globalVars.ts".to_owned())));
        proof {
            lemma_view_entries(less_vars@);
            assert(view_entries(less_vars@) =~= seq![
                ("file"@, JsonV::Str("./src/theme/globalVars.ts"@)),
            ]);
        }
        config_entries.push(("lessVars".to_owned(), Json::Obj(less_vars)));
    }
    let config = Json::Obj(config_entries);
    proof {
        assert(crate::json::view_entries(config_entries@) =~= bundler_config_v(*options));
        assert(config@ == JsonV::Obj(bundler_config_v(*options)));
    }

    let rendered = config.to_pretty_string();
    let mut out = "import { defineConfig".to_owned();
    if has_loader {
        push_str(&mut out, ", JSX_TOOLS");
    }
    push_str(&mut out, "} from 'rzpack'\n\n");
    push_str(&mut out, "export default defineConfig(\n");
    push_str(&mut out, rendered.as_str());
    push_str(&mut out, ")\n");
    proof {
        assert(out@ =~= bundler_config_text(*options));
    }
    out
}

/// The fixed `.gitignore` content.
pub open spec fn gitignore_text() -> Seq<char> {
    "node_modules\nbin\n*.log\n.vscode\n.DS_Store\ndist"@
}

/// The fixed `.gitignore` document.
pub fn gitignore() -> (r: String)
    ensures
        r@ == gitignore_text(),
{
    "node_modules\nbin\n*.log\n.vscode\n.DS_Store\ndist".to_owned()
}

/// One commit-type choice of the commit prompt configuration.
pub open spec fn commit_type_v(value: Seq<char>, name: Seq<char>) -> JsonV {
    JsonV::Obj(seq![("value"@, JsonV::Str(value)), ("name"@, JsonV::Str(name))])
}

/// The commit-type prompt configuration object.
pub open spec fn cz_config_v() -> JsonV {
    JsonV::Obj(
        seq![
            (
                "messages"@,
                JsonV::Obj(
                    seq![
                        ("type"@, JsonV::Str("请选择要提交的更改类型: "@)),
                        ("subject"@, JsonV::Str("请输入此次更改内容的简短描述:"@)),
                        ("body"@, JsonV::Str("请输入此次更改内容的详细描述[可选]:"@)),
                        ("confirmCommit"@, JsonV::Str("是否提交本次内容?"@)),
                    ],
                ),
            ),
            (
                "skipQuestions"@,
                JsonV::Arr(
                    seq![JsonV::Str("breaking"@), JsonV::Str("scope"@), JsonV::Str("footer"@)],
                ),
            ),
            ("subjectLimit"@, JsonV::Num(100)),
            (
                "types"@,
                JsonV::Arr(
                    seq![
                        commit_type_v("feat"@, "feat: 新功能"@),
                        commit_type_v("fix"@, "fix: Bug修复"@),
                        commit_type_v("docs"@, "docs: 文档更改"@),
                        commit_type_v(
                            "style"@,
                            "style: 不影响代码含义的更改(空白、格式、缺少分号等)"@,
                        ),
                        commit_type_v("refactor"@, "refactor: 代码重构"@),
                        commit_type_v("perf"@, "perf: 性能优化"@),
                        commit_type_v("test"@, "test: 测试更改"@),
                        commit_type_v(
                            "build"@,
                            "build: 影响构建系统或外部依赖关系的更改(示例范围: gulp、Brocoli、npm)"@,
                        ),
                        commit_type_v("ci"@, "ci: CI配置文件和脚本更改"@),
                        commit_type_v("chore"@, "chore: 其他"@),
                        commit_type_v("revert"@, "revert: 代码回退"@),
                    ],
                ),
            ),
        ],
    )
}

/// The fixed commit-lint configuration source.
pub open spec fn commit_lint_text() -> Seq<char> {
    "module.exports = {\n  extends: ['@commitlint/config-conventional', 'cz'],\n}\n"@
}

/// The commit-type prompt configuration source.
pub open spec fn cz_config_text() -> Seq<char> {
    "module.exports = "@ + render(cz_config_v(), Seq::<char>::empty())
}

/// One commit-type choice as a document value.
fn commit_type(value: &str, name: &str) -> (r: Json)
    ensures
        r@ == commit_type_v(value@, name@),
{
    let mut v: Vec<(String, Json)> = Vec::new();
    v.push(("value".to_owned(), Json::Str(value.to_owned())));
    v.push(("name".to_owned(), Json::Str(name.to_owned())));
    proof {
        lemma_view_entries(v@);
        assert(view_entries(v@) =~= seq![
            ("value"@, JsonV::Str(value@)),
            ("name"@, JsonV::Str(name@)),
        ]);
    }
    Json::Obj(v)
}

/// The two commit-lint documents: the commit-lint configuration and
/// the commit-type prompt configuration, in that order.
pub fn commit_lint_config() -> (r: (String, String))
    ensures
        r.0@ == commit_lint_text(),
        r.1@ == cz_config_text(),
{
    let lint = "module.exports = {\n  extends: ['@commitlint/config-conventional', 'cz'],\n}\n"
        .to_owned();

    let mut messages: Vec<(String, Json)> = Vec::new();
    messages.push(("type".to_owned(), Json::Str("请选择要提交的更改类型: ".to_owned())));
    messages.push(
        ("subject".to_owned(), Json::Str("请输入此次更改内容的简短描述:".to_owned())),
    );
    messages.push(
        ("body".to_owned(), Json::Str("请输入此次更改内容的详细描述[可选]:".to_owned())),
    );
    messages.push(("confirmCommit".to_owned(), Json::Str("是否提交本次内容?".to_owned())));
    proof {
        lemma_view_entries(messages@);
        assert(view_entries(messages@) =~= seq![
            ("type"@, JsonV::Str("请选择要提交的更改类型: "@)),
            ("subject"@, JsonV::Str("请输入此次更改内容的简短描述:"@)),
            ("body"@, JsonV::Str("请输入此次更改内容的详细描述[可选]:"@)),
            ("confirmCommit"@, JsonV::Str("是否提交本次内容?"@)),
        ]);
    }

    let mut skip: Vec<Json> = Vec::new();
    skip.push(Json::Str("breaking".to_owned()));
    skip.push(Json::Str("scope".to_owned()));
    skip.push(Json::Str("footer".to_owned()));
    proof {
        crate::json::lemma_view_items(skip@);
        assert(crate::json::view_items(skip@) =~= seq![
            JsonV::Str("breaking"@),
            JsonV::Str("scope"@),
            JsonV::Str("footer"@),
        ]);
    }

    let mut types: Vec<Json> = Vec::new();
    types.push(commit_type("feat", "feat: 新功能"));
    types.push(commit_type("fix", "fix: Bug修复"));
    types.push(commit_type("docs", "docs: 文档更改"));
    types.push(
        commit_type("style", "style: 不影响代码含义的更改(空白、格式、缺少分号等)"),
    );
    types.push(commit_type("refactor", "refactor: 代码重构"));
    types.push(commit_type("perf", "perf: 性能优化"));
    types.push(commit_type("test", "test: 测试更改"));
    types.push(
        commit_type(
            "build",
            "build: 影响构建系统或外部依赖关系的更改(示例范围: gulp、Brocoli、npm)",
        ),
    );
    types.push(commit_type("ci", "ci: CI配置文件和脚本更改"));
    types.push(commit_type("chore", "chore: 其他"));
    types.push(commit_type("revert", "revert: 代码回退"));
    proof {
        crate::json::lemma_view_items(types@);
        assert(crate::json::view_items(types@) =~= seq![
            commit_type_v("feat"@, "feat: 新功能"@),
            commit_type_v("fix"@, "fix: Bug修复"@),
            commit_type_v("docs"@, "docs: 文档更改"@),
            commit_type_v(
                "style"@,
                "style: 不影响代码含义的更改(空白、格式、缺少分号等)"@,
            ),
            commit_type_v("refactor"@, "refactor: 代码重构"@),
            commit_type_v("perf"@, "perf: 性能优化"@),
            commit_type_v("test"@, "test: 测试更改"@),
            commit_type_v(
                "build"@,
                "build: 影响构建系统或外部依赖关系的更改(示例范围: gulp、Brocoli、npm)"@,
            ),
            commit_type_v("ci"@, "ci: CI配置文件和脚本更改"@),
            commit_type_v("chore"@, "chore: 其他"@),
            commit_type_v("revert"@, "revert: 代码回退"@),
        ]);
    }

    let mut v: Vec<(String, Json)> = Vec::new();
    v.push(("messages".to_owned(), Json::Obj(messages)));
    v.push(("skipQuestions".to_owned(), Json::Arr(skip)));
    v.push(("subjectLimit".to_owned(), Json::Num(100)));
    v.push(("types".to_owned(), Json::Arr(types)));
    let cz = Json::Obj(v);
    proof {
        assert(crate::json::view_entries(v@) =~= cz_config_v()->Obj_0);
        assert(cz@ == cz_config_v());
    }

    let mut cz_text = "module.exports = ".to_owned();
    let rendered = cz.to_pretty_string();
    push_str(&mut cz_text, rendered.as_str());
    (lint, cz_text)
}

/// The editor settings recommended for the rome linter.
pub open spec fn rome_editor_v() -> JsonV {
    JsonV::Obj(
        seq![
            ("editor.defaultFormatter"@, JsonV::Str("rome.rome"@)),
            (
                "[javascript]"@,
                JsonV::Obj(seq![("editor.defaultFormatter"@, JsonV::Str("rome.rome"@))]),
            ),
            (
                "[typescriptreact]"@,
                JsonV::Obj(seq![("editor.defaultFormatter"@, JsonV::Str("rome.rome"@))]),
            ),
            (
                "[typescript]"@,
                JsonV::Obj(seq![("editor.defaultFormatter"@, JsonV::Str("rome.rome"@))]),
            ),
            (
                "editor.codeActionsOnSave"@,
                JsonV::Obj(seq![("source.organizeImports.rome"@, JsonV::Bool(true))]),
            ),
        ],
    )
}

/// The editor-plugin lines for the chosen linter.
pub open spec fn js_lint_plugin_text(js_lint: Seq<char>) -> Seq<char> {
    if js_lint.len() == 0 {
        Seq::empty()
    } else if js_lint == "rome"@ {
        "- `Rome`\n"@
    } else {
        "- `ESLint`\n- `Prettier - Code formatter`\n"@
    }
}

/// The fixed editor-setup section heading.
pub open spec fn vscode_setting_title_text() -> Seq<char> {
    "## 配置 Vscode\n\n"@ + "在`Vscode`配置文件`settings.json`中添加如下配置\n\n"@
        + "```json\n"@ + "\"editor.formatOnSave\": true,\n"@
        + "\"editor.codeActionsOnSave\": {\n"@ + "    \"source.fixAll\": true\n"@ + "}\n"@
        + "```\n\n"@
}

/// The editor-setup instructions for eslint with prettier.
pub open spec fn eslint_settings_text() -> Seq<char> {
    "### 配置 Eslint+Prettier\n\n"@
        + "在`Vscode`配置文件`settings.json`中添加如下配置\n\n"@ + "```json\n"@
        + "\"prettier.jsxSingleQuote\": true,\n"@ + "\"prettier.requireConfig\": true,\n"@
        + "\"prettier.semi\": false,\n"@ + "\"prettier.singleQuote\": true,\n"@
        + "\"prettier.arrowParens\": \"avoid\",\n"@ + "```\n\n"@
}

/// The editor-setup instructions for rome.
pub open spec fn rome_settings_text() -> Seq<char> {
    "### 配置 Rome\n\n"@ + "在根目录下创建`.vscode/settings.json`\n"@ + "```json\n"@
        + render(rome_editor_v(), Seq::<char>::empty()) + "```\n\n"@
}

/// The whole README of a Configuration Record: the fixed development
/// sections, the plugin list for the chosen linter and style-lint
/// choice, and the editor setup for the chosen linter.
pub open spec fn readme_text(o: Prompts) -> Seq<char> {
    "# "@ + o.project_name@ + "\n\n"@ + "> create-rzpack创建的React项目\n\n"@
        + "## 开发\n\n"@ + "```bash\n"@ + "npm run dev\n"@ + "```\n"@ + "## 打包\n\n"@
        + "```bash\n"@ + "npm run build\n"@ + "```\n"@ + "\n"@ + "## Vscode 插件\n\n"@
        + js_lint_plugin_text(o.js_lint@) + (if o.style_lint {
        "- `Stylelint`\n"@
    } else {
        Seq::<char>::empty()
    }) + "- `CSS Modules`\n"@ + "\n"@ + vscode_setting_title_text() + (if o.js_lint@
        == "rome"@ {
        rome_settings_text()
    } else {
        eslint_settings_text()
    }) + "\n"@
}

/// The README of a Configuration Record.
#[verifier::rlimit(60)]
pub fn readme(options: &Prompts) -> (r: String)
    ensures
        r@ == readme_text(*options),
{
    let mut out = "# ".to_owned();
    push_str(&mut out, options.project_name.as_str());
    push_str(&mut out, "\n\n");
    push_str(&mut out, "> create-rzpack创建的React项目\n\n");
    push_str(&mut out, "## 开发\n\n");
    push_str(&mut out, "```bash\n");
    push_str(&mut out, "npm run dev\n");
    push_str(&mut out, "```\n");
    push_str(&mut out, "## 打包\n\n");
    push_str(&mut out, "```bash\n");
    push_str(&mut out, "npm run build\n");
    push_str(&mut out, "```\n");
    push_str(&mut out, "\n");
    push_str(&mut out, "## Vscode 插件\n\n");
    if !options.js_lint.as_str().is_empty() {
        if str_eq(options.js_lint.as_str(), "rome") {
            push_str(&mut out, "- `Rome`\n");
        } else {
            push_str(&mut out, "- `ESLint`\n- `Prettier - Code formatter`\n");
        }
    }
    if options.style_lint {
        push_str(&mut out, "- `Stylelint`\n");
    }
    push_str(&mut out, "- `CSS Modules`\n");
    push_str(&mut out, "\n");
    push_str(&mut out, "## 配置 Vscode\n\n");
    push_str(&mut out, "在`Vscode`配置文件`settings.json`中添加如下配置\n\n");
    push_str(&mut out, "```json\n");
    push_str(&mut out, "\"editor.formatOnSave\": true,\n");
    push_str(&mut out, "\"editor.codeActionsOnSave\": {\n");
    push_str(&mut out, "    \"source.fixAll\": true\n");
    push_str(&mut out, "}\n");
    push_str(&mut out, "```\n\n");
    if str_eq(options.js_lint.as_str(), "rome") {
        push_str(&mut out, "### 配置 Rome\n\n");
        push_str(&mut out, "在根目录下创建`.vscode/settings.json`\n");
        push_str(&mut out, "```json\n");
        let settings = build_rome_editor();
        let rendered = settings.to_pretty_string();
        push_str(&mut out, rendered.as_str());
        push_str(&mut out, "```\n\n");
    } else {
        push_str(&mut out, "### 配置 Eslint+Prettier\n\n");
        push_str(&mut out, "在`Vscode`配置文件`settings.json`中添加如下配置\n\n");
        push_str(&mut out, "```json\n");
        push_str(&mut out, "\"prettier.jsxSingleQuote\": true,\n");
        push_str(&mut out, "\"prettier.requireConfig\": true,\n");
        push_str(&mut out, "\"prettier.semi\": false,\n");
        push_str(&mut out, "\"prettier.singleQuote\": true,\n");
        push_str(&mut out, "\"prettier.arrowParens\": \"avoid\",\n");
        push_str(&mut out, "```\n\n");
    }
    push_str(&mut out, "\n");
    proof {
        assert(out@ =~= readme_text(*options));
    }
    out
}

/// The editor settings recommended for the rome linter.
fn build_rome_editor() -> (r: Json)
    ensures
        r@ == rome_editor_v(),
{
    let mut v: Vec<(String, Json)> = Vec::new();
    v.push(("editor.defaultFormatter".to_owned(), Json::Str("rome.rome".to_owned())));
    let mut js: Vec<(String, Json)> = Vec::new();
    js.push(("editor.defaultFormatter".to_owned(), Json::Str("rome.rome".to_owned())));
    proof {
        lemma_view_entries(js@);
        assert(view_entries(js@) =~= seq![("editor.defaultFormatter"@, JsonV::Str("rome.rome"@))]);
    }
    v.push(("[javascript]".to_owned(), Json::Obj(js)));
    let mut tsx: Vec<(String, Json)> = Vec::new();
    tsx.push(("editor.defaultFormatter".to_owned(), Json::Str("rome.rome".to_owned())));
    proof {
        lemma_view_entries(tsx@);
        assert(view_entries(tsx@) =~= seq![
            ("editor.defaultFormatter"@, JsonV::Str("rome.rome"@)),
        ]);
    }
    v.push(("[typescriptreact]".to_owned(), Json::Obj(tsx)));
    let mut ts: Vec<(String, Json)> = Vec::new();
    ts.push(("editor.defaultFormatter".to_owned(), Json::Str("rome.rome".to_owned())));
    proof {
        lemma_view_entries(ts@);
        assert(view_entries(ts@) =~= seq![("editor.defaultFormatter"@, JsonV::Str("rome.rome"@))]);
    }
    v.push(("[typescript]".to_owned(), Json::Obj(ts)));
    let mut actions: Vec<(String, Json)> = Vec::new();
    actions.push(("source.organizeImports.rome".to_owned(), Json::Bool(true)));
    proof {
        lemma_view_entries(actions@);
        assert(view_entries(actions@) =~= seq![
            ("source.organizeImports.rome"@, JsonV::Bool(true)),
        ]);
    }
    v.push(("editor.codeActionsOnSave".to_owned(), Json::Obj(actions)));
    let settings = Json::Obj(v);
    proof {
        assert(view_entries(v@) =~= rome_editor_v()->Obj_0);
        assert(settings@ == rome_editor_v());
    }
    settings
}

/// The auto-restart watch configuration object: it watches the
/// bundler configuration file and restarts the dev server.
pub open spec fn nodemon_v() -> JsonV {
    JsonV::Obj(
        seq![
            ("watch"@, JsonV::Arr(seq![JsonV::Str("rzpack.config.ts"@)])),
            ("exec"@, JsonV::Str("npm run dev"@)),
        ],
    )
}

/// The auto-restart watch configuration document.
pub open spec fn nodemon_text() -> Seq<char> {
    render(nodemon_v(), Seq::<char>::empty())
}

/// The auto-restart watch configuration document.
pub fn nodemon() -> (r: String)
    ensures
        r@ == nodemon_text(),
{
    let mut watch: Vec<Json> = Vec::new();
    watch.push(Json::Str("rzpack.config.ts".to_owned()));
    proof {
        crate::json::lemma_view_items(watch@);
        assert(crate::json::view_items(watch@) =~= seq![JsonV::Str("rzpack.config.ts"@)]);
    }
    let mut v: Vec<(String, Json)> = Vec::new();
    v.push(("watch".to_owned(), Json::Arr(watch)));
    v.push(("exec".to_owned(), Json::Str("npm run dev".to_owned())));
    let config = Json::Obj(v);
    proof {
        assert(crate::json::view_entries(v@) =~= nodemon_v()->Obj_0);
        assert(config@ == nodemon_v());
    }
    config.to_pretty_string()
}

} // verus!
