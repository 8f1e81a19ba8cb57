//! The immutable Configuration Record and the decisions behind the
//! interactive flow that fills it in.
//!
//! The questions themselves (reading a line, showing a select list,
//! asking yes or no) stay outside the library; these functions take
//! the raw answers and derive the record from them.

use vstd::prelude::*;

use crate::file::{resolve_path, resolved_path};
use crate::pkg::{is_valid_package_name, valid_package_name};
use crate::text::str_eq;

verus! {

/// The command-line arguments that may pre-answer some questions.
pub struct Args {
    /// The project name proposed on the command line.
    pub project_name: String,
    /// A template chosen on the command line, checked against the
    /// known template names.
    pub template: Option<String>,
    /// Forces overwriting a non-empty destination directory.
    pub force: Option<bool>,
}

/// The immutable Configuration Record: every resolved user choice that
/// drives the composition engine.
pub struct Prompts {
    pub project_name: String,
    pub overwrite: bool,
    pub package_name: String,
    pub template: String,
    pub jts_loader: String,
    pub css_scoped: bool,
    pub js_lint: String,
    pub style_lint: bool,
    pub commit_lint: bool,
    pub rs: bool,
    pub root: String,
}

impl Prompts {
    /// The record invariant: the package name passed the validity rule
    /// before the record was considered complete.
    pub open spec fn wf(self) -> bool {
        valid_package_name(self.package_name@)
    }
}

/// The template names offered, in the order they are offered.
pub open spec fn template_name(i: int) -> Seq<char> {
    if i == 0 {
        "react_ts"@
    } else if i == 1 {
        "antd"@
    } else if i == 2 {
        "admin"@
    } else {
        "admin_header_menu"@
    }
}

/// Whether `s` names one of the offered templates.
pub open spec fn is_template_name(s: Seq<char>) -> bool {
    exists|i: int| 0 <= i < 4 && s == template_name(i)
}

/// The transform-tool names offered, in the order they are offered.
pub open spec fn jts_loader_name(i: int) -> Seq<char> {
    if i == 0 {
        "babel"@
    } else if i == 1 {
        "esbuild"@
    } else {
        "swc"@
    }
}

/// The linter choices offered, in the order they are offered; the
/// empty string stands for "no linter".
pub open spec fn js_lint_name(i: int) -> Seq<char> {
    if i == 0 {
        "eslint"@
    } else if i == 1 {
        "rome"@
    } else {
        ""@
    }
}

/// The template to use: a command-line argument naming a known
/// template wins; otherwise the interactive selection (an index into
/// the offered list) decides.
pub fn get_template_value(template: Option<String>, selection: usize) -> (r: String)
    requires
        selection < 4,
    ensures
        match template {
            Some(t) => if is_template_name(t@) {
                r@ == t@
            } else {
                r@ == template_name(selection as int)
            },
            None => r@ == template_name(selection as int),
        },
{
    match template {
        Some(t) => {
            if str_eq(t.as_str(), "react_ts") || str_eq(t.as_str(), "antd") || str_eq(
                t.as_str(),
                "admin",
            ) || str_eq(t.as_str(), "admin_header_menu") {
                proof {
                    assert(is_template_name(t@)) by {
                        if t@ == "react_ts"@ {
                            assert(t@ == template_name(0));
                        } else if t@ == "antd"@ {
                            assert(t@ == template_name(1));
                        } else if t@ == "admin"@ {
                            assert(t@ == template_name(2));
                        } else {
                            assert(t@ == template_name(3));
                        }
                    }
                }
                t
            } else {
                proof {
                    assert(!is_template_name(t@)) by {
                        if is_template_name(t@) {
                            let i = choose|i: int| 0 <= i < 4 && t@ == template_name(i);
                            assert(t@ == template_name(i));
                        }
                    }
                }
                template_at(selection)
            }
        },
        None => template_at(selection),
    }
}

/// The offered template at the given position.
fn template_at(selection: usize) -> (r: String)
    requires
        selection < 4,
    ensures
        r@ == template_name(selection as int),
{
    if selection == 0 {
        "react_ts".to_owned()
    } else if selection == 1 {
        "antd".to_owned()
    } else if selection == 2 {
        "admin".to_owned()
    } else {
        "admin_header_menu".to_owned()
    }
}

/// The transform tool picked by the interactive selection.
pub fn get_jts_loader_value(selection: usize) -> (r: String)
    requires
        selection < 3,
    ensures
        r@ == jts_loader_name(selection as int),
{
    if selection == 0 {
        "babel".to_owned()
    } else if selection == 1 {
        "esbuild".to_owned()
    } else {
        "swc".to_owned()
    }
}

/// The linter picked by the interactive selection; the empty string
/// means none was wanted.
pub fn get_js_lint_value(selection: usize) -> (r: String)
    requires
        selection < 3,
    ensures
        r@ == js_lint_name(selection as int),
{
    if selection == 0 {
        "eslint".to_owned()
    } else if selection == 1 {
        "rome".to_owned()
    } else {
        "".to_owned()
    }
}

/// Whether the destination directory is to be cleared first: so when
/// it is already occupied, or when the command line forces it.  A
/// caller must have obtained the user's confirmation before clearing
/// anything.
pub fn overwrite_dir(can_overwrite: bool, force: Option<bool>, confirmed: bool) -> (r: bool)
    requires
        (can_overwrite || force == Some(true)) ==> confirmed,
    ensures
        r == (can_overwrite || force == Some(true)),
{
    let forced = match force {
        Some(f) => f,
        None => false,
    };
    can_overwrite || forced
}

/// Builds the Configuration Record from the command-line arguments and
/// the raw answers of the interactive flow.
///
/// `project_name` is the answered (already whitespace-trimmed) project
/// name; `package_name_input` is the separately answered package name,
/// which the asking side has already validated and which is consulted
/// only when the project name itself is no valid package name.
pub fn get_prompts(
    args: Args,
    current_dir: &str,
    project_name: String,
    can_overwrite: bool,
    overwrite_confirmed: bool,
    package_name_input: String,
    template_selection: usize,
    jts_selection: usize,
    js_lint_selection: usize,
    css_scoped: bool,
    style_lint: bool,
    commit_lint: bool,
    rs: bool,
) -> (r: Prompts)
    requires
        template_selection < 4,
        jts_selection < 3,
        js_lint_selection < 3,
        (can_overwrite || args.force == Some(true)) ==> overwrite_confirmed,
        !valid_package_name(project_name@) ==> valid_package_name(package_name_input@),
    ensures
        r.wf(),
        r.project_name@ == project_name@,
        r.overwrite == (can_overwrite || args.force == Some(true)),
        r.package_name@ == if valid_package_name(project_name@) {
            project_name@
        } else {
            package_name_input@
        },
        match args.template {
            Some(t) => if is_template_name(t@) {
                r.template@ == t@
            } else {
                r.template@ == template_name(template_selection as int)
            },
            None => r.template@ == template_name(template_selection as int),
        },
        r.jts_loader@ == jts_loader_name(jts_selection as int),
        r.js_lint@ == js_lint_name(js_lint_selection as int),
        r.css_scoped == css_scoped,
        r.style_lint == style_lint,
        r.commit_lint == commit_lint,
        r.rs == rs,
        r.root@ == resolved_path(current_dir@, project_name@),
{
    let overwrite = overwrite_dir(can_overwrite, args.force, overwrite_confirmed);
    let template = get_template_value(args.template, template_selection);
    let package_name = if is_valid_package_name(project_name.as_str()) {
        project_name.clone()
    } else {
        package_name_input
    };
    let jts_loader = get_jts_loader_value(jts_selection);
    let js_lint = get_js_lint_value(js_lint_selection);
    let root = resolve_path(current_dir, project_name.as_str());
    Prompts {
        project_name,
        overwrite,
        package_name,
        template,
        jts_loader,
        css_scoped,
        js_lint,
        style_lint,
        commit_lint,
        rs,
        root,
    }
}

} // verus!
