//! The whole composition run: which template groups apply, every
//! derived document, and the order in which the destination tree is
//! written.

use vstd::prelude::*;

use crate::json::{entries_map, keys_unique, JsonV};
use crate::prompts::Prompts;
use crate::render::config::{
    bundler_config_text, commit_lint_text, cz_config_text, gitignore_text, nodemon_text,
    readme_text,
};
use crate::render::package::{manifest_v, spec_version};
use crate::render::template::{
    first_seg, names_view, pairs_view, rest_after_seg, selected_map,
};

verus! {

/// Everything one run writes: the selected template assets (each as
/// destination-relative path and store path), then the derived
/// documents (each as destination-relative path and content).  The
/// documents come last, so a document always wins over a template
/// asset at the same path.
pub struct Plan {
    pub assets: Vec<(String, String)>,
    pub documents: Vec<(String, String)>,
}

/// The ordered template groups a Configuration Record requests: the
/// base group, the chosen template, the chosen linter's group when one
/// is chosen, and the style-lint group when style-lint is on.
pub open spec fn groups_v(o: Prompts) -> Seq<Seq<char>> {
    let base = seq!["base"@, o.template@];
    let with_lint = if o.js_lint@.len() > 0 {
        base.push(o.js_lint@)
    } else {
        base
    };
    if o.style_lint {
        with_lint.push("stylelint"@)
    } else {
        with_lint
    }
}

/// The derived documents of a run, in the order they are written:
/// the package manifest, the bundler configuration source and the
/// gitignore always; the two commit-lint documents exactly when
/// commit-lint is on; the watch configuration exactly when
/// auto-restart is on; and the README.
pub open spec fn docs_v(
    o: Prompts,
    rzpack_version: Option<Seq<char>>,
    lint_version: Option<Seq<char>>,
) -> Seq<(Seq<char>, Seq<char>)> {
    let head = seq![
        (
            "package.json"@,
            crate::emit::render(
                JsonV::Obj(manifest_v(o, rzpack_version, lint_version)),
                Seq::<char>::empty(),
            ),
        ),
        ("rzpack.config.ts"@, bundler_config_text(o)),
        (".gitignore"@, gitignore_text()),
    ];
    let with_commit = if o.commit_lint {
        head.push(("commitlint.config.js"@, commit_lint_text())).push(
            ("cz.config.js"@, cz_config_text()),
        )
    } else {
        head
    };
    let with_watch = if o.rs {
        with_commit.push(("nodemon.json"@, nodemon_text()))
    } else {
        with_commit
    };
    with_watch.push(("README.md"@, readme_text(o)))
}

/// The destination tree a plan denotes: the selected assets, with the
/// derived documents layered on top (a document wins over an asset at
/// the same path).
pub open spec fn tree_v(
    o: Prompts,
    store: Seq<Seq<char>>,
    rzpack_version: Option<Seq<char>>,
    lint_version: Option<Seq<char>>,
) -> Map<Seq<char>, Seq<char>> {
    selected_map(store, groups_v(o)).union_prefer_right(
        entries_map(docs_v(o, rzpack_version, lint_version)),
    )
}

/// Composes the whole run for a Configuration Record: the selected
/// assets of the requested groups, and every derived document, each
/// pinned to its content.
pub fn compose(
    options: &Prompts,
    store_paths: &Vec<String>,
    rzpack_version: Option<String>,
    lint_version: Option<String>,
) -> (r: Plan)
    ensures
        keys_unique(pairs_view(r.assets@)),
        entries_map(pairs_view(r.assets@)) == selected_map(
            names_view(store_paths@),
            groups_v(*options),
        ),
        forall|i: int|
            0 <= i < r.assets@.len() ==> exists|j: int|
                0 <= j < store_paths@.len() && (#[trigger] pairs_view(r.assets@)[i]) == (
                    rest_after_seg(names_view(store_paths@)[j]),
                    names_view(store_paths@)[j],
                ) && groups_v(*options).contains(first_seg(names_view(store_paths@)[j])),
        pairs_view(r.documents@) == docs_v(
            *options,
            spec_version(rzpack_version),
            spec_version(lint_version),
        ),
{
    let pkg = crate::render::package::create(options, rzpack_version, lint_version);

    let mut dirs: Vec<String> = Vec::new();
    dirs.push("base".to_owned());
    dirs.push(options.template.clone());
    if !options.js_lint.as_str().is_empty() {
        dirs.push(options.js_lint.clone());
    }
    if options.style_lint {
        dirs.push("stylelint".to_owned());
    }
    proof {
        assert(names_view(dirs@) =~= groups_v(*options));
    }
    let assets = crate::render::template::copy(dirs, store_paths);

    let mut documents: Vec<(String, String)> = Vec::new();
    documents.push(("package.json".to_owned(), pkg));
    documents.push(("rzpack.config.ts".to_owned(), crate::render::config::rzpack_config(options)));
    documents.push((".gitignore".to_owned(), crate::render::config::gitignore()));
    if options.commit_lint {
        let (lint, cz) = crate::render::config::commit_lint_config();
        documents.push(("commitlint.config.js".to_owned(), lint));
        documents.push(("cz.config.js".to_owned(), cz));
    }
    if options.rs {
        documents.push(("nodemon.json".to_owned(), crate::render::config::nodemon()));
    }
    documents.push(("README.md".to_owned(), crate::render::config::readme(options)));
    proof {
        assert(pairs_view(documents@) =~= docs_v(
            *options,
            spec_version(rzpack_version),
            spec_version(lint_version),
        ));
    }
    Plan { assets, documents }
}

/// Re-running the pipeline with the same Configuration Record, the
/// same asset store and the same version-lookup answers yields the
/// same destination tree: the tree is a function of those inputs and
/// of nothing else.
pub proof fn lemma_pipeline_deterministic(
    o: Prompts,
    store: Seq<Seq<char>>,
    rzpack_version: Option<Seq<char>>,
    lint_version: Option<Seq<char>>,
    t1: Map<Seq<char>, Seq<char>>,
    t2: Map<Seq<char>, Seq<char>>,
)
    requires
        t1 == tree_v(o, store, rzpack_version, lint_version),
        t2 == tree_v(o, store, rzpack_version, lint_version),
    ensures
        t1 == t2,
{
}

} // verus!
