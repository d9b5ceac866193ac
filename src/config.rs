//! The runtime's configuration and what is derived from it: the home
//! directory, the search path, the site directories, the environment and the
//! entry point.

use vstd::prelude::*;
use crate::paths::{
    holds_list_sep, join_path, join_search_path, joined, resolve_path, resolve_paths,
    search_path_text, site_dirs, site_dirs_of, views,
};

verus! {

/// The configuration file found at the top of an installation root.
pub struct RuntimeConfig {
    /// The runtime's home directory.
    pub python_home: String,
    /// The module search path, in order of precedence.
    pub python_path: Vec<String>,
}

/// A configuration resolved against its installation root.
pub struct ResolvedRuntime {
    /// The home directory, absolute when the root is.
    pub home: String,
    /// The search path, entry for entry and in the same order.
    pub search_paths: Vec<String>,
    /// The entries of the search path whose last component is
    /// `site-packages`, in the same order.
    pub site_dirs: Vec<String>,
}

/// The path of the configuration file of the installation at `root`.
pub fn config_file(root: &str) -> (r: String)
    ensures
        r@ == joined(root@, "pyembed.json"@),
{
    join_path(root, "pyembed.json")
}

/// Resolves the configuration's entries against `root`.
pub fn resolve_config(root: &str, cfg: &RuntimeConfig) -> (r: ResolvedRuntime)
    ensures
        r.home@ == joined(root@, cfg.python_home@),
        r.search_paths@.len() == cfg.python_path@.len(),
        forall|i: int|
            0 <= i < cfg.python_path@.len() ==> #[trigger] r.search_paths@[i]@ == joined(
                root@,
                cfg.python_path@[i]@,
            ),
        views(r.site_dirs@) == site_dirs_of(views(r.search_paths@)),
{
    let home = resolve_path(root, cfg.python_home.as_str());
    let search_paths = resolve_paths(root, &cfg.python_path);
    let site = site_dirs(&search_paths);
    ResolvedRuntime { home, search_paths, site_dirs: site }
}

/// The environment that the runtime reads at start-up: its home, its search
/// path as one list, and the flag that has setuptools provide `distutils`.
pub open spec fn env_bindings_spec(home: Seq<char>, search: Seq<Seq<char>>) -> Seq<
    (Seq<char>, Seq<char>),
> {
    seq![
        ("PYTHONHOME"@, home),
        ("PYTHONPATH"@, search_path_text(search)),
        ("SETUPTOOLS_USE_DISTUTILS"@, "local"@),
    ]
}

/// The variables to set before the runtime starts, in order; `None` when an
/// entry of the search path holds the list separator.
pub fn env_bindings(resolved: &ResolvedRuntime) -> (r: Option<Vec<(String, String)>>)
    ensures
        r is None <==> holds_list_sep(views(resolved.search_paths@)),
        r matches Some(v) ==> v@.map_values(|b: (String, String)| (b.0@, b.1@))
            == env_bindings_spec(resolved.home@, views(resolved.search_paths@)),
{
    match join_search_path(&resolved.search_paths) {
        None => None,
        Some(search) => {
            let mut v: Vec<(String, String)> = Vec::new();
            v.push(("PYTHONHOME".to_owned(), resolved.home.clone()));
            v.push(("PYTHONPATH".to_owned(), search));
            v.push(("SETUPTOOLS_USE_DISTUTILS".to_owned(), "local".to_owned()));
            assert(v@.map_values(|b: (String, String)| (b.0@, b.1@)) =~= env_bindings_spec(
                resolved.home@,
                views(resolved.search_paths@),
            ));
            Some(v)
        },
    }
}

/// What the launcher hands control to once the runtime is up.
#[derive(Debug)]
pub enum EntryPoint {
    /// Run the module as the main program.
    RunModule(String),
    /// Import the module and call the function without arguments.
    Call { module: String, function: String },
}

/// The module used when none is chosen.
pub open spec fn default_module() -> Seq<char> {
    "octobot.cli"@
}

/// The function used when none is chosen.
pub open spec fn default_function() -> Seq<char> {
    "main"@
}

/// The chosen value, or the default.
pub open spec fn chosen(o: Option<String>, default: Seq<char>) -> Seq<char> {
    match o {
        Some(s) => s@,
        None => default,
    }
}

/// Picks the entry point from the chosen module and function, each of which
/// falls back to its default; an empty function name runs the module as the
/// main program.
pub fn entry_point(module: Option<String>, function: Option<String>) -> (r: EntryPoint)
    ensures
        match r {
            EntryPoint::RunModule(m) => m@ == chosen(module, default_module()) && chosen(
                function,
                default_function(),
            ).len() == 0,
            EntryPoint::Call { module: m, function: f } => m@ == chosen(module, default_module())
                && f@ == chosen(function, default_function()) && f@.len() > 0,
        },
{
    let ghost module_in = module;
    let ghost function_in = function;
    let m = match module {
        Some(s) => s,
        None => "octobot.cli".to_owned(),
    };
    let f = match function {
        Some(s) => s,
        None => "main".to_owned(),
    };
    assert(chosen(function_in, default_function()) == f@);
    if f.as_str().unicode_len() == 0 {
        EntryPoint::RunModule(m)
    } else {
        EntryPoint::Call { module: m, function: f }
    }
}

} // verus!
