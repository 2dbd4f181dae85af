use vstd::prelude::*;

verus! {

/// The kind of a source file, as its extension tells it.
#[derive(Clone, Copy, Debug, PartialEq, Eq, Structural)]
pub enum MediaKind {
    JavaScript,
    Jsx,
    Mjs,
    Cjs,
    TypeScript,
    Mts,
    Cts,
    Dts,
    Dmts,
    Dcts,
    Tsx,
    Json,
    Other,
}

/// How a module is handed to the runtime.
#[derive(Clone, Copy, Debug, PartialEq, Eq, Structural)]
pub enum ModuleKind {
    JavaScript,
    Json,
}

/// How a source file of a kind is loaded: as what kind of module, and
/// whether it is transpiled first. `None` for a kind that cannot be loaded.
pub open spec fn module_load_plan(media: MediaKind) -> Option<(ModuleKind, bool)> {
    match media {
        MediaKind::JavaScript | MediaKind::Mjs | MediaKind::Cjs => Some((ModuleKind::JavaScript, false)),
        MediaKind::Json => Some((ModuleKind::Json, false)),
        MediaKind::Other => None,
        _ => Some((ModuleKind::JavaScript, true)),
    }
}

/// How a source file of a kind is loaded (see `module_load_plan`): plain
/// JavaScript as it is, JSON as JSON, JSX and every TypeScript kind
/// transpiled to JavaScript.
pub fn module_type_for(media: MediaKind) -> (r: Option<(ModuleKind, bool)>)
    ensures
        r == module_load_plan(media),
{
    match media {
        MediaKind::JavaScript | MediaKind::Mjs | MediaKind::Cjs => Some((ModuleKind::JavaScript, false)),
        MediaKind::Jsx => Some((ModuleKind::JavaScript, true)),
        MediaKind::TypeScript | MediaKind::Mts | MediaKind::Cts | MediaKind::Dts | MediaKind::Dmts
        | MediaKind::Dcts | MediaKind::Tsx => Some((ModuleKind::JavaScript, true)),
        MediaKind::Json => Some((ModuleKind::Json, false)),
        MediaKind::Other => None,
    }
}

/// Whether an import names the runtime's own module, which resolves to
/// `ext:uzumaki/runtime.js`.
pub fn is_runtime_specifier(specifier: &str) -> (b: bool)
    ensures
        b == (specifier@ == "uzumaki"@),
{
    crate::textkit::str_eq(specifier, "uzumaki")
}

/// Whether JSX is compiled in development mode for a value of `NODE_ENV`:
/// unless it is exactly `production`, and also when it is unset.
pub fn jsx_development_mode(node_env: Option<&str>) -> (b: bool)
    ensures
        b == (match node_env {
            Some(v) => v@ != "production"@,
            None => true,
        }),
{
    match node_env {
        Some(v) => !crate::textkit::str_eq(v, "production"),
        None => true,
    }
}

} // verus!
