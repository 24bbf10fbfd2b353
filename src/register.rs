use vstd::prelude::*;
use crate::error::{Error, ErrorKind};
use crate::model::{ProjectType, ProjectTypeModel};
use crate::paths::{file_name, path_file_name};
use crate::table::{
    has_key, insert_entry, keys_unique, lemma_insert_entry, lemma_insert_entry_twice, lookup, Table,
};

verus! {

/// The registry: each project's name and the path of its directory.
pub type Registry = Table<String>;

/// The catalog of project types, by name.
pub type TypeCatalog = Table<ProjectType>;

/// What a registration comes to.
pub enum RegisterOutcome {
    /// No project name can be had from the path.
    InvalidPath,
    /// The directory has no marker and no project type was given.
    MissingProjectType,
    /// The given project type is not in the catalog.
    UnknownProjectType,
    /// The project is recorded under `name`; `marker` is the type to write
    /// to a marker file, where the directory has none yet.
    Registered { name: Seq<char>, marker: Option<ProjectTypeModel> },
}

/// The name a project is registered under: the one given, which must not be
/// empty, or else the last component of its path.
pub open spec fn resolved_name(path: Seq<char>, name: Option<Seq<char>>) -> Option<Seq<char>> {
    match name {
        Some(n) => if n.len() > 0 {
            Some(n)
        } else {
            None
        },
        None => file_name(path),
    }
}

/// The outcome of registering `path` with the optional `project_type` and
/// `name`, where `marker_exists` tells whether the directory already has its
/// marker file. An existing marker settles the type: a given one is then
/// ignored.
pub open spec fn register_outcome(
    catalog: Seq<(Seq<char>, ProjectTypeModel)>,
    path: Seq<char>,
    project_type: Option<Seq<char>>,
    name: Option<Seq<char>>,
    marker_exists: bool,
) -> RegisterOutcome {
    match resolved_name(path, name) {
        None => RegisterOutcome::InvalidPath,
        Some(n) => if marker_exists {
            RegisterOutcome::Registered { name: n, marker: None }
        } else {
            match project_type {
                None => RegisterOutcome::MissingProjectType,
                Some(t) => match lookup(catalog, t) {
                    None => RegisterOutcome::UnknownProjectType,
                    Some(pt) => RegisterOutcome::Registered { name: n, marker: Some(pt) },
                },
            }
        },
    }
}

/// The registry after that registration: the project's entry stored where it
/// succeeds, the registry unchanged where it fails.
pub open spec fn registry_after(
    registry: Seq<(Seq<char>, Seq<char>)>,
    catalog: Seq<(Seq<char>, ProjectTypeModel)>,
    path: Seq<char>,
    project_type: Option<Seq<char>>,
    name: Option<Seq<char>>,
    marker_exists: bool,
) -> Seq<(Seq<char>, Seq<char>)> {
    match register_outcome(catalog, path, project_type, name, marker_exists) {
        RegisterOutcome::Registered { name: n, .. } => insert_entry(registry, n, path),
        _ => registry,
    }
}

/// The text of an optional string argument.
pub open spec fn str_view(s: Option<&str>) -> Option<Seq<char>> {
    match s {
        Some(t) => Some(t@),
        None => None,
    }
}

/// The model of an optional project type.
pub open spec fn type_view(t: Option<ProjectType>) -> Option<ProjectTypeModel> {
    match t {
        Some(p) => Some(p@),
        None => None,
    }
}

/// What a successful registration did, and what is left for the caller to write.
#[derive(Debug)]
pub struct Registration {
    /// The name the project is recorded under.
    pub name: String,
    /// Whether a project of that name was recorded before and is replaced.
    pub replaced: bool,
    /// The project type to write to the directory's marker file, where it has none.
    pub marker: Option<ProjectType>,
}

/// Registers the directory at `path` in `registry`. The caller tells whether
/// the directory's marker file exists, writes the returned marker type to it
/// where there is one, and then saves the registry.
pub fn register(
    registry: &mut Registry,
    catalog: &TypeCatalog,
    path: &str,
    project_type: Option<&str>,
    name: Option<&str>,
    marker_exists: bool,
) -> (r: Result<Registration, Error>)
    requires
        old(registry).wf(),
        catalog.wf(),
    ensures
        final(registry).wf(),
        final(registry)@ == registry_after(
            old(registry)@,
            catalog@,
            path@,
            str_view(project_type),
            str_view(name),
            marker_exists,
        ),
        match register_outcome(
            catalog@,
            path@,
            str_view(project_type),
            str_view(name),
            marker_exists,
        ) {
            RegisterOutcome::Registered { name: n, marker: m } => r matches Ok(reg) && reg.name@ == n
                && reg.replaced == has_key(old(registry)@, n) && type_view(reg.marker) == m,
            RegisterOutcome::InvalidPath => r matches Err(e) && e.kind matches ErrorKind::InvalidPath(
                p,
            ) && p@ == path@,
            RegisterOutcome::MissingProjectType => r matches Err(e) && e.kind
                == ErrorKind::MissingProjectType,
            RegisterOutcome::UnknownProjectType => r matches Err(e) && e.kind matches ErrorKind::UnknownProjectType(
                t,
            ) && str_view(project_type) == Some(t@),
        },
{
    let resolved: Option<String> = match name {
        Some(n) => if n.unicode_len() > 0 {
            Some(String::from_str(n))
        } else {
            None
        },
        None => path_file_name(path),
    };
    let key = match resolved {
        Some(k) => k,
        None => {
            return Err(Error::new(ErrorKind::InvalidPath(String::from_str(path))));
        },
    };
    let marker = if marker_exists {
        None
    } else {
        match project_type {
            None => {
                return Err(Error::new(ErrorKind::MissingProjectType));
            },
            Some(t) => {
                let t_string = String::from_str(t);
                match catalog.get(&t_string) {
                    None => {
                        return Err(Error::new(ErrorKind::UnknownProjectType(t_string)));
                    },
                    Some(pt) => Some(pt.copy()),
                }
            },
        }
    };
    let name_copy = key.clone();
    let replaced = registry.insert(key, String::from_str(path));
    Ok(Registration { name: name_copy, replaced, marker })
}

/// Registering the same path with the same type and name a second time
/// succeeds, needs no marker to be written, and leaves the registry as the
/// first registration left it.
pub proof fn law_register_idempotent(
    registry: Seq<(Seq<char>, Seq<char>)>,
    catalog: Seq<(Seq<char>, ProjectTypeModel)>,
    path: Seq<char>,
    project_type: Option<Seq<char>>,
    name: Option<Seq<char>>,
    marker_exists: bool,
)
    requires
        keys_unique(registry),
        register_outcome(catalog, path, project_type, name, marker_exists) is Registered,
    ensures
        ({
            let first = registry_after(registry, catalog, path, project_type, name, marker_exists);
            &&& register_outcome(catalog, path, project_type, name, true)
                == (RegisterOutcome::Registered {
                name: resolved_name(path, name).unwrap(),
                marker: None,
            })
            &&& registry_after(first, catalog, path, project_type, name, true) == first
            &&& lookup(first, resolved_name(path, name).unwrap()) == Some(path)
        }),
{
    let n = resolved_name(path, name).unwrap();
    lemma_insert_entry(registry, n, path);
    lemma_insert_entry_twice(registry, n, path);
}

/// Where the marker file was written but the registry never saved, running
/// the registration again without a project type succeeds, writes no marker,
/// and records the project.
pub proof fn law_register_self_healing(
    registry: Seq<(Seq<char>, Seq<char>)>,
    catalog: Seq<(Seq<char>, ProjectTypeModel)>,
    path: Seq<char>,
    name: Option<Seq<char>>,
)
    requires
        keys_unique(registry),
        resolved_name(path, name) is Some,
    ensures
        register_outcome(catalog, path, None, name, true) == (RegisterOutcome::Registered {
            name: resolved_name(path, name).unwrap(),
            marker: None,
        }),
        keys_unique(registry_after(registry, catalog, path, None, name, true)),
        lookup(registry_after(registry, catalog, path, None, name, true), resolved_name(path, name).unwrap())
            == Some(path),
{
    lemma_insert_entry(registry, resolved_name(path, name).unwrap(), path);
}

/// Without a project type, a directory that has no marker is refused, and one
/// that has a marker is registered.
pub proof fn law_missing_type_fatal_only_without_marker(
    catalog: Seq<(Seq<char>, ProjectTypeModel)>,
    path: Seq<char>,
    name: Option<Seq<char>>,
)
    requires
        resolved_name(path, name) is Some,
    ensures
        register_outcome(catalog, path, None, name, false) == RegisterOutcome::MissingProjectType,
        register_outcome(catalog, path, None, name, true) is Registered,
{
}

} // verus!
