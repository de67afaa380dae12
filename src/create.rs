use vstd::prelude::*;

use crate::error::SyncError;
use crate::input::{KeyToAdd, Translation};
use crate::listing::KeyName;

verus! {

/// A remote project.
#[derive(Debug, Clone, PartialEq, Eq)]
pub struct Project {
    pub id: String,
    pub name: String,
    pub base_language_iso: String,
}

/// The position of the first project named `name`, if any.
pub fn find_project(projects: &Vec<Project>, name: &String) -> (r: Option<usize>)
    ensures
        r matches Some(i) ==> i < projects@.len() && projects@[i as int].name@ == name@
            && forall|j: int| 0 <= j < i ==> (#[trigger] projects@[j]).name@ != name@,
        r is None ==> forall|j: int| 0 <= j < projects@.len() ==> (#[trigger] projects@[j]).name@ != name@,
{
    let mut i: usize = 0;
    while i < projects.len()
        invariant
            i <= projects@.len(),
            forall|j: int| 0 <= j < i ==> (#[trigger] projects@[j]).name@ != name@,
        decreases projects@.len() - i,
    {
        if projects[i].name == *name {
            return Some(i);
        }
        i = i + 1;
    }
    None
}

/// The project named `name`, or `ProjectNotFound`.
pub fn select_project(projects: Vec<Project>, name: &String) -> (r: Result<Project, SyncError>)
    ensures
        r is Ok <==> exists|j: int| 0 <= j < projects@.len() && (#[trigger] projects@[j]).name@ == name@,
        r matches Ok(p) ==> exists|i: int|
            0 <= i < projects@.len() && projects@[i] == p && p.name@ == name@ && forall|j: int|
                0 <= j < i ==> (#[trigger] projects@[j]).name@ != name@,
        r matches Err(e) ==> e == (SyncError::ProjectNotFound { name: *name }),
{
    match find_project(&projects, name) {
        Some(i) => {
            let ghost all = projects@;
            let mut projects = projects;
            let p = projects.swap_remove(i);
            assert(all[i as int] == p);
            Ok(p)
        },
        None => Err(SyncError::ProjectNotFound { name: name.clone() }),
    }
}

/// The error body that the remote service answers with.
#[derive(Debug, Clone, PartialEq, Eq)]
pub struct ErrorBody {
    pub code: u32,
    pub message: String,
}

/// The error that a remote error body stands for.
pub open spec fn remote_failure(e: ErrorBody) -> SyncError {
    if e.message@ == "Unauthorized"@ {
        SyncError::Unauthorized
    } else {
        SyncError::Remote { code: e.code, message: e.message }
    }
}

/// What a create response means, from its reading as created keys and as an error body.
pub open spec fn create_response_outcome(
    as_keys: Option<Vec<KeyName>>,
    as_error: Option<ErrorBody>,
) -> Result<Vec<KeyName>, SyncError> {
    match (as_keys, as_error) {
        (Some(k), None) => Ok(k),
        (None, Some(e)) => Err(remote_failure(e)),
        (Some(_), Some(_)) => Err(SyncError::AmbiguousResponse),
        (None, None) => Err(SyncError::UnparseableResponse),
    }
}

/// Decides what a create response means from the two ways it was read: as the
/// created keys and as an error body. Exactly one reading must succeed.
pub fn classify_create_response(as_keys: Option<Vec<KeyName>>, as_error: Option<ErrorBody>) -> (r:
    Result<Vec<KeyName>, SyncError>)
    ensures
        r == create_response_outcome(as_keys, as_error),
{
    match (as_keys, as_error) {
        (Some(k), None) => Ok(k),
        (None, Some(e)) => {
            let unauthorized = String::from_str("Unauthorized");
            proof {
                reveal_strlit("Unauthorized");
            }
            if e.message == unauthorized {
                Err(SyncError::Unauthorized)
            } else {
                Err(SyncError::Remote { code: e.code, message: e.message })
            }
        },
        (Some(_), Some(_)) => Err(SyncError::AmbiguousResponse),
        (None, None) => Err(SyncError::UnparseableResponse),
    }
}

/// The translation sent for a key in the project's base language.
#[derive(Debug, Clone, PartialEq, Eq)]
pub enum TranslationPayload {
    /// One text.
    Text(String),
    /// The `one` and `other` plural forms.
    Forms { one: String, other: String },
}

/// One key of a bulk-create request.
#[derive(Debug, Clone, PartialEq, Eq)]
pub struct KeyPayload {
    pub key_name: String,
    pub language_iso: String,
    pub translation: TranslationPayload,
    pub is_plural: bool,
    pub platforms: Vec<String>,
    pub tags: Vec<String>,
}

/// The platforms every key is created on.
pub open spec fn platform_names() -> Seq<Seq<char>> {
    seq!["ios"@, "android"@, "web"@, "other"@]
}

/// The texts of a sequence of strings.
pub open spec fn texts(v: Seq<String>) -> Seq<Seq<char>> {
    v.map_values(|s: String| s@)
}

/// `p` is the request entry for `key` in `project`.
pub open spec fn payload_for(project: Project, key: KeyToAdd, p: KeyPayload) -> bool {
    &&& p.key_name@ == key.key@
    &&& p.language_iso@ == project.base_language_iso@
    &&& match key.translation {
        Translation::Singular(text) => p.translation matches TranslationPayload::Text(t) && t@
            == text@,
        Translation::Plural { singular, plural } => p.translation matches TranslationPayload::Forms {
            one,
            other,
        } && one@ == singular@ && other@ == plural@,
    }
    &&& p.is_plural == key.spec_is_plural()
    &&& texts(p.platforms@) == platform_names()
    &&& p.tags@ == key.tags@
}

/// A copy of a vector of strings.
pub fn copy_strings(v: &Vec<String>) -> (r: Vec<String>)
    ensures
        r@ == v@,
{
    let mut r: Vec<String> = Vec::new();
    let mut i: usize = 0;
    while i < v.len()
        invariant
            i <= v@.len(),
            r@ == v@.subrange(0, i as int),
        decreases v@.len() - i,
    {
        r.push(v[i].clone());
        i = i + 1;
    }
    assert(r@ =~= v@);
    r
}

/// The platform list sent with each key.
pub fn platforms() -> (r: Vec<String>)
    ensures
        texts(r@) == platform_names(),
{
    let r = vec![
        String::from_str("ios"),
        String::from_str("android"),
        String::from_str("web"),
        String::from_str("other"),
    ];
    proof {
        reveal_strlit("ios");
        reveal_strlit("android");
        reveal_strlit("web");
        reveal_strlit("other");
    }
    assert(texts(r@) =~= platform_names());
    r
}

/// The request entry for one key.
pub fn key_payload(project: &Project, key: &KeyToAdd) -> (r: KeyPayload)
    ensures
        payload_for(*project, *key, r),
{
    let translation = match &key.translation {
        Translation::Singular(text) => TranslationPayload::Text(text.clone()),
        Translation::Plural { singular, plural } => TranslationPayload::Forms {
            one: singular.clone(),
            other: plural.clone(),
        },
    };
    KeyPayload {
        key_name: key.key.clone(),
        language_iso: project.base_language_iso.clone(),
        translation,
        is_plural: key.is_plural(),
        platforms: platforms(),
        tags: copy_strings(&key.tags),
    }
}

/// The bulk-create request: one entry per key, in input order.
pub fn build_create_payload(project: &Project, keys: &Vec<KeyToAdd>) -> (r: Vec<KeyPayload>)
    ensures
        r@.len() == keys@.len(),
        forall|i: int| 0 <= i < keys@.len() ==> payload_for(*project, #[trigger] keys@[i], r@[i]),
{
    let mut r: Vec<KeyPayload> = Vec::new();
    let mut i: usize = 0;
    while i < keys.len()
        invariant
            i <= keys@.len(),
            r@.len() == i,
            forall|j: int| 0 <= j < i ==> payload_for(*project, #[trigger] keys@[j], r@[j]),
        decreases keys@.len() - i,
    {
        r.push(key_payload(project, &keys[i]));
        i = i + 1;
    }
    r
}

} // verus!
