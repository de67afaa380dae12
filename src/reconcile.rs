use vstd::prelude::*;

use crate::create::{build_create_payload, payload_for, texts, KeyPayload, Project};
use crate::error::SyncError;
use crate::input::KeyToAdd;
use crate::listing::{contains_name, holds_name, page_has_name, KeyName};

verus! {

/// Some requested key already has a name in `existing`.
pub open spec fn has_duplicate(requested: Seq<KeyToAdd>, existing: Seq<String>) -> bool {
    exists|i: int| 0 <= i < requested.len() && holds_name(existing, (#[trigger] requested[i]).key@)
}

/// Refuses the run when a requested key already exists, naming the first such key.
pub fn pre_check(requested: &Vec<KeyToAdd>, existing: &Vec<String>) -> (r: Result<(), SyncError>)
    ensures
        r is Ok <==> !has_duplicate(requested@, existing@),
        r matches Err(e) ==> exists|i: int|
            0 <= i < requested@.len() && holds_name(existing@, (#[trigger] requested@[i]).key@) && e
                == (SyncError::DuplicateKey { key: requested@[i].key }) && forall|j: int|
                0 <= j < i ==> !holds_name(existing@, (#[trigger] requested@[j]).key@),
{
    let mut i: usize = 0;
    while i < requested.len()
        invariant
            i <= requested@.len(),
            forall|j: int| 0 <= j < i ==> !holds_name(existing@, (#[trigger] requested@[j]).key@),
        decreases requested@.len() - i,
    {
        if contains_name(existing, &requested[i].key) {
            return Err(SyncError::DuplicateKey { key: requested[i].key.clone() });
        }
        i = i + 1;
    }
    Ok(())
}

/// What to do once the remote key names are known.
#[derive(Debug, Clone, PartialEq, Eq)]
pub enum CreatePlan {
    /// No key was requested: no create request is sent.
    NothingToDo,
    /// Send this bulk-create request.
    Send(Vec<KeyPayload>),
}

/// Checks the requested keys against the existing ones and plans the create request.
///
/// A duplicate refuses the run before any request is planned; an empty request
/// plans none.
pub fn prepare_create(project: &Project, requested: &Vec<KeyToAdd>, existing: &Vec<String>) -> (r:
    Result<CreatePlan, SyncError>)
    ensures
        r is Err <==> has_duplicate(requested@, existing@),
        r matches Err(e) ==> exists|i: int|
            0 <= i < requested@.len() && holds_name(existing@, (#[trigger] requested@[i]).key@) && e
                == (SyncError::DuplicateKey { key: requested@[i].key }) && forall|j: int|
                0 <= j < i ==> !holds_name(existing@, (#[trigger] requested@[j]).key@),
        r matches Ok(plan) ==> (plan is NothingToDo <==> requested@.len() == 0),
        r matches Ok(CreatePlan::Send(p)) ==> p@.len() == requested@.len() && forall|i: int|
            0 <= i < requested@.len() ==> payload_for(*project, #[trigger] requested@[i], p@[i]),
{
    match pre_check(requested, existing) {
        Err(e) => Err(e),
        Ok(()) => {
            if requested.len() == 0 {
                Ok(CreatePlan::NothingToDo)
            } else {
                Ok(CreatePlan::Send(build_create_payload(project, requested)))
            }
        },
    }
}

/// The names among `names`, in order, that are confirmed (`want`) or not confirmed
/// (`!want`) by the created keys.
pub open spec fn split_names(names: Seq<Seq<char>>, created: Seq<KeyName>, want: bool) -> Seq<
    Seq<char>,
>
    decreases names.len(),
{
    if names.len() == 0 {
        Seq::empty()
    } else {
        let rest = split_names(names.drop_last(), created, want);
        if page_has_name(created, names.last()) == want {
            rest.push(names.last())
        } else {
            rest
        }
    }
}

/// The names of the requested keys, in order.
pub open spec fn key_names(keys: Seq<KeyToAdd>) -> Seq<Seq<char>> {
    keys.map_values(|k: KeyToAdd| k.key@)
}

/// The outcome of a create request, key by key.
#[derive(Debug, Clone, PartialEq, Eq)]
pub enum Report {
    /// No key was requested.
    NothingToDo,
    /// The requested keys that the response confirms, and those it does not, each in input order.
    Outcomes { created: Vec<String>, not_created: Vec<String> },
}

impl Report {
    /// The run succeeded: nothing was requested, or every requested key was confirmed.
    pub open spec fn spec_is_success(&self) -> bool {
        match self {
            Report::NothingToDo => true,
            Report::Outcomes { not_created, .. } => not_created@.len() == 0,
        }
    }

    #[verifier::when_used_as_spec(spec_is_success)]
    pub fn is_success(&self) -> (r: bool)
        ensures
            r == self.spec_is_success(),
    {
        match self {
            Report::NothingToDo => true,
            Report::Outcomes { not_created, .. } => not_created.len() == 0,
        }
    }

    /// The overall result of the run: `PartialFailure` when some key was not confirmed.
    pub fn outcome(&self) -> (r: Result<(), SyncError>)
        ensures
            r is Ok <==> self.spec_is_success(),
            r matches Err(e) ==> e == SyncError::PartialFailure,
    {
        if self.is_success() {
            Ok(())
        } else {
            Err(SyncError::PartialFailure)
        }
    }
}

/// Whether some created key has `name` as its iOS name.
pub fn is_confirmed(created: &Vec<KeyName>, name: &String) -> (r: bool)
    ensures
        r == page_has_name(created@, name@),
{
    let mut i: usize = 0;
    while i < created.len()
        invariant
            i <= created@.len(),
            forall|j: int| 0 <= j < i ==> (#[trigger] created@[j]).ios@ != name@,
        decreases created@.len() - i,
    {
        if created[i].ios == *name {
            return true;
        }
        i = i + 1;
    }
    false
}

/// Sorts the requested keys into those the create response confirms, by their iOS
/// name, and those it does not, keeping input order.
pub fn post_check(requested: &Vec<KeyToAdd>, created: &Vec<KeyName>) -> (r: Report)
    ensures
        requested@.len() == 0 <==> r is NothingToDo,
        r matches Report::Outcomes { created: yes, not_created: no } ==> texts(yes@) == split_names(
            key_names(requested@),
            created@,
            true,
        ) && texts(no@) == split_names(key_names(requested@), created@, false),
{
    if requested.len() == 0 {
        return Report::NothingToDo;
    }
    let ghost names = key_names(requested@);
    let mut yes: Vec<String> = Vec::new();
    let mut no: Vec<String> = Vec::new();
    let mut i: usize = 0;
    while i < requested.len()
        invariant
            i <= requested@.len(),
            names == key_names(requested@),
            texts(yes@) == split_names(names.subrange(0, i as int), created@, true),
            texts(no@) == split_names(names.subrange(0, i as int), created@, false),
        decreases requested@.len() - i,
    {
        let ghost pre = names.subrange(0, i as int);
        let ghost next = names.subrange(0, i + 1);
        assert(next.drop_last() =~= pre);
        assert(next.last() == requested@[i as int].key@);
        let name = &requested[i].key;
        if is_confirmed(created, name) {
            yes.push(name.clone());
            assert(texts(yes@) =~= texts(yes@.drop_last()).push(name@));
        } else {
            no.push(name.clone());
            assert(texts(no@) =~= texts(no@.drop_last()).push(name@));
        }
        i = i + 1;
    }
    assert(names.subrange(0, requested@.len() as int) =~= names);
    Report::Outcomes { created: yes, not_created: no }
}

/// Once the remote names hold every key of a non-empty earlier request, a later
/// request that repeats all of that request's keys is refused as a duplicate.
pub proof fn lemma_rerun_with_superset_is_refused(
    first: Seq<KeyToAdd>,
    second: Seq<KeyToAdd>,
    existing: Seq<String>,
)
    requires
        first.len() > 0,
        forall|i: int| 0 <= i < first.len() ==> holds_name(existing, (#[trigger] first[i]).key@),
        forall|i: int|
            0 <= i < first.len() ==> exists|j: int|
                0 <= j < second.len() && (#[trigger] second[j]).key@ == (#[trigger] first[i]).key@,
    ensures
        has_duplicate(second, existing),
{
    assert(holds_name(existing, first[0].key@));
    let j = choose|j: int| 0 <= j < second.len() && (#[trigger] second[j]).key@ == first[0].key@;
    assert(holds_name(existing, second[j].key@));
}

} // verus!
