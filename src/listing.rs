use vstd::prelude::*;

use crate::error::SyncError;

verus! {

/// Number of keys asked for in each page of a listing.
pub const PAGE_LIMIT: usize = 1000;

/// The name of a remote key on each of the four platforms.
#[derive(Debug, Clone, PartialEq, Eq)]
pub struct KeyName {
    pub ios: String,
    pub android: String,
    pub web: String,
    pub other: String,
}

impl KeyName {
    /// All four platform names are the same text.
    pub open spec fn spec_is_uniform(&self) -> bool {
        &&& self.ios@ == self.android@
        &&& self.android@ == self.web@
        &&& self.web@ == self.other@
    }

    #[verifier::when_used_as_spec(spec_is_uniform)]
    pub fn is_uniform(&self) -> (r: bool)
        ensures
            r == self.spec_is_uniform(),
    {
        self.ios == self.android && self.android == self.web && self.web == self.other
    }
}

/// Some key of the page has this name on iOS.
pub open spec fn page_has_name(keys: Seq<KeyName>, n: Seq<char>) -> bool {
    exists|i: int| 0 <= i < keys.len() && (#[trigger] keys[i]).ios@ == n
}

/// Every key of the page has one name on all platforms.
pub open spec fn page_is_uniform(keys: Seq<KeyName>) -> bool {
    forall|i: int| 0 <= i < keys.len() ==> (#[trigger] keys[i]).spec_is_uniform()
}

/// Some string of the vector has the text `n`.
pub open spec fn holds_name(v: Seq<String>, n: Seq<char>) -> bool {
    exists|i: int| 0 <= i < v.len() && (#[trigger] v[i])@ == n
}

/// No text stands twice in the vector.
pub open spec fn names_distinct(v: Seq<String>) -> bool {
    forall|i: int, j: int| 0 <= i < j < v.len() ==> (#[trigger] v[i])@ != (#[trigger] v[j])@
}

/// Whether some string of `v` has the same text as `n`.
pub fn contains_name(v: &Vec<String>, n: &String) -> (r: bool)
    ensures
        r == holds_name(v@, n@),
{
    let mut i: usize = 0;
    while i < v.len()
        invariant
            i <= v@.len(),
            forall|j: int| 0 <= j < i ==> (#[trigger] v@[j])@ != n@,
        decreases v@.len() - i,
    {
        if v[i] == *n {
            return true;
        }
        i = i + 1;
    }
    false
}

/// Whether every key of the page has one name on all platforms.
pub fn all_uniform(keys: &Vec<KeyName>) -> (r: bool)
    ensures
        r == page_is_uniform(keys@),
{
    let mut i: usize = 0;
    while i < keys.len()
        invariant
            i <= keys@.len(),
            forall|j: int| 0 <= j < i ==> (#[trigger] keys@[j]).spec_is_uniform(),
        decreases keys@.len() - i,
    {
        if !keys[i].is_uniform() {
            return false;
        }
        i = i + 1;
    }
    true
}

/// Adds `name` to a vector of distinct names unless its text is already there.
pub fn insert_name(names: &mut Vec<String>, name: &String)
    requires
        names_distinct(old(names)@),
    ensures
        names_distinct(final(names)@),
        forall|n: Seq<char>|
            #![trigger holds_name(final(names)@, n)]
            holds_name(final(names)@, n) <==> holds_name(old(names)@, n) || n == name@,
{
    let ghost prev = names@;
    if !contains_name(names, name) {
        names.push(name.clone());
        assert(names@[prev.len() as int] == *name);
        assert forall|a: int, b: int| 0 <= a < b < names@.len() implies (#[trigger] names@[a])@
            != (#[trigger] names@[b])@ by {
            assert(names@[a] == prev[a]);
            if b < prev.len() {
                assert(names@[b] == prev[b]);
            }
        }
        assert forall|n: Seq<char>| holds_name(names@, n) <==> holds_name(prev, n) || n == name@ by {
            if holds_name(names@, n) && n != name@ {
                let k = choose|k: int| 0 <= k < names@.len() && (#[trigger] names@[k])@ == n;
                assert(prev[k] == names@[k]);
            }
            if holds_name(prev, n) {
                let k = choose|k: int| 0 <= k < prev.len() && (#[trigger] prev[k])@ == n;
                assert(prev[k] == names@[k]);
            }
            if n == name@ {
                assert(names@[prev.len() as int]@ == n);
            }
        }
    }
}

/// The listing of every key name of a project, one page at a time.
///
/// The caller asks for page `next_page()` of at most `PAGE_LIMIT` keys and hands
/// the keys it got to `on_page`, until `next_page()` is `None`.
#[derive(Debug, Clone, PartialEq, Eq)]
pub struct KeyListing {
    names: Vec<String>,
    page: usize,
    finished: bool,
}

impl KeyListing {
    pub closed spec fn wf(&self) -> bool {
        &&& self.page >= 1
        &&& names_distinct(self.names@)
    }

    /// The names collected so far.
    pub closed spec fn name_set(&self) -> Set<Seq<char>> {
        Set::new(|n: Seq<char>| holds_name(self.names@, n))
    }

    /// The page asked for next, while the listing is not finished.
    pub closed spec fn spec_page(&self) -> usize {
        self.page
    }

    pub closed spec fn spec_finished(&self) -> bool {
        self.finished
    }

    /// A listing that has collected nothing and asks for the first page.
    pub fn new() -> (r: KeyListing)
        ensures
            r.wf(),
            r.name_set() == Set::<Seq<char>>::empty(),
            r.spec_page() == 1,
            !r.spec_finished(),
    {
        let r = KeyListing { names: Vec::new(), page: 1, finished: false };
        assert(r.name_set() =~= Set::<Seq<char>>::empty());
        r
    }

    /// The number of the page to ask for, or `None` once the listing is complete.
    pub fn next_page(&self) -> (r: Option<usize>)
        ensures
            r == (if self.spec_finished() { None } else { Some(self.spec_page()) }),
    {
        if self.finished {
            None
        } else {
            Some(self.page)
        }
    }

    /// Takes in one page of keys.
    ///
    /// A key whose platform names differ fails the whole listing and leaves it as
    /// it was. Otherwise the iOS names are added to the collected set; a page
    /// shorter than `PAGE_LIMIT` completes the listing, any other asks for the
    /// next page.
    pub fn on_page(&mut self, keys: &Vec<KeyName>) -> (r: Result<(), SyncError>)
        requires
            old(self).wf(),
            !old(self).spec_finished(),
            keys@.len() >= PAGE_LIMIT ==> old(self).spec_page() < usize::MAX,
        ensures
            final(self).wf(),
            r is Ok <==> page_is_uniform(keys@),
            r matches Err(e) ==> e == SyncError::PlatformNameMismatch && *final(self) == *old(self),
            r is Ok ==> final(self).name_set() == old(self).name_set().union(
                Set::new(|n: Seq<char>| page_has_name(keys@, n)),
            ),
            r is Ok ==> final(self).spec_finished() == (keys@.len() < PAGE_LIMIT),
            r is Ok && keys@.len() >= PAGE_LIMIT ==> final(self).spec_page() == old(self).spec_page()
                + 1,
    {
        if !all_uniform(keys) {
            return Err(SyncError::PlatformNameMismatch);
        }
        let ghost before = self.names@;
        let mut i: usize = 0;
        while i < keys.len()
            invariant
                i <= keys@.len(),
                self.page == old(self).page,
                self.finished == old(self).finished,
                before == old(self).names@,
                names_distinct(self.names@),
                forall|n: Seq<char>|
                    #![trigger holds_name(self.names@, n)]
                    holds_name(self.names@, n) <==> holds_name(before, n) || exists|j: int|
                        0 <= j < i && (#[trigger] keys@[j]).ios@ == n,
            decreases keys@.len() - i,
        {
            let ghost prev = self.names@;
            insert_name(&mut self.names, &keys[i].ios);
            assert forall|n: Seq<char>|
                #![trigger holds_name(self.names@, n)]
                holds_name(self.names@, n) <==> holds_name(before, n) || exists|j: int|
                    0 <= j < i + 1 && (#[trigger] keys@[j]).ios@ == n by {
                assert(holds_name(prev, n) <==> holds_name(before, n) || exists|j: int|
                    0 <= j < i && (#[trigger] keys@[j]).ios@ == n);
                if exists|j: int| 0 <= j < i + 1 && (#[trigger] keys@[j]).ios@ == n {
                    let j = choose|j: int| 0 <= j < i + 1 && (#[trigger] keys@[j]).ios@ == n;
                    if j < i {
                        assert(exists|j: int| 0 <= j < i && (#[trigger] keys@[j]).ios@ == n);
                    }
                }
                if n == keys@[i as int].ios@ {
                    assert(0 <= i < i + 1);
                }
            }
            i = i + 1;
        }
        assert(self.name_set() =~= old(self).name_set().union(
            Set::new(|n: Seq<char>| page_has_name(keys@, n)),
        )) by {
            assert forall|n: Seq<char>|
                holds_name(self.names@, n) <==> holds_name(before, n) || page_has_name(keys@, n) by {
                assert(holds_name(self.names@, n) <==> holds_name(before, n) || exists|j: int|
                    0 <= j < keys@.len() && (#[trigger] keys@[j]).ios@ == n);
            }
        }
        if keys.len() < PAGE_LIMIT {
            self.finished = true;
        } else {
            self.page = self.page + 1;
        }
        Ok(())
    }

    /// The names collected, each once.
    pub fn into_names(self) -> (r: Vec<String>)
        requires
            self.wf(),
        ensures
            names_distinct(r@),
            forall|n: Seq<char>| holds_name(r@, n) <==> self.name_set().contains(n),
    {
        self.names
    }
}

} // verus!
