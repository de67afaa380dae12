use vstd::prelude::*;

use crate::error::SyncError;

verus! {

/// What a key carries to translate: one text, or a singular and a plural form.
#[derive(Debug, Clone, PartialEq, Eq)]
pub enum Translation {
    Singular(String),
    Plural { singular: String, plural: String },
}

/// One key to create remotely.
#[derive(Debug, Clone, PartialEq, Eq)]
pub struct KeyToAdd {
    pub key: String,
    pub translation: Translation,
    pub tags: Vec<String>,
}

/// The two forms of a plural translation as they appear in an input entry.
#[derive(Debug, Clone, PartialEq, Eq)]
pub struct PluralForms {
    pub singular: String,
    pub plural: String,
}

/// An input entry as written, before the choice of translation form is checked.
#[derive(Debug, Clone, PartialEq, Eq)]
pub struct RawKey {
    pub key: String,
    pub translation: Option<String>,
    pub translations: Option<PluralForms>,
    pub tags: Option<Vec<String>>,
}

/// The tags of an entry: those it lists, or none.
pub open spec fn raw_tags(raw: RawKey) -> Seq<String> {
    match raw.tags {
        Some(t) => t@,
        None => Seq::empty(),
    }
}

/// `k` is the key that `raw` describes: same name and tags, and the one translation form given.
pub open spec fn describes(raw: RawKey, k: KeyToAdd) -> bool {
    &&& k.key == raw.key
    &&& k.tags@ == raw_tags(raw)
    &&& match (raw.translation, raw.translations) {
        (Some(text), None) => k.translation == Translation::Singular(text),
        (None, Some(forms)) => k.translation == (Translation::Plural {
            singular: forms.singular,
            plural: forms.plural,
        }),
        _ => false,
    }
}

/// An entry is accepted exactly when it gives one of the two translation forms.
pub open spec fn has_one_form(raw: RawKey) -> bool {
    raw.translation is Some != raw.translations is Some
}

/// The error that rejects an entry which does not give exactly one translation form.
pub open spec fn rejection(raw: RawKey) -> SyncError {
    if raw.translation is Some {
        SyncError::BothTranslations { key: raw.key }
    } else {
        SyncError::MissingTranslation { key: raw.key }
    }
}

impl KeyToAdd {
    pub open spec fn spec_is_plural(&self) -> bool {
        self.translation is Plural
    }

    /// Whether the key is sent with singular and plural forms.
    #[verifier::when_used_as_spec(spec_is_plural)]
    pub fn is_plural(&self) -> (r: bool)
        ensures
            r == self.spec_is_plural(),
    {
        match &self.translation {
            Translation::Singular(_) => false,
            Translation::Plural { .. } => true,
        }
    }

    /// Checks that an entry holds exactly one translation form; a missing tag list is empty.
    pub fn from_raw(raw: RawKey) -> (r: Result<KeyToAdd, SyncError>)
        ensures
            r is Ok <==> has_one_form(raw),
            r matches Ok(k) ==> describes(raw, k),
            r matches Err(e) ==> e == rejection(raw),
    {
        let tags = match raw.tags {
            Some(t) => t,
            None => Vec::new(),
        };
        match (raw.translation, raw.translations) {
            (Some(text), None) => Ok(
                KeyToAdd { key: raw.key, translation: Translation::Singular(text), tags },
            ),
            (None, Some(forms)) => Ok(
                KeyToAdd {
                    key: raw.key,
                    translation: Translation::Plural {
                        singular: forms.singular,
                        plural: forms.plural,
                    },
                    tags,
                },
            ),
            (Some(_), Some(_)) => Err(SyncError::BothTranslations { key: raw.key }),
            (None, None) => Err(SyncError::MissingTranslation { key: raw.key }),
        }
    }
}

/// Checks every entry in order: all keys when each gives exactly one translation
/// form, else the rejection of the first entry that does not.
pub fn parse_keys(raws: Vec<RawKey>) -> (r: Result<Vec<KeyToAdd>, SyncError>)
    ensures
        r is Ok <==> forall|i: int| 0 <= i < raws@.len() ==> has_one_form(#[trigger] raws@[i]),
        r matches Ok(keys) ==> keys@.len() == raws@.len() && forall|i: int|
            0 <= i < raws@.len() ==> describes(#[trigger] raws@[i], keys@[i]),
        r matches Err(e) ==> exists|i: int|
            0 <= i < raws@.len() && !has_one_form(#[trigger] raws@[i]) && e == rejection(raws@[i])
                && forall|j: int| 0 <= j < i ==> has_one_form(#[trigger] raws@[j]),
{
    let ghost all = raws@;
    let mut rest = raws;
    let mut keys: Vec<KeyToAdd> = Vec::new();
    let n = rest.len();
    let mut i: usize = 0;
    while i < n
        invariant
            n == all.len(),
            all == raws@,
            i <= n,
            rest@ == all.subrange(i as int, n as int),
            keys@.len() == i,
            forall|j: int| 0 <= j < i ==> has_one_form(#[trigger] all[j]),
            forall|j: int| 0 <= j < i ==> describes(#[trigger] all[j], keys@[j]),
        decreases n - i,
    {
        let raw = rest.remove(0);
        assert(raw == all[i as int]);
        match KeyToAdd::from_raw(raw) {
            Ok(k) => {
                keys.push(k);
                i = i + 1;
            },
            Err(e) => {
                assert(!has_one_form(all[i as int]) && e == rejection(all[i as int]));
                return Err(e);
            },
        }
    }
    Ok(keys)
}

} // verus!
