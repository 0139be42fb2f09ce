//! Reference catalogs of valid locale, timezone and keymap identifiers.

use vstd::prelude::*;

verus! {

/// Mathematical image of a catalog entry: its identifier and its
/// human-readable label, both as character sequences.
pub ghost struct EntryModel {
    pub code: Seq<char>,
    pub display: Seq<char>,
}

/// One row of a reference catalog: an identifier (a locale code, a timezone
/// code or a keymap id) together with display metadata.
pub struct CatalogEntry {
    /// The identifier a configuration value is validated against.
    pub code: String,
    /// Human-readable label for the entry.
    pub display: String,
}

impl View for CatalogEntry {
    type V = EntryModel;

    open spec fn view(&self) -> EntryModel {
        EntryModel { code: self.code@, display: self.display@ }
    }
}

impl Clone for CatalogEntry {
    fn clone(&self) -> (r: Self)
        ensures
            r == *self,
    {
        CatalogEntry { code: self.code.clone(), display: self.display.clone() }
    }
}

/// Mathematical image of the three reference catalogs together, as they
/// are fixed at load time: locales, timezones and keymaps.
#[verifier::ext_equal]
pub ghost struct CatalogsModel {
    pub locales_db: Seq<EntryModel>,
    pub timezones_db: Seq<EntryModel>,
    pub keymaps_db: Seq<EntryModel>,
}

/// True when some entry of `s` carries the identifier `code`.
pub open spec fn has_code(s: Seq<EntryModel>, code: Seq<char>) -> bool {
    exists|i: int| 0 <= i < s.len() && #[trigger] s[i].code == code
}

/// Copies catalog rows, keeping their contents exactly.
pub(crate) fn clone_entries(v: &Vec<CatalogEntry>) -> (r: Vec<CatalogEntry>)
    ensures
        r@ == v@,
{
    let r = v.clone();
    proof {
        assert forall|i: int| 0 <= i < r@.len() implies r@[i] == v@[i] by {
            assert(vstd::pervasive::cloned::<CatalogEntry>(v[i], r[i]));
        }
        assert(r@ =~= v@);
    }
    r
}

/// An immutable reference catalog, queried by membership test and by full
/// enumeration. It is loaded once and never changes afterwards.
pub struct Catalog {
    entries: Vec<CatalogEntry>,
}

impl View for Catalog {
    type V = Seq<EntryModel>;

    closed spec fn view(&self) -> Seq<EntryModel> {
        Seq::new(self.entries@.len(), |i: int| self.entries@[i]@)
    }
}

impl Catalog {
    /// Builds a catalog from its rows, in catalog-defined order.
    pub fn new(entries: Vec<CatalogEntry>) -> (r: Catalog)
        ensures
            r@.len() == entries@.len(),
            forall|i: int| 0 <= i < entries@.len() ==> r@[i] == #[trigger] entries@[i]@,
    {
        Catalog { entries }
    }

    /// Membership test: is `code` the identifier of some entry?
    pub fn contains_code(&self, code: &str) -> (r: bool)
        ensures
            r == has_code(self@, code@),
    {
        let needle: String = code.to_owned();
        let mut i: usize = 0;
        while i < self.entries.len()
            invariant
                0 <= i <= self.entries.len(),
                needle@ == code@,
                forall|j: int| 0 <= j < i ==> #[trigger] self@[j].code != code@,
            decreases self.entries.len() - i,
        {
            if self.entries[i].code == needle {
                assert(self@[i as int].code == code@);
                return true;
            }
            i = i + 1;
        }
        false
    }

    /// All entries, in catalog order.
    pub fn entries(&self) -> (r: &Vec<CatalogEntry>)
        ensures
            r@.len() == self@.len(),
            forall|i: int| 0 <= i < r@.len() ==> #[trigger] r@[i]@ == self@[i],
    {
        &self.entries
    }

    /// Round-trip consistency: every identifier enumerated by `entries`
    /// passes the membership test of the same catalog.
    pub proof fn lemma_entries_round_trip(&self)
        ensures
            forall|i: int| 0 <= i < self@.len() ==> has_code(self@, #[trigger] self@[i].code),
    {
        assert forall|i: int| 0 <= i < self@.len() implies has_code(
            self@,
            #[trigger] self@[i].code,
        ) by {
            assert(self@[i].code == self@[i].code);
        }
    }
}

} // verus!
