//! The shared configuration state, behind a verified reader-writer lock.

use crate::backend::LocaleBackend;
use crate::catalog::{clone_entries, CatalogEntry, CatalogsModel};
use crate::config::{full_patch, ConfigModel, LocaleConfig};
use crate::error::LocaleError;
use crate::events::Event;
use crate::l10n::{
    config_wf, first_unknown_locale, keymap_valid, locales_valid, patch_valid, timezone_valid,
    ui_keymap_valid, ui_locale_valid, L10n,
};
use tokio::sync::broadcast::Sender;
use vstd::prelude::*;
use vstd::rwlock::RwLock;

verus! {

/// The predicate every value stored in the lock satisfies: the manager's
/// record is well formed, and its catalogs are the ones fixed when the
/// state was created.
pub open spec fn l10n_lock_inv(cats: CatalogsModel) -> spec_fn(L10n) -> bool {
    |l: L10n| l.wf() && l@.cats == cats
}

/// The configuration state shared by concurrent callers.
///
/// The three catalogs are fixed at construction: every record the lock ever
/// holds is validated against them, and the contracts below speak of them
/// through `catalogs`. Snapshots and catalog listings take a read lock and
/// proceed concurrently; an update takes the write lock for its whole
/// duration, so a second concurrent update is fully serialized behind the
/// first, and no reader ever observes a record with some fields from an old
/// and some from a new update.
pub struct LocaleState {
    locale: RwLock<L10n, spec_fn(L10n) -> bool>,
    events: Sender<Event>,
    catalogs: Ghost<CatalogsModel>,
}

impl LocaleState {
    #[verifier::type_invariant]
    spec fn ty_inv(&self) -> bool {
        self.locale.pred() == l10n_lock_inv(self.catalogs@)
    }

    /// The catalogs this state was created over.
    pub closed spec fn catalogs(&self) -> CatalogsModel {
        self.catalogs@
    }

    /// Shares a well-formed manager, with the channel successful updates
    /// are announced on. The manager's catalogs become the fixed catalogs
    /// of this state.
    pub fn new(l10n: L10n, events: Sender<Event>) -> (r: LocaleState)
        requires
            l10n.wf(),
        ensures
            r.catalogs() == l10n@.cats,
    {
        let ghost cats = l10n@.cats;
        LocaleState {
            locale: RwLock::new(l10n, Ghost(l10n_lock_inv(cats))),
            events,
            catalogs: Ghost(cats),
        }
    }

    /// An independent copy of the current configuration, every field
    /// populated. The copy is the image of one single record that is well
    /// formed over this state's catalogs: a concurrent update is observed
    /// either in full or not at all.
    pub fn snapshot(&self) -> (r: LocaleConfig)
        ensures
            exists|c: ConfigModel| #![auto] config_wf(self.catalogs(), c) && r@ == full_patch(c),
    {
        proof {
            use_type_invariant(self);
        }
        let handle = self.locale.acquire_read();
        let data = handle.borrow();
        let r = data.get_config();
        proof {
            assert(config_wf(self.catalogs(), (*data)@.config) && r@ == full_patch(
                (*data)@.config,
            ));
        }
        handle.release_read();
        r
    }

    /// Validates and commits a partial update under the write lock; see
    /// `L10n::set_config` for the exact validation and commit behaviour.
    /// Validation is decided by this state's catalogs alone: each clause
    /// below names the error owed to the first offending value, in the
    /// fixed field order, and success is owed to a fully valid request
    /// unless the backend refuses the interface keymap.
    pub fn set_config<B: LocaleBackend>(&self, value: &LocaleConfig, backend: &mut B) -> (r: Result<
        LocaleConfig,
        LocaleError,
    >)
        ensures
            r matches Ok(changes) ==> changes@ == value@ && patch_valid(self.catalogs(), value@),
            !locales_valid(self.catalogs().locales_db, value@) ==> (r matches Err(
                LocaleError::UnknownLocale(c),
            ) && value@.locales matches Some(ls) && first_unknown_locale(
                self.catalogs().locales_db,
                ls,
                c@,
            )),
            locales_valid(self.catalogs().locales_db, value@) && !timezone_valid(
                self.catalogs().timezones_db,
                value@,
            ) ==> (r matches Err(LocaleError::UnknownTimezone(c)) && value@.timezone == Some(c@)),
            locales_valid(self.catalogs().locales_db, value@) && timezone_valid(
                self.catalogs().timezones_db,
                value@,
            ) && !keymap_valid(self.catalogs().keymaps_db, value@) ==> (r matches Err(
                LocaleError::InvalidKeymap(c),
            ) && value@.keymap == Some(c@)),
            locales_valid(self.catalogs().locales_db, value@) && timezone_valid(
                self.catalogs().timezones_db,
                value@,
            ) && keymap_valid(self.catalogs().keymaps_db, value@) && !ui_locale_valid(
                self.catalogs().locales_db,
                value@,
            ) ==> (r matches Err(LocaleError::UnknownLocale(c)) && value@.ui_locale == Some(c@)),
            locales_valid(self.catalogs().locales_db, value@) && timezone_valid(
                self.catalogs().timezones_db,
                value@,
            ) && keymap_valid(self.catalogs().keymaps_db, value@) && ui_locale_valid(
                self.catalogs().locales_db,
                value@,
            ) && !ui_keymap_valid(self.catalogs().keymaps_db, value@) ==> (r matches Err(
                LocaleError::InvalidKeymap(c),
            ) && value@.ui_keymap == Some(c@)),
            patch_valid(self.catalogs(), value@) && value@.ui_keymap is None ==> r is Ok,
            patch_valid(self.catalogs(), value@) ==> (r is Ok || r matches Err(
                LocaleError::Commit(_),
            )),
    {
        proof {
            use_type_invariant(self);
        }
        let (mut data, handle) = self.locale.acquire_write();
        let r = data.set_config(value, backend, &self.events);
        handle.release_write(data);
        r
    }

    /// The entries of the locale catalog, in catalog order.
    pub fn locales(&self) -> (r: Vec<CatalogEntry>)
        ensures
            r@.len() == self.catalogs().locales_db.len(),
            forall|i: int| 0 <= i < r@.len() ==> #[trigger] r@[i]@ == self.catalogs().locales_db[i],
    {
        proof {
            use_type_invariant(self);
        }
        let handle = self.locale.acquire_read();
        let data = handle.borrow();
        let r = clone_entries(data.locales_db().entries());
        handle.release_read();
        r
    }

    /// The entries of the timezone catalog, in catalog order.
    pub fn timezones(&self) -> (r: Vec<CatalogEntry>)
        ensures
            r@.len() == self.catalogs().timezones_db.len(),
            forall|i: int|
                0 <= i < r@.len() ==> #[trigger] r@[i]@ == self.catalogs().timezones_db[i],
    {
        proof {
            use_type_invariant(self);
        }
        let handle = self.locale.acquire_read();
        let data = handle.borrow();
        let r = clone_entries(data.timezones_db().entries());
        handle.release_read();
        r
    }

    /// The entries of the keymap catalog, in catalog order.
    pub fn keymaps(&self) -> (r: Vec<CatalogEntry>)
        ensures
            r@.len() == self.catalogs().keymaps_db.len(),
            forall|i: int| 0 <= i < r@.len() ==> #[trigger] r@[i]@ == self.catalogs().keymaps_db[i],
    {
        proof {
            use_type_invariant(self);
        }
        let handle = self.locale.acquire_read();
        let data = handle.borrow();
        let r = clone_entries(data.keymaps_db().entries());
        handle.release_read();
        r
    }
}

} // verus!
