//! The configuration state manager: validation and atomic partial updates.

use crate::backend::LocaleBackend;
use crate::catalog::{has_code, Catalog, CatalogsModel, EntryModel};
use crate::config::{apply_patch, full_patch, ConfigModel, ConfigPatch, LocaleConfig};
use crate::error::LocaleError;
use crate::events::{send_event, Event};
use tokio::sync::broadcast::Sender;
use vstd::prelude::*;
use vstd::pervasive::cloned;

verus! {

/// Mathematical image of the manager: the three catalogs and the current
/// configuration record.
#[verifier::ext_equal]
pub ghost struct L10nModel {
    pub cats: CatalogsModel,
    pub config: ConfigModel,
}

/// Every value held in the record is known to its catalog.
pub open spec fn config_wf(cats: CatalogsModel, c: ConfigModel) -> bool {
    &&& forall|i: int|
        0 <= i < c.locales.len() ==> has_code(cats.locales_db, #[trigger] c.locales[i])
    &&& has_code(cats.timezones_db, c.timezone)
    &&& has_code(cats.keymaps_db, c.keymap)
    &&& has_code(cats.locales_db, c.ui_locale)
    &&& has_code(cats.keymaps_db, c.ui_keymap)
}

/// Every install locale named by the patch is known to the locale catalog.
pub open spec fn locales_valid(db: Seq<EntryModel>, p: ConfigPatch) -> bool {
    p.locales matches Some(ls) ==> forall|i: int|
        0 <= i < ls.len() ==> has_code(db, #[trigger] ls[i])
}

/// The timezone named by the patch, if any, is known to the timezone
/// catalog.
pub open spec fn timezone_valid(db: Seq<EntryModel>, p: ConfigPatch) -> bool {
    p.timezone matches Some(t) ==> has_code(db, t)
}

/// The keymap named by the patch, if any, is known to the keymap catalog.
pub open spec fn keymap_valid(db: Seq<EntryModel>, p: ConfigPatch) -> bool {
    p.keymap matches Some(k) ==> has_code(db, k)
}

/// The interface locale named by the patch, if any, is known to the locale
/// catalog.
pub open spec fn ui_locale_valid(db: Seq<EntryModel>, p: ConfigPatch) -> bool {
    p.ui_locale matches Some(u) ==> has_code(db, u)
}

/// The interface keymap named by the patch, if any, is known to the keymap
/// catalog.
pub open spec fn ui_keymap_valid(db: Seq<EntryModel>, p: ConfigPatch) -> bool {
    p.ui_keymap matches Some(k) ==> has_code(db, k)
}

/// Every field present in the patch validates against its catalog.
pub open spec fn patch_valid(cats: CatalogsModel, p: ConfigPatch) -> bool {
    &&& locales_valid(cats.locales_db, p)
    &&& timezone_valid(cats.timezones_db, p)
    &&& keymap_valid(cats.keymaps_db, p)
    &&& ui_locale_valid(cats.locales_db, p)
    &&& ui_keymap_valid(cats.keymaps_db, p)
}

/// `c` is the first offending install locale of the request: it occurs in
/// `ls`, the catalog does not know it, and the catalog knows everything
/// before its first occurrence.
pub open spec fn first_unknown_locale(db: Seq<EntryModel>, ls: Seq<Seq<char>>, c: Seq<char>) -> bool {
    exists|i: int|
        {
            &&& 0 <= i < ls.len()
            &&& #[trigger] ls[i] == c
            &&& !has_code(db, c)
            &&& forall|j: int| 0 <= j < i ==> has_code(db, #[trigger] ls[j])
        }
}

/// A record that was well formed stays well formed after a fully validated
/// patch is applied: replaced fields are covered by validation, untouched
/// fields by the old record.
pub proof fn lemma_apply_patch_preserves_wf(cats: CatalogsModel, c: ConfigModel, p: ConfigPatch)
    requires
        config_wf(cats, c),
        patch_valid(cats, p),
    ensures
        config_wf(cats, apply_patch(c, p)),
{
    let applied = apply_patch(c, p);
    assert forall|i: int| 0 <= i < applied.locales.len() implies has_code(
        cats.locales_db,
        #[trigger] applied.locales[i],
    ) by {
        if p.locales is Some {
            assert(has_code(cats.locales_db, p.locales->0[i]));
        }
    }
}

/// The configuration state manager.
///
/// It owns the three reference catalogs (immutable after construction) and
/// the desired configuration record, and it is the only way to read or
/// change that record. A partial update is validated in full before any
/// field is stored: either every present field is applied together, or the
/// record is left exactly as it was.
pub struct L10n {
    locales_db: Catalog,
    timezones_db: Catalog,
    keymaps_db: Catalog,
    locales: Vec<String>,
    keymap: String,
    timezone: String,
    ui_locale: String,
    ui_keymap: String,
}

impl View for L10n {
    type V = L10nModel;

    closed spec fn view(&self) -> L10nModel {
        L10nModel {
            cats: CatalogsModel {
                locales_db: self.locales_db@,
                timezones_db: self.timezones_db@,
                keymaps_db: self.keymaps_db@,
            },
            config: ConfigModel {
                locales: self.locales.deep_view(),
                keymap: self.keymap@,
                timezone: self.timezone@,
                ui_locale: self.ui_locale@,
                ui_keymap: self.ui_keymap@,
            },
        }
    }
}

/// Copies a vector of strings, keeping its contents exactly.
fn clone_strings(v: &Vec<String>) -> (r: Vec<String>)
    ensures
        r@ == v@,
        r.deep_view() == v.deep_view(),
{
    let r = v.clone();
    proof {
        assert forall|i: int| 0 <= i < r@.len() implies r@[i] == v@[i] by {
            assert(cloned::<String>(v[i], r[i]));
        }
        assert(r@ =~= v@);
        assert(r.deep_view() =~= v.deep_view());
    }
    r
}

impl L10n {
    /// The record's invariant: every held value is known to its catalog.
    pub open spec fn wf(&self) -> bool {
        config_wf(self@.cats, self@.config)
    }

    /// Builds the manager from loaded catalogs and the initial record,
    /// typically the defaults derived from the process environment. The
    /// initial values must be known to their catalogs.
    pub fn new(
        locales_db: Catalog,
        timezones_db: Catalog,
        keymaps_db: Catalog,
        locales: Vec<String>,
        keymap: String,
        timezone: String,
        ui_locale: String,
        ui_keymap: String,
    ) -> (r: L10n)
        requires
            forall|i: int|
                0 <= i < locales.deep_view().len() ==> has_code(
                    locales_db@,
                    #[trigger] locales.deep_view()[i],
                ),
            has_code(timezones_db@, timezone@),
            has_code(keymaps_db@, keymap@),
            has_code(locales_db@, ui_locale@),
            has_code(keymaps_db@, ui_keymap@),
        ensures
            r.wf(),
            r@ == (L10nModel {
                cats: CatalogsModel {
                    locales_db: locales_db@,
                    timezones_db: timezones_db@,
                    keymaps_db: keymaps_db@,
                },
                config: ConfigModel {
                    locales: locales.deep_view(),
                    keymap: keymap@,
                    timezone: timezone@,
                    ui_locale: ui_locale@,
                    ui_keymap: ui_keymap@,
                },
            }),
    {
        L10n { locales_db, timezones_db, keymaps_db, locales, keymap, timezone, ui_locale, ui_keymap }
    }

    /// The locale catalog.
    pub fn locales_db(&self) -> (r: &Catalog)
        ensures
            r@ == self@.cats.locales_db,
    {
        &self.locales_db
    }

    /// The timezone catalog.
    pub fn timezones_db(&self) -> (r: &Catalog)
        ensures
            r@ == self@.cats.timezones_db,
    {
        &self.timezones_db
    }

    /// The keymap catalog.
    pub fn keymaps_db(&self) -> (r: &Catalog)
        ensures
            r@ == self@.cats.keymaps_db,
    {
        &self.keymaps_db
    }

    /// An independent copy of the current record in the external shape:
    /// every field populated.
    pub fn get_config(&self) -> (r: LocaleConfig)
        ensures
            r@ == full_patch(self@.config),
    {
        let r = LocaleConfig {
            locales: Some(clone_strings(&self.locales)),
            keymap: Some(self.keymap.clone()),
            timezone: Some(self.timezone.clone()),
            ui_locale: Some(self.ui_locale.clone()),
            ui_keymap: Some(self.ui_keymap.clone()),
        };
        proof {
            assert(r@ =~= full_patch(self@.config));
        }
        r
    }

    /// Validates and commits a partial update.
    ///
    /// Validation is staged: every present field is checked against its
    /// catalog, in the fixed order locales, timezone, keymap, interface
    /// locale, interface keymap, and the first offending value is reported
    /// without any mutation. If the request names an interface keymap, the
    /// backend applies it to the running session next; a failure there is
    /// reported as `Commit` and also leaves the record untouched. Only when
    /// everything succeeded are all present fields stored together, the
    /// process-wide interface locale switched, and the notifications
    /// published: a `LocaleChanged` if the interface locale was part of the
    /// request, and one `L10nConfigChanged` carrying exactly the applied
    /// fields.
    #[verifier::loop_isolation(false)]
    pub fn set_config<B: LocaleBackend>(
        &mut self,
        value: &LocaleConfig,
        backend: &mut B,
        events: &Sender<Event>,
    ) -> (r: Result<LocaleConfig, LocaleError>)
        requires
            old(self).wf(),
        ensures
            final(self).wf(),
            final(self)@.cats == old(self)@.cats,
            r matches Ok(changes) ==> {
                &&& patch_valid(old(self)@.cats, value@)
                &&& final(self)@.config == apply_patch(old(self)@.config, value@)
                &&& changes@ == value@
            },
            r is Err ==> final(self)@ == old(self)@,
            !locales_valid(old(self)@.cats.locales_db, value@) ==> (r matches Err(
                LocaleError::UnknownLocale(c),
            ) && value@.locales matches Some(ls) && first_unknown_locale(
                old(self)@.cats.locales_db,
                ls,
                c@,
            )),
            locales_valid(old(self)@.cats.locales_db, value@) && !timezone_valid(
                old(self)@.cats.timezones_db,
                value@,
            ) ==> (r matches Err(LocaleError::UnknownTimezone(c)) && value@.timezone == Some(c@)),
            locales_valid(old(self)@.cats.locales_db, value@) && timezone_valid(
                old(self)@.cats.timezones_db,
                value@,
            ) && !keymap_valid(old(self)@.cats.keymaps_db, value@) ==> (r matches Err(
                LocaleError::InvalidKeymap(c),
            ) && value@.keymap == Some(c@)),
            locales_valid(old(self)@.cats.locales_db, value@) && timezone_valid(
                old(self)@.cats.timezones_db,
                value@,
            ) && keymap_valid(old(self)@.cats.keymaps_db, value@) && !ui_locale_valid(
                old(self)@.cats.locales_db,
                value@,
            ) ==> (r matches Err(LocaleError::UnknownLocale(c)) && value@.ui_locale == Some(c@)),
            locales_valid(old(self)@.cats.locales_db, value@) && timezone_valid(
                old(self)@.cats.timezones_db,
                value@,
            ) && keymap_valid(old(self)@.cats.keymaps_db, value@) && ui_locale_valid(
                old(self)@.cats.locales_db,
                value@,
            ) && !ui_keymap_valid(old(self)@.cats.keymaps_db, value@) ==> (r matches Err(
                LocaleError::InvalidKeymap(c),
            ) && value@.ui_keymap == Some(c@)),
            patch_valid(old(self)@.cats, value@) && value@.ui_keymap is None ==> r is Ok,
            patch_valid(old(self)@.cats, value@) ==> (r is Ok || r matches Err(
                LocaleError::Commit(_),
            )),
    {
        // Stage: validate every present field; nothing is mutated yet.
        if let Some(req_locales) = &value.locales {
            let mut i: usize = 0;
            while i < req_locales.len()
                invariant
                    0 <= i <= req_locales.len(),
                    forall|j: int|
                        0 <= j < i ==> has_code(
                            self@.cats.locales_db,
                            #[trigger] req_locales.deep_view()[j],
                        ),
                decreases req_locales.len() - i,
            {
                if !self.locales_db.contains_code(req_locales[i].as_str()) {
                    let offending = req_locales[i].clone();
                    proof {
                        let ls = value@.locales->0;
                        assert(ls[i as int] == offending@);
                        assert(first_unknown_locale(self@.cats.locales_db, ls, offending@));
                    }
                    return Err(LocaleError::UnknownLocale(offending));
                }
                i = i + 1;
            }
        }
        if let Some(tz) = &value.timezone {
            if !self.timezones_db.contains_code(tz.as_str()) {
                return Err(LocaleError::UnknownTimezone(tz.clone()));
            }
        }
        if let Some(k) = &value.keymap {
            if !self.keymaps_db.contains_code(k.as_str()) {
                return Err(LocaleError::InvalidKeymap(k.clone()));
            }
        }
        if let Some(u) = &value.ui_locale {
            if !self.locales_db.contains_code(u.as_str()) {
                return Err(LocaleError::UnknownLocale(u.clone()));
            }
        }
        if let Some(uk) = &value.ui_keymap {
            if !self.keymaps_db.contains_code(uk.as_str()) {
                return Err(LocaleError::InvalidKeymap(uk.clone()));
            }
            // Validation is complete; apply the keymap to the running
            // session before anything is stored, so that a failing session
            // leaves the record untouched.
            match backend.apply_keymap(uk.as_str()) {
                Ok(_) => {},
                Err(detail) => {
                    return Err(LocaleError::Commit(detail));
                },
            }
        }
        // Commit: store every present field together.
        let mut changes = LocaleConfig::default();
        if let Some(req_locales) = &value.locales {
            self.locales = clone_strings(req_locales);
            changes.locales = Some(clone_strings(req_locales));
        }
        if let Some(tz) = &value.timezone {
            self.timezone = tz.clone();
            changes.timezone = Some(tz.clone());
        }
        if let Some(k) = &value.keymap {
            self.keymap = k.clone();
            changes.keymap = Some(k.clone());
        }
        if let Some(u) = &value.ui_locale {
            self.ui_locale = u.clone();
            changes.ui_locale = Some(u.clone());
        }
        if let Some(uk) = &value.ui_keymap {
            self.ui_keymap = uk.clone();
            changes.ui_keymap = Some(uk.clone());
        }
        // Side effects and notifications, ordered after the mutation.
        if let Some(u) = &value.ui_locale {
            backend.set_service_locale(u.as_str());
            let _ = send_event(events, Event::LocaleChanged { locale: u.clone() });
        }
        let _ = send_event(events, Event::L10nConfigChanged(changes.clone()));
        proof {
            assert(final(self)@.config =~= apply_patch(old(self)@.config, value@));
            assert(changes@ =~= value@);
            lemma_apply_patch_preserves_wf(old(self)@.cats, old(self)@.config, value@);
        }
        Ok(changes)
    }
}

} // verus!
