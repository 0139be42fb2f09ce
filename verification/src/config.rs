//! The desired configuration record and partial update requests.

use vstd::prelude::*;

verus! {

/// Mathematical image of the full configuration record: every field is a
/// character sequence (or a sequence of them, for the install locales).
#[verifier::ext_equal]
pub ghost struct ConfigModel {
    /// Locales to install in the target system.
    pub locales: Seq<Seq<char>>,
    /// Keymap for the target system.
    pub keymap: Seq<char>,
    /// Timezone for the target system.
    pub timezone: Seq<char>,
    /// Locale of the installer's own interface.
    pub ui_locale: Seq<char>,
    /// Keymap of the installer's own interface.
    pub ui_keymap: Seq<char>,
}

/// Mathematical image of a partial update: each field optionally present.
#[verifier::ext_equal]
pub ghost struct ConfigPatch {
    pub locales: Option<Seq<Seq<char>>>,
    pub keymap: Option<Seq<char>>,
    pub timezone: Option<Seq<char>>,
    pub ui_locale: Option<Seq<char>>,
    pub ui_keymap: Option<Seq<char>>,
}

/// A partial localization configuration.
///
/// As an update request, absent fields are left untouched by the update.
/// As a change set or a snapshot, present fields are the ones reported.
#[derive(Clone, Debug)]
pub struct LocaleConfig {
    /// Locales to install in the target system.
    pub locales: Option<Vec<String>>,
    /// Keymap for the target system.
    pub keymap: Option<String>,
    /// Timezone for the target system.
    pub timezone: Option<String>,
    /// User-interface locale. It is actually not related to the `locales`
    /// property.
    pub ui_locale: Option<String>,
    /// User-interface keymap. It is relevant only on local installations.
    pub ui_keymap: Option<String>,
}

impl View for LocaleConfig {
    type V = ConfigPatch;

    open spec fn view(&self) -> ConfigPatch {
        ConfigPatch {
            locales: match self.locales {
                Some(v) => Some(v.deep_view()),
                None => None,
            },
            keymap: match self.keymap {
                Some(s) => Some(s@),
                None => None,
            },
            timezone: match self.timezone {
                Some(s) => Some(s@),
                None => None,
            },
            ui_locale: match self.ui_locale {
                Some(s) => Some(s@),
                None => None,
            },
            ui_keymap: match self.ui_keymap {
                Some(s) => Some(s@),
                None => None,
            },
        }
    }
}

impl Default for LocaleConfig {
    /// The empty update: no field present.
    fn default() -> (r: Self)
        ensures
            r@ == empty_patch(),
    {
        let r = LocaleConfig {
            locales: None,
            keymap: None,
            timezone: None,
            ui_locale: None,
            ui_keymap: None,
        };
        proof {
            assert(r@ =~= empty_patch());
        }
        r
    }
}

/// The patch with no field present.
pub open spec fn empty_patch() -> ConfigPatch {
    ConfigPatch { locales: None, keymap: None, timezone: None, ui_locale: None, ui_keymap: None }
}

/// The record `cur` after the partial update `p`: present fields replaced,
/// absent fields untouched.
pub open spec fn apply_patch(cur: ConfigModel, p: ConfigPatch) -> ConfigModel {
    ConfigModel {
        locales: if p.locales is Some { p.locales->0 } else { cur.locales },
        keymap: if p.keymap is Some { p.keymap->0 } else { cur.keymap },
        timezone: if p.timezone is Some { p.timezone->0 } else { cur.timezone },
        ui_locale: if p.ui_locale is Some { p.ui_locale->0 } else { cur.ui_locale },
        ui_keymap: if p.ui_keymap is Some { p.ui_keymap->0 } else { cur.ui_keymap },
    }
}

/// The patch that reports every field of `cur`: the external view of a
/// snapshot, where all fields are always populated.
pub open spec fn full_patch(cur: ConfigModel) -> ConfigPatch {
    ConfigPatch {
        locales: Some(cur.locales),
        keymap: Some(cur.keymap),
        timezone: Some(cur.timezone),
        ui_locale: Some(cur.ui_locale),
        ui_keymap: Some(cur.ui_keymap),
    }
}

/// A partial update changes exactly what it carries: after `apply_patch`,
/// every present field holds the requested value and every absent field
/// holds the value it had before.
pub proof fn lemma_apply_patch_exact(cur: ConfigModel, p: ConfigPatch)
    ensures
        p.locales matches Some(v) ==> apply_patch(cur, p).locales == v,
        p.locales is None ==> apply_patch(cur, p).locales == cur.locales,
        p.keymap matches Some(v) ==> apply_patch(cur, p).keymap == v,
        p.keymap is None ==> apply_patch(cur, p).keymap == cur.keymap,
        p.timezone matches Some(v) ==> apply_patch(cur, p).timezone == v,
        p.timezone is None ==> apply_patch(cur, p).timezone == cur.timezone,
        p.ui_locale matches Some(v) ==> apply_patch(cur, p).ui_locale == v,
        p.ui_locale is None ==> apply_patch(cur, p).ui_locale == cur.ui_locale,
        p.ui_keymap matches Some(v) ==> apply_patch(cur, p).ui_keymap == v,
        p.ui_keymap is None ==> apply_patch(cur, p).ui_keymap == cur.ui_keymap,
{
}

} // verus!

