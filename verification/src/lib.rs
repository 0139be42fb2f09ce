//! Localization configuration management.
//!
//! This crate keeps the desired localization settings of a machine being
//! installed: the locales to install, the keyboard map, the timezone, and
//! the language and keyboard map of the installer's own user interface.
//! Values are validated against immutable reference catalogs before they
//! are stored, partial updates are applied atomically, and successful
//! updates are announced on a broadcast channel.

pub mod backend;
pub mod catalog;
pub mod config;
pub mod error;
pub mod events;
pub mod l10n;
pub mod state;

pub use backend::LocaleBackend;
pub use catalog::{Catalog, CatalogEntry, CatalogsModel};
pub use config::{ConfigModel, ConfigPatch, LocaleConfig};
pub use error::LocaleError;
pub use events::Event;
pub use l10n::{L10n, L10nModel};
pub use state::LocaleState;
