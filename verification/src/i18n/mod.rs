//! Localisation: supported locales, typed message keys, the message catalogs
//! and the placeholder substitution used to render messages.
pub mod locale;
pub mod catalog;
pub mod keys;
pub mod translator;
