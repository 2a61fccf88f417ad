//! Verified core of the rAthenaFR Discord bot: text handling, validation of
//! staff and account commands, localisation catalogs and command routing.

pub mod text;
pub mod numbers;
pub mod i18n;
pub mod model;
pub mod account_manage;
pub mod validation;
pub mod components;
pub mod routing;
pub mod access;
pub mod observability;
pub mod sanitize;
pub mod responses;
pub mod flows;
pub mod env_hint;
pub mod packs;
