use rathenafr_bot::i18n::catalog::{catalog, lookup, lookup_in_catalog};
use rathenafr_bot::i18n::keys::I18nKey;
use rathenafr_bot::i18n::locale::BotLocale;
use rathenafr_bot::i18n::translator::{translate, translate_with_args, TranslationArg};
use std::collections::{BTreeMap, BTreeSet};

fn catalog_entries(locale: BotLocale) -> BTreeMap<&'static str, &'static str> {
    catalog(locale)
        .lines()
        .filter_map(|line| {
            let line = line.trim();
            if line.is_empty() || line.starts_with('#') {
                return None;
            }

            line.split_once('=')
                .map(|(key, value)| (key.trim(), value.trim()))
        })
        .collect()
}

fn placeholders(value: &str) -> BTreeSet<&str> {
    value
        .match_indices("{ $")
        .filter_map(|(start, _)| {
            let name = &value[start + 3..];
            let end = name.find([' ', '}'])?;
            Some(&name[..end])
        })
        .collect()
}

fn typed_keys() -> BTreeSet<String> {
    I18nKey::all()
        .into_iter()
        .map(|key| key.as_str().to_owned())
        .collect()
}

#[test]
fn every_catalog_contains_the_same_keys_and_placeholders() {
    let fallback = catalog_entries(BotLocale::DEFAULT);

    for locale in BotLocale::all() {
        let entries = catalog_entries(locale);
        assert_eq!(
            entries.keys().collect::<BTreeSet<_>>(),
            fallback.keys().collect::<BTreeSet<_>>(),
            "catalog key mismatch for {}",
            locale.file_name()
        );

        for (key, fallback_value) in &fallback {
            assert_eq!(
                placeholders(entries[key]),
                placeholders(fallback_value),
                "placeholder mismatch for {key} in {}",
                locale.file_name()
            );
        }
    }
}

#[test]
fn every_typed_key_exists_in_all_catalogs() {
    let expected = typed_keys();
    assert!(!expected.is_empty());

    for locale in BotLocale::all() {
        let entries = catalog_entries(locale);
        let missing = expected
            .iter()
            .filter(|key| !entries.contains_key(key.as_str()))
            .collect::<Vec<_>>();

        assert!(
            missing.is_empty(),
            "missing typed keys in {}: {missing:?}",
            locale.file_name()
        );
    }
}

#[test]
fn discord_locales_are_normalized_with_french_fallback() {
    for value in ["fr", "fr-FR", "fr-BE", "fr-CA", "fr-CH"] {
        assert_eq!(BotLocale::from_discord(value), BotLocale::FrFr);
    }
    for value in ["en", "en-US", "en-GB"] {
        assert_eq!(BotLocale::from_discord(value), BotLocale::EnUs);
    }
    for value in ["es", "es-ES", "es-419"] {
        assert_eq!(BotLocale::from_discord(value), BotLocale::EsEs);
    }
    for value in ["de", "de-DE"] {
        assert_eq!(BotLocale::from_discord(value), BotLocale::DeDe);
    }

    assert_eq!(BotLocale::DEFAULT, BotLocale::FrFr);
    assert_eq!(BotLocale::from_discord("unsupported"), BotLocale::FrFr);
}

#[test]
fn discord_tags_read_back_to_their_locale() {
    for locale in BotLocale::all() {
        assert_eq!(BotLocale::from_discord(locale.discord_tag()), locale);
    }
    assert_eq!(BotLocale::EnUs.discord_tag(), "en-US");
    assert_eq!(BotLocale::DeDe.file_name(), "de-DE.ftl");
}

#[test]
fn typed_keys_are_listed_once_each() {
    let keys = I18nKey::all();
    let distinct: BTreeSet<&str> = keys.iter().map(|key| key.as_str()).collect();
    assert_eq!(distinct.len(), keys.len());
}

#[test]
fn lookup_reads_entries_and_misses_unknown_keys() {
    assert_eq!(lookup(BotLocale::EnUs, "button-next"), catalog_entries(BotLocale::EnUs).get("button-next").copied());
    assert_eq!(lookup(BotLocale::FrFr, "no-such-key"), None);
    assert_eq!(
        lookup_in_catalog("# comment\nalpha = one\nbeta=two\n", "beta"),
        Some("two")
    );
    assert_eq!(lookup_in_catalog("alpha = one", "alp"), None);
}

#[test]
fn translation_fills_placeholders() {
    let text = translate_with_args(
        BotLocale::EnUs,
        I18nKey::ErrorAccountInvalidField,
        &[TranslationArg::new("field", "email")],
    );
    assert_eq!(text, "The field `email` is not allowed.");
    let french = translate_with_args(
        BotLocale::FrFr,
        I18nKey::ErrorAccountInvalidField,
        &[TranslationArg::new("field", "email")],
    );
    assert_eq!(french, "Le champ `email` n’est pas autorisé.");
    assert_eq!(
        translate(BotLocale::EsEs, I18nKey::ErrorAccountInvalidField),
        "El campo `{ $field }` no está permitido."
    );
}
