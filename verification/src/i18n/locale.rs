//! The locales the bot answers in, and how Discord locale tags map onto them.
use vstd::prelude::*;
use crate::text::chars_of;
use crate::text::chars_eq;

verus! {

#[derive(Debug, Clone, Copy, PartialEq, Eq, Hash, Structural)]
pub enum BotLocale {
    FrFr,
    EnUs,
    EsEs,
    DeDe,
}

/// The tag sent to Discord for each locale.
pub open spec fn discord_tag_spec(locale: BotLocale) -> Seq<char> {
    match locale {
        BotLocale::FrFr => "fr"@,
        BotLocale::EnUs => "en-US"@,
        BotLocale::EsEs => "es-ES"@,
        BotLocale::DeDe => "de"@,
    }
}

/// The catalog file name of each locale.
pub open spec fn file_name_spec(locale: BotLocale) -> Seq<char> {
    match locale {
        BotLocale::FrFr => "fr-FR.ftl"@,
        BotLocale::EnUs => "en-US.ftl"@,
        BotLocale::EsEs => "es-ES.ftl"@,
        BotLocale::DeDe => "de-DE.ftl"@,
    }
}

/// The locale chosen for a Discord locale tag; unknown tags fall back to French.
pub open spec fn from_discord_spec(tag: Seq<char>) -> BotLocale {
    if tag == "fr"@ || tag == "fr-FR"@ || tag == "fr-BE"@ || tag == "fr-CA"@ || tag == "fr-CH"@ {
        BotLocale::FrFr
    } else if tag == "en"@ || tag == "en-US"@ || tag == "en-GB"@ {
        BotLocale::EnUs
    } else if tag == "es"@ || tag == "es-ES"@ || tag == "es-419"@ {
        BotLocale::EsEs
    } else if tag == "de"@ || tag == "de-DE"@ {
        BotLocale::DeDe
    } else {
        BotLocale::FrFr
    }
}

/// The character sequence `cs` spells the literal `lit`.
pub fn is_literal(cs: &[char], lit: &str) -> (r: bool)
    ensures
        r == (cs@ == lit@),
{
    let l = chars_of(lit);
    chars_eq(cs, l.as_slice())
}

impl BotLocale {
    /// The locale used when nothing better is known.
    pub const DEFAULT: BotLocale = BotLocale::FrFr;

    pub fn discord_tag(self) -> (r: &'static str)
        ensures
            r@ == discord_tag_spec(self),
    {
        match self {
            BotLocale::FrFr => "fr",
            BotLocale::EnUs => "en-US",
            BotLocale::EsEs => "es-ES",
            BotLocale::DeDe => "de",
        }
    }

    pub fn file_name(self) -> (r: &'static str)
        ensures
            r@ == file_name_spec(self),
    {
        match self {
            BotLocale::FrFr => "fr-FR.ftl",
            BotLocale::EnUs => "en-US.ftl",
            BotLocale::EsEs => "es-ES.ftl",
            BotLocale::DeDe => "de-DE.ftl",
        }
    }

    /// Every supported locale, French first.
    pub fn all() -> (r: Vec<BotLocale>)
        ensures
            r@ == seq![BotLocale::FrFr, BotLocale::EnUs, BotLocale::EsEs, BotLocale::DeDe],
    {
        let mut v = Vec::new();
        v.push(BotLocale::FrFr);
        v.push(BotLocale::EnUs);
        v.push(BotLocale::EsEs);
        v.push(BotLocale::DeDe);
        v
    }

    pub fn from_discord(value: &str) -> (r: BotLocale)
        ensures
            r == from_discord_spec(value@),
    {
        let cs = chars_of(value);
        let t = cs.as_slice();
        if is_literal(t, "fr") || is_literal(t, "fr-FR") || is_literal(t, "fr-BE") || is_literal(
            t,
            "fr-CA",
        ) || is_literal(t, "fr-CH") {
            BotLocale::FrFr
        } else if is_literal(t, "en") || is_literal(t, "en-US") || is_literal(t, "en-GB") {
            BotLocale::EnUs
        } else if is_literal(t, "es") || is_literal(t, "es-ES") || is_literal(t, "es-419") {
            BotLocale::EsEs
        } else if is_literal(t, "de") || is_literal(t, "de-DE") {
            BotLocale::DeDe
        } else {
            BotLocale::DEFAULT
        }
    }
}

/// Reading back the Discord tag of a locale gives that locale again.
pub proof fn lemma_discord_tag_round_trip(locale: BotLocale)
    ensures
        from_discord_spec(discord_tag_spec(locale)) == locale,
{
    reveal_strlit("fr");
    assert("fr"@.len() == 2);
    assert("fr"@[0] == 'f');
    assert("fr"@[1] == 'r');
    reveal_strlit("fr-FR");
    assert("fr-FR"@.len() == 5);
    assert("fr-FR"@[0] == 'f');
    assert("fr-FR"@[1] == 'r');
    assert("fr-FR"@[2] == '-');
    assert("fr-FR"@[3] == 'F');
    reveal_strlit("fr-BE");
    assert("fr-BE"@.len() == 5);
    assert("fr-BE"@[0] == 'f');
    assert("fr-BE"@[1] == 'r');
    assert("fr-BE"@[2] == '-');
    assert("fr-BE"@[3] == 'B');
    reveal_strlit("fr-CA");
    assert("fr-CA"@.len() == 5);
    assert("fr-CA"@[0] == 'f');
    assert("fr-CA"@[1] == 'r');
    assert("fr-CA"@[2] == '-');
    assert("fr-CA"@[3] == 'C');
    reveal_strlit("fr-CH");
    assert("fr-CH"@.len() == 5);
    assert("fr-CH"@[0] == 'f');
    assert("fr-CH"@[1] == 'r');
    assert("fr-CH"@[2] == '-');
    assert("fr-CH"@[3] == 'C');
    reveal_strlit("en");
    assert("en"@.len() == 2);
    assert("en"@[0] == 'e');
    assert("en"@[1] == 'n');
    reveal_strlit("en-US");
    assert("en-US"@.len() == 5);
    assert("en-US"@[0] == 'e');
    assert("en-US"@[1] == 'n');
    assert("en-US"@[2] == '-');
    assert("en-US"@[3] == 'U');
    reveal_strlit("en-GB");
    assert("en-GB"@.len() == 5);
    assert("en-GB"@[0] == 'e');
    assert("en-GB"@[1] == 'n');
    assert("en-GB"@[2] == '-');
    assert("en-GB"@[3] == 'G');
    reveal_strlit("es");
    assert("es"@.len() == 2);
    assert("es"@[0] == 'e');
    assert("es"@[1] == 's');
    reveal_strlit("es-ES");
    assert("es-ES"@.len() == 5);
    assert("es-ES"@[0] == 'e');
    assert("es-ES"@[1] == 's');
    assert("es-ES"@[2] == '-');
    assert("es-ES"@[3] == 'E');
    reveal_strlit("es-419");
    assert("es-419"@.len() == 6);
    assert("es-419"@[0] == 'e');
    assert("es-419"@[1] == 's');
    assert("es-419"@[2] == '-');
    assert("es-419"@[3] == '4');
    reveal_strlit("de");
    assert("de"@.len() == 2);
    assert("de"@[0] == 'd');
    assert("de"@[1] == 'e');
    reveal_strlit("de-DE");
    assert("de-DE"@.len() == 5);
    assert("de-DE"@[0] == 'd');
    assert("de-DE"@[1] == 'e');
    assert("de-DE"@[2] == '-');
    assert("de-DE"@[3] == 'D');
    match locale {
        BotLocale::FrFr => {},
        BotLocale::EnUs => {
            assert("en-US"@ != "fr"@);
            assert("en-US"@ != "fr-FR"@);
            assert("en-US"@ != "fr-BE"@);
            assert("en-US"@ != "fr-CA"@);
            assert("en-US"@ != "fr-CH"@);
            assert("en-US"@ != "en"@);
        },
        BotLocale::EsEs => {
            assert("es-ES"@ != "fr"@);
            assert("es-ES"@ != "fr-FR"@);
            assert("es-ES"@ != "fr-BE"@);
            assert("es-ES"@ != "fr-CA"@);
            assert("es-ES"@ != "fr-CH"@);
            assert("es-ES"@ != "en"@);
            assert("es-ES"@ != "en-US"@);
            assert("es-ES"@ != "en-GB"@);
            assert("es-ES"@ != "es"@);
        },
        BotLocale::DeDe => {
            assert("de"@ != "fr"@);
            assert("de"@ != "fr-FR"@);
            assert("de"@ != "fr-BE"@);
            assert("de"@ != "fr-CA"@);
            assert("de"@ != "fr-CH"@);
            assert("de"@ != "en"@);
            assert("de"@ != "en-US"@);
            assert("de"@ != "en-GB"@);
            assert("de"@ != "es"@);
            assert("de"@ != "es-ES"@);
            assert("de"@ != "es-419"@);
        },
    }
}

/// Each catalog file name is the locale's full tag followed by `.ftl`; the tag
/// reads back as that locale, so distinct locales have distinct file names.
pub proof fn lemma_file_name_round_trip(locale: BotLocale)
    ensures
        file_name_spec(locale).len() > 4,
        file_name_spec(locale).skip(file_name_spec(locale).len() - 4) == ".ftl"@,
        from_discord_spec(file_name_spec(locale).take(file_name_spec(locale).len() - 4)) == locale,
        forall|other: BotLocale| #[trigger] file_name_spec(other) == file_name_spec(locale) ==> other
            == locale,
{
    reveal_strlit("fr");
    assert("fr"@.len() == 2 && "fr"@[0] == 'f' && "fr"@[1] == 'r');
    reveal_strlit("fr-FR");
    assert("fr-FR"@.len() == 5 && "fr-FR"@[0] == 'f' && "fr-FR"@[1] == 'r');
    reveal_strlit("fr-BE");
    assert("fr-BE"@.len() == 5 && "fr-BE"@[0] == 'f' && "fr-BE"@[1] == 'r');
    reveal_strlit("fr-CA");
    assert("fr-CA"@.len() == 5 && "fr-CA"@[0] == 'f' && "fr-CA"@[1] == 'r');
    reveal_strlit("fr-CH");
    assert("fr-CH"@.len() == 5 && "fr-CH"@[0] == 'f' && "fr-CH"@[1] == 'r');
    reveal_strlit("en");
    assert("en"@.len() == 2 && "en"@[0] == 'e' && "en"@[1] == 'n');
    reveal_strlit("en-US");
    assert("en-US"@.len() == 5 && "en-US"@[0] == 'e' && "en-US"@[1] == 'n');
    reveal_strlit("en-GB");
    assert("en-GB"@.len() == 5 && "en-GB"@[0] == 'e' && "en-GB"@[1] == 'n');
    reveal_strlit("es");
    assert("es"@.len() == 2 && "es"@[0] == 'e' && "es"@[1] == 's');
    reveal_strlit("es-ES");
    assert("es-ES"@.len() == 5 && "es-ES"@[0] == 'e' && "es-ES"@[1] == 's');
    reveal_strlit("es-419");
    assert("es-419"@.len() == 6 && "es-419"@[0] == 'e' && "es-419"@[1] == 's');
    reveal_strlit("de");
    assert("de"@.len() == 2 && "de"@[0] == 'd' && "de"@[1] == 'e');
    reveal_strlit("de-DE");
    assert("de-DE"@.len() == 5 && "de-DE"@[0] == 'd' && "de-DE"@[1] == 'e');
    reveal_strlit("fr-FR.ftl");
    reveal_strlit("en-US.ftl");
    reveal_strlit("es-ES.ftl");
    reveal_strlit("de-DE.ftl");
    reveal_strlit(".ftl");
    assert("fr-FR.ftl"@.take(5) =~= "fr-FR"@);
    assert("en-US.ftl"@.take(5) =~= "en-US"@);
    assert("es-ES.ftl"@.take(5) =~= "es-ES"@);
    assert("de-DE.ftl"@.take(5) =~= "de-DE"@);
    assert("fr-FR.ftl"@.skip(5) =~= ".ftl"@);
    assert("en-US.ftl"@.skip(5) =~= ".ftl"@);
    assert("es-ES.ftl"@.skip(5) =~= ".ftl"@);
    assert("de-DE.ftl"@.skip(5) =~= ".ftl"@);
    assert("fr-FR.ftl"@[0] == 'f' && "en-US.ftl"@[0] == 'e' && "es-ES.ftl"@[0] == 'e'
        && "de-DE.ftl"@[0] == 'd');
    assert("en-US.ftl"@[1] == 'n' && "es-ES.ftl"@[1] == 's');
    match locale {
        BotLocale::FrFr => assert(from_discord_spec("fr-FR"@) == BotLocale::FrFr),
        BotLocale::EnUs => assert(from_discord_spec("en-US"@) == BotLocale::EnUs),
        BotLocale::EsEs => assert(from_discord_spec("es-ES"@) == BotLocale::EsEs),
        BotLocale::DeDe => assert(from_discord_spec("de-DE"@) == BotLocale::DeDe),
    }
}

} // verus!
