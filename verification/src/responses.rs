//! Localisation of the known French error messages of the account commands.
use vstd::prelude::*;
use crate::i18n::keys::I18nKey;
use crate::i18n::locale::{is_literal, BotLocale};
use crate::i18n::translator::{placeholder, translate, translate_spec, translate_with_arg};
use crate::text::{
    chars_of, contains_lit, contains_seq, ends_with, find_char, has_prefix, has_suffix, owned,
    replace_all, split_once_spec, starts_with, string_from_chars, trim, trim_bounds,
};
use crate::validation::{trim_discord_message, trim_discord_spec};

verus! {

/// The text before the first backquote (all of it when there is none).
pub open spec fn text_before_backquote(s: Seq<char>) -> Seq<char> {
    match split_once_spec(s, '`') {
        Some(parts) => parts.0,
        None => s,
    }
}

pub open spec fn missing_option_prefix() -> Seq<char> {
    "Option obligatoire manquante : "@
}

/// The message in the locale for an error message raised in French, when it is one of
/// the known ones; other messages are kept as they are.
pub open spec fn localize_error_spec(locale: BotLocale, m: Seq<char>) -> Seq<char> {
    let p1 = missing_option_prefix();
    let field_prefix = "Le champ `"@;
    let value_prefix = "La valeur de `"@;
    if has_prefix(m, p1) && has_suffix(m.skip(p1.len() as int), "."@) {
        replace_all(
            translate_spec(locale, I18nKey::ErrorMissingOption),
            placeholder("option"@),
            m.skip(p1.len() as int).drop_last(),
        )
    } else if m == "Le compte doit être renseigné."@ {
        translate_spec(locale, I18nKey::ErrorAccountRequired)
    } else if m == "L’account_id doit être strictement positif."@ {
        translate_spec(locale, I18nKey::ErrorAccountIdPositive)
    } else if m == "La désactivation forte de compte est désactivée par configuration."@ {
        translate_spec(locale, I18nKey::ErrorAccountDeleteDisabled)
    } else if m == "Confirmation invalide. Renseigne `SUPPRIMER` exactement."@ {
        translate_spec(locale, I18nKey::ErrorAccountDeleteConfirm)
    } else if m == "Le sexe du compte doit être `M` ou `F`."@ {
        translate_spec(locale, I18nKey::ErrorAccountSex)
    } else if has_prefix(m, field_prefix) && split_once_spec(
        m.skip(field_prefix.len() as int),
        '`',
    ) is Some {
        let field = text_before_backquote(m.skip(field_prefix.len() as int));
        if contains_seq(m, "ne peut jamais être modifié"@) {
            replace_all(
                translate_spec(locale, I18nKey::ErrorAccountForbiddenField),
                placeholder("field"@),
                field,
            )
        } else if contains_seq(m, "n’est pas autorisé"@) {
            replace_all(
                translate_spec(locale, I18nKey::ErrorAccountInvalidField),
                placeholder("field"@),
                field,
            )
        } else {
            m
        }
    } else if has_prefix(m, value_prefix) && split_once_spec(
        m.skip(value_prefix.len() as int),
        '`',
    ) is Some {
        let field = text_before_backquote(m.skip(value_prefix.len() as int));
        if contains_seq(m, "doit être un entier"@) {
            replace_all(
                translate_spec(locale, I18nKey::ErrorAccountValueInteger),
                placeholder("field"@),
                field,
            )
        } else if contains_seq(m, "positive ou nulle"@) {
            replace_all(
                translate_spec(locale, I18nKey::ErrorAccountValueNonNegative),
                placeholder("field"@),
                field,
            )
        } else {
            m
        }
    } else {
        m
    }
}

/// The name quoted right after `prefix`: the text up to the next backquote.
fn quoted_after(m: &[char], prefix: &str) -> (r: Option<String>)
    ensures
        match r {
            Some(f) => {
                &&& has_prefix(m@, prefix@)
                &&& split_once_spec(m@.skip(prefix@.len() as int), '`') is Some
                &&& f@ == text_before_backquote(m@.skip(prefix@.len() as int))
            },
            None => !(has_prefix(m@, prefix@) && split_once_spec(
                m@.skip(prefix@.len() as int),
                '`',
            ) is Some),
        },
{
    let p = chars_of(prefix);
    if !starts_with(m, p.as_slice()) {
        return None;
    }
    let rest = &m[p.len()..m.len()];
    assert(rest@ == m@.skip(prefix@.len() as int));
    match find_char(rest, '`') {
        Some(i) => {
            let field = &rest[0..i];
            assert(field@ == rest@.take(i as int));
            Some(string_from_chars(field))
        },
        None => None,
    }
}

pub fn localize_known_error(locale: BotLocale, message: &str) -> (r: String)
    ensures
        r@ == localize_error_spec(locale, message@),
{
    let m = chars_of(message);
    let t = m.as_slice();
    let p1 = chars_of("Option obligatoire manquante : ");
    let dot = chars_of(".");
    if starts_with(t, p1.as_slice()) {
        let rest = &t[p1.len()..t.len()];
        assert(rest@ == message@.skip(missing_option_prefix().len() as int));
        if ends_with(rest, dot.as_slice()) {
            proof {
                reveal_strlit(".");
            }
            let option = string_from_chars(&rest[0..rest.len() - 1]);
            assert(rest@.subrange(0, rest@.len() - 1) =~= rest@.drop_last());
            return translate_with_arg(locale, I18nKey::ErrorMissingOption, "option", option.as_str());
        }
    }
    if is_literal(t, "Le compte doit être renseigné.") {
        return translate(locale, I18nKey::ErrorAccountRequired);
    }
    if is_literal(t, "L’account_id doit être strictement positif.") {
        return translate(locale, I18nKey::ErrorAccountIdPositive);
    }
    if is_literal(t, "La désactivation forte de compte est désactivée par configuration.") {
        return translate(locale, I18nKey::ErrorAccountDeleteDisabled);
    }
    if is_literal(t, "Confirmation invalide. Renseigne `SUPPRIMER` exactement.") {
        return translate(locale, I18nKey::ErrorAccountDeleteConfirm);
    }
    if is_literal(t, "Le sexe du compte doit être `M` ou `F`.") {
        return translate(locale, I18nKey::ErrorAccountSex);
    }
    match quoted_after(t, "Le champ `") {
        Some(field) => {
            if contains_lit(t, "ne peut jamais être modifié") {
                return translate_with_arg(
                    locale,
                    I18nKey::ErrorAccountForbiddenField,
                    "field",
                    field.as_str(),
                );
            } else if contains_lit(t, "n’est pas autorisé") {
                return translate_with_arg(
                    locale,
                    I18nKey::ErrorAccountInvalidField,
                    "field",
                    field.as_str(),
                );
            } else {
                return owned(message);
            }
        },
        None => {},
    }
    match quoted_after(t, "La valeur de `") {
        Some(field) => {
            if contains_lit(t, "doit être un entier") {
                translate_with_arg(locale, I18nKey::ErrorAccountValueInteger, "field", field.as_str())
            } else if contains_lit(t, "positive ou nulle") {
                translate_with_arg(
                    locale,
                    I18nKey::ErrorAccountValueNonNegative,
                    "field",
                    field.as_str(),
                )
            } else {
                owned(message)
            }
        },
        None => owned(message),
    }
}

/// The non-blank lines, in order.
pub open spec fn nonblank_lines(lines: Seq<Seq<char>>) -> Seq<Seq<char>>
    decreases lines.len(),
{
    if lines.len() == 0 {
        seq![]
    } else if trim(lines.last()).len() > 0 {
        nonblank_lines(lines.drop_last()).push(lines.last())
    } else {
        nonblank_lines(lines.drop_last())
    }
}

/// Lines joined with line breaks.
pub open spec fn join_lines(lines: Seq<Seq<char>>) -> Seq<char>
    decreases lines.len(),
{
    if lines.len() == 0 {
        seq![]
    } else if lines.len() == 1 {
        lines[0]
    } else {
        join_lines(lines.drop_last()) + "\n"@ + lines.last()
    }
}

/// The body of a list answer: the empty-result message when there are no lines,
/// else the first `max_limit` non-blank lines, one per line.
pub open spec fn lines_body_spec(lines: Seq<Seq<char>>, empty_message: Seq<char>, max_limit: nat) -> Seq<
    char,
> {
    if lines.len() == 0 {
        empty_message
    } else {
        let kept = nonblank_lines(lines);
        join_lines(if kept.len() <= max_limit { kept } else { kept.take(max_limit as int) })
    }
}

pub open spec fn line_views(lines: Seq<String>) -> Seq<Seq<char>> {
    Seq::new(lines.len(), |i: int| lines[i]@)
}

/// The body of a list answer, cut to fit an embed.
pub fn lines_body(lines: &[String], empty_message: &str, max_limit: u32) -> (r: String)
    ensures
        r@ == trim_discord_spec(lines_body_spec(line_views(lines@), empty_message@, max_limit as nat)),
{
    if lines.len() == 0 {
        return trim_discord_message(empty_message);
    }
    let ghost all = line_views(lines@);
    let mut body = String::new();
    let mut kept: usize = 0;
    let mut i: usize = 0;
    while i < lines.len()
        invariant
            i <= lines@.len(),
            all == line_views(lines@),
            kept as nat == (if nonblank_lines(all.take(i as int)).len() <= max_limit as nat {
                nonblank_lines(all.take(i as int)).len()
            } else {
                max_limit as nat
            }),
            body@ == join_lines(
                if nonblank_lines(all.take(i as int)).len() <= max_limit as nat {
                    nonblank_lines(all.take(i as int))
                } else {
                    nonblank_lines(all.take(i as int)).take(max_limit as int)
                },
            ),
        decreases lines@.len() - i,
    {
        let line = lines[i].as_str();
        let ghost before = nonblank_lines(all.take(i as int));
        proof {
            let t = all.take(i + 1);
            assert(t.drop_last() =~= all.take(i as int));
            assert(t.last() == line@);
        }
        let lc = chars_of(line);
        let (ts, te) = trim_bounds(lc.as_slice());
        proof {
            let t = all.take(i + 1);
            if ts < te {
                assert(nonblank_lines(t) == before.push(line@));
            } else {
                assert(nonblank_lines(t) == before);
            }
        }
        if ts < te {
            if (kept as u64) < (max_limit as u64) {
                if kept > 0 {
                    body.append("\n");
                }
                body.append(line);
                kept = kept + 1;
                proof {
                    reveal_strlit("\n");
                    let now = before.push(line@);
                    assert(now.drop_last() =~= before);
                    if before.len() > 0 {
                        assert(body@ =~= join_lines(before) + "\n"@ + line@);
                    } else {
                        assert(body@ =~= line@);
                    }
                }
            } else {
                proof {
                    let now = before.push(line@);
                    assert(now.take(max_limit as int) =~= before.take(max_limit as int));
                    if before.len() == max_limit as nat {
                        assert(before.take(max_limit as int) =~= before);
                    }
                }
            }
        }
        i = i + 1;
    }
    assert(all.take(i as int) =~= all);
    trim_discord_message(body.as_str())
}

} // verus!
