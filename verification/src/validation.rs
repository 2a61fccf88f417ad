//! Validation of the free-text options of staff and account commands.
use vstd::prelude::*;
use crate::account_manage::{lemma_staff_text_defuses_mass_mentions, staff_text};
use crate::i18n::keys::I18nKey;
use crate::i18n::locale::{is_literal, BotLocale};
use crate::i18n::translator::{
    placeholder, translate, translate_spec, translate_with_args, TranslationArg,
};
use crate::model::GameBridgeMode;
use crate::numbers::{
    all_digits, decimal, digit_char, digit_value, digits_value, is_digit, lemma_decimal_digits,
    lemma_parse_decimal, parse_nat_text, parse_u64_chars, usize_to_string,
};
use crate::text::{
    char_is_control, char_is_ws, chars_of, chars_to_lower, chars_to_upper, collapse_whitespace,
    collapse_ws, contains_lit, contains_seq, drop_controls, has_char, is_control, is_ws,
    lower_seq, owned, remove_controls, free_of_controls, lemma_drop_controls_clean,
    lemma_replace_all_clean, lemma_collapse_clean, lemma_collapse_single_spaced, single_spaced, lemma_collapse_keeps_absent, lemma_drop_controls_keeps_clean, lemma_replace_absent,
    lemma_collapse_single_spaced_unchanged, trim_start, trim_end, replace_all, replace_lit, str_eq, str_result,
    string_from_chars, opt_view, trim, trim_bounds, trim_str, upper_seq, byte_len, utf8_len,
};

verus! {

/// A GM message made safe: control characters removed, mass mentions defused,
/// whitespace runs collapsed to single spaces.
pub open spec fn sanitized_gm_text(value: Seq<char>) -> Seq<char> {
    collapse_ws(staff_text(drop_controls(value)))
}

pub open spec fn sanitize_gm_spec(locale: BotLocale, value: Seq<char>, max_length: usize) -> Result<
    Seq<char>,
    Seq<char>,
> {
    let s = sanitized_gm_text(value);
    if trim(s).len() == 0 {
        Err(translate_spec(locale, I18nKey::ErrorGmmsgEmpty))
    } else if s.len() > max_length {
        Err(
            replace_all(
                translate_spec(locale, I18nKey::ErrorGmmsgTooLong),
                placeholder("max"@),
                decimal(max_length as nat),
            ),
        )
    } else {
        Ok(s)
    }
}

pub fn sanitize_gm_message(value: &str, max_length: usize) -> (r: Result<String, String>)
    ensures
        str_result(r) == sanitize_gm_spec(BotLocale::FrFr, value@, max_length),
{
    sanitize_gm_message_l10n(BotLocale::DEFAULT, value, max_length)
}

pub fn sanitize_gm_message_l10n(locale: BotLocale, value: &str, max_length: usize) -> (r: Result<
    String,
    String,
>)
    ensures
        str_result(r) == sanitize_gm_spec(locale, value@, max_length),
{
    proof {
        reveal_strlit("@everyone");
        reveal_strlit("@here");
    }
    let cs = chars_of(value);
    let no_controls = remove_controls(cs.as_slice());
    let a = replace_lit(no_controls.as_slice(), "@everyone", "@\u{200B}everyone");
    let b = replace_lit(a.as_slice(), "@here", "@\u{200B}here");
    let sanitized = collapse_whitespace(b.as_slice());
    let (ts, te) = trim_bounds(sanitized.as_slice());
    if ts == te {
        return Err(translate(locale, I18nKey::ErrorGmmsgEmpty));
    }
    if sanitized.len() > max_length {
        let max = usize_to_string(max_length);
        let arg = TranslationArg::new("max", max.as_str());
        let mut args: Vec<TranslationArg> = Vec::new();
        args.push(arg);
        let message = translate_with_args(locale, I18nKey::ErrorGmmsgTooLong, args.as_slice());
        proof {
            let a = args@;
            assert(a.len() == 1);
            assert(a.drop_last() =~= Seq::<TranslationArg<'_>>::empty());
            assert(a.last().name@ == "max"@);
            assert(a.last().value@ == decimal(max_length as nat));
            let m = translate_spec(locale, I18nKey::ErrorGmmsgTooLong);
            assert(crate::i18n::translator::apply_args(m, a.drop_last()) == m);
            assert(message@ == replace_all(
                translate_spec(locale, I18nKey::ErrorGmmsgTooLong),
                placeholder("max"@),
                decimal(max_length as nat),
            ));
        }
        return Err(message);
    }
    Ok(string_from_chars(sanitized.as_slice()))
}

/// `trim_start_matches('#')`: every leading `#` removed.
pub open spec fn strip_hashes(s: Seq<char>) -> Seq<char>
    decreases s.len(),
{
    if s.len() > 0 && s[0] == '#' {
        strip_hashes(s.drop_first())
    } else {
        s
    }
}

pub open spec fn is_hex_digit(c: char) -> bool {
    ('0' <= c && c <= '9') || ('a' <= c && c <= 'f') || ('A' <= c && c <= 'F')
}

/// A colour is six hexadecimal digits after trimming and dropping leading `#`; it is
/// kept in upper case. (`str::len` counts bytes, which equal characters for hex digits.)
pub open spec fn hex_color_spec(locale: BotLocale, value: Seq<char>) -> Result<Seq<char>, Seq<char>> {
    let v = strip_hashes(trim(value));
    if v.len() == 6 && (forall|i: int| 0 <= i < 6 ==> #[trigger] is_hex_digit(v[i])) {
        Ok(upper_seq(v))
    } else {
        Err(translate_spec(locale, I18nKey::ErrorGmmsgHexColor))
    }
}

pub fn validate_hex_color(value: &str) -> (r: Result<String, String>)
    ensures
        str_result(r) == hex_color_spec(BotLocale::FrFr, value@),
{
    validate_hex_color_l10n(BotLocale::DEFAULT, value)
}

pub fn validate_hex_color_l10n(locale: BotLocale, value: &str) -> (r: Result<String, String>)
    ensures
        str_result(r) == hex_color_spec(locale, value@),
{
    let cs = chars_of(trim_str(value));
    let mut start: usize = 0;
    assert(cs@.skip(0) =~= cs@);
    while start < cs.len() && cs[start] == '#'
        invariant
            start <= cs@.len(),
            strip_hashes(cs@) == strip_hashes(cs@.skip(start as int)),
        decreases cs@.len() - start,
    {
        assert(cs@.skip(start as int).drop_first() =~= cs@.skip(start + 1));
        start = start + 1;
    }
    let rest = &cs.as_slice()[start..cs.len()];
    assert(rest@ == cs@.skip(start as int));
    assert(strip_hashes(rest@) == rest@);
    assert(rest@ == strip_hashes(trim(value@)));
    if rest.len() != 6 {
        return Err(translate(locale, I18nKey::ErrorGmmsgHexColor));
    }
    let mut i: usize = 0;
    while i < 6
        invariant
            rest@.len() == 6,
            rest@ == strip_hashes(trim(value@)),
            i <= 6,
            forall|k: int| 0 <= k < i ==> #[trigger] is_hex_digit(rest@[k]),
        decreases 6 - i,
    {
        let c = rest[i];
        if !(('0' <= c && c <= '9') || ('a' <= c && c <= 'f') || ('A' <= c && c <= 'F')) {
            assert(!is_hex_digit(strip_hashes(trim(value@))[i as int]));
            return Err(translate(locale, I18nKey::ErrorGmmsgHexColor));
        }
        i = i + 1;
    }
    let upper = chars_to_upper(rest);
    Ok(string_from_chars(upper.as_slice()))
}

pub open spec fn gmmsg_success_spec(locale: BotLocale, action: Seq<char>, details: Seq<char>) -> Seq<
    char,
> {
    if action == "test"@ || contains_seq(lower_seq(details), "mode test"@) {
        translate_spec(locale, I18nKey::GmmsgTestNoSend)
    } else {
        details
    }
}

pub fn gmmsg_success_log_result(action: &str, details: &str) -> (r: String)
    ensures
        r@ == gmmsg_success_spec(BotLocale::FrFr, action@, details@),
{
    gmmsg_success_log_result_l10n(BotLocale::DEFAULT, action, details)
}

pub fn gmmsg_success_log_result_l10n(locale: BotLocale, action: &str, details: &str) -> (r: String)
    ensures
        r@ == gmmsg_success_spec(locale, action@, details@),
{
    let d = chars_of(details);
    let lower = chars_to_lower(d.as_slice());
    if str_eq(action, "test") || contains_lit(lower.as_slice(), "mode test") {
        translate(locale, I18nKey::GmmsgTestNoSend)
    } else {
        owned(details)
    }
}

pub open spec fn gmmsg_error_spec(locale: BotLocale, mode: GameBridgeMode, error: Seq<char>) -> Seq<
    char,
> {
    if contains_seq(error, "discord_gmmsg_queue"@) && contains_seq(error, "absente"@) {
        translate_spec(locale, I18nKey::GmmsgMissingQueue)
    } else if contains_seq(error, "non compatibles avec l’encodage Windows-1252"@) {
        translate_spec(locale, I18nKey::GmmsgEncodingUnsupported)
    } else if mode == GameBridgeMode::Disabled && contains_seq(
        error,
        "Le bridge en jeu n’est pas configuré"@,
    ) {
        translate_spec(locale, I18nKey::GmmsgDisabled)
    } else if contains_seq(error, "Le bridge en jeu n’est pas configuré"@) || contains_seq(
        error,
        "aucune implémentation map-server"@,
    ) || contains_seq(error, "bridge actuel"@) {
        translate_spec(locale, I18nKey::GmmsgBridgeNotConfigured)
    } else {
        error
    }
}

pub fn gmmsg_error_log_result(mode: GameBridgeMode, error: &str) -> (r: String)
    ensures
        r@ == gmmsg_error_spec(BotLocale::FrFr, mode, error@),
{
    gmmsg_error_log_result_l10n(BotLocale::DEFAULT, mode, error)
}

pub fn gmmsg_error_log_result_l10n(locale: BotLocale, mode: GameBridgeMode, error: &str) -> (r:
    String)
    ensures
        r@ == gmmsg_error_spec(locale, mode, error@),
{
    let e = chars_of(error);
    let t = e.as_slice();
    if contains_lit(t, "discord_gmmsg_queue") && contains_lit(t, "absente") {
        return translate(locale, I18nKey::GmmsgMissingQueue);
    }
    if contains_lit(t, "non compatibles avec l’encodage Windows-1252") {
        return translate(locale, I18nKey::GmmsgEncodingUnsupported);
    }
    let not_configured = contains_lit(t, "Le bridge en jeu n’est pas configuré");
    if mode == GameBridgeMode::Disabled && not_configured {
        return translate(locale, I18nKey::GmmsgDisabled);
    }
    if not_configured || contains_lit(t, "aucune implémentation map-server") || contains_lit(
        t,
        "bridge actuel",
    ) {
        return translate(locale, I18nKey::GmmsgBridgeNotConfigured);
    }
    owned(error)
}

/// The longest embed description the bot sends, in characters.
pub const MAX_EMBED_DESCRIPTION: usize = 3900;

/// A text cut to fit an embed: longer texts keep their first 3880 characters and a
/// truncation notice.
pub open spec fn trim_discord_spec(value: Seq<char>) -> Seq<char> {
    if value.len() <= 3900 {
        value
    } else {
        value.take(3880) + "\n... sortie tronquée"@
    }
}

pub fn trim_discord_message(value: &str) -> (r: String)
    ensures
        r@ == trim_discord_spec(value@),
{
    let cs = chars_of(value);
    if cs.len() <= MAX_EMBED_DESCRIPTION {
        return owned(value);
    }
    let head = &cs.as_slice()[0..MAX_EMBED_DESCRIPTION - 20];
    let mut out = string_from_chars(head);
    out.append("\n... sortie tronquée");
    out
}

pub open spec fn is_username_char(c: char) -> bool {
    ('0' <= c && c <= '9') || ('a' <= c && c <= 'z') || ('A' <= c && c <= 'Z') || c == '_'
}

/// An account name: trimmed, 4 to 23 bytes, only ASCII letters, digits and `_`
/// (a byte test that only ASCII characters can pass).
pub open spec fn username_spec(locale: BotLocale, value: Seq<char>) -> Result<Seq<char>, Seq<char>> {
    let t = trim(value);
    if !(4 <= utf8_len(t) <= 23) {
        Err(translate_spec(locale, I18nKey::ErrorAccountUsernameLength))
    } else if !(forall|i: int| 0 <= i < t.len() ==> #[trigger] is_username_char(t[i])) {
        Err(translate_spec(locale, I18nKey::ErrorAccountUsernameChars))
    } else {
        Ok(t)
    }
}

pub fn validate_account_username(value: &str) -> (r: Result<String, String>)
    ensures
        str_result(r) == username_spec(BotLocale::FrFr, value@),
{
    validate_account_username_l10n(BotLocale::DEFAULT, value)
}

pub fn validate_account_username_l10n(locale: BotLocale, value: &str) -> (r: Result<String, String>)
    ensures
        str_result(r) == username_spec(locale, value@),
{
    let trimmed = trim_str(value);
    let cs = chars_of(trimmed);
    let bytes = byte_len(cs.as_slice());
    if !(4 <= bytes && bytes <= 23) {
        return Err(translate(locale, I18nKey::ErrorAccountUsernameLength));
    }
    assert(cs@ == trim(value@));
    let mut i: usize = 0;
    while i < cs.len()
        invariant
            i <= cs@.len(),
            cs@ == trim(value@),
            4 <= utf8_len(trim(value@)) <= 23,
            forall|k: int| 0 <= k < i ==> #[trigger] is_username_char(cs@[k]),
        decreases cs@.len() - i,
    {
        let c = cs[i];
        if !(('0' <= c && c <= '9') || ('a' <= c && c <= 'z') || ('A' <= c && c <= 'Z') || c
            == '_') {
            assert(!is_username_char(trim(value@)[i as int]));
            return Err(translate(locale, I18nKey::ErrorAccountUsernameChars));
        }
        i = i + 1;
    }
    Ok(owned(trimmed))
}

/// A password: 8 to 32 bytes, untrimmed, without whitespace or control characters.
pub open spec fn password_spec(locale: BotLocale, value: Seq<char>) -> Result<Seq<char>, Seq<char>> {
    if !(8 <= utf8_len(value) <= 32) {
        Err(translate_spec(locale, I18nKey::ErrorAccountPasswordLength))
    } else if exists|i: int| 0 <= i < value.len() && (is_control(value[i]) || is_ws(value[i])) {
        Err(translate_spec(locale, I18nKey::ErrorAccountPasswordChars))
    } else {
        Ok(value)
    }
}

pub fn validate_account_password(value: &str) -> (r: Result<String, String>)
    ensures
        str_result(r) == password_spec(BotLocale::FrFr, value@),
{
    validate_account_password_l10n(BotLocale::DEFAULT, value)
}

pub fn validate_account_password_l10n(locale: BotLocale, value: &str) -> (r: Result<String, String>)
    ensures
        str_result(r) == password_spec(locale, value@),
{
    let cs = chars_of(value);
    let bytes = byte_len(cs.as_slice());
    if !(8 <= bytes && bytes <= 32) {
        return Err(translate(locale, I18nKey::ErrorAccountPasswordLength));
    }
    let mut i: usize = 0;
    while i < cs.len()
        invariant
            i <= cs@.len(),
            cs@ == value@,
            8 <= utf8_len(value@) <= 32,
            forall|k: int| 0 <= k < i ==> !(is_control(cs@[k]) || is_ws(cs@[k])),
        decreases cs@.len() - i,
    {
        if char_is_control(cs[i]) || char_is_ws(cs[i]) {
            assert(is_control(value@[i as int]) || is_ws(value@[i as int]));
            assert(exists|k: int| 0 <= k < value@.len() && (is_control(value@[k]) || is_ws(value@[k])));
            assert(8 <= utf8_len(value@) <= 32);
            return Err(translate(locale, I18nKey::ErrorAccountPasswordChars));
        }
        i = i + 1;
    }
    assert(!(exists|k: int| 0 <= k < value@.len() && (is_control(value@[k]) || is_ws(value@[k]))));
    Ok(owned(value))
}

/// The account sex written as `M` or `F`, whatever its case and surrounding spaces.
pub open spec fn sex_spec(locale: BotLocale, value: Seq<char>) -> Result<Seq<char>, Seq<char>> {
    let u = upper_seq(trim(value));
    if u == "M"@ {
        Ok("M"@)
    } else if u == "F"@ {
        Ok("F"@)
    } else {
        Err(translate_spec(locale, I18nKey::ErrorAccountSex))
    }
}

pub fn validate_account_sex(value: &str) -> (r: Result<String, String>)
    ensures
        str_result(r) == sex_spec(BotLocale::FrFr, value@),
{
    validate_account_sex_l10n(BotLocale::DEFAULT, value)
}

pub fn validate_account_sex_l10n(locale: BotLocale, value: &str) -> (r: Result<String, String>)
    ensures
        str_result(r) == sex_spec(locale, value@),
{
    let trimmed = chars_of(trim_str(value));
    let upper = chars_to_upper(trimmed.as_slice());
    if is_literal(upper.as_slice(), "M") {
        Ok(owned("M"))
    } else if is_literal(upper.as_slice(), "F") {
        Ok(owned("F"))
    } else {
        Err(translate(locale, I18nKey::ErrorAccountSex))
    }
}

pub open spec fn is_leap_year(year: nat) -> bool {
    (year % 4 == 0 && year % 100 != 0) || year % 400 == 0
}

/// Days in a month of a year; 0 for a month number out of 1..=12.
pub open spec fn days_in_month(year: nat, month: nat) -> nat {
    if month == 1 || month == 3 || month == 5 || month == 7 || month == 8 || month == 10
        || month == 12 {
        31
    } else if month == 4 || month == 6 || month == 9 || month == 11 {
        30
    } else if month == 2 {
        if is_leap_year(year) { 29 } else { 28 }
    } else {
        0
    }
}

/// `YYYY-MM-DD`: ten characters, dashes at 4 and 7, three numbers an integer parser
/// accepts (an optional `+` and digits), a year from 1900 and a day that exists in that
/// month. (The checked text is measured in bytes; those counts equal these character
/// counts whenever the numbers parse, as they are then ASCII.)
pub open spec fn valid_birthdate(b: Seq<char>) -> bool {
    &&& b.len() == 10
    &&& b[4] == '-'
    &&& b[7] == '-'
    &&& parse_nat_text(b.take(4)) is Some
    &&& parse_nat_text(b.subrange(5, 7)) is Some
    &&& parse_nat_text(b.skip(8)) is Some
    &&& parse_nat_text(b.take(4))->0 >= 1900
    &&& 1 <= parse_nat_text(b.skip(8))->0 <= days_in_month(
        parse_nat_text(b.take(4))->0,
        parse_nat_text(b.subrange(5, 7))->0,
    )
}

pub open spec fn birthdate_spec(locale: BotLocale, value: Seq<char>) -> Result<Seq<char>, Seq<char>> {
    if valid_birthdate(trim(value)) {
        Ok(trim(value))
    } else {
        Err(translate_spec(locale, I18nKey::ErrorAccountBirthdate))
    }
}

fn leap_year(year: u64) -> (r: bool)
    ensures
        r == is_leap_year(year as nat),
{
    (year % 4 == 0 && year % 100 != 0) || year % 400 == 0
}

fn month_days(year: u64, month: u64) -> (r: u64)
    ensures
        r == days_in_month(year as nat, month as nat),
{
    if month == 1 || month == 3 || month == 5 || month == 7 || month == 8 || month == 10 || month
        == 12 {
        31
    } else if month == 4 || month == 6 || month == 9 || month == 11 {
        30
    } else if month == 2 {
        if leap_year(year) {
            29
        } else {
            28
        }
    } else {
        0
    }
}

pub fn validate_account_birthdate(value: &str) -> (r: Result<String, String>)
    ensures
        str_result(r) == birthdate_spec(BotLocale::FrFr, value@),
{
    validate_account_birthdate_l10n(BotLocale::DEFAULT, value)
}

pub fn validate_account_birthdate_l10n(locale: BotLocale, value: &str) -> (r: Result<
    String,
    String,
>)
    ensures
        str_result(r) == birthdate_spec(locale, value@),
{
    let birthdate = trim_str(value);
    let cs = chars_of(birthdate);
    let b = cs.as_slice();
    let mut valid = false;
    if b.len() == 10 && b[4] == '-' && b[7] == '-' {
        let year = parse_u64_chars(&b[0..4]);
        let month = parse_u64_chars(&b[5..7]);
        let day = parse_u64_chars(&b[8..10]);
        assert(b@.subrange(0, 4) =~= b@.take(4));
        assert(b@.subrange(8, 10) =~= b@.skip(8));
        proof {
            lemma_short_numbers_fit(b@.take(4));
            lemma_short_numbers_fit(b@.subrange(5, 7));
            lemma_short_numbers_fit(b@.skip(8));
        }
        match (year, month, day) {
            (Some(y), Some(m), Some(d)) => {
                let max_day = month_days(y, m);
                valid = y >= 1900 && max_day > 0 && d >= 1 && d <= max_day;
            },
            _ => {},
        }
    }
    if !valid {
        return Err(translate(locale, I18nKey::ErrorAccountBirthdate));
    }
    Ok(owned(birthdate))
}

/// Numbers of at most four characters always fit in a `u64`.
proof fn lemma_short_numbers_fit(s: Seq<char>)
    requires
        s.len() <= 4,
    ensures
        parse_nat_text(s) matches Some(v) ==> v <= 9999,
{
    let body = if s.len() > 0 && s[0] == '+' { s.drop_first() } else { s };
    if body.len() > 0 && crate::numbers::all_digits(body) {
        lemma_digits_bound(body);
        lemma_pow10_mono(body.len(), 4);
        reveal_with_fuel(pow10, 5);
    }
}

proof fn lemma_digits_bound(s: Seq<char>)
    requires
        crate::numbers::all_digits(s),
        s.len() <= 4,
    ensures
        digits_value(s) < pow10(s.len()),
    decreases s.len(),
{
    if s.len() > 0 {
        assert(is_digit(s[s.len() - 1]));
        assert(crate::numbers::all_digits(s.drop_last())) by {
            assert forall|i: int| 0 <= i < s.drop_last().len() implies #[trigger] is_digit(
                s.drop_last()[i],
            ) by {
                assert(is_digit(s[i]));
            }
        }
        lemma_digits_bound(s.drop_last());
        let p = pow10((s.len() - 1) as nat);
        let v = digits_value(s.drop_last());
        let d = crate::numbers::digit_value(s.last());
        assert(d <= 9);
        assert(v * 10 + d < 10 * p) by (nonlinear_arith)
            requires
                v < p,
                d <= 9,
        ;
    }
}

proof fn lemma_pow10_mono(a: nat, b: nat)
    requires
        a <= b,
    ensures
        pow10(a) <= pow10(b),
    decreases b,
{
    if a < b {
        lemma_pow10_mono(a, (b - 1) as nat);
    }
}

spec fn pow10(n: nat) -> nat
    decreases n,
{
    if n == 0 {
        1
    } else {
        10 * pow10((n - 1) as nat)
    }
}

pub open spec fn email_text(value: Option<Seq<char>>) -> Seq<char> {
    match value {
        Some(s) => if trim(s).len() > 0 { trim(s) } else { "a@a.com"@ },
        None => "a@a.com"@,
    }
}

/// An account e-mail: the trimmed option or `a@a.com`; at most 39 bytes, with an `@`
/// and no control character.
pub open spec fn email_spec(locale: BotLocale, value: Option<Seq<char>>) -> Result<
    Seq<char>,
    Seq<char>,
> {
    let email = email_text(value);
    if utf8_len(email) > 39 {
        Err(translate_spec(locale, I18nKey::ErrorAccountEmailLength))
    } else if !has_char(email, '@') || (exists|i: int| 0 <= i < email.len() && is_control(email[i])) {
        Err(translate_spec(locale, I18nKey::ErrorAccountEmailInvalid))
    } else {
        Ok(email)
    }
}

pub fn validate_account_email(value: Option<&str>) -> (r: Result<String, String>)
    ensures
        str_result(r) == email_spec(BotLocale::FrFr, opt_view(value)),
{
    validate_account_email_l10n(BotLocale::DEFAULT, value)
}

pub fn validate_account_email_l10n(locale: BotLocale, value: Option<&str>) -> (r: Result<
    String,
    String,
>)
    ensures
        str_result(r) == email_spec(locale, opt_view(value)),
{
    let email: &str = match value {
        Some(s) => {
            let t = trim_str(s);
            if t.unicode_len() > 0 {
                t
            } else {
                "a@a.com"
            }
        },
        None => "a@a.com",
    };
    let cs = chars_of(email);
    assert(cs@ == email_text(opt_view(value)));
    if byte_len(cs.as_slice()) > 39 {
        return Err(translate(locale, I18nKey::ErrorAccountEmailLength));
    }
    let at = crate::text::find_char(cs.as_slice(), '@');
    if at.is_none() {
        return Err(translate(locale, I18nKey::ErrorAccountEmailInvalid));
    }
    let mut i: usize = 0;
    while i < cs.len()
        invariant
            i <= cs@.len(),
            cs@ == email_text(opt_view(value)),
            utf8_len(email_text(opt_view(value))) <= 39,
            has_char(cs@, '@'),
            forall|k: int| 0 <= k < i ==> !is_control(cs@[k]),
        decreases cs@.len() - i,
    {
        if char_is_control(cs[i]) {
            assert(is_control(email_text(opt_view(value))[i as int]));
            return Err(translate(locale, I18nKey::ErrorAccountEmailInvalid));
        }
        i = i + 1;
    }
    Ok(owned(email))
}

/// An accepted GM message is not blank, fits the requested length, holds no control
/// character, no `@everyone` and no `@here`, and is single-spaced (no whitespace at
/// its ends, none doubled, only plain spaces).
pub proof fn lemma_accepted_gm_message_is_clean(locale: BotLocale, value: Seq<char>, max_length: usize)
    requires
        sanitize_gm_spec(locale, value, max_length) is Ok,
    ensures
        ({
            let s = sanitize_gm_spec(locale, value, max_length)->Ok_0;
            &&& trim(s).len() > 0
            &&& s.len() <= max_length
            &&& free_of_controls(s)
            &&& single_spaced(s)
            &&& !contains_seq(s, "@everyone"@)
            &&& !contains_seq(s, "@here"@)
        }),
{
    reveal_strlit("@\u{200B}everyone");
    reveal_strlit("@\u{200B}here");
    let d = drop_controls(value);
    lemma_drop_controls_clean(value);
    let rep1 = "@\u{200B}everyone"@;
    let rep2 = "@\u{200B}here"@;
    assert(free_of_controls(rep1));
    assert(free_of_controls(rep2));
    lemma_replace_all_clean(d, "@everyone"@, rep1);
    lemma_replace_all_clean(replace_all(d, "@everyone"@, rep1), "@here"@, rep2);
    lemma_collapse_clean(staff_text(d));
    lemma_collapse_single_spaced(staff_text(d));
    reveal_strlit("@everyone");
    reveal_strlit("@here");
    lemma_staff_text_defuses_mass_mentions(d);
    assert(forall|j: int| 0 <= j < "@everyone"@.len() ==> !is_ws(#[trigger] "@everyone"@[j]));
    assert(forall|j: int| 0 <= j < "@here"@.len() ==> !is_ws(#[trigger] "@here"@[j]));
    lemma_collapse_keeps_absent(staff_text(d), "@everyone"@);
    lemma_collapse_keeps_absent(staff_text(d), "@here"@);
}

/// Sanitizing an accepted GM message again accepts it unchanged.
pub proof fn lemma_accepted_gm_message_is_stable(locale: BotLocale, value: Seq<char>, max_length: usize)
    requires
        sanitize_gm_spec(locale, value, max_length) is Ok,
    ensures
        sanitize_gm_spec(locale, sanitize_gm_spec(locale, value, max_length)->Ok_0, max_length)
            == sanitize_gm_spec(locale, value, max_length),
{
    let s = sanitize_gm_spec(locale, value, max_length)->Ok_0;
    lemma_accepted_gm_message_is_clean(locale, value, max_length);
    reveal_strlit("@everyone");
    reveal_strlit("@here");
    lemma_drop_controls_keeps_clean(s);
    lemma_replace_absent(s, "@everyone"@, "@\u{200B}everyone"@);
    lemma_replace_absent(s, "@here"@, "@\u{200B}here"@);
    assert(staff_text(s) == s);
    lemma_collapse_single_spaced_unchanged(s);
    assert(sanitized_gm_text(s) == s);
}

/// An accepted colour is six upper-case hexadecimal digits, and checking it again
/// accepts it unchanged.
pub proof fn lemma_hex_color_canonical(locale: BotLocale, value: Seq<char>)
    requires
        hex_color_spec(locale, value) is Ok,
    ensures
        ({
            let s = hex_color_spec(locale, value)->Ok_0;
            &&& s.len() == 6
            &&& forall|i: int| 0 <= i < 6 ==> ('0' <= #[trigger] s[i] <= '9') || ('A' <= s[i] <= 'F')
            &&& hex_color_spec(locale, s) == Ok::<Seq<char>, Seq<char>>(s)
        }),
{
    let v = strip_hashes(trim(value));
    let s = upper_seq(v);
    assert forall|i: int| 0 <= i < 6 implies ('0' <= #[trigger] s[i] <= '9') || ('A' <= s[i] <= 'F') by {
        assert(is_hex_digit(v[i]));
    }
    assert(!is_ws(s[0]) && s[0] != '#');
    assert(!is_ws(s.last())) by {
        assert(s.last() == s[5]);
    }
    assert(trim_start(s) == s);
    assert(trim_end(s) == s);
    assert(trim(s) == s);
    assert(strip_hashes(s) == s);
    assert forall|i: int| 0 <= i < 6 implies #[trigger] is_hex_digit(s[i]) by {
        assert(('0' <= s[i] <= '9') || ('A' <= s[i] <= 'F'));
    }
    assert(upper_seq(s) =~= s);
}

/// A message cut for an embed never exceeds the embed limit, and a message that
/// already fits is sent unchanged.
pub proof fn lemma_trimmed_message_fits(value: Seq<char>)
    ensures
        trim_discord_spec(value).len() <= 3900,
        value.len() <= 3900 ==> trim_discord_spec(value) == value,
{
    reveal_strlit("\n... sortie tronquée");
}

/// The two-digit writing of a number below 100, with a leading zero when needed.
pub open spec fn two_digits(n: nat) -> Seq<char> {
    seq![digit_char(n / 10), digit_char(n % 10)]
}

/// A date written `YYYY-MM-DD`.
pub open spec fn date_text(year: nat, month: nat, day: nat) -> Seq<char> {
    decimal(year) + seq!['-'] + two_digits(month) + seq!['-'] + two_digits(day)
}

proof fn lemma_two_digits(n: nat)
    requires
        n < 100,
    ensures
        two_digits(n).len() == 2,
        is_digit(two_digits(n)[0]),
        is_digit(two_digits(n)[1]),
        parse_nat_text(two_digits(n)) == Some(n),
{
    let t = two_digits(n);
    let a = n / 10;
    let b = n % 10;
    assert(digit_value(digit_char(a)) == a);
    assert(digit_value(digit_char(b)) == b);
    assert(t.drop_last() =~= seq![digit_char(a)]);
    assert(seq![digit_char(a)].drop_last() =~= Seq::<char>::empty());
    let one = seq![digit_char(a)];
    assert(one.last() == digit_char(a));
    assert(digits_value(one.drop_last()) == 0);
    assert(digits_value(one) == digits_value(one.drop_last()) * 10 + digit_value(one.last()));
    assert(digits_value(one) == a);
    assert(t.last() == digit_char(b));
    assert(digits_value(t) == a * 10 + b);
    assert(all_digits(t)) by {
        assert forall|i: int| 0 <= i < t.len() implies #[trigger] is_digit(t[i]) by {
        }
    }
    assert(t[0] != '+');
}

proof fn lemma_four_digit_year(year: nat)
    requires
        1000 <= year <= 9999,
    ensures
        decimal(year).len() == 4,
{
    let a = year / 10;
    let b = a / 10;
    let c = b / 10;
    assert(c < 10 && b >= 10 && a >= 10);
    assert(decimal(c).len() == 1);
    assert(decimal(b) == decimal(c).push(digit_char(b % 10)));
    assert(decimal(a) == decimal(b).push(digit_char(a % 10)));
    assert(decimal(year) == decimal(a).push(digit_char(year % 10)));
}

/// A birth date `YYYY-MM-DD` from year 1900 on is accepted, as written, exactly when
/// its day exists: days 1 to 31 in January, March, May, July, August, October and
/// December, 1 to 30 in April, June, September and November, and in February 1 to 28,
/// or 29 in a leap year (divisible by 4 and not by 100, or by 400).
pub proof fn lemma_birthdate_follows_the_calendar(
    locale: BotLocale,
    year: nat,
    month: nat,
    day: nat,
)
    requires
        1900 <= year <= 9999,
        1 <= month <= 12,
        day < 100,
    ensures
        birthdate_spec(locale, date_text(year, month, day)) is Ok <==> (1 <= day && (((month
            == 1 || month == 3 || month == 5 || month == 7 || month == 8 || month == 10 || month
            == 12) && day <= 31) || ((month == 4 || month == 6 || month == 9 || month == 11) && day
            <= 30) || (month == 2 && (day <= 28 || (day == 29 && ((year % 4 == 0 && year % 100
            != 0) || year % 400 == 0)))))),
        birthdate_spec(locale, date_text(year, month, day)) is Ok ==> birthdate_spec(
            locale,
            date_text(year, month, day),
        )->Ok_0 == date_text(year, month, day),
{
    let y = decimal(year);
    let m = two_digits(month);
    let d = two_digits(day);
    let t = date_text(year, month, day);
    lemma_decimal_digits(year);
    lemma_parse_decimal(year);
    lemma_four_digit_year(year);
    lemma_two_digits(month);
    lemma_two_digits(day);
    assert(t.len() == 10);
    assert(t[0] == y[0]);
    assert(is_digit(y[0])) by {
        assert(all_digits(y));
    }
    assert(t[9] == d[1]);
    assert(t.last() == t[9]);
    assert(trim_start(t) == t);
    assert(trim_end(t) == t);
    assert(trim(t) == t);
    assert(t[4] == '-');
    assert(t[7] == '-');
    assert(t.take(4) =~= y);
    assert(t.subrange(5, 7) =~= m);
    assert(t.skip(8) =~= d);
}

} // verus!
