//! `/staff account-manage`: option checks, field and value validation, and the
//! texts written to the staff audit log.
use vstd::prelude::*;
use crate::i18n::locale::is_literal;
use crate::model::{
    field_name_spec, AccountCommandsConfig, AccountManageField, AccountStatus, DatabaseTable,
    StaffRole,
};
use crate::numbers::{
    decimal, is_digit, lemma_decimal_digits, parse_i64, parse_i64_spec, parse_int_text, parse_nat_text,
    push_signed_decimal, signed_decimal,
};
use crate::text::{
    is_ws, lemma_replace_avoids, chars_of, chars_to_lower, chars_to_upper, contains_lit, contains_seq, err_view, lower_seq,
    opt_string_view, owned, replace_all, replace_lit, str_eq, str_result, string_from_chars, trim,
    trim_end, trim_start, trim_str, upper_seq,
};

verus! {

/// The tables account management reads and writes.
pub fn required_tables() -> (r: [DatabaseTable; 2])
    ensures
        r@ == seq![DatabaseTable::Login, DatabaseTable::Char],
{
    [DatabaseTable::Login, DatabaseTable::Char]
}

/// How the staff designates an account.
#[derive(Debug, PartialEq, Eq)]
pub enum AccountLookup<'a> {
    AccountId(i64),
    Userid(&'a str),
}

/// The options of an account-management command.
pub struct Options<'a> {
    pub account: Option<&'a str>,
    pub account_id: Option<i64>,
    pub field: Option<&'a str>,
    pub value: Option<&'a str>,
    pub confirm: Option<&'a str>,
    pub reason: Option<&'a str>,
    pub until: Option<i64>,
}

pub struct PreparedEdit<'a> {
    pub lookup: &'a str,
    pub field: AccountManageField,
    pub value: String,
    pub reason: Option<String>,
}

pub struct PreparedAccountAction<'a> {
    pub lookup: &'a str,
    pub until: Option<i64>,
    pub reason: Option<String>,
}

pub struct PreparedDelete {
    pub account_id: i64,
    pub reason: Option<String>,
}

/// The text of an option once trimmed, when it is given and not blank.
pub open spec fn nonblank(value: Option<&str>) -> Option<Seq<char>> {
    match value {
        Some(s) => if trim(s@).len() > 0 { Some(trim(s@)) } else { None },
        None => None,
    }
}

pub open spec fn missing_option_text(name: Seq<char>) -> Seq<char> {
    "Option obligatoire manquante : "@ + name + "."@
}

/// A required text option: its trimmed text, or the missing-option error.
pub open spec fn required_text_spec(value: Option<&str>, name: Seq<char>) -> Result<
    Seq<char>,
    Seq<char>,
> {
    match nonblank(value) {
        Some(t) => Ok(t),
        None => Err(missing_option_text(name)),
    }
}

pub open spec fn required_role_spec(config: AccountCommandsConfig, action: Seq<char>) -> StaffRole {
    if action == "delete"@ {
        config.delete_min_role
    } else {
        config.manage_min_role
    }
}

pub open spec fn requested_account_spec(options: Options<'_>) -> Option<Seq<char>> {
    match options.account_id {
        Some(id) => Some(signed_decimal(id as int)),
        None => nonblank(options.account),
    }
}

pub open spec fn is_forbidden_field(name: Seq<char>) -> bool {
    ||| name == "account_id"@
    ||| name == "userid"@
    ||| name == "user_pass"@
    ||| name == "password"@
    ||| name == "hash"@
    ||| name == "email"@
    ||| name == "pincode"@
    ||| name == "last_ip"@
    ||| name == "lastlogin"@
}

pub open spec fn field_from_name(name: Seq<char>) -> Option<AccountManageField> {
    if name == "group_id"@ {
        Some(AccountManageField::GroupId)
    } else if name == "state"@ {
        Some(AccountManageField::State)
    } else if name == "unban_time"@ {
        Some(AccountManageField::UnbanTime)
    } else if name == "expiration_time"@ {
        Some(AccountManageField::ExpirationTime)
    } else if name == "logincount"@ {
        Some(AccountManageField::Logincount)
    } else if name == "sex"@ {
        Some(AccountManageField::Sex)
    } else {
        None
    }
}

/// The field named by an option (trimmed, ASCII-lowercased), or why it is refused.
pub open spec fn parse_field_spec(value: Seq<char>) -> Result<AccountManageField, Seq<char>> {
    let name = lower_seq(trim(value));
    match field_from_name(name) {
        Some(field) => Ok(field),
        None => if is_forbidden_field(name) {
            Err("Le champ `"@ + name + "` ne peut jamais etre modifie par cette commande."@)
        } else {
            Err("Le champ `"@ + name + "` n'est pas autorise."@)
        },
    }
}

pub open spec fn sex_error_text() -> Seq<char> {
    "Le sexe du compte doit être `M` ou `F`."@
}

/// The account sex written as `M` or `F`, whatever its case and surrounding spaces.
pub open spec fn validate_sex_spec(value: Seq<char>) -> Result<Seq<char>, Seq<char>> {
    let u = upper_seq(trim(value));
    if u == "M"@ {
        Ok("M"@)
    } else if u == "F"@ {
        Ok("F"@)
    } else {
        Err(sex_error_text())
    }
}

/// The value stored for a field: `M`/`F` for the sex, else a non-negative integer
/// written in decimal.
pub open spec fn validate_value_spec(field: AccountManageField, value: Seq<char>) -> Result<
    Seq<char>,
    Seq<char>,
> {
    if field == AccountManageField::Sex {
        validate_sex_spec(value)
    } else {
        match parse_i64_spec(trim(value)) {
            None => Err("La valeur de `"@ + field_name_spec(field) + "` doit etre un entier."@),
            Some(parsed) => if parsed < 0 {
                Err("La valeur de `"@ + field_name_spec(field) + "` doit etre positive ou nulle."@)
            } else {
                Ok(signed_decimal(parsed as int))
            },
        }
    }
}

pub open spec fn delete_disabled_text() -> Seq<char> {
    "La desactivation forte de compte est desactivee par configuration."@
}

pub open spec fn delete_confirm_text() -> Seq<char> {
    "Confirmation invalide. Renseigne `SUPPRIMER` exactement."@
}

pub open spec fn validate_delete_spec(config: AccountCommandsConfig, confirm: Seq<char>) -> Result<
    (),
    Seq<char>,
> {
    if !config.delete_enabled {
        Err(delete_disabled_text())
    } else if confirm != "SUPPRIMER"@ {
        Err(delete_confirm_text())
    } else {
        Ok(())
    }
}

/// `@everyone` and `@here` defused with a zero-width space.
pub open spec fn staff_text(value: Seq<char>) -> Seq<char> {
    replace_all(
        replace_all(value, "@everyone"@, "@\u{200B}everyone"@),
        "@here"@,
        "@\u{200B}here"@,
    )
}

pub open spec fn account_label_spec(status: AccountStatus) -> Seq<char> {
    "account_id `"@ + signed_decimal(status.account_id as int) + "` / userid `"@ + staff_text(
        status.userid@,
    ) + "`"@
}

pub open spec fn summary_spec(status: AccountStatus) -> Seq<char> {
    "account_id `"@ + signed_decimal(status.account_id as int) + "` | userid `"@ + staff_text(
        status.userid@,
    ) + "` | personnages `"@ + signed_decimal(status.characters as int) + "` | etat `"@
        + signed_decimal(status.state as int) + "` | group_id `"@ + signed_decimal(
        status.group_id as int,
    ) + "` | unban_time `"@ + signed_decimal(status.unban_time as int) + "` | expiration_time `"@
        + signed_decimal(status.expiration_time as int) + "`"@
}

pub open spec fn ban_result_spec(until: Option<i64>, status: AccountStatus) -> Seq<char> {
    match until {
        Some(v) => if v > 0 {
            "Compte banni avec fin de ban `"@ + signed_decimal(v as int) + "`. "@ + summary_spec(
                status,
            )
        } else {
            "Compte bloque. "@ + summary_spec(status)
        },
        None => "Compte bloque. "@ + summary_spec(status),
    }
}

pub open spec fn sql_denied_text() -> Seq<char> {
    "Permissions SQL insuffisantes pour modifier le compte."@
}

pub open spec fn sql_missing_text() -> Seq<char> {
    "Table ou colonne rAthena requise absente."@
}

pub open spec fn sql_no_change_text() -> Seq<char> {
    "Aucun compte n'a ete modifie."@
}

pub open spec fn sql_generic_text() -> Seq<char> {
    "Erreur SQL pendant l'action account-manage."@
}

/// The staff-safe summary of an SQL error message (matched case-insensitively in ASCII).
pub open spec fn safe_sql_text(details: Seq<char>) -> Seq<char> {
    let lower = lower_seq(details);
    if contains_seq(lower, "access denied"@) || contains_seq(lower, "permission"@) {
        sql_denied_text()
    } else if contains_seq(lower, "doesn't exist"@) || contains_seq(lower, "does not exist"@)
        || contains_seq(lower, "unknown table"@) || contains_seq(lower, "absente"@) {
        sql_missing_text()
    } else if contains_seq(lower, "aucun compte"@) {
        sql_no_change_text()
    } else {
        sql_generic_text()
    }
}

/// An edit request checked in order: account, field and value given, field allowed,
/// value valid for the field. `Ok` holds the account, the field and the stored value.
pub open spec fn prepare_edit_spec(options: Options<'_>) -> Result<
    (Seq<char>, AccountManageField, Seq<char>),
    Seq<char>,
> {
    match required_text_spec(options.account, "account"@) {
        Err(e) => Err(e),
        Ok(account) => match required_text_spec(options.field, "field"@) {
            Err(e) => Err(e),
            Ok(field_name) => match required_text_spec(options.value, "value"@) {
                Err(e) => Err(e),
                Ok(value) => match parse_field_spec(field_name) {
                    Err(e) => Err(e),
                    Ok(field) => match validate_value_spec(field, value) {
                        Err(e) => Err(e),
                        Ok(stored) => Ok((account, field, stored)),
                    },
                },
            },
        },
    }
}

/// A delete request checked in order: a positive account id, a confirmation, deletion
/// enabled and confirmed. `Ok` holds the account id.
pub open spec fn prepare_delete_spec(config: AccountCommandsConfig, options: Options<'_>) -> Result<
    i64,
    Seq<char>,
> {
    match options.account_id {
        Some(id) if id > 0 => match required_text_spec(options.confirm, "confirm"@) {
            Err(e) => Err(e),
            Ok(confirm) => match validate_delete_spec(config, confirm) {
                Err(e) => Err(e),
                Ok(_) => Ok(id),
            },
        },
        _ => Err(missing_option_text("account_id"@)),
    }
}

pub fn required_role(config: &AccountCommandsConfig, action: &str) -> (r: StaffRole)
    ensures
        r == required_role_spec(*config, action@),
{
    if str_eq(action, "delete") {
        config.delete_min_role
    } else {
        config.manage_min_role
    }
}

/// A text option trimmed, when given and not blank.
fn nonblank_text<'a>(value: Option<&'a str>) -> (r: Option<&'a str>)
    ensures
        match r {
            Some(s) => nonblank(value) == Some(s@),
            None => nonblank(value) is None,
        },
{
    match value {
        Some(s) => {
            let t = trim_str(s);
            if t.unicode_len() == 0 {
                None
            } else {
                Some(t)
            }
        },
        None => None,
    }
}

pub fn requested_account(options: &Options<'_>) -> (r: Option<String>)
    ensures
        opt_string_view(r) == requested_account_spec(*options),
{
    match options.account_id {
        Some(id) => {
            let mut out = String::new();
            push_signed_decimal(&mut out, id);
            assert(out@ =~= signed_decimal(id as int));
            Some(out)
        },
        None => match nonblank_text(options.account) {
            Some(t) => Some(owned(t)),
            None => None,
        },
    }
}

fn missing_option(name: &str) -> (r: String)
    ensures
        r@ == missing_option_text(name@),
{
    let mut out = owned("Option obligatoire manquante : ");
    out.append(name);
    out.append(".");
    out
}

fn required_text<'a>(value: Option<&'a str>, name: &str) -> (r: Result<&'a str, String>)
    ensures
        match r {
            Ok(s) => required_text_spec(value, name@) == Ok::<Seq<char>, Seq<char>>(s@),
            Err(e) => required_text_spec(value, name@) == Err::<Seq<char>, Seq<char>>(e@),
        },
{
    match nonblank_text(value) {
        Some(t) => Ok(t),
        None => Err(missing_option(name)),
    }
}

fn reason(options: &Options<'_>) -> (r: Option<String>)
    ensures
        opt_string_view(r) == nonblank(options.reason),
{
    match nonblank_text(options.reason) {
        Some(t) => Some(owned(t)),
        None => None,
    }
}

pub fn prepare_edit<'a>(options: &Options<'a>) -> (r: Result<PreparedEdit<'a>, String>)
    ensures
        match r {
            Ok(p) => {
                &&& prepare_edit_spec(*options) == Ok::<
                    (Seq<char>, AccountManageField, Seq<char>),
                    Seq<char>,
                >((p.lookup@, p.field, p.value@))
                &&& opt_string_view(p.reason) == nonblank(options.reason)
            },
            Err(e) => prepare_edit_spec(*options) == Err::<
                (Seq<char>, AccountManageField, Seq<char>),
                Seq<char>,
            >(e@),
        },
{
    let account = match required_text(options.account, "account") {
        Ok(a) => a,
        Err(e) => return Err(e),
    };
    let field_name = match required_text(options.field, "field") {
        Ok(f) => f,
        Err(e) => return Err(e),
    };
    let value = match required_text(options.value, "value") {
        Ok(v) => v,
        Err(e) => return Err(e),
    };
    let field = match parse_field(field_name) {
        Ok(f) => f,
        Err(e) => return Err(e),
    };
    let value = match validate_value(field, value) {
        Ok(v) => v,
        Err(e) => return Err(e),
    };
    Ok(PreparedEdit { lookup: account, field, value, reason: reason(options) })
}

pub fn prepare_ban<'a>(options: &Options<'a>) -> (r: Result<PreparedAccountAction<'a>, String>)
    ensures
        match r {
            Ok(p) => {
                &&& required_text_spec(options.account, "account"@) == Ok::<Seq<char>, Seq<char>>(
                    p.lookup@,
                )
                &&& p.until == options.until
                &&& opt_string_view(p.reason) == nonblank(options.reason)
            },
            Err(e) => required_text_spec(options.account, "account"@) == Err::<
                Seq<char>,
                Seq<char>,
            >(e@),
        },
{
    let lookup = match required_text(options.account, "account") {
        Ok(a) => a,
        Err(e) => return Err(e),
    };
    Ok(PreparedAccountAction { lookup, until: options.until, reason: reason(options) })
}

pub fn prepare_unban<'a>(options: &Options<'a>) -> (r: Result<PreparedAccountAction<'a>, String>)
    ensures
        match r {
            Ok(p) => {
                &&& required_text_spec(options.account, "account"@) == Ok::<Seq<char>, Seq<char>>(
                    p.lookup@,
                )
                &&& p.until is None
                &&& opt_string_view(p.reason) == nonblank(options.reason)
            },
            Err(e) => required_text_spec(options.account, "account"@) == Err::<
                Seq<char>,
                Seq<char>,
            >(e@),
        },
{
    let lookup = match required_text(options.account, "account") {
        Ok(a) => a,
        Err(e) => return Err(e),
    };
    Ok(PreparedAccountAction { lookup, until: None, reason: reason(options) })
}

pub fn prepare_delete(config: &AccountCommandsConfig, options: &Options<'_>) -> (r: Result<
    PreparedDelete,
    String,
>)
    ensures
        match r {
            Ok(p) => {
                &&& prepare_delete_spec(*config, *options) == Ok::<i64, Seq<char>>(p.account_id)
                &&& opt_string_view(p.reason) == nonblank(options.reason)
            },
            Err(e) => prepare_delete_spec(*config, *options) == Err::<i64, Seq<char>>(e@),
        },
{
    let account_id = match options.account_id {
        Some(id) => {
            if id > 0 {
                id
            } else {
                return Err(missing_option("account_id"));
            }
        },
        None => return Err(missing_option("account_id")),
    };
    let confirm = match required_text(options.confirm, "confirm") {
        Ok(c) => c,
        Err(e) => return Err(e),
    };
    match validate_delete_request(config, confirm) {
        Ok(()) => {},
        Err(e) => return Err(e),
    }
    Ok(PreparedDelete { account_id, reason: reason(options) })
}

pub fn parse_lookup(value: &str) -> (r: Result<AccountLookup<'_>, String>)
    ensures
        match r {
            Ok(AccountLookup::AccountId(id)) => trim(value@).len() > 0 && parse_i64_spec(
                trim(value@),
            ) == Some(id) && id > 0,
            Ok(AccountLookup::Userid(u)) => trim(value@).len() > 0 && parse_i64_spec(trim(value@))
                is None && u@ == trim(value@),
            Err(e) => (trim(value@).len() == 0 && e@ == "Le compte doit etre renseigne."@) || (trim(
                value@,
            ).len() > 0 && parse_i64_spec(trim(value@)) is Some && parse_i64_spec(trim(value@))->0
                <= 0 && e@ == "L'account_id doit etre strictement positif."@),
        },
{
    let trimmed = trim_str(value);
    if trimmed.unicode_len() == 0 {
        return Err(owned("Le compte doit etre renseigne."));
    }
    match parse_i64(trimmed) {
        Some(id) => {
            if id > 0 {
                Ok(AccountLookup::AccountId(id))
            } else {
                Err(owned("L'account_id doit etre strictement positif."))
            }
        },
        None => Ok(AccountLookup::Userid(trimmed)),
    }
}

/// The editable field with this column name, if any.
fn field_named(name: &[char]) -> (r: Option<AccountManageField>)
    ensures
        r == field_from_name(name@),
{
    if is_literal(name, "group_id") {
        Some(AccountManageField::GroupId)
    } else if is_literal(name, "state") {
        Some(AccountManageField::State)
    } else if is_literal(name, "unban_time") {
        Some(AccountManageField::UnbanTime)
    } else if is_literal(name, "expiration_time") {
        Some(AccountManageField::ExpirationTime)
    } else if is_literal(name, "logincount") {
        Some(AccountManageField::Logincount)
    } else if is_literal(name, "sex") {
        Some(AccountManageField::Sex)
    } else {
        None
    }
}

fn forbidden_field(name: &[char]) -> (r: bool)
    ensures
        r == is_forbidden_field(name@),
{
    is_literal(name, "account_id") || is_literal(name, "userid") || is_literal(name, "user_pass")
        || is_literal(name, "password") || is_literal(name, "hash") || is_literal(name, "email")
        || is_literal(name, "pincode") || is_literal(name, "last_ip") || is_literal(
        name,
        "lastlogin",
    )
}

pub fn parse_field(value: &str) -> (r: Result<AccountManageField, String>)
    ensures
        err_view(r) == parse_field_spec(value@),
{
    let trimmed = chars_of(trim_str(value));
    let lowered = chars_to_lower(trimmed.as_slice());
    let name = lowered.as_slice();
    match field_named(name) {
        Some(field) => Ok(field),
        None => {
            let mut out = owned("Le champ `");
            let n = string_from_chars(name);
            out.append(n.as_str());
            if forbidden_field(name) {
                out.append("` ne peut jamais etre modifie par cette commande.");
            } else {
                out.append("` n'est pas autorise.");
            }
            Err(out)
        },
    }
}

fn validate_account_sex(value: &str) -> (r: Result<String, String>)
    ensures
        str_result(r) == validate_sex_spec(value@),
{
    let trimmed = chars_of(trim_str(value));
    let upper = chars_to_upper(trimmed.as_slice());
    if is_literal(upper.as_slice(), "M") {
        Ok(owned("M"))
    } else if is_literal(upper.as_slice(), "F") {
        Ok(owned("F"))
    } else {
        Err(owned("Le sexe du compte doit être `M` ou `F`."))
    }
}

pub fn validate_value(field: AccountManageField, value: &str) -> (r: Result<String, String>)
    ensures
        str_result(r) == validate_value_spec(field, value@),
{
    if field == AccountManageField::Sex {
        return validate_account_sex(value);
    }
    let trimmed = trim_str(value);
    match parse_i64(trimmed) {
        None => {
            let mut out = owned("La valeur de `");
            out.append(field.name());
            out.append("` doit etre un entier.");
            Err(out)
        },
        Some(parsed) => {
            if parsed < 0 {
                let mut out = owned("La valeur de `");
                out.append(field.name());
                out.append("` doit etre positive ou nulle.");
                Err(out)
            } else {
                let mut out = String::new();
                push_signed_decimal(&mut out, parsed);
                assert(out@ =~= signed_decimal(parsed as int));
                Ok(out)
            }
        },
    }
}

pub fn validate_delete_request(config: &AccountCommandsConfig, confirm: &str) -> (r: Result<
    (),
    String,
>)
    ensures
        err_view(r) == validate_delete_spec(*config, confirm@),
{
    if !config.delete_enabled {
        return Err(owned("La desactivation forte de compte est desactivee par configuration."));
    }
    if !str_eq(confirm, "SUPPRIMER") {
        return Err(owned("Confirmation invalide. Renseigne `SUPPRIMER` exactement."));
    }
    Ok(())
}

fn sanitize_staff_text(value: &str) -> (r: String)
    ensures
        r@ == staff_text(value@),
{
    proof {
        reveal_strlit("@everyone");
        reveal_strlit("@here");
    }
    let cs = chars_of(value);
    let a = replace_lit(cs.as_slice(), "@everyone", "@\u{200B}everyone");
    let b = replace_lit(a.as_slice(), "@here", "@\u{200B}here");
    string_from_chars(b.as_slice())
}

pub fn account_label(status: &AccountStatus) -> (r: String)
    ensures
        r@ == account_label_spec(*status),
{
    let mut out = owned("account_id `");
    push_signed_decimal(&mut out, status.account_id);
    out.append("` / userid `");
    let user = sanitize_staff_text(status.userid.as_str());
    out.append(user.as_str());
    out.append("`");
    out
}

pub fn summary(status: &AccountStatus) -> (r: String)
    ensures
        r@ == summary_spec(*status),
{
    let mut out = owned("account_id `");
    push_signed_decimal(&mut out, status.account_id);
    out.append("` | userid `");
    let user = sanitize_staff_text(status.userid.as_str());
    out.append(user.as_str());
    out.append("` | personnages `");
    push_signed_decimal(&mut out, status.characters);
    out.append("` | etat `");
    push_signed_decimal(&mut out, status.state);
    out.append("` | group_id `");
    push_signed_decimal(&mut out, status.group_id);
    out.append("` | unban_time `");
    push_signed_decimal(&mut out, status.unban_time);
    out.append("` | expiration_time `");
    push_signed_decimal(&mut out, status.expiration_time);
    out.append("`");
    out
}

pub fn edit_result(field: AccountManageField, status: &AccountStatus) -> (r: String)
    ensures
        r@ == "Champ `"@ + field_name_spec(field) + "` modifie. "@ + summary_spec(*status),
{
    let mut out = owned("Champ `");
    out.append(field.name());
    out.append("` modifie. ");
    let s = summary(status);
    out.append(s.as_str());
    out
}

pub fn ban_result(until: Option<i64>, status: &AccountStatus) -> (r: String)
    ensures
        r@ == ban_result_spec(until, *status),
{
    let s = summary(status);
    match until {
        Some(value) => {
            if value > 0 {
                let mut out = owned("Compte banni avec fin de ban `");
                push_signed_decimal(&mut out, value);
                out.append("`. ");
                out.append(s.as_str());
                return out;
            }
        },
        None => {},
    }
    let mut out = owned("Compte bloque. ");
    out.append(s.as_str());
    out
}

pub fn unban_result(status: &AccountStatus) -> (r: String)
    ensures
        r@ == "Compte debloque. "@ + summary_spec(*status),
{
    let mut out = owned("Compte debloque. ");
    let s = summary(status);
    out.append(s.as_str());
    out
}

pub fn delete_result(status: &AccountStatus) -> (r: String)
    ensures
        r@ == "Desactivation forte appliquee sans suppression physique. "@ + summary_spec(*status),
{
    let mut out = owned("Desactivation forte appliquee sans suppression physique. ");
    let s = summary(status);
    out.append(s.as_str());
    out
}

/// The staff-safe summary of an SQL error message.
pub fn safe_sql_error_text(details: &str) -> (r: String)
    ensures
        r@ == safe_sql_text(details@),
{
    let cs = chars_of(details);
    let lower = chars_to_lower(cs.as_slice());
    let l = lower.as_slice();
    if contains_lit(l, "access denied") || contains_lit(l, "permission") {
        owned("Permissions SQL insuffisantes pour modifier le compte.")
    } else if contains_lit(l, "doesn't exist") || contains_lit(l, "does not exist") || contains_lit(
        l,
        "unknown table",
    ) || contains_lit(l, "absente") {
        owned("Table ou colonne rAthena requise absente.")
    } else if contains_lit(l, "aucun compte") {
        owned("Aucun compte n'a ete modifie.")
    } else {
        owned("Erreur SQL pendant l'action account-manage.")
    }
}


#[verifier::external_type_specification]
#[verifier::external_body]
pub struct ExAnyhowError(anyhow::Error);

/// The text of an `anyhow::Error` as its `Display` renders it: its outermost message.
/// It depends on the error value alone.
pub uninterp spec fn anyhow_text_of(e: anyhow::Error) -> Seq<char>;

/// `anyhow::Error` rendered with `Display` (`to_string`): the result is the error's
/// text, named by `anyhow_text_of`; what that text is, is not stated here.
#[verifier::external_body]
fn error_message(error: &anyhow::Error) -> (r: String)
    ensures
        r@ == anyhow_text_of(*error),
{
    error.to_string()
}

/// The staff-safe summary of an SQL error: `safe_sql_error_text` of the error's text.
pub fn safe_sql_error(error: &anyhow::Error) -> (r: String)
    ensures
        r@ == safe_sql_text(anyhow_text_of(*error)),
{
    let details = error_message(error);
    safe_sql_error_text(details.as_str())
}

/// A non-negative number written in decimal is its own trimmed text and parses
/// back to itself.
proof fn lemma_decimal_reads_back(n: i64)
    requires
        n >= 0,
    ensures
        trim(decimal(n as nat)) == decimal(n as nat),
        parse_i64_spec(decimal(n as nat)) == Some(n),
{
    let d = decimal(n as nat);
    lemma_decimal_digits(n as nat);
    assert(is_digit(d[0]));
    assert(is_digit(d[d.len() - 1]));
    assert(trim_start(d) == d);
    assert(trim_end(d) == d);
    assert(parse_nat_text(d) == Some(n as nat));
}

/// A positive account id written in decimal is read back as that id by the
/// account lookup.
pub proof fn lemma_account_id_round_trip(id: i64)
    requires
        id > 0,
    ensures
        trim(decimal(id as nat)).len() > 0,
        parse_i64_spec(trim(decimal(id as nat))) == Some(id),
{
    lemma_decimal_reads_back(id);
    lemma_decimal_digits(id as nat);
}

/// The value stored for a field is accepted again, unchanged, by the same check.
pub proof fn lemma_stored_value_is_stable(field: AccountManageField, value: Seq<char>)
    requires
        validate_value_spec(field, value) is Ok,
    ensures
        validate_value_spec(field, validate_value_spec(field, value)->Ok_0) == validate_value_spec(
            field,
            value,
        ),
{
    let stored = validate_value_spec(field, value)->Ok_0;
    if field == AccountManageField::Sex {
        reveal_strlit("M");
        reveal_strlit("F");
        assert(trim_start(stored) == stored);
        assert(trim_end(stored) == stored);
        assert(upper_seq(stored) =~= stored);
    } else {
        let parsed = parse_i64_spec(trim(value))->0;
        assert(stored == decimal(parsed as nat));
        lemma_decimal_reads_back(parsed);
    }
}

/// A deletion is only ever prepared when deletion is enabled, for a positive account
/// id, with the exact confirmation word.
pub proof fn lemma_delete_needs_enabling_and_confirmation(
    config: AccountCommandsConfig,
    options: Options<'_>,
)
    requires
        prepare_delete_spec(config, options) is Ok,
    ensures
        config.delete_enabled,
        options.account_id == Some(prepare_delete_spec(config, options)->Ok_0),
        prepare_delete_spec(config, options)->Ok_0 > 0,
        options.confirm is Some && trim(options.confirm->0@) == "SUPPRIMER"@,
{
}

/// Text written for the staff holds no `@everyone` and no `@here` mention.
pub proof fn lemma_staff_text_defuses_mass_mentions(value: Seq<char>)
    ensures
        !contains_seq(staff_text(value), "@everyone"@),
        !contains_seq(staff_text(value), "@here"@),
{
    reveal_strlit("@everyone");
    reveal_strlit("@\u{200B}everyone");
    reveal_strlit("@here");
    reveal_strlit("@\u{200B}here");
    let e = "@everyone"@;
    let re = "@\u{200B}everyone"@;
    let h = "@here"@;
    let rh = "@\u{200B}here"@;
    assert(re[1] != e[1] && rh[1] != h[1] && rh[1] != e[1]);
    assert(forall|j: int| 1 <= j < re.len() ==> re[j] != '@');
    assert(forall|j: int| 1 <= j < rh.len() ==> rh[j] != '@');
    assert(forall|j: int| 1 <= j < e.len() ==> e[j] != '@');
    assert(forall|j: int| 1 <= j < h.len() ==> h[j] != '@');
    lemma_replace_avoids(value, e, re, e);
    let t1 = replace_all(value, e, re);
    lemma_replace_avoids(t1, h, rh, h);
    lemma_replace_avoids(t1, h, rh, e);
}

/// A field accepted by name is the field with that column name: the trimmed,
/// ASCII-lowercased option is exactly the column the edit will write.
pub proof fn lemma_parsed_field_is_named_field(value: Seq<char>)
    ensures
        parse_field_spec(value) is Ok ==> field_name_spec(parse_field_spec(value)->Ok_0)
            == lower_seq(trim(value)),
{
}

/// Every editable field is accepted under its own column name.
pub proof fn lemma_field_column_names_parse(field: AccountManageField)
    ensures
        parse_field_spec(field_name_spec(field)) == Ok::<AccountManageField, Seq<char>>(field),
{
    reveal_strlit("group_id");
    reveal_strlit("state");
    reveal_strlit("unban_time");
    reveal_strlit("expiration_time");
    reveal_strlit("logincount");
    reveal_strlit("sex");
    let n = field_name_spec(field);
    assert(!is_ws(n[0]) && !is_ws(n[n.len() - 1]));
    assert(n.last() == n[n.len() - 1]);
    assert(trim_start(n) == n);
    assert(trim_end(n) == n);
    assert(lower_seq(n) =~= n);
}

} // verus!
