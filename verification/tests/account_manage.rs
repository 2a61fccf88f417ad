use rathenafr_bot::account_manage::{
    parse_field, parse_lookup, required_role, required_tables, safe_sql_error, safe_sql_error_text,
    validate_delete_request, validate_value, AccountLookup,
};
use rathenafr_bot::model::{
    AccountCommandsConfig, AccountManageField, AccountPasswordMode, DatabaseTable, StaffRole,
};

fn manage_config(
    manage_min_role: StaffRole,
    delete_min_role: StaffRole,
    delete_enabled: bool,
) -> AccountCommandsConfig {
    AccountCommandsConfig {
        creation_enabled: false,
        password_mode: AccountPasswordMode::Plain,
        manage_enabled: true,
        delete_enabled,
        manage_min_role,
        delete_min_role,
    }
}

#[test]
fn required_role_uses_delete_specific_role() {
    let config = manage_config(StaffRole::Gm, StaffRole::Owner, false);

    assert_eq!(required_role(&config, "ban"), StaffRole::Gm);
    assert_eq!(required_role(&config, "unban"), StaffRole::Gm);
    assert_eq!(required_role(&config, "delete"), StaffRole::Owner);
}

#[test]
fn delete_is_disabled_by_config_until_explicitly_enabled() {
    let disabled = manage_config(StaffRole::Admin, StaffRole::Owner, false);
    let enabled = manage_config(StaffRole::Admin, StaffRole::Owner, true);

    assert_eq!(
        validate_delete_request(&disabled, "SUPPRIMER").unwrap_err(),
        "La desactivation forte de compte est desactivee par configuration."
    );
    assert!(validate_delete_request(&enabled, "SUPPRIMER").is_ok());
}

#[test]
fn delete_confirmation_is_strict() {
    let config = manage_config(StaffRole::Admin, StaffRole::Owner, true);

    assert!(validate_delete_request(&config, "SUPPRIMER").is_ok());
    assert_eq!(
        validate_delete_request(&config, "supprimer").unwrap_err(),
        "Confirmation invalide. Renseigne `SUPPRIMER` exactement."
    );
    assert!(validate_delete_request(&config, " SUPPRIMER ").is_err());
}

#[test]
fn ban_unban_lookup_accepts_account_id() {
    assert_eq!(parse_lookup(" 123 ").unwrap(), AccountLookup::AccountId(123));
    assert_eq!(
        parse_lookup("ExactUserid").unwrap(),
        AccountLookup::Userid("ExactUserid")
    );
    assert!(parse_lookup("0").is_err());
}

#[test]
fn rejects_forbidden_or_invalid_fields() {
    assert_eq!(parse_field("group_id").unwrap(), AccountManageField::GroupId);
    assert!(parse_field("user_pass").is_err());
    assert!(parse_field("email").is_err());
    assert!(parse_field("last_ip").is_err());
    assert!(validate_value(AccountManageField::State, "-1").is_err());
    assert_eq!(validate_value(AccountManageField::Sex, " f ").unwrap(), "F");
}

#[test]
fn checks_login_and_char_tables() {
    assert!(required_tables().contains(&DatabaseTable::Login));
    assert!(required_tables().contains(&DatabaseTable::Char));
}

#[test]
fn sql_errors_are_loggable_without_sql_details() {
    let error = anyhow::Error::msg(
        "error returned from database: 1146 (42S02): Table 'ragnarok.login' doesn't exist",
    );

    assert_eq!(safe_sql_error(&error), "Table ou colonne rAthena requise absente.");
}

#[test]
fn sql_error_messages_cover_each_kind() {
    let denied = anyhow::Error::msg("Access denied for user 'bot'@'localhost'");
    let none = anyhow::Error::msg("Aucun compte trouve pour cette mise a jour");
    let generic = anyhow::Error::msg("pool timed out while waiting for an open connection");
    assert_eq!(
        safe_sql_error(&denied),
        "Permissions SQL insuffisantes pour modifier le compte."
    );
    assert_eq!(safe_sql_error(&none), "Aucun compte n'a ete modifie.");
    assert_eq!(safe_sql_error(&generic), "Erreur SQL pendant l'action account-manage.");
    assert_eq!(
        safe_sql_error_text("Unknown TABLE 'char'"),
        "Table ou colonne rAthena requise absente."
    );
}

#[test]
fn lookup_of_negative_or_text_values() {
    assert!(parse_lookup("-5").is_err());
    assert!(parse_lookup("   ").is_err());
    assert_eq!(parse_lookup("Bob_1").unwrap(), AccountLookup::Userid("Bob_1"));
    assert_eq!(parse_lookup("42").unwrap(), AccountLookup::AccountId(42));
}

#[test]
fn field_names_are_case_insensitive_and_trimmed() {
    assert_eq!(parse_field("  STATE ").unwrap(), AccountManageField::State);
    assert_eq!(
        parse_field("user_pass").unwrap_err(),
        "Le champ `user_pass` ne peut jamais etre modifie par cette commande."
    );
    assert_eq!(parse_field("foo").unwrap_err(), "Le champ `foo` n'est pas autorise.");
}

#[test]
fn values_are_normalised_integers() {
    assert_eq!(validate_value(AccountManageField::State, " 0 ").unwrap(), "0");
    assert_eq!(validate_value(AccountManageField::GroupId, "99").unwrap(), "99");
    assert!(validate_value(AccountManageField::GroupId, "x").is_err());
    assert!(validate_value(AccountManageField::Sex, "Z").is_err());
    assert_eq!(validate_value(AccountManageField::Sex, "m").unwrap(), "M");
}
