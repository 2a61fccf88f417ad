//! The decisions of the command handlers, apart from the Discord and database calls
//! around them: what to check, in which order, and what to answer or log.
use vstd::prelude::*;
use crate::access::{has_configured_role, has_role_spec, ConfiguredRoles};
use crate::account_manage::{
    anyhow_text_of, nonblank, requested_account, requested_account_spec, required_role,
    required_role_spec, safe_sql_error, safe_sql_text, Options,
};
use crate::i18n::keys::I18nKey;
use crate::i18n::locale::{is_literal, BotLocale};
use crate::i18n::translator::{placeholder, translate, translate_spec, translate_with_arg};
use crate::model::{
    table_name_spec, AccountCommandsConfig, AccountStatus, DatabaseTable, GameBridgeMode, StaffRole,
};
use crate::numbers::{push_signed_decimal, signed_decimal};
use crate::responses::{localize_error_spec, localize_known_error};
use crate::routing::{
    is_public_pack_root, is_public_pack_root_spec, is_staff_pack_root, is_staff_pack_root_spec,
    opt_str_view, string_option, string_option_spec, subcommand_leaf_name, subcommand_leaf_spec,
    subcommand_name, subcommand_name_spec, CommandOption,
};
use crate::text::{chars_of, has_prefix, opt_string_view, owned, starts_with, str_eq, str_result};
use crate::validation::{
    birthdate_spec, email_spec, gmmsg_error_spec, gmmsg_success_spec, hex_color_spec,
    password_spec, sanitize_gm_spec, sex_spec, username_spec, gmmsg_error_log_result_l10n,
    gmmsg_success_log_result_l10n, sanitize_gm_message_l10n, validate_account_birthdate_l10n,
    validate_account_email_l10n, validate_account_password_l10n, validate_account_sex_l10n,
    validate_account_username_l10n, validate_hex_color_l10n,
};

verus! {

/// How a GM message is shown in game.
pub enum BroadcastMode {
    Broadcast,
    KamiBlue,
    KamiColor(String),
}

/// What `/gmmsg` does once its options are read.
pub enum GmmsgPlan {
    /// The member lacks the configured rank.
    Denied,
    /// A required option is absent.
    MissingOption(&'static str),
    /// An option is invalid; the message explains why.
    Invalid(String),
    /// Send the message to the whole server.
    Broadcast { mode: BroadcastMode, message: String },
    /// Send the message on one map.
    MapMessage { map: String, message: String },
    /// Send nothing; report what would have been sent.
    Test { details: String },
    /// The sub-command is unknown; the message says so.
    UnknownSubcommand(String),
}

/// The sub-command of `/gmmsg`, `server` when none is given.
pub open spec fn gmmsg_action(options: Seq<CommandOption>) -> Seq<char> {
    match subcommand_name_spec(options) {
        Some(n) => n,
        None => "server"@,
    }
}

/// The `/gmmsg` decision, in the handler's order: rank, message present and valid, then
/// by sub-command (`server`, `blue`, `color` with a valid `hex`, `map` with a `map`,
/// `test`), anything else unknown.
pub open spec fn gmmsg_plan_holds(
    plan: GmmsgPlan,
    locale: BotLocale,
    allowed: bool,
    options: Seq<CommandOption>,
    max_length: usize,
) -> bool {
    let action = gmmsg_action(options);
    let msg = string_option_spec(options, "message"@);
    if !allowed {
        plan is Denied
    } else if msg is None {
        plan matches GmmsgPlan::MissingOption(n) && n@ == "message"@
    } else if sanitize_gm_spec(locale, msg->0, max_length) is Err {
        plan matches GmmsgPlan::Invalid(e) && e@ == sanitize_gm_spec(locale, msg->0, max_length)->Err_0
    } else {
        let m = sanitize_gm_spec(locale, msg->0, max_length)->Ok_0;
        if action == "server"@ {
            plan matches GmmsgPlan::Broadcast { mode, message } && mode is Broadcast && message@ == m
        } else if action == "blue"@ {
            plan matches GmmsgPlan::Broadcast { mode, message } && mode is KamiBlue && message@ == m
        } else if action == "color"@ {
            let hex = string_option_spec(options, "hex"@);
            if hex is None {
                plan matches GmmsgPlan::MissingOption(n) && n@ == "hex"@
            } else if hex_color_spec(locale, hex->0) is Err {
                plan matches GmmsgPlan::Invalid(e) && e@ == hex_color_spec(locale, hex->0)->Err_0
            } else {
                plan matches GmmsgPlan::Broadcast { mode, message } && mode matches BroadcastMode::KamiColor(c)
                    && c@ == hex_color_spec(locale, hex->0)->Ok_0 && message@ == m
            }
        } else if action == "map"@ {
            let map = string_option_spec(options, "map"@);
            if map is None {
                plan matches GmmsgPlan::MissingOption(n) && n@ == "map"@
            } else {
                plan matches GmmsgPlan::MapMessage { map: target, message } && target@ == map->0
                    && message@ == m
            }
        } else if action == "test"@ {
            plan matches GmmsgPlan::Test { details } && details@ == "mode test : "@ + m
        } else {
            plan matches GmmsgPlan::UnknownSubcommand(e) && e@ == replace_all_one(
                translate_spec(locale, I18nKey::ErrorUnknownSubcommand),
                "command"@,
                "/gmmsg"@,
            )
        }
    }
}

/// A message with the placeholder `name` replaced by `value`.
pub open spec fn replace_all_one(message: Seq<char>, name: Seq<char>, value: Seq<char>) -> Seq<char> {
    crate::text::replace_all(message, placeholder(name), value)
}

pub fn plan_gmmsg(locale: BotLocale, allowed: bool, options: &[CommandOption], max_length: usize) -> (r:
    GmmsgPlan)
    ensures
        gmmsg_plan_holds(r, locale, allowed, options@, max_length),
{
    if !allowed {
        return GmmsgPlan::Denied;
    }
    let action: &str = match subcommand_name(options) {
        Some(n) => n,
        None => "server",
    };
    let raw = match string_option(options, "message") {
        Some(m) => m,
        None => return GmmsgPlan::MissingOption("message"),
    };
    let message = match sanitize_gm_message_l10n(locale, raw, max_length) {
        Ok(m) => m,
        Err(e) => return GmmsgPlan::Invalid(e),
    };
    let a = chars_of(action);
    let t = a.as_slice();
    if is_literal(t, "server") {
        GmmsgPlan::Broadcast { mode: BroadcastMode::Broadcast, message }
    } else if is_literal(t, "blue") {
        GmmsgPlan::Broadcast { mode: BroadcastMode::KamiBlue, message }
    } else if is_literal(t, "color") {
        let hex = match string_option(options, "hex") {
            Some(h) => h,
            None => return GmmsgPlan::MissingOption("hex"),
        };
        match validate_hex_color_l10n(locale, hex) {
            Ok(c) => GmmsgPlan::Broadcast { mode: BroadcastMode::KamiColor(c), message },
            Err(e) => GmmsgPlan::Invalid(e),
        }
    } else if is_literal(t, "map") {
        match string_option(options, "map") {
            Some(m) => GmmsgPlan::MapMessage { map: owned(m), message },
            None => GmmsgPlan::MissingOption("map"),
        }
    } else if is_literal(t, "test") {
        let mut details = owned("mode test : ");
        details.append(message.as_str());
        GmmsgPlan::Test { details }
    } else {
        GmmsgPlan::UnknownSubcommand(
            translate_with_arg(locale, I18nKey::ErrorUnknownSubcommand, "command", "/gmmsg"),
        )
    }
}

/// How a GM message attempt is recorded in the staff log.
#[derive(Debug, Clone, Copy, PartialEq, Eq, Structural)]
pub enum GmmsgLogStatus {
    Sent,
    Failed,
}

/// The staff-log entry of a GM message attempt: the bridge's answer when it succeeded,
/// the staff wording of its error otherwise.
pub fn gmmsg_outcome(locale: BotLocale, action: &str, mode: GameBridgeMode, result: &Result<String, String>) -> (r:
    (GmmsgLogStatus, String))
    ensures
        match result {
            Ok(details) => r.0 == GmmsgLogStatus::Sent && r.1@ == gmmsg_success_spec(
                locale,
                action@,
                details@,
            ),
            Err(error) => r.0 == GmmsgLogStatus::Failed && r.1@ == gmmsg_error_spec(
                locale,
                mode,
                error@,
            ),
        },
{
    match result {
        Ok(details) => (
            GmmsgLogStatus::Sent,
            gmmsg_success_log_result_l10n(locale, action, details.as_str()),
        ),
        Err(error) => (
            GmmsgLogStatus::Failed,
            gmmsg_error_log_result_l10n(locale, mode, error.as_str()),
        ),
    }
}


/// The account shown in the audit log: the requested one, or `non renseigné`.
pub open spec fn audit_account_spec(options: Options<'_>) -> Seq<char> {
    match requested_account_spec(options) {
        Some(a) => a,
        None => "non renseigné"@,
    }
}

pub fn audit_account(options: &Options<'_>) -> (r: String)
    ensures
        r@ == audit_account_spec(*options),
{
    match requested_account(options) {
        Some(a) => a,
        None => owned("non renseigné"),
    }
}

/// What `/staff account-manage` does before looking at the database.
pub enum AccountManageGate {
    /// The member's rank is too low: log a refusal for `account` with the audit text
    /// `result`, then answer staff-only.
    Refused { account: String, result: String },
    /// Account management is disabled: reject the request for `account` with `result`.
    Disabled { account: String, result: String },
    /// Go on with the action.
    Proceed,
}

/// The audit-log text of a refused rank.
pub open spec fn rank_refusal_text() -> Seq<char> {
    "Rôle Discord insuffisant."@
}

/// The rejection text when account management is disabled.
pub open spec fn manage_disabled_text() -> Seq<char> {
    "La gestion des comptes est désactivée par configuration."@
}

/// Rank first (delete has its own minimum rank), then the configuration switch.
pub fn account_manage_gate(
    config: &AccountCommandsConfig,
    action: &str,
    options: &Options<'_>,
    member_role_ids: &[u64],
    roles: ConfiguredRoles<'_>,
) -> (r: AccountManageGate)
    ensures
        ({
            let role = required_role_spec(*config, action@);
            if !has_role_spec(member_role_ids@, role, roles) {
                r matches AccountManageGate::Refused { account, result } && account@
                    == audit_account_spec(*options) && result@ == rank_refusal_text()
            } else if !config.manage_enabled {
                r matches AccountManageGate::Disabled { account, result } && account@
                    == audit_account_spec(*options) && result@ == manage_disabled_text()
            } else {
                r is Proceed
            }
        }),
{
    let role = required_role(config, action);
    if !has_configured_role(member_role_ids, role, roles) {
        return AccountManageGate::Refused {
            account: audit_account(options),
            result: owned("Rôle Discord insuffisant."),
        };
    }
    if !config.manage_enabled {
        return AccountManageGate::Disabled {
            account: audit_account(options),
            result: owned("La gestion des comptes est désactivée par configuration."),
        };
    }
    AccountManageGate::Proceed
}

/// The audit and answer text when a table that account management needs is absent.
pub open spec fn missing_table_text(table: DatabaseTable) -> Seq<char> {
    "Table `"@ + table_name_spec(table) + "` absente."@
}

pub fn missing_table_result(table: DatabaseTable) -> (r: String)
    ensures
        r@ == missing_table_text(table),
{
    let mut out = owned("Table `");
    out.append(table.name());
    out.append("` absente.");
    proof {
        reveal_strlit("Table `");
        reveal_strlit("` absente.");
    }
    out
}

/// The account-management actions.
#[derive(Debug, Clone, Copy, PartialEq, Eq, Structural)]
pub enum AccountManageAction {
    Edit,
    Ban,
    Unban,
    Delete,
    Unknown,
}

pub open spec fn account_action_spec(action: Seq<char>) -> AccountManageAction {
    if action == "edit"@ {
        AccountManageAction::Edit
    } else if action == "ban"@ {
        AccountManageAction::Ban
    } else if action == "unban"@ {
        AccountManageAction::Unban
    } else if action == "delete"@ {
        AccountManageAction::Delete
    } else {
        AccountManageAction::Unknown
    }
}

/// The sub-command name of each account-management action (none for `Unknown`).
pub open spec fn action_name(action: AccountManageAction) -> Seq<char> {
    match action {
        AccountManageAction::Edit => "edit"@,
        AccountManageAction::Ban => "ban"@,
        AccountManageAction::Unban => "unban"@,
        AccountManageAction::Delete => "delete"@,
        AccountManageAction::Unknown => Seq::empty(),
    }
}

/// Each account-management sub-command runs the action of that name, and each action
/// is reached from its own name.
pub proof fn lemma_action_serves_its_name(name: Seq<char>, action: AccountManageAction)
    ensures
        account_action_spec(name) != AccountManageAction::Unknown ==> action_name(
            account_action_spec(name),
        ) == name,
        action != AccountManageAction::Unknown ==> account_action_spec(action_name(action)) == action,
{
    reveal_strlit("edit");
    reveal_strlit("ban");
    reveal_strlit("unban");
    reveal_strlit("delete");
    assert("edit"@[0] == 'e' && "ban"@[0] == 'b' && "unban"@[0] == 'u' && "delete"@[0] == 'd');
}

pub fn account_action(action: &str) -> (r: AccountManageAction)
    ensures
        r == account_action_spec(action@),
{
    let a = chars_of(action);
    let t = a.as_slice();
    if is_literal(t, "edit") {
        AccountManageAction::Edit
    } else if is_literal(t, "ban") {
        AccountManageAction::Ban
    } else if is_literal(t, "unban") {
        AccountManageAction::Unban
    } else if is_literal(t, "delete") {
        AccountManageAction::Delete
    } else {
        AccountManageAction::Unknown
    }
}

/// How a request that failed its option checks is answered.
pub enum PrepareFailure {
    /// Answer with the localised message only.
    Respond(String),
    /// Log a refusal for `account` with the raw error, then answer it localised.
    Reject { account: String, error: String },
}

/// Ban and unban answer every option error directly; edit and delete answer missing
/// options directly and log every other refusal.
pub fn prepare_failure(locale: BotLocale, action: AccountManageAction, options: &Options<'_>, message: &str) -> (r:
    PrepareFailure)
    ensures
        if action == AccountManageAction::Ban || action == AccountManageAction::Unban || has_prefix(
            message@,
            "Option obligatoire"@,
        ) {
            r matches PrepareFailure::Respond(m) && m@ == localize_error_spec(locale, message@)
        } else {
            r matches PrepareFailure::Reject { account, error } && account@ == audit_account_spec(
                *options,
            ) && error@ == message@
        },
{
    let m = chars_of(message);
    let p = chars_of("Option obligatoire");
    if action == AccountManageAction::Ban || action == AccountManageAction::Unban || starts_with(
        m.as_slice(),
        p.as_slice(),
    ) {
        PrepareFailure::Respond(localize_known_error(locale, message))
    } else {
        PrepareFailure::Reject { account: audit_account(options), error: owned(message) }
    }
}

/// The next step of an account-management action after a database step.
pub enum ManageStep {
    /// Log a refusal for `account` with `error`, then answer with `error` localised.
    Refuse { account: String, error: String },
    /// Log a failure for `account` with the staff-safe `result`, then return the error.
    Fail { account: String, result: String },
    /// Go on with the action.
    Continue,
}

/// The not-found error of an action: the exact account id for a deletion, the exact
/// account otherwise.
pub open spec fn not_found_text(locale: BotLocale, action: AccountManageAction) -> Seq<char> {
    if action == AccountManageAction::Delete {
        translate_spec(locale, I18nKey::ErrorAccountIdExactNotFound)
    } else {
        translate_spec(locale, I18nKey::ErrorAccountExactNotFound)
    }
}

/// After looking the account up: no account refuses the action for the account as
/// requested (the lookup text, or the account id for a deletion) with the not-found
/// error; an account lets the action go on.
pub fn lookup_step(locale: BotLocale, action: AccountManageAction, requested: &str, found: bool) -> (r:
    ManageStep)
    ensures
        if found {
            r is Continue
        } else {
            r matches ManageStep::Refuse { account, error } && account@ == requested@ && error@
                == not_found_text(locale, action)
        },
{
    if found {
        return ManageStep::Continue;
    }
    let error = if action == AccountManageAction::Delete {
        translate(locale, I18nKey::ErrorAccountIdExactNotFound)
    } else {
        translate(locale, I18nKey::ErrorAccountExactNotFound)
    };
    ManageStep::Refuse { account: owned(requested), error }
}

/// After a database write or read for `account` (its audit label): an error logs a
/// failure with the staff-safe text of that error, then is returned; success goes on.
pub fn sql_step<T>(account: &str, outcome: &Result<T, anyhow::Error>) -> (r: ManageStep)
    ensures
        match outcome {
            Ok(_) => r is Continue,
            Err(e) => r matches ManageStep::Fail { account: a, result } && a@ == account@ && result@
                == safe_sql_text(anyhow_text_of(*e)),
        },
{
    match outcome {
        Ok(_) => ManageStep::Continue,
        Err(e) => ManageStep::Fail { account: owned(account), result: safe_sql_error(e) },
    }
}

/// The account state shown after an action: the state read again, or the one read before
/// when the account can no longer be found.
pub fn status_after_action(before: AccountStatus, refreshed: Option<AccountStatus>) -> (r:
    AccountStatus)
    ensures
        r == (match refreshed {
            Some(s) => s,
            None => before,
        }),
{
    match refreshed {
        Some(s) => s,
        None => before,
    }
}

/// The ban-end field of the ban answer: the end time in backquotes, `0` when none.
pub fn ban_end_field(until: Option<i64>) -> (r: String)
    ensures
        r@ == (match until {
            Some(v) => "`"@ + signed_decimal(v as int) + "`"@,
            None => "`0`"@,
        }),
{
    match until {
        Some(v) => {
            let mut out = owned("`");
            push_signed_decimal(&mut out, v);
            out.append("`");
            out
        },
        None => owned("`0`"),
    }
}

/// The validated fields of a new game account.
pub struct NewAccount {
    pub username: String,
    pub password: String,
    pub sex: String,
    pub birthdate: String,
    pub email: String,
}

/// What `/createaccount` does once its options are read.
pub enum CreateAccountPlan {
    Disabled,
    MissingOption(&'static str),
    Invalid(String),
    Create(NewAccount),
}

/// The `/createaccount` decision, in the handler's order: creation enabled; username,
/// password, sex and birth date given; then each validated in that order, then the e-mail.
pub open spec fn create_account_holds(
    plan: CreateAccountPlan,
    locale: BotLocale,
    enabled: bool,
    options: Seq<CommandOption>,
    email: Option<Seq<char>>,
) -> bool {
    let u = string_option_spec(options, "username"@);
    let p = string_option_spec(options, "password"@);
    let s = string_option_spec(options, "sex"@);
    let b = string_option_spec(options, "birthdate"@);
    if !enabled {
        plan is Disabled
    } else if u is None {
        plan matches CreateAccountPlan::MissingOption(n) && n@ == "username"@
    } else if p is None {
        plan matches CreateAccountPlan::MissingOption(n) && n@ == "password"@
    } else if s is None {
        plan matches CreateAccountPlan::MissingOption(n) && n@ == "sex"@
    } else if b is None {
        plan matches CreateAccountPlan::MissingOption(n) && n@ == "birthdate"@
    } else if username_spec(locale, u->0) is Err {
        plan matches CreateAccountPlan::Invalid(e) && e@ == username_spec(locale, u->0)->Err_0
    } else if password_spec(locale, p->0) is Err {
        plan matches CreateAccountPlan::Invalid(e) && e@ == password_spec(locale, p->0)->Err_0
    } else if sex_spec(locale, s->0) is Err {
        plan matches CreateAccountPlan::Invalid(e) && e@ == sex_spec(locale, s->0)->Err_0
    } else if birthdate_spec(locale, b->0) is Err {
        plan matches CreateAccountPlan::Invalid(e) && e@ == birthdate_spec(locale, b->0)->Err_0
    } else if email_spec(locale, email) is Err {
        plan matches CreateAccountPlan::Invalid(e) && e@ == email_spec(locale, email)->Err_0
    } else {
        plan matches CreateAccountPlan::Create(a) && a.username@ == username_spec(locale, u->0)->Ok_0
            && a.password@ == password_spec(locale, p->0)->Ok_0 && a.sex@ == sex_spec(
            locale,
            s->0,
        )->Ok_0 && a.birthdate@ == birthdate_spec(locale, b->0)->Ok_0 && a.email@ == email_spec(
            locale,
            email,
        )->Ok_0
    }
}

pub fn plan_create_account(locale: BotLocale, enabled: bool, options: &[CommandOption]) -> (r:
    CreateAccountPlan)
    ensures
        create_account_holds(
            r,
            locale,
            enabled,
            options@,
            string_option_spec(options@, "email"@),
        ),
{
    if !enabled {
        return CreateAccountPlan::Disabled;
    }
    let username = match string_option(options, "username") {
        Some(v) => v,
        None => return CreateAccountPlan::MissingOption("username"),
    };
    let password = match string_option(options, "password") {
        Some(v) => v,
        None => return CreateAccountPlan::MissingOption("password"),
    };
    let sex = match string_option(options, "sex") {
        Some(v) => v,
        None => return CreateAccountPlan::MissingOption("sex"),
    };
    let birthdate = match string_option(options, "birthdate") {
        Some(v) => v,
        None => return CreateAccountPlan::MissingOption("birthdate"),
    };
    let username = match validate_account_username_l10n(locale, username) {
        Ok(v) => v,
        Err(e) => return CreateAccountPlan::Invalid(e),
    };
    let password = match validate_account_password_l10n(locale, password) {
        Ok(v) => v,
        Err(e) => return CreateAccountPlan::Invalid(e),
    };
    let sex = match validate_account_sex_l10n(locale, sex) {
        Ok(v) => v,
        Err(e) => return CreateAccountPlan::Invalid(e),
    };
    let birthdate = match validate_account_birthdate_l10n(locale, birthdate) {
        Ok(v) => v,
        Err(e) => return CreateAccountPlan::Invalid(e),
    };
    let email = match validate_account_email_l10n(locale, string_option(options, "email")) {
        Ok(v) => v,
        Err(e) => return CreateAccountPlan::Invalid(e),
    };
    CreateAccountPlan::Create(NewAccount { username, password, sex, birthdate, email })
}

/// The handler a command name is dispatched to.
#[derive(Debug, Clone, Copy, PartialEq, Eq, Structural)]
pub enum CommandRoute {
    Server,
    Online,
    Top,
    Player,
    CreateAccount,
    Guild,
    Castle,
    Item,
    WhoDrops,
    Mob,
    Mvp,
    Rank,
    Market,
    Staff,
    Mod,
    Debug,
    Audit,
    Db,
    Gmmsg,
    Unknown,
}

pub open spec fn command_route_spec(name: Seq<char>) -> CommandRoute {
    if name == "server"@ {
        CommandRoute::Server
    } else if name == "online"@ {
        CommandRoute::Online
    } else if name == "top"@ {
        CommandRoute::Top
    } else if name == "player"@ {
        CommandRoute::Player
    } else if name == "createaccount"@ {
        CommandRoute::CreateAccount
    } else if name == "guild"@ {
        CommandRoute::Guild
    } else if name == "castle"@ {
        CommandRoute::Castle
    } else if name == "item"@ {
        CommandRoute::Item
    } else if name == "who-drops"@ {
        CommandRoute::WhoDrops
    } else if name == "mob"@ {
        CommandRoute::Mob
    } else if name == "mvp"@ {
        CommandRoute::Mvp
    } else if name == "rank"@ {
        CommandRoute::Rank
    } else if name == "market"@ {
        CommandRoute::Market
    } else if name == "staff"@ {
        CommandRoute::Staff
    } else if name == "mod"@ {
        CommandRoute::Mod
    } else if name == "debug"@ {
        CommandRoute::Debug
    } else if name == "audit"@ {
        CommandRoute::Audit
    } else if name == "db"@ {
        CommandRoute::Db
    } else if name == "gmmsg"@ {
        CommandRoute::Gmmsg
    } else {
        CommandRoute::Unknown
    }
}

/// The command name each route serves (none for `Unknown`).
pub open spec fn route_command_name(route: CommandRoute) -> Seq<char> {
    match route {
        CommandRoute::Server => "server"@,
        CommandRoute::Online => "online"@,
        CommandRoute::Top => "top"@,
        CommandRoute::Player => "player"@,
        CommandRoute::CreateAccount => "createaccount"@,
        CommandRoute::Guild => "guild"@,
        CommandRoute::Castle => "castle"@,
        CommandRoute::Item => "item"@,
        CommandRoute::WhoDrops => "who-drops"@,
        CommandRoute::Mob => "mob"@,
        CommandRoute::Mvp => "mvp"@,
        CommandRoute::Rank => "rank"@,
        CommandRoute::Market => "market"@,
        CommandRoute::Staff => "staff"@,
        CommandRoute::Mod => "mod"@,
        CommandRoute::Debug => "debug"@,
        CommandRoute::Audit => "audit"@,
        CommandRoute::Db => "db"@,
        CommandRoute::Gmmsg => "gmmsg"@,
        CommandRoute::Unknown => Seq::empty(),
    }
}

/// Routing names its route: a known command runs the route that serves that very
/// name, and each route is reached from its own command name (so `mob` runs the monster
/// pack and `mvp` the MVP pack).
pub proof fn lemma_route_serves_its_name(name: Seq<char>, route: CommandRoute)
    ensures
        command_route_spec(name) != CommandRoute::Unknown ==> route_command_name(
            command_route_spec(name),
        ) == name,
        route != CommandRoute::Unknown ==> command_route_spec(route_command_name(route)) == route,
{
    reveal_strlit("server");
    reveal_strlit("online");
    reveal_strlit("top");
    reveal_strlit("player");
    reveal_strlit("createaccount");
    reveal_strlit("guild");
    reveal_strlit("castle");
    reveal_strlit("item");
    reveal_strlit("who-drops");
    reveal_strlit("mob");
    reveal_strlit("mvp");
    reveal_strlit("rank");
    reveal_strlit("market");
    reveal_strlit("staff");
    reveal_strlit("mod");
    reveal_strlit("debug");
    reveal_strlit("audit");
    reveal_strlit("db");
    reveal_strlit("gmmsg");
    assert("server"@.len() == 6 && "server"@[0] == 's' && "server"@[1] == 'e');
    assert("online"@.len() == 6 && "online"@[0] == 'o' && "online"@[1] == 'n');
    assert("top"@.len() == 3 && "top"@[0] == 't' && "top"@[1] == 'o');
    assert("player"@.len() == 6 && "player"@[0] == 'p' && "player"@[1] == 'l');
    assert("createaccount"@.len() == 13 && "createaccount"@[0] == 'c' && "createaccount"@[1] == 'r');
    assert("guild"@.len() == 5 && "guild"@[0] == 'g' && "guild"@[1] == 'u');
    assert("castle"@.len() == 6 && "castle"@[0] == 'c' && "castle"@[1] == 'a');
    assert("item"@.len() == 4 && "item"@[0] == 'i' && "item"@[1] == 't');
    assert("who-drops"@.len() == 9 && "who-drops"@[0] == 'w' && "who-drops"@[1] == 'h');
    assert("mob"@.len() == 3 && "mob"@[0] == 'm' && "mob"@[1] == 'o');
    assert("mvp"@.len() == 3 && "mvp"@[0] == 'm' && "mvp"@[1] == 'v');
    assert("rank"@.len() == 4 && "rank"@[0] == 'r' && "rank"@[1] == 'a');
    assert("market"@.len() == 6 && "market"@[0] == 'm' && "market"@[1] == 'a');
    assert("staff"@.len() == 5 && "staff"@[0] == 's' && "staff"@[1] == 't');
    assert("mod"@.len() == 3 && "mod"@[0] == 'm' && "mod"@[1] == 'o');
    assert("debug"@.len() == 5 && "debug"@[0] == 'd' && "debug"@[1] == 'e');
    assert("audit"@.len() == 5 && "audit"@[0] == 'a' && "audit"@[1] == 'u');
    assert("db"@.len() == 2 && "db"@[0] == 'd' && "db"@[1] == 'b');
    assert("gmmsg"@.len() == 5 && "gmmsg"@[0] == 'g' && "gmmsg"@[1] == 'm');
    assert("player"@[2] == 'a' && "castle"@[2] == 's' && "staff"@[2] == 'a' && "gmmsg"@[2] == 'm');
    assert("mob"@[2] == 'b' && "mvp"@[2] == 'p' && "mod"@[2] == 'd' && "market"@[2] == 'r');
    assert("guild"@[2] == 'i' && "debug"@[2] == 'b' && "audit"@[2] == 'd' && "rank"@[2] == 'n');
}

pub fn command_route(name: &str) -> (r: CommandRoute)
    ensures
        r == command_route_spec(name@),
{
    let cs = chars_of(name);
    let t = cs.as_slice();
    if is_literal(t, "server") {
        CommandRoute::Server
    } else if is_literal(t, "online") {
        CommandRoute::Online
    } else if is_literal(t, "top") {
        CommandRoute::Top
    } else if is_literal(t, "player") {
        CommandRoute::Player
    } else if is_literal(t, "createaccount") {
        CommandRoute::CreateAccount
    } else if is_literal(t, "guild") {
        CommandRoute::Guild
    } else if is_literal(t, "castle") {
        CommandRoute::Castle
    } else if is_literal(t, "item") {
        CommandRoute::Item
    } else if is_literal(t, "who-drops") {
        CommandRoute::WhoDrops
    } else if is_literal(t, "mob") {
        CommandRoute::Mob
    } else if is_literal(t, "mvp") {
        CommandRoute::Mvp
    } else if is_literal(t, "rank") {
        CommandRoute::Rank
    } else if is_literal(t, "market") {
        CommandRoute::Market
    } else if is_literal(t, "staff") {
        CommandRoute::Staff
    } else if is_literal(t, "mod") {
        CommandRoute::Mod
    } else if is_literal(t, "debug") {
        CommandRoute::Debug
    } else if is_literal(t, "audit") {
        CommandRoute::Audit
    } else if is_literal(t, "db") {
        CommandRoute::Db
    } else if is_literal(t, "gmmsg") {
        CommandRoute::Gmmsg
    } else {
        CommandRoute::Unknown
    }
}

/// Whether a command runs: disabled packs and disabled command paths are answered with
/// a "disabled" notice naming what is disabled.
pub enum CommandGate {
    Disabled(String),
    Run(CommandRoute),
}

/// Public pack first, then staff pack, then the command path itself.
pub fn command_gate(
    command_name: &str,
    command_path: &str,
    public_pack_enabled: bool,
    staff_pack_enabled: bool,
    path_enabled: bool,
) -> (r: CommandGate)
    ensures
        if is_public_pack_root_spec(command_name@) && !public_pack_enabled {
            r matches CommandGate::Disabled(label) && label@ == "pack public"@
        } else if is_staff_pack_root_spec(command_name@) && !staff_pack_enabled {
            r matches CommandGate::Disabled(label) && label@ == "pack staff"@
        } else if !path_enabled {
            r matches CommandGate::Disabled(label) && label@ == command_path@
        } else {
            r matches CommandGate::Run(route) && route == command_route_spec(command_name@)
        },
{
    if is_public_pack_root(command_name) && !public_pack_enabled {
        return CommandGate::Disabled(owned("pack public"));
    }
    if is_staff_pack_root(command_name) && !staff_pack_enabled {
        return CommandGate::Disabled(owned("pack staff"));
    }
    if !path_enabled {
        return CommandGate::Disabled(owned(command_path));
    }
    CommandGate::Run(command_route(command_name))
}

/// Component interactions other than the MVP list buttons are ignored.
pub fn handles_component(custom_id: &str) -> (r: bool)
    ensures
        r == has_prefix(custom_id@, "mvp_list:"@),
{
    let cs = chars_of(custom_id);
    let p = chars_of(crate::components::MVP_LIST_COMPONENT_PREFIX);
    starts_with(cs.as_slice(), p.as_slice())
}

/// The handler of a `/staff` sub-command.
#[derive(Debug, Clone, Copy, PartialEq, Eq, Structural)]
pub enum StaffRoute {
    Player,
    Account,
    Chars,
    Inventory,
    Equipment,
    Cart,
    Storage,
    GuildStorage,
    WhoHas,
    Zeny,
    ZenyLog,
    PickLog,
    MvpLog,
    LoginLog,
    Banned,
    Unknown,
}

/// What `/staff` does for a sub-command.
#[derive(Debug, Clone, Copy, PartialEq, Eq, Structural)]
pub enum StaffPlan {
    /// `account-manage` checks its own rank.
    AccountManage,
    /// Check the rank, then run the route.
    Guarded(StaffRole, StaffRoute),
}

pub open spec fn staff_route_spec(sub: Seq<char>) -> StaffRoute {
    if sub == "player"@ {
        StaffRoute::Player
    } else if sub == "account"@ {
        StaffRoute::Account
    } else if sub == "chars"@ {
        StaffRoute::Chars
    } else if sub == "inventory"@ {
        StaffRoute::Inventory
    } else if sub == "equipment"@ {
        StaffRoute::Equipment
    } else if sub == "cart"@ {
        StaffRoute::Cart
    } else if sub == "storage"@ {
        StaffRoute::Storage
    } else if sub == "guildstorage"@ {
        StaffRoute::GuildStorage
    } else if sub == "whohas"@ || sub == "item-search"@ {
        StaffRoute::WhoHas
    } else if sub == "zeny"@ {
        StaffRoute::Zeny
    } else if sub == "zenylog"@ {
        StaffRoute::ZenyLog
    } else if sub == "picklog"@ || sub == "trade-log"@ {
        StaffRoute::PickLog
    } else if sub == "mvp-log"@ {
        StaffRoute::MvpLog
    } else if sub == "loginlog"@ || sub == "ip-accounts"@ || sub == "multiaccount"@ {
        StaffRoute::LoginLog
    } else if sub == "banned"@ {
        StaffRoute::Banned
    } else {
        StaffRoute::Unknown
    }
}

/// The `/staff` sub-command names each route serves.
pub open spec fn staff_route_serves(route: StaffRoute, name: Seq<char>) -> bool {
    match route {
        StaffRoute::Player => name == "player"@,
        StaffRoute::Account => name == "account"@,
        StaffRoute::Chars => name == "chars"@,
        StaffRoute::Inventory => name == "inventory"@,
        StaffRoute::Equipment => name == "equipment"@,
        StaffRoute::Cart => name == "cart"@,
        StaffRoute::Storage => name == "storage"@,
        StaffRoute::GuildStorage => name == "guildstorage"@,
        StaffRoute::WhoHas => name == "whohas"@ || name == "item-search"@,
        StaffRoute::Zeny => name == "zeny"@,
        StaffRoute::ZenyLog => name == "zenylog"@,
        StaffRoute::PickLog => name == "picklog"@ || name == "trade-log"@,
        StaffRoute::MvpLog => name == "mvp-log"@,
        StaffRoute::LoginLog => name == "loginlog"@ || name == "ip-accounts"@ || name == "multiaccount"@,
        StaffRoute::Banned => name == "banned"@,
        StaffRoute::Unknown => false,
    }
}

/// A known `/staff` sub-command runs a route that serves that name, and each name a
/// route serves leads to that route.
pub proof fn lemma_staff_route_serves_its_name(name: Seq<char>, route: StaffRoute)
    ensures
        staff_route_spec(name) != StaffRoute::Unknown ==> staff_route_serves(staff_route_spec(name), name),
        staff_route_serves(route, name) ==> staff_route_spec(name) == route,
{
    reveal_strlit("player");
    assert("player"@.len() == 6 && "player"@[0] == 'p' && "player"@[1] == 'l' && "player"@[2] == 'a');
    reveal_strlit("account");
    assert("account"@.len() == 7 && "account"@[0] == 'a' && "account"@[1] == 'c' && "account"@[2] == 'c');
    reveal_strlit("chars");
    assert("chars"@.len() == 5 && "chars"@[0] == 'c' && "chars"@[1] == 'h' && "chars"@[2] == 'a');
    reveal_strlit("inventory");
    assert("inventory"@.len() == 9 && "inventory"@[0] == 'i' && "inventory"@[1] == 'n' && "inventory"@[2] == 'v');
    reveal_strlit("equipment");
    assert("equipment"@.len() == 9 && "equipment"@[0] == 'e' && "equipment"@[1] == 'q' && "equipment"@[2] == 'u');
    reveal_strlit("cart");
    assert("cart"@.len() == 4 && "cart"@[0] == 'c' && "cart"@[1] == 'a' && "cart"@[2] == 'r');
    reveal_strlit("storage");
    assert("storage"@.len() == 7 && "storage"@[0] == 's' && "storage"@[1] == 't' && "storage"@[2] == 'o');
    reveal_strlit("guildstorage");
    assert("guildstorage"@.len() == 12 && "guildstorage"@[0] == 'g' && "guildstorage"@[1] == 'u' && "guildstorage"@[2] == 'i');
    reveal_strlit("whohas");
    assert("whohas"@.len() == 6 && "whohas"@[0] == 'w' && "whohas"@[1] == 'h' && "whohas"@[2] == 'o');
    reveal_strlit("item-search");
    assert("item-search"@.len() == 11 && "item-search"@[0] == 'i' && "item-search"@[1] == 't' && "item-search"@[2] == 'e');
    reveal_strlit("zeny");
    assert("zeny"@.len() == 4 && "zeny"@[0] == 'z' && "zeny"@[1] == 'e' && "zeny"@[2] == 'n');
    reveal_strlit("zenylog");
    assert("zenylog"@.len() == 7 && "zenylog"@[0] == 'z' && "zenylog"@[1] == 'e' && "zenylog"@[2] == 'n');
    reveal_strlit("picklog");
    assert("picklog"@.len() == 7 && "picklog"@[0] == 'p' && "picklog"@[1] == 'i' && "picklog"@[2] == 'c');
    reveal_strlit("trade-log");
    assert("trade-log"@.len() == 9 && "trade-log"@[0] == 't' && "trade-log"@[1] == 'r' && "trade-log"@[2] == 'a');
    reveal_strlit("mvp-log");
    assert("mvp-log"@.len() == 7 && "mvp-log"@[0] == 'm' && "mvp-log"@[1] == 'v' && "mvp-log"@[2] == 'p');
    reveal_strlit("loginlog");
    assert("loginlog"@.len() == 8 && "loginlog"@[0] == 'l' && "loginlog"@[1] == 'o' && "loginlog"@[2] == 'g');
    reveal_strlit("ip-accounts");
    assert("ip-accounts"@.len() == 11 && "ip-accounts"@[0] == 'i' && "ip-accounts"@[1] == 'p' && "ip-accounts"@[2] == '-');
    reveal_strlit("multiaccount");
    assert("multiaccount"@.len() == 12 && "multiaccount"@[0] == 'm' && "multiaccount"@[1] == 'u' && "multiaccount"@[2] == 'l');
    reveal_strlit("banned");
    assert("banned"@.len() == 6 && "banned"@[0] == 'b' && "banned"@[1] == 'a' && "banned"@[2] == 'n');
}

/// Player lookups need a helper, login and account-link logs an admin, the rest a GM.
pub open spec fn staff_role_spec(sub: Seq<char>) -> StaffRole {
    if sub == "player"@ || sub == "account"@ || sub == "chars"@ {
        StaffRole::Helper
    } else if sub == "loginlog"@ || sub == "ip-accounts"@ || sub == "multiaccount"@ || sub
        == "banned"@ {
        StaffRole::Admin
    } else {
        StaffRole::Gm
    }
}

/// The sub-command of `/staff` (`player` when none is given) and what it needs.
pub fn staff_plan(subcommand: Option<&str>) -> (r: StaffPlan)
    ensures
        ({
            let sub = match subcommand {
                Some(s) => s@,
                None => "player"@,
            };
            if sub == "account-manage"@ {
                r == StaffPlan::AccountManage
            } else {
                r == StaffPlan::Guarded(staff_role_spec(sub), staff_route_spec(sub))
            }
        }),
{
    let sub: &str = match subcommand {
        Some(s) => s,
        None => "player",
    };
    let cs = chars_of(sub);
    let t = cs.as_slice();
    if is_literal(t, "account-manage") {
        return StaffPlan::AccountManage;
    }
    let role = if is_literal(t, "player") || is_literal(t, "account") || is_literal(t, "chars") {
        StaffRole::Helper
    } else if is_literal(t, "loginlog") || is_literal(t, "ip-accounts") || is_literal(
        t,
        "multiaccount",
    ) || is_literal(t, "banned") {
        StaffRole::Admin
    } else {
        StaffRole::Gm
    };
    let route = if is_literal(t, "player") {
        StaffRoute::Player
    } else if is_literal(t, "account") {
        StaffRoute::Account
    } else if is_literal(t, "chars") {
        StaffRoute::Chars
    } else if is_literal(t, "inventory") {
        StaffRoute::Inventory
    } else if is_literal(t, "equipment") {
        StaffRoute::Equipment
    } else if is_literal(t, "cart") {
        StaffRoute::Cart
    } else if is_literal(t, "storage") {
        StaffRoute::Storage
    } else if is_literal(t, "guildstorage") {
        StaffRoute::GuildStorage
    } else if is_literal(t, "whohas") || is_literal(t, "item-search") {
        StaffRoute::WhoHas
    } else if is_literal(t, "zeny") {
        StaffRoute::Zeny
    } else if is_literal(t, "zenylog") {
        StaffRoute::ZenyLog
    } else if is_literal(t, "picklog") || is_literal(t, "trade-log") {
        StaffRoute::PickLog
    } else if is_literal(t, "mvp-log") {
        StaffRoute::MvpLog
    } else if is_literal(t, "loginlog") || is_literal(t, "ip-accounts") || is_literal(
        t,
        "multiaccount",
    ) {
        StaffRoute::LoginLog
    } else if is_literal(t, "banned") {
        StaffRoute::Banned
    } else {
        StaffRoute::Unknown
    };
    StaffPlan::Guarded(role, route)
}

/// What the command cache does for one request.
pub enum CacheStep<T> {
    /// Caching is off for this command: fetch, and keep nothing.
    FetchUncached,
    /// A live entry answers the request.
    Hit(T),
    /// No live entry: fetch, then store the value for the given number of seconds.
    FetchAndStore(u64),
}

/// Decides how a cacheable command gets its data, from the configured time to
/// live (`None` when caching is off) and the live cache entry, if any.
pub fn cache_step<T>(ttl_secs: Option<u64>, cached: Option<T>) -> (r: CacheStep<T>)
    ensures
        ttl_secs is None ==> r is FetchUncached,
        ttl_secs is Some && cached is Some ==> r == CacheStep::Hit(cached->0),
        ttl_secs is Some && cached is None ==> r == CacheStep::<T>::FetchAndStore(ttl_secs->0),
{
    match ttl_secs {
        None => CacheStep::FetchUncached,
        Some(ttl) => match cached {
            Some(value) => CacheStep::Hit(value),
            None => CacheStep::FetchAndStore(ttl),
        },
    }
}

/// With account creation disabled, `/createaccount` never creates an account.
pub proof fn lemma_disabled_creation_creates_nothing(
    plan: CreateAccountPlan,
    locale: BotLocale,
    options: Seq<CommandOption>,
    email: Option<Seq<char>>,
)
    requires
        create_account_holds(plan, locale, false, options, email),
    ensures
        plan is Disabled,
{
}

} // verus!
