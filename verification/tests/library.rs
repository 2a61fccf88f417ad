use rathenafr_bot::access::{has_configured_role, ConfiguredRoles};
use rathenafr_bot::components::{
    clamp_mvp_list_page, mvp_list_component_id, mvp_list_page_count, parse_mvp_list_component_id,
    MvpListPageRequest,
};
use rathenafr_bot::env_hint::{deduplicate_paths, environment_hint, override_candidate};
use rathenafr_bot::flows::{cache_step, command_gate, handles_component, CacheStep, CommandGate, CommandRoute};
use rathenafr_bot::model::StaffRole;
use rathenafr_bot::numbers::{i64_to_string, parse_i64, u64_to_string};
use rathenafr_bot::observability::{database_host_address, duration_ms, redact_database_host, total_millis};
use rathenafr_bot::routing::{command_path_from_parts, is_cached_command, is_staff_pack_root};
use rathenafr_bot::sanitize::sanitize_embed_mentions;
use rathenafr_bot::validation::{
    sanitize_gm_message, trim_discord_message, validate_account_password, validate_account_sex,
    validate_hex_color,
};
use std::time::Duration;
use rathenafr_bot::flows::{lookup_step, sql_step, AccountManageAction, ManageStep};
use rathenafr_bot::components::mvp_list_view;
use rathenafr_bot::i18n::locale::BotLocale;
use rathenafr_bot::model::DatabaseTable;
use rathenafr_bot::packs::{
    list_limits, market_plan, pack_plan, pack_subcommand, required_option, sub_tables, unknown_subcommand_message, Pack,
    PackPlan,
};
use rathenafr_bot::responses::lines_body;
use rathenafr_bot::routing::{CommandOption, CommandOptionValue};

fn roles_with<'a>(gm: &'a [u64], admin: &'a [u64], owner: &'a [u64]) -> ConfiguredRoles<'a> {
    ConfiguredRoles {
        helper: &[],
        moderator: &[],
        gm,
        legacy_staff: &[],
        admin,
        owner,
    }
}

#[test]
fn duration_millis_saturates() {
    assert_eq!(duration_ms(Duration::from_millis(42)), 42);
    assert_eq!(duration_ms(Duration::from_secs(u64::MAX)), u64::MAX);
}

#[test]
fn duration_millis_combines_seconds_and_millis() {
    assert_eq!(duration_ms(Duration::from_millis(12_345)), 12_345);
    assert_eq!(total_millis(3, 250), 3_250);
    assert_eq!(total_millis(u64::MAX / 1000, 999), u64::MAX);
}

#[test]
fn sanitizes_ip_addresses() {
    assert_eq!(database_host_address(" [::1] "), "::1");
    assert_eq!(redact_database_host("127.0.0.1", true), "<ip-address-redacted>");
    assert_eq!(redact_database_host("[::1]", true), "<ip-address-redacted>");
}

#[test]
fn keeps_non_ip_database_hosts() {
    assert_eq!(redact_database_host("db-container", false), "db-container");
    assert_eq!(redact_database_host("localhost", false), "localhost");
}

#[test]
fn empty_database_host_is_not_logged_as_blank() {
    assert_eq!(redact_database_host("  ", false), "<empty>");
    assert_eq!(redact_database_host("  ", true), "<empty>");
}

#[test]
fn owner_role_passes_every_rank() {
    let owner = [7];
    for role in [StaffRole::Helper, StaffRole::Moderator, StaffRole::Gm, StaffRole::Admin, StaffRole::Owner] {
        assert!(has_configured_role(&owner, role, roles_with(&[], &[], &owner)));
    }
}

#[test]
fn unconfigured_roles_deny_everyone() {
    assert!(!has_configured_role(&[1, 2, 3], StaffRole::Helper, roles_with(&[], &[], &[])));
}

#[test]
fn lower_rank_keeps_access() {
    let admin = [40];
    assert!(has_configured_role(&admin, StaffRole::Admin, roles_with(&[], &admin, &[])));
    assert!(has_configured_role(&admin, StaffRole::Gm, roles_with(&[], &admin, &[])));
    assert!(!has_configured_role(&admin, StaffRole::Owner, roles_with(&[], &admin, &[])));
}

#[test]
fn component_ids_are_written_as_expected() {
    assert_eq!(mvp_list_component_id("prev", 0, 5), "mvp_list:0:5:prev");
    assert_eq!(
        parse_mvp_list_component_id("mvp_list:12:7:last"),
        Some(MvpListPageRequest { page: 12, page_size: 7 })
    );
    assert!(handles_component("mvp_list:1:2:first"));
    assert!(!handles_component("other:1"));
}

#[test]
fn page_count_covers_every_line() {
    assert_eq!(mvp_list_page_count(0, 10), 1);
    assert_eq!(mvp_list_page_count(10, 10), 1);
    assert_eq!(mvp_list_page_count(11, 10), 2);
    assert_eq!(clamp_mvp_list_page(1, 11, 10), 1);
}

#[test]
fn numbers_round_trip_through_text() {
    assert_eq!(u64_to_string(0), "0");
    assert_eq!(u64_to_string(18_446_744_073_709_551_615), "18446744073709551615");
    assert_eq!(i64_to_string(-42), "-42");
    assert_eq!(parse_i64(&i64_to_string(i64::MIN)), Some(i64::MIN));
    assert_eq!(parse_i64("+7"), Some(7));
    assert_eq!(parse_i64("9223372036854775808"), None);
}

#[test]
fn cached_commands_are_public_reads() {
    for name in ["status", "guilds", "castles", "whosell", "whobuy", "market"] {
        assert!(is_cached_command(name));
        assert!(!is_staff_pack_root(name));
    }
    assert!(!is_cached_command("server"));
}

#[test]
fn cache_step_follows_ttl_and_entry() {
    assert!(matches!(cache_step::<u32>(None, Some(3)), CacheStep::FetchUncached));
    assert!(matches!(cache_step(Some(60), Some(3)), CacheStep::Hit(3)));
    assert!(matches!(cache_step::<u32>(Some(60), None), CacheStep::FetchAndStore(60)));
}

#[test]
fn command_gate_checks_packs_then_path() {
    assert!(matches!(
        command_gate("staff", "staff player", true, false, true),
        CommandGate::Disabled(ref label) if label == "pack staff"
    ));
    assert!(matches!(
        command_gate("server", "server", false, true, true),
        CommandGate::Disabled(ref label) if label == "pack public"
    ));
    assert!(matches!(
        command_gate("server", "server", true, true, false),
        CommandGate::Disabled(ref label) if label == "server"
    ));
    assert!(matches!(
        command_gate("server", "server", true, true, true),
        CommandGate::Run(CommandRoute::Server)
    ));
}

#[test]
fn command_paths_join_with_spaces() {
    assert_eq!(command_path_from_parts("a", &["b", "c", "d"]), "a b c d");
}

#[test]
fn gm_messages_are_cleaned() {
    assert_eq!(
        sanitize_gm_message("  Hello\u{7}   @everyone \n world ", 100).unwrap(),
        "Hello @\u{200B}everyone world"
    );
    assert!(sanitize_gm_message(" \u{1} \t ", 100).is_err());
    assert!(sanitize_gm_message("abcdef", 5).is_err());
    assert_eq!(sanitize_gm_message("abcde", 5).unwrap(), "abcde");
}

#[test]
fn hex_colors_are_canonical() {
    assert_eq!(validate_hex_color(" #ff00aa ").unwrap(), "FF00AA");
    assert_eq!(validate_hex_color("##0a0B0c").unwrap(), "0A0B0C");
    assert!(validate_hex_color("12345").is_err());
    assert!(validate_hex_color("GG0000").is_err());
}

#[test]
fn long_messages_fit_an_embed() {
    let long: String = "x".repeat(5000);
    let cut = trim_discord_message(&long);
    assert_eq!(cut.chars().count(), 3900);
    assert!(cut.ends_with("\n... sortie tronquée"));
    assert_eq!(trim_discord_message("short"), "short");
}

#[test]
fn embed_mentions_are_defused() {
    assert_eq!(
        sanitize_embed_mentions("@here join discord.gg/abc"),
        "@\u{200B}here join discord.gg/\u{200B}abc"
    );
}

#[test]
fn account_sex_and_password_checks() {
    assert_eq!(validate_account_sex(" m ").unwrap(), "M");
    assert!(validate_account_sex("x").is_err());
    assert!(validate_account_password("abc").is_err());
}

#[test]
fn environment_hint_lists_candidates() {
    let paths = vec!["/a/.env".to_string(), "/b/.env".to_string(), "/a/.env".to_string()];
    let unique = deduplicate_paths(paths);
    assert_eq!(unique, vec!["/a/.env".to_string(), "/b/.env".to_string()]);
    assert_eq!(environment_hint(Some(unique)), "  - /a/.env\n  - /b/.env");
    assert_eq!(environment_hint(None), "  - .env");
    assert_eq!(environment_hint(Some(Vec::new())), "");
    assert_eq!(override_candidate(Some("  /etc/bot.env ")), Some("/etc/bot.env".to_string()));
    assert_eq!(override_candidate(Some("   ")), None);
    assert_eq!(override_candidate(None), None);
}

#[test]
fn packs_pick_their_subcommand() {
    assert_eq!(pack_subcommand(Pack::Online, None), Some("count"));
    assert_eq!(pack_subcommand(Pack::Market, Some("sell")), Some("sell"));
    assert_eq!(pack_subcommand(Pack::Market, Some("rent")), None);
    assert_eq!(pack_subcommand(Pack::Audit, None), Some("atcommands"));
    assert_eq!(required_option(Pack::Item, "search"), Some("text"));
    assert_eq!(required_option(Pack::Castle, "list"), None);
    assert_eq!(
        sub_tables(Pack::Market, "buy"),
        vec![DatabaseTable::BuyingStores, DatabaseTable::BuyingStoreItems]
    );
    assert_eq!(sub_tables(Pack::Castle, "info"), vec![DatabaseTable::GuildCastle]);
    assert!(sub_tables(Pack::Mob, "info").is_empty());
}

#[test]
fn pack_plan_checks_rank_option_and_subcommand() {
    let owner = [9];
    let roles = roles_with(&[], &[], &owner);
    let sub = |name: &str, inner: Vec<CommandOption>| CommandOption {
        name: name.to_string(),
        value: CommandOptionValue::SubCommand(inner),
    };
    let text = |name: &str, value: &str| CommandOption {
        name: name.to_string(),
        value: CommandOptionValue::String(value.to_string()),
    };
    let plan = pack_plan(BotLocale::FrFr, Pack::Database, &[], &[1], roles, StaffRole::Gm, StaffRole::Gm);
    assert!(matches!(plan, PackPlan::StaffOnly));
    let plan = pack_plan(BotLocale::FrFr, Pack::Database, &[sub("tables", vec![])], &owner, roles, StaffRole::Gm, StaffRole::Gm);
    assert!(matches!(plan, PackPlan::Run { sub: "tables", .. }));
    let plan = pack_plan(BotLocale::FrFr, Pack::Market, &[sub("sell", vec![])], &[], roles, StaffRole::Gm, StaffRole::Gm);
    assert!(matches!(plan, PackPlan::MissingOption("item")));
    let plan = pack_plan(
        BotLocale::EnUs,
        Pack::Mob,
        &[sub("nests", vec![text("mob", "poring")])],
        &[],
        roles,
        StaffRole::Gm,
        StaffRole::Gm,
    );
    match plan {
        PackPlan::Unknown(message) => assert_eq!(message, unknown_subcommand_message(BotLocale::EnUs, Pack::Mob)),
        _ => panic!("an unknown sub-command is reported"),
    }
    assert!(unknown_subcommand_message(BotLocale::EnUs, Pack::Mob).contains("/mob"));
}

#[test]
fn list_bodies_keep_nonblank_lines_up_to_the_limit() {
    let lines = vec!["a".to_string(), "  ".to_string(), "b".to_string(), "c".to_string()];
    assert_eq!(lines_body(&lines, "none", 2), "a\nb");
    assert_eq!(lines_body(&lines, "none", 10), "a\nb\nc");
    assert_eq!(lines_body(&[], "none", 10), "none");
    assert_eq!(lines_body(&["   ".to_string()], "none", 10), "");
}

#[test]
fn mvp_view_clamps_size_then_page() {
    assert_eq!(mvp_list_view(9, 50, 25, 61), (6, 10));
    assert_eq!(mvp_list_view(0, 0, 5, 3), (0, 1));
    assert_eq!(mvp_list_view(2, 4, 0, 100), (2, 1));
}

#[test]
fn list_limits_read_one_more_line() {
    assert_eq!(list_limits(10), (10, 11));
    assert_eq!(list_limits(u32::MAX), (u32::MAX, u32::MAX));
}

#[test]
fn command_timer_measures_a_short_span() {
    let timer = rathenafr_bot::observability::CommandTimer::start();
    let elapsed = timer.elapsed_ms();
    assert!(elapsed < 60_000);
}

#[test]
fn market_looks_the_item_up_before_its_subcommand() {
    let roles = roles_with(&[], &[], &[]);
    let sub = |name: &str, inner: Vec<CommandOption>| CommandOption {
        name: name.to_string(),
        value: CommandOptionValue::SubCommand(inner),
    };
    let item = CommandOption {
        name: "item".to_string(),
        value: CommandOptionValue::String("Jellopy".to_string()),
    };
    let options = vec![sub("rent", vec![item])];
    match pack_plan(BotLocale::FrFr, Pack::Market, &options, &[], roles, StaffRole::Gm, StaffRole::Gm) {
        PackPlan::LookUpItem(query) => assert_eq!(query, "Jellopy"),
        _ => panic!("the item is looked up first"),
    }
    match market_plan(BotLocale::FrFr, &options, false) {
        PackPlan::ItemNotFound(message) => assert_eq!(message, "Aucun item n’a été trouvé."),
        _ => panic!("an unknown item is reported before the sub-command"),
    }
    assert!(matches!(market_plan(BotLocale::FrFr, &options, true), PackPlan::Unknown(_)));
}

#[test]
fn staff_role_needs_a_member() {
    let gm = [30];
    let roles = roles_with(&gm, &[], &[]);
    assert!(!rathenafr_bot::access::has_staff_role(None, StaffRole::Helper, roles));
    assert!(rathenafr_bot::access::has_staff_role(Some(&gm), StaffRole::Gm, roles));
    assert!(!rathenafr_bot::access::has_staff_role(Some(&[1]), StaffRole::Gm, roles));
    assert!(rathenafr_bot::access::has_staff_access(Some(&gm), roles));
}

#[test]
fn account_manage_gate_texts() {
    let config = rathenafr_bot::model::AccountCommandsConfig {
        creation_enabled: false,
        password_mode: rathenafr_bot::model::AccountPasswordMode::Plain,
        manage_enabled: false,
        delete_enabled: false,
        manage_min_role: StaffRole::Gm,
        delete_min_role: StaffRole::Owner,
    };
    let options = rathenafr_bot::account_manage::Options {
        account: Some(" Bob "),
        account_id: None,
        field: None,
        value: None,
        confirm: None,
        reason: None,
        until: None,
    };
    let gm = [30];
    let roles = roles_with(&gm, &[], &[]);
    match rathenafr_bot::flows::account_manage_gate(&config, "delete", &options, &gm, roles) {
        rathenafr_bot::flows::AccountManageGate::Refused { result, .. } => {
            assert_eq!(result, "Rôle Discord insuffisant.")
        }
        _ => panic!("a GM may not delete"),
    }
    match rathenafr_bot::flows::account_manage_gate(&config, "ban", &options, &gm, roles) {
        rathenafr_bot::flows::AccountManageGate::Disabled { result, .. } => {
            assert_eq!(result, "La gestion des comptes est désactivée par configuration.")
        }
        _ => panic!("management is disabled"),
    }
    assert_eq!(
        rathenafr_bot::flows::missing_table_result(DatabaseTable::Login),
        "Table `login` absente."
    );
}

#[test]
fn gm_messages_sanitize_to_a_fixed_point() {
    for raw in ["  a\u{1}b   @here  c ", "@everyone\t@everyone", "x\u{a0}\u{a0}y"] {
        let once = sanitize_gm_message(raw, 200).unwrap();
        assert_eq!(sanitize_gm_message(&once, 200).unwrap(), once);
        assert!(!once.contains("@everyone") && !once.contains("@here"));
        assert!(!once.contains("  ") && once.trim() == once);
    }
}

#[test]
fn account_manage_steps_after_the_database() {
    match lookup_step(BotLocale::FrFr, AccountManageAction::Edit, "Bob", false) {
        ManageStep::Refuse { account, error } => {
            assert_eq!(account, "Bob");
            assert_eq!(error, rathenafr_bot::i18n::translator::translate(
                BotLocale::FrFr,
                rathenafr_bot::i18n::keys::I18nKey::ErrorAccountExactNotFound,
            ));
        }
        _ => panic!("a missing account is refused"),
    }
    match lookup_step(BotLocale::EnUs, AccountManageAction::Delete, "42", false) {
        ManageStep::Refuse { error, .. } => assert_eq!(error, rathenafr_bot::i18n::translator::translate(
            BotLocale::EnUs,
            rathenafr_bot::i18n::keys::I18nKey::ErrorAccountIdExactNotFound,
        )),
        _ => panic!("a missing account id is refused"),
    }
    assert!(matches!(lookup_step(BotLocale::FrFr, AccountManageAction::Ban, "Bob", true), ManageStep::Continue));
    let failed: Result<(), anyhow::Error> = Err(anyhow::Error::msg("Access denied for user"));
    match sql_step("Bob (#42)", &failed) {
        ManageStep::Fail { account, result } => {
            assert_eq!(account, "Bob (#42)");
            assert_eq!(result, "Permissions SQL insuffisantes pour modifier le compte.");
        }
        _ => panic!("an SQL error fails the action"),
    }
    assert!(matches!(sql_step("Bob", &Ok::<u32, anyhow::Error>(1)), ManageStep::Continue));
}

#[test]
fn catalog_file_names_read_back() {
    for locale in BotLocale::all() {
        let name = locale.file_name();
        let tag = name.strip_suffix(".ftl").unwrap();
        assert_eq!(BotLocale::from_discord(tag), locale);
    }
}
