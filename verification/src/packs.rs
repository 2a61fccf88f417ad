//! The command packs: which sub-command a pack runs, the rank it needs, the option
//! each sub-command requires and the tables it reads.
use vstd::prelude::*;

use crate::i18n::catalog::opt_str;
use crate::i18n::keys::I18nKey;
use crate::i18n::locale::{is_literal, BotLocale};
use crate::i18n::translator::{placeholder, translate, translate_spec, translate_with_arg};
use crate::model::{DatabaseTable, StaffRole};
use crate::access::{has_configured_role, has_role_spec, ConfiguredRoles};
use crate::routing::{
    integer_option_spec, non_negative_integer_option, str_views, string_option, string_option_spec,
    subcommand_name, subcommand_name_spec, CommandOption,
};
use crate::text::{chars_of, owned, replace_all};

verus! {

/// A slash command whose work is split into sub-commands.
#[derive(Debug, Clone, Copy, PartialEq, Eq, Structural)]
pub enum Pack {
    Online,
    Item,
    Mvp,
    Mob,
    Market,
    Top,
    Guild,
    Castle,
    Moderation,
    Debug,
    Database,
    Audit,
}

/// The command as users type it, used in the unknown sub-command message.
pub open spec fn pack_command_spec(pack: Pack) -> Seq<char> {
    match pack {
        Pack::Online => "/online"@,
        Pack::Item => "/item"@,
        Pack::Mvp => "/mvp"@,
        Pack::Mob => "/mob"@,
        Pack::Market => "/market"@,
        Pack::Top => "/top"@,
        Pack::Guild => "/guild"@,
        Pack::Castle => "/castle"@,
        Pack::Moderation => "/mod"@,
        Pack::Debug => "/debug"@,
        Pack::Database => "/db"@,
        Pack::Audit => "/audit"@,
    }
}

/// The sub-command run when none is given.
pub open spec fn pack_default_spec(pack: Pack) -> Seq<char> {
    match pack {
        Pack::Online => "count"@,
        Pack::Item => "info"@,
        Pack::Mvp => "list"@,
        Pack::Mob => "info"@,
        Pack::Market => "info"@,
        Pack::Top => "level"@,
        Pack::Guild => "info"@,
        Pack::Castle => "info"@,
        Pack::Moderation => "chatlog"@,
        Pack::Debug => "quest"@,
        Pack::Database => "health"@,
        Pack::Audit => "atcommands"@,
    }
}

/// The sub-commands a pack knows.
pub open spec fn pack_subcommands_spec(pack: Pack) -> Seq<Seq<char>> {
    match pack {
        Pack::Online => seq!["count"@, "list"@, "map"@],
        Pack::Item => seq!["info"@, "search"@],
        Pack::Mvp => seq!["list"@, "last"@, "top"@],
        Pack::Mob => seq!["info"@, "drops"@],
        Pack::Market => seq!["info"@, "sell"@, "buy"@],
        Pack::Top => seq!["level"@, "job"@, "guild"@, "zeny"@],
        Pack::Guild => seq!["info"@, "members"@],
        Pack::Castle => seq!["list"@, "info"@],
        Pack::Moderation => seq!["chatlog"@, "chat-search"@, "report-context"@, "branchlog"@],
        Pack::Debug => seq!["quest"@, "char-vars"@, "acc-vars"@],
        Pack::Database => seq!["health"@, "tables"@, "count"@, "logs-size"@, "last-update"@],
        Pack::Audit => seq!["atcommands"@, "item-created"@, "zeny-created"@, "gm-activity"@],
    }
}

/// The sub-command that runs: the one given (or the default) when the pack knows it.
pub open spec fn pack_subcommand_spec(pack: Pack, given: Option<Seq<char>>) -> Option<Seq<char>> {
    let sub = match given {
        Some(s) => s,
        None => pack_default_spec(pack),
    };
    if pack_subcommands_spec(pack).contains(sub) {
        Some(sub)
    } else {
        None
    }
}

/// The first of `candidates` spelled like `t`.
fn pick(t: &[char], candidates: &[&'static str]) -> (r: Option<&'static str>)
    ensures
        match r {
            Some(c) => c@ == t@ && str_views(candidates@).contains(t@),
            None => !str_views(candidates@).contains(t@),
        },
{
    let mut i: usize = 0;
    while i < candidates.len()
        invariant
            i <= candidates@.len(),
            forall|j: int| 0 <= j < i ==> candidates@[j]@ != t@,
        decreases candidates@.len() - i,
    {
        if is_literal(t, candidates[i]) {
            assert(str_views(candidates@)[i as int] == t@);
            return Some(candidates[i]);
        }
        i = i + 1;
    }
    proof {
        if str_views(candidates@).contains(t@) {
            let k = choose|k: int|
                0 <= k < str_views(candidates@).len() && str_views(candidates@)[k] == t@;
            assert(candidates@[k]@ == t@);
        }
    }
    None
}

/// The sub-command a pack runs for the given one, or `None` when the pack does not
/// know it.
pub fn pack_subcommand(pack: Pack, given: Option<&str>) -> (r: Option<&'static str>)
    ensures
        opt_str(r) == pack_subcommand_spec(pack, opt_str(given)),
{
    let default: &'static str = match pack {
        Pack::Online => "count",
        Pack::Item => "info",
        Pack::Mvp => "list",
        Pack::Mob => "info",
        Pack::Market => "info",
        Pack::Top => "level",
        Pack::Guild => "info",
        Pack::Castle => "info",
        Pack::Moderation => "chatlog",
        Pack::Debug => "quest",
        Pack::Database => "health",
        Pack::Audit => "atcommands",
    };
    let sub: &str = match given {
        Some(s) => s,
        None => default,
    };
    let cs = chars_of(sub);
    let t = cs.as_slice();
    let candidates: &[&'static str] = match pack {
        Pack::Online => &["count", "list", "map"],
        Pack::Item => &["info", "search"],
        Pack::Mvp => &["list", "last", "top"],
        Pack::Mob => &["info", "drops"],
        Pack::Market => &["info", "sell", "buy"],
        Pack::Top => &["level", "job", "guild", "zeny"],
        Pack::Guild => &["info", "members"],
        Pack::Castle => &["list", "info"],
        Pack::Moderation => &["chatlog", "chat-search", "report-context", "branchlog"],
        Pack::Debug => &["quest", "char-vars", "acc-vars"],
        Pack::Database => &["health", "tables", "count", "logs-size", "last-update"],
        Pack::Audit => &["atcommands", "item-created", "zeny-created", "gm-activity"],
    };
    assert(str_views(candidates@) =~= pack_subcommands_spec(pack));
    pick(t, candidates)
}

/// The answer to a sub-command the pack does not know.
pub fn unknown_subcommand_message(locale: BotLocale, pack: Pack) -> (r: String)
    ensures
        r@ == replace_all(
            translate_spec(locale, I18nKey::ErrorUnknownSubcommand),
            placeholder("command"@),
            pack_command_spec(pack),
        ),
{
    let command: &'static str = match pack {
        Pack::Online => "/online",
        Pack::Item => "/item",
        Pack::Mvp => "/mvp",
        Pack::Mob => "/mob",
        Pack::Market => "/market",
        Pack::Top => "/top",
        Pack::Guild => "/guild",
        Pack::Castle => "/castle",
        Pack::Moderation => "/mod",
        Pack::Debug => "/debug",
        Pack::Database => "/db",
        Pack::Audit => "/audit",
    };
    translate_with_arg(locale, I18nKey::ErrorUnknownSubcommand, "command", command)
}

/// The rank a pack needs: moderation a moderator, the database pack the owner, the
/// debug and audit packs their configured rank, the public packs none.
pub open spec fn pack_role_spec(pack: Pack, debug_min: StaffRole, audit_min: StaffRole) -> Option<
    StaffRole,
> {
    match pack {
        Pack::Moderation => Some(StaffRole::Moderator),
        Pack::Database => Some(StaffRole::Owner),
        Pack::Debug => Some(debug_min),
        Pack::Audit => Some(audit_min),
        _ => None,
    }
}

pub fn pack_required_role(pack: Pack, debug_min: StaffRole, audit_min: StaffRole) -> (r: Option<
    StaffRole,
>)
    ensures
        r == pack_role_spec(pack, debug_min, audit_min),
{
    match pack {
        Pack::Moderation => Some(StaffRole::Moderator),
        Pack::Database => Some(StaffRole::Owner),
        Pack::Debug => Some(debug_min),
        Pack::Audit => Some(audit_min),
        _ => None,
    }
}

/// The option a sub-command cannot run without: the item for every market view
/// (checked before the sub-command), the monster for the monster pack, the item or
/// search text for the item pack, the GM for GM logs, the guild name, the castle id.
pub open spec fn required_option_spec(pack: Pack, sub: Seq<char>) -> Option<Seq<char>> {
    match pack {
        Pack::Market => Some("item"@),
        Pack::Mob => if sub == "info"@ || sub == "drops"@ {
            Some("mob"@)
        } else {
            None
        },
        Pack::Item => if sub == "info"@ {
            Some("item"@)
        } else if sub == "search"@ {
            Some("text"@)
        } else {
            None
        },
        Pack::Audit => if sub == "atcommands"@ || sub == "gm-activity"@ {
            Some("gm"@)
        } else {
            None
        },
        Pack::Guild => if sub == "info"@ || sub == "members"@ {
            Some("name"@)
        } else {
            None
        },
        Pack::Castle => if sub == "info"@ {
            Some("castle_id"@)
        } else {
            None
        },
        _ => None,
    }
}

pub fn required_option(pack: Pack, sub: &str) -> (r: Option<&'static str>)
    ensures
        opt_str(r) == required_option_spec(pack, sub@),
{
    let cs = chars_of(sub);
    let t = cs.as_slice();
    match pack {
        Pack::Market => Some("item"),
        Pack::Mob => if is_literal(t, "info") || is_literal(t, "drops") {
            Some("mob")
        } else {
            None
        },
        Pack::Item => if is_literal(t, "info") {
            Some("item")
        } else if is_literal(t, "search") {
            Some("text")
        } else {
            None
        },
        Pack::Audit => if is_literal(t, "atcommands") || is_literal(t, "gm-activity") {
            Some("gm")
        } else {
            None
        },
        Pack::Guild => if is_literal(t, "info") || is_literal(t, "members") {
            Some("name")
        } else {
            None
        },
        Pack::Castle => if is_literal(t, "info") {
            Some("castle_id")
        } else {
            None
        },
        _ => None,
    }
}

/// The tables a sub-command checks before reading.
pub open spec fn sub_tables_spec(pack: Pack, sub: Seq<char>) -> Seq<DatabaseTable> {
    match pack {
        Pack::Market => if sub == "info"@ {
            seq![
                DatabaseTable::Vendings,
                DatabaseTable::VendingItems,
                DatabaseTable::CartInventory,
                DatabaseTable::BuyingStores,
                DatabaseTable::BuyingStoreItems,
            ]
        } else if sub == "sell"@ {
            seq![DatabaseTable::Vendings, DatabaseTable::VendingItems, DatabaseTable::CartInventory]
        } else if sub == "buy"@ {
            seq![DatabaseTable::BuyingStores, DatabaseTable::BuyingStoreItems]
        } else {
            seq![]
        },
        Pack::Guild => if sub == "info"@ || sub == "members"@ {
            guild_tables_spec()
        } else {
            seq![]
        },
        Pack::Top => if sub == "guild"@ {
            guild_tables_spec()
        } else {
            seq![]
        },
        Pack::Castle => if sub == "list"@ || sub == "info"@ {
            seq![DatabaseTable::GuildCastle]
        } else {
            seq![]
        },
        _ => seq![],
    }
}

pub open spec fn guild_tables_spec() -> Seq<DatabaseTable> {
    seq![DatabaseTable::Guild, DatabaseTable::GuildMember, DatabaseTable::Char, DatabaseTable::Login]
}

fn guild_tables() -> (r: Vec<DatabaseTable>)
    ensures
        r@ == guild_tables_spec(),
{
    let mut v = Vec::new();
    v.push(DatabaseTable::Guild);
    v.push(DatabaseTable::GuildMember);
    v.push(DatabaseTable::Char);
    v.push(DatabaseTable::Login);
    assert(v@ =~= guild_tables_spec());
    v
}

pub fn sub_tables(pack: Pack, sub: &str) -> (r: Vec<DatabaseTable>)
    ensures
        r@ == sub_tables_spec(pack, sub@),
{
    let cs = chars_of(sub);
    let t = cs.as_slice();
    let mut v: Vec<DatabaseTable> = Vec::new();
    match pack {
        Pack::Market => {
            if is_literal(t, "info") {
                v.push(DatabaseTable::Vendings);
                v.push(DatabaseTable::VendingItems);
                v.push(DatabaseTable::CartInventory);
                v.push(DatabaseTable::BuyingStores);
                v.push(DatabaseTable::BuyingStoreItems);
            } else if is_literal(t, "sell") {
                v.push(DatabaseTable::Vendings);
                v.push(DatabaseTable::VendingItems);
                v.push(DatabaseTable::CartInventory);
            } else if is_literal(t, "buy") {
                v.push(DatabaseTable::BuyingStores);
                v.push(DatabaseTable::BuyingStoreItems);
            }
        },
        Pack::Guild => {
            if is_literal(t, "info") || is_literal(t, "members") {
                v = guild_tables();
            }
        },
        Pack::Top => {
            if is_literal(t, "guild") {
                v = guild_tables();
            }
        },
        Pack::Castle => {
            if is_literal(t, "list") || is_literal(t, "info") {
                v.push(DatabaseTable::GuildCastle);
            }
        },
        _ => {},
    }
    assert(v@ =~= sub_tables_spec(pack, sub@));
    v
}

/// Whether a required option is present: the castle id as a non-negative integer,
/// the others as text.
pub open spec fn option_present_spec(options: Seq<CommandOption>, name: Seq<char>) -> bool {
    if name == "castle_id"@ {
        match integer_option_spec(options, name) {
            Some(v) => v >= 0,
            None => false,
        }
    } else {
        string_option_spec(options, name) is Some
    }
}

/// What a pack command does before reading the database.
pub enum PackPlan {
    /// The member lacks the pack's rank: answer staff-only, privately.
    StaffOnly,
    /// The sub-command is unknown; the message says so.
    Unknown(String),
    /// A required option is absent.
    MissingOption(&'static str),
    /// Run the sub-command once the listed tables are known to exist.
    Run { sub: &'static str, tables: Vec<DatabaseTable> },
    /// `/market`: look the item up by this text first; `market_plan` decides the rest.
    LookUpItem(String),
    /// `/market`: no item matches the text; the message says so.
    ItemNotFound(String),
}

/// The sub-command step of a pack: unknown, missing its option, or run.
pub open spec fn subcommand_plan_holds(
    r: PackPlan,
    locale: BotLocale,
    pack: Pack,
    options: Seq<CommandOption>,
) -> bool {
    match pack_subcommand_spec(pack, subcommand_name_spec(options)) {
        None => r matches PackPlan::Unknown(m) && m@ == replace_all(
            translate_spec(locale, I18nKey::ErrorUnknownSubcommand),
            placeholder("command"@),
            pack_command_spec(pack),
        ),
        Some(sub) => match required_option_spec(pack, sub) {
            Some(o) if !option_present_spec(options, o) => r matches PackPlan::MissingOption(
                name,
            ) && name@ == o,
            _ => r matches PackPlan::Run { sub: s, tables } && s@ == sub && tables@
                == sub_tables_spec(pack, sub),
        },
    }
}

/// The checks of a pack command, in order: the rank (for staff packs); for `/market`
/// the item option, looked up before anything else; then the sub-command and its
/// required option.
pub open spec fn pack_plan_holds(
    r: PackPlan,
    locale: BotLocale,
    pack: Pack,
    options: Seq<CommandOption>,
    member: Seq<u64>,
    roles: ConfiguredRoles<'_>,
    debug_min: StaffRole,
    audit_min: StaffRole,
) -> bool {
    let role = pack_role_spec(pack, debug_min, audit_min);
    if role is Some && !has_role_spec(member, role->0, roles) {
        r is StaffOnly
    } else if pack == Pack::Market {
        match string_option_spec(options, "item"@) {
            None => r matches PackPlan::MissingOption(o) && o@ == "item"@,
            Some(query) => r matches PackPlan::LookUpItem(q) && q@ == query,
        }
    } else {
        subcommand_plan_holds(r, locale, pack, options)
    }
}

fn option_present(options: &[CommandOption], name: &str) -> (r: bool)
    ensures
        r == option_present_spec(options@, name@),
{
    let cs = chars_of(name);
    if is_literal(cs.as_slice(), "castle_id") {
        non_negative_integer_option(options, name).is_some()
    } else {
        string_option(options, name).is_some()
    }
}

/// Decides what a pack command does with its options and the member's roles.
pub fn pack_plan(
    locale: BotLocale,
    pack: Pack,
    options: &[CommandOption],
    member_role_ids: &[u64],
    roles: ConfiguredRoles<'_>,
    debug_min: StaffRole,
    audit_min: StaffRole,
) -> (r: PackPlan)
    ensures
        pack_plan_holds(r, locale, pack, options@, member_role_ids@, roles, debug_min, audit_min),
{
    if let Some(role) = pack_required_role(pack, debug_min, audit_min) {
        if !has_configured_role(member_role_ids, role, roles) {
            return PackPlan::StaffOnly;
        }
    }
    if pack == Pack::Market {
        return match string_option(options, "item") {
            None => PackPlan::MissingOption("item"),
            Some(query) => PackPlan::LookUpItem(owned(query)),
        };
    }
    subcommand_plan(locale, pack, options)
}

fn subcommand_plan(locale: BotLocale, pack: Pack, options: &[CommandOption]) -> (r: PackPlan)
    ensures
        subcommand_plan_holds(r, locale, pack, options@),
{
    match pack_subcommand(pack, subcommand_name(options)) {
        None => PackPlan::Unknown(unknown_subcommand_message(locale, pack)),
        Some(sub) => {
            if let Some(name) = required_option(pack, sub) {
                if !option_present(options, name) {
                    return PackPlan::MissingOption(name);
                }
            }
            PackPlan::Run { sub, tables: sub_tables(pack, sub) }
        },
    }
}

/// `/market` once its item has been looked up: no such item, else its sub-command.
pub fn market_plan(locale: BotLocale, options: &[CommandOption], item_found: bool) -> (r: PackPlan)
    ensures
        if !item_found {
            r matches PackPlan::ItemNotFound(m) && m@ == translate_spec(
                locale,
                I18nKey::ErrorItemNotFoundGeneric,
            )
        } else {
            subcommand_plan_holds(r, locale, Pack::Market, options@)
        },
{
    if !item_found {
        return PackPlan::ItemNotFound(translate(locale, I18nKey::ErrorItemNotFoundGeneric));
    }
    subcommand_plan(locale, Pack::Market, options)
}

/// The number of lines shown and the number read: one more than shown, so that the
/// answer can tell whether more exist (saturating at the largest `u32`).
pub fn list_limits(display_limit: u32) -> (r: (u32, u32))
    ensures
        r.0 == display_limit,
        r.1 == (if display_limit == u32::MAX { u32::MAX as int } else { display_limit + 1 }),
{
    (display_limit, display_limit.saturating_add(1))
}

/// A staff pack never runs for a member without its rank: the answer is staff-only,
/// whatever the options.
pub proof fn lemma_staff_pack_needs_rank(
    r: PackPlan,
    locale: BotLocale,
    pack: Pack,
    options: Seq<CommandOption>,
    member: Seq<u64>,
    roles: ConfiguredRoles<'_>,
    debug_min: StaffRole,
    audit_min: StaffRole,
)
    requires
        pack_plan_holds(r, locale, pack, options, member, roles, debug_min, audit_min),
        pack_role_spec(pack, debug_min, audit_min) is Some,
        !has_role_spec(member, pack_role_spec(pack, debug_min, audit_min)->0, roles),
    ensures
        r is StaffOnly,
{
}

} // verus!
