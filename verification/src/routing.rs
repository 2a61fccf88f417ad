//! Command paths and option lookup in the option tree of a slash command.
use vstd::prelude::*;
use crate::account_manage::Options;
use crate::i18n::locale::is_literal;
use crate::text::{chars_of, join_space, owned, str_eq};

verus! {

/// The value of a slash-command option; sub-commands and groups hold nested options.
pub enum CommandOptionValue {
    SubCommand(Vec<CommandOption>),
    SubCommandGroup(Vec<CommandOption>),
    String(String),
    Integer(i64),
    Other,
}

/// A named slash-command option.
pub struct CommandOption {
    pub name: String,
    pub value: CommandOptionValue,
}

/// The names of the nested sub-commands, following the first sub-command (or group)
/// at each level, starting at option `i`.
pub open spec fn subcommand_path_from(options: Seq<CommandOption>, i: int) -> Seq<Seq<char>>
    decreases options, options.len() - i,
{
    if i < 0 || i >= options.len() {
        Seq::empty()
    } else {
        match options[i].value {
            CommandOptionValue::SubCommand(inner) => {
                seq![options[i].name@] + subcommand_path_from(inner@, 0)
            },
            CommandOptionValue::SubCommandGroup(inner) => {
                seq![options[i].name@] + subcommand_path_from(inner@, 0)
            },
            _ => subcommand_path_from(options, i + 1),
        }
    }
}

pub open spec fn subcommand_path_spec(options: Seq<CommandOption>) -> Seq<Seq<char>> {
    subcommand_path_from(options, 0)
}

/// The value of the first option named `name`, searching depth-first in order.
pub open spec fn find_option_from(options: Seq<CommandOption>, i: int, name: Seq<char>) -> Option<
    CommandOptionValue,
>
    decreases options, options.len() - i,
{
    if i < 0 || i >= options.len() {
        None
    } else if options[i].name@ == name {
        Some(options[i].value)
    } else {
        match options[i].value {
            CommandOptionValue::SubCommand(inner) => match find_option_from(inner@, 0, name) {
                Some(v) => Some(v),
                None => find_option_from(options, i + 1, name),
            },
            CommandOptionValue::SubCommandGroup(inner) => match find_option_from(inner@, 0, name) {
                Some(v) => Some(v),
                None => find_option_from(options, i + 1, name),
            },
            _ => find_option_from(options, i + 1, name),
        }
    }
}

pub open spec fn find_option(options: Seq<CommandOption>, name: Seq<char>) -> Option<
    CommandOptionValue,
> {
    find_option_from(options, 0, name)
}

pub open spec fn string_option_spec(options: Seq<CommandOption>, name: Seq<char>) -> Option<
    Seq<char>,
> {
    match find_option(options, name) {
        Some(CommandOptionValue::String(s)) => Some(s@),
        _ => None,
    }
}

pub open spec fn integer_option_spec(options: Seq<CommandOption>, name: Seq<char>) -> Option<i64> {
    match find_option(options, name) {
        Some(CommandOptionValue::Integer(v)) => Some(v),
        _ => None,
    }
}

/// The command name followed by its sub-command names, separated by spaces.
pub open spec fn command_path_spec(name: Seq<char>, subcommands: Seq<Seq<char>>) -> Seq<char> {
    join_space(seq![name] + subcommands)
}

pub open spec fn str_views(s: Seq<&str>) -> Seq<Seq<char>> {
    Seq::new(s.len(), |i: int| s[i]@)
}

pub fn command_path_from_parts(command_name: &str, subcommands: &[&str]) -> (r: String)
    ensures
        r@ == command_path_spec(command_name@, str_views(subcommands@)),
{
    let mut out = owned(command_name);
    let mut i: usize = 0;
    let ghost all = seq![command_name@] + str_views(subcommands@);
    assert(all.take(1) =~= seq![command_name@]);
    while i < subcommands.len()
        invariant
            i <= subcommands@.len(),
            all == seq![command_name@] + str_views(subcommands@),
            out@ == join_space(all.take(i + 1)),
        decreases subcommands@.len() - i,
    {
        out.append(" ");
        out.append(subcommands[i]);
        proof {
            reveal_strlit(" ");
            let t = all.take(i + 2);
            assert(t.drop_last() =~= all.take(i + 1));
            assert(t.last() == subcommands@[i as int]@);
        }
        i = i + 1;
    }
    assert(all.take(i + 1) =~= all);
    out
}

pub fn command_path(command_name: &str, options: &[CommandOption]) -> (r: String)
    ensures
        r@ == command_path_spec(command_name@, subcommand_path_spec(options@)),
{
    let path = subcommand_path(options);
    command_path_from_parts(command_name, path.as_slice())
}

fn subcommand_path_at<'a>(options: &'a [CommandOption], i: usize) -> (r: Vec<&'a str>)
    requires
        i <= options@.len(),
    ensures
        str_views(r@) == subcommand_path_from(options@, i as int),
    decreases options@, options@.len() - i,
{
    if i >= options.len() {
        let empty: Vec<&'a str> = Vec::new();
        assert(str_views(empty@) =~= Seq::<Seq<char>>::empty());
        return empty;
    }
    match &options[i].value {
        CommandOptionValue::SubCommand(inner) | CommandOptionValue::SubCommandGroup(inner) => {
            assert(decreases_to!(options@ => inner@)) by {
                assert(decreases_to!(options@ => options@[i as int]));
                assert(decreases_to!(options@[i as int] => options@[i as int].value));
            }
            let rest = subcommand_path_at(inner.as_slice(), 0);
            let mut path = Vec::new();
            path.push(options[i].name.as_str());
            let mut k: usize = 0;
            while k < rest.len()
                invariant
                    i < options@.len(),
                    k <= rest@.len(),
                    path@.len() == k + 1,
                    path@[0]@ == options@[i as int].name@,
                    forall|j: int| 0 <= j < k ==> #[trigger] path@[j + 1] == rest@[j],
                decreases rest@.len() - k,
            {
                path.push(rest[k]);
                k = k + 1;
            }
            assert forall|j: int| 1 <= j < path@.len() implies path@[j] == rest@[j - 1] by {
                assert(path@[(j - 1) + 1] == rest@[j - 1]);
            }
            assert(str_views(path@) =~= seq![options@[i as int].name@] + str_views(rest@));
            path
        },
        _ => subcommand_path_at(options, i + 1),
    }
}

/// The names of the nested sub-commands (first sub-command or group at each level).
pub fn subcommand_path<'a>(options: &'a [CommandOption]) -> (r: Vec<&'a str>)
    ensures
        str_views(r@) == subcommand_path_spec(options@),
{
    subcommand_path_at(options, 0)
}

pub open spec fn is_public_pack_root_spec(name: Seq<char>) -> bool {
    ||| name == "server"@
    ||| name == "online"@
    ||| name == "player"@
    ||| name == "guild"@
    ||| name == "castle"@
    ||| name == "item"@
    ||| name == "who-drops"@
    ||| name == "mob"@
    ||| name == "mvp"@
    ||| name == "top"@
    ||| name == "rank"@
    ||| name == "market"@
}

pub open spec fn is_staff_pack_root_spec(name: Seq<char>) -> bool {
    ||| name == "staff"@
    ||| name == "mod"@
    ||| name == "debug"@
    ||| name == "audit"@
    ||| name == "db"@
    ||| name == "gmmsg"@
}

pub fn is_public_pack_root(command_name: &str) -> (r: bool)
    ensures
        r == is_public_pack_root_spec(command_name@),
{
    let cs = chars_of(command_name);
    let n = cs.as_slice();
    is_literal(n, "server") || is_literal(n, "online") || is_literal(n, "player") || is_literal(
        n,
        "guild",
    ) || is_literal(n, "castle") || is_literal(n, "item") || is_literal(n, "who-drops")
        || is_literal(n, "mob") || is_literal(n, "mvp") || is_literal(n, "top") || is_literal(
        n,
        "rank",
    ) || is_literal(n, "market")
}

pub fn is_staff_pack_root(command_name: &str) -> (r: bool)
    ensures
        r == is_staff_pack_root_spec(command_name@),
{
    let cs = chars_of(command_name);
    let n = cs.as_slice();
    is_literal(n, "staff") || is_literal(n, "mod") || is_literal(n, "debug") || is_literal(
        n,
        "audit",
    ) || is_literal(n, "db") || is_literal(n, "gmmsg")
}

/// The public commands whose results may be served from the command cache.
pub open spec fn is_cached_command_spec(name: Seq<char>) -> bool {
    ||| name == "status"@
    ||| name == "guilds"@
    ||| name == "castles"@
    ||| name == "whosell"@
    ||| name == "whobuy"@
    ||| name == "market"@
}

pub fn is_cached_command(command_name: &str) -> (r: bool)
    ensures
        r == is_cached_command_spec(command_name@),
{
    let cs = chars_of(command_name);
    let n = cs.as_slice();
    is_literal(n, "status") || is_literal(n, "guilds") || is_literal(n, "castles") || is_literal(
        n,
        "whosell",
    ) || is_literal(n, "whobuy") || is_literal(n, "market")
}

/// No staff command, and not account creation, is ever answered from the cache.
pub proof fn lemma_sensitive_commands_not_cached(name: Seq<char>)
    requires
        is_staff_pack_root_spec(name) || name == "createaccount"@,
    ensures
        !is_cached_command_spec(name),
{
    reveal_strlit("status");
    reveal_strlit("guilds");
    reveal_strlit("castles");
    reveal_strlit("whosell");
    reveal_strlit("whobuy");
    reveal_strlit("market");
    reveal_strlit("staff");
    reveal_strlit("mod");
    reveal_strlit("debug");
    reveal_strlit("audit");
    reveal_strlit("db");
    reveal_strlit("gmmsg");
    reveal_strlit("createaccount");
    // Every cached name has six or seven characters; no sensitive one does.
    assert(is_cached_command_spec(name) ==> name.len() == 6 || name.len() == 7);
    assert(name.len() == 2 || name.len() == 3 || name.len() == 5 || name.len() == 13);
}


/// The first sub-command name, if any.
pub open spec fn subcommand_name_spec(options: Seq<CommandOption>) -> Option<Seq<char>> {
    let path = subcommand_path_spec(options);
    if path.len() > 0 { Some(path[0]) } else { None }
}

/// The innermost sub-command name below `current`, or `current` when there is none.
pub open spec fn deepest_subcommand_spec(current: Seq<char>, options: Seq<CommandOption>) -> Seq<
    char,
> {
    let path = subcommand_path_spec(options);
    if path.len() > 0 { path.last() } else { current }
}

/// The innermost sub-command name, if any.
pub open spec fn subcommand_leaf_spec(options: Seq<CommandOption>) -> Option<Seq<char>> {
    let path = subcommand_path_spec(options);
    if path.len() > 0 { Some(path.last()) } else { None }
}

fn subcommand_name_at<'a>(options: &'a [CommandOption], i: usize) -> (r: Option<&'a str>)
    requires
        i <= options@.len(),
    ensures
        match r {
            Some(n) => subcommand_path_from(options@, i as int).len() > 0 && n@
                == subcommand_path_from(options@, i as int)[0],
            None => subcommand_path_from(options@, i as int).len() == 0,
        },
    decreases options@.len() - i,
{
    if i >= options.len() {
        return None;
    }
    match &options[i].value {
        CommandOptionValue::SubCommand(_) | CommandOptionValue::SubCommandGroup(_) => Some(
            options[i].name.as_str(),
        ),
        _ => subcommand_name_at(options, i + 1),
    }
}

pub fn subcommand_name<'a>(options: &'a [CommandOption]) -> (r: Option<&'a str>)
    ensures
        opt_str_view(r) == subcommand_name_spec(options@),
{
    subcommand_name_at(options, 0)
}

pub open spec fn opt_str_view(o: Option<&str>) -> Option<Seq<char>> {
    match o {
        Some(s) => Some(s@),
        None => None,
    }
}

fn deepest_at<'a>(current: &'a str, options: &'a [CommandOption], i: usize) -> (r: &'a str)
    requires
        i <= options@.len(),
    ensures
        r@ == (if subcommand_path_from(options@, i as int).len() > 0 {
            subcommand_path_from(options@, i as int).last()
        } else {
            current@
        }),
    decreases options@, options@.len() - i,
{
    if i >= options.len() {
        return current;
    }
    match &options[i].value {
        CommandOptionValue::SubCommand(inner) | CommandOptionValue::SubCommandGroup(inner) => {
            assert(decreases_to!(options@ => inner@)) by {
                assert(decreases_to!(options@ => options@[i as int]));
                assert(decreases_to!(options@[i as int] => options@[i as int].value));
            }
            let r = deepest_subcommand_name(options[i].name.as_str(), inner.as_slice());
            proof {
                let rest = subcommand_path_from(inner@, 0);
                let whole = seq![options@[i as int].name@] + rest;
                if rest.len() > 0 {
                    assert(whole.last() == rest.last());
                }
            }
            r
        },
        _ => deepest_at(current, options, i + 1),
    }
}

pub fn deepest_subcommand_name<'a>(current: &'a str, options: &'a [CommandOption]) -> (r: &'a str)
    ensures
        r@ == deepest_subcommand_spec(current@, options@),
    decreases options@, options@.len() + 1,
{
    deepest_at(current, options, 0)
}

fn leaf_at<'a>(options: &'a [CommandOption], i: usize) -> (r: Option<&'a str>)
    requires
        i <= options@.len(),
    ensures
        opt_str_view(r) == (if subcommand_path_from(options@, i as int).len() > 0 {
            Some(subcommand_path_from(options@, i as int).last())
        } else {
            None
        }),
    decreases options@.len() - i,
{
    if i >= options.len() {
        return None;
    }
    match &options[i].value {
        CommandOptionValue::SubCommand(inner) | CommandOptionValue::SubCommandGroup(inner) => {
            let r = deepest_subcommand_name(options[i].name.as_str(), inner.as_slice());
            proof {
                let rest = subcommand_path_from(inner@, 0);
                let whole = seq![options@[i as int].name@] + rest;
                if rest.len() > 0 {
                    assert(whole.last() == rest.last());
                }
            }
            Some(r)
        },
        _ => leaf_at(options, i + 1),
    }
}

pub fn subcommand_leaf_name<'a>(options: &'a [CommandOption]) -> (r: Option<&'a str>)
    ensures
        opt_str_view(r) == subcommand_leaf_spec(options@),
{
    leaf_at(options, 0)
}

fn option_value_at<'a>(options: &'a [CommandOption], i: usize, name: &[char]) -> (r: Option<
    &'a CommandOptionValue,
>)
    requires
        i <= options@.len(),
    ensures
        match r {
            Some(v) => find_option_from(options@, i as int, name@) == Some(*v),
            None => find_option_from(options@, i as int, name@) is None,
        },
    decreases options@, options@.len() - i,
{
    if i >= options.len() {
        return None;
    }
    let option = &options[i];
    let option_name = chars_of(option.name.as_str());
    if crate::text::chars_eq(option_name.as_slice(), name) {
        return Some(&option.value);
    }
    match &option.value {
        CommandOptionValue::SubCommand(inner) | CommandOptionValue::SubCommandGroup(inner) => {
            assert(decreases_to!(options@ => inner@)) by {
                assert(decreases_to!(options@ => options@[i as int]));
                assert(decreases_to!(options@[i as int] => options@[i as int].value));
            }
            match option_value_at(inner.as_slice(), 0, name) {
                Some(v) => Some(v),
                None => option_value_at(options, i + 1, name),
            }
        },
        _ => option_value_at(options, i + 1, name),
    }
}

/// The value of the first option named `name`, searching sub-commands depth-first.
pub fn option_value<'a>(options: &'a [CommandOption], name: &str) -> (r: Option<
    &'a CommandOptionValue,
>)
    ensures
        match r {
            Some(v) => find_option(options@, name@) == Some(*v),
            None => find_option(options@, name@) is None,
        },
{
    let n = chars_of(name);
    option_value_at(options, 0, n.as_slice())
}

pub fn string_option<'a>(options: &'a [CommandOption], name: &str) -> (r: Option<&'a str>)
    ensures
        opt_str_view(r) == string_option_spec(options@, name@),
{
    match option_value(options, name) {
        Some(CommandOptionValue::String(value)) => Some(value.as_str()),
        _ => None,
    }
}

pub fn integer_option(options: &[CommandOption], name: &str) -> (r: Option<i64>)
    ensures
        r == integer_option_spec(options@, name@),
{
    match option_value(options, name) {
        Some(CommandOptionValue::Integer(value)) => Some(*value),
        _ => None,
    }
}

pub fn non_negative_integer_option(options: &[CommandOption], name: &str) -> (r: Option<i64>)
    ensures
        r == (match integer_option_spec(options@, name@) {
            Some(v) => if v >= 0 { Some(v) } else { None },
            None => None,
        }),
{
    match integer_option(options, name) {
        Some(v) => if v >= 0 { Some(v) } else { None },
        None => None,
    }
}

/// The options of an account-management command, read from its option tree.
pub fn account_manage_options<'a>(options: &'a [CommandOption]) -> (r: Options<'a>)
    ensures
        opt_str_view(r.account) == string_option_spec(options@, "account"@),
        r.account_id == integer_option_spec(options@, "account_id"@),
        opt_str_view(r.field) == string_option_spec(options@, "field"@),
        opt_str_view(r.value) == string_option_spec(options@, "value"@),
        opt_str_view(r.confirm) == string_option_spec(options@, "confirm"@),
        opt_str_view(r.reason) == string_option_spec(options@, "reason"@),
        r.until == (match integer_option_spec(options@, "until"@) {
            Some(v) => if v >= 0 { Some(v) } else { None },
            None => None,
        }),
{
    Options {
        account: string_option(options, "account"),
        account_id: integer_option(options, "account_id"),
        field: string_option(options, "field"),
        value: string_option(options, "value"),
        confirm: string_option(options, "confirm"),
        reason: string_option(options, "reason"),
        until: non_negative_integer_option(options, "until"),
    }
}

} // verus!
