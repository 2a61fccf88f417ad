//! Configuration and account records the command logic works on.
use vstd::prelude::*;

verus! {

/// Staff ranks, from the least to the most privileged.
#[derive(Debug, Clone, Copy, PartialEq, Eq, PartialOrd, Ord, Hash, Structural)]
pub enum StaffRole {
    Helper,
    Moderator,
    Gm,
    Admin,
    Owner,
}

/// The position of a rank in the staff hierarchy.
pub open spec fn role_rank(role: StaffRole) -> nat {
    match role {
        StaffRole::Helper => 0,
        StaffRole::Moderator => 1,
        StaffRole::Gm => 2,
        StaffRole::Admin => 3,
        StaffRole::Owner => 4,
    }
}

impl StaffRole {
    /// The position of the rank in the hierarchy (the order of `<=` on roles).
    pub fn rank(self) -> (r: u8)
        ensures
            r == role_rank(self),
    {
        match self {
            StaffRole::Helper => 0,
            StaffRole::Moderator => 1,
            StaffRole::Gm => 2,
            StaffRole::Admin => 3,
            StaffRole::Owner => 4,
        }
    }
}

/// How account passwords are stored in the login table.
#[derive(Debug, Clone, Copy, PartialEq, Eq, Structural)]
pub enum AccountPasswordMode {
    Plain,
    Md5,
}

/// The settings of the account creation and account management commands.
#[derive(Debug, Clone, Copy, PartialEq, Eq)]
pub struct AccountCommandsConfig {
    pub creation_enabled: bool,
    pub password_mode: AccountPasswordMode,
    pub manage_enabled: bool,
    pub delete_enabled: bool,
    pub manage_min_role: StaffRole,
    pub delete_min_role: StaffRole,
}

/// How GM messages reach the game server.
#[derive(Debug, Clone, Copy, PartialEq, Eq, Structural)]
pub enum GameBridgeMode {
    Disabled,
    SqlQueue,
    Bridge,
}

/// rAthena tables the commands read.
#[derive(Debug, Clone, Copy, PartialEq, Eq, Hash, Structural)]
pub enum DatabaseTable {
    Login,
    Char,
    BuyingStores,
    BuyingStoreItems,
    GuildCastle,
    Guild,
    GuildMember,
    Inventory,
    CartInventory,
    Storage,
    GuildStorage,
    Vendings,
    VendingItems,
    Quest,
}

/// The SQL name of each table.
pub open spec fn table_name_spec(table: DatabaseTable) -> Seq<char> {
    match table {
        DatabaseTable::Login => "login"@,
        DatabaseTable::Char => "char"@,
        DatabaseTable::BuyingStores => "buyingstores"@,
        DatabaseTable::BuyingStoreItems => "buyingstore_items"@,
        DatabaseTable::GuildCastle => "guild_castle"@,
        DatabaseTable::Guild => "guild"@,
        DatabaseTable::GuildMember => "guild_member"@,
        DatabaseTable::Inventory => "inventory"@,
        DatabaseTable::CartInventory => "cart_inventory"@,
        DatabaseTable::Storage => "storage"@,
        DatabaseTable::GuildStorage => "guild_storage"@,
        DatabaseTable::Vendings => "vendings"@,
        DatabaseTable::VendingItems => "vending_items"@,
        DatabaseTable::Quest => "quest"@,
    }
}

impl DatabaseTable {
    pub fn name(self) -> (r: &'static str)
        ensures
            r@ == table_name_spec(self),
    {
        match self {
            DatabaseTable::Login => "login",
            DatabaseTable::Char => "char",
            DatabaseTable::BuyingStores => "buyingstores",
            DatabaseTable::BuyingStoreItems => "buyingstore_items",
            DatabaseTable::GuildCastle => "guild_castle",
            DatabaseTable::Guild => "guild",
            DatabaseTable::GuildMember => "guild_member",
            DatabaseTable::Inventory => "inventory",
            DatabaseTable::CartInventory => "cart_inventory",
            DatabaseTable::Storage => "storage",
            DatabaseTable::GuildStorage => "guild_storage",
            DatabaseTable::Vendings => "vendings",
            DatabaseTable::VendingItems => "vending_items",
            DatabaseTable::Quest => "quest",
        }
    }
}

/// The account columns that `/staff account-manage edit` may change.
#[derive(Debug, Clone, Copy, PartialEq, Eq, Structural)]
pub enum AccountManageField {
    GroupId,
    State,
    UnbanTime,
    ExpirationTime,
    Logincount,
    Sex,
}

/// The column name of each editable field.
pub open spec fn field_name_spec(field: AccountManageField) -> Seq<char> {
    match field {
        AccountManageField::GroupId => "group_id"@,
        AccountManageField::State => "state"@,
        AccountManageField::UnbanTime => "unban_time"@,
        AccountManageField::ExpirationTime => "expiration_time"@,
        AccountManageField::Logincount => "logincount"@,
        AccountManageField::Sex => "sex"@,
    }
}

impl AccountManageField {
    pub fn name(self) -> (r: &'static str)
        ensures
            r@ == field_name_spec(self),
    {
        match self {
            AccountManageField::GroupId => "group_id",
            AccountManageField::State => "state",
            AccountManageField::UnbanTime => "unban_time",
            AccountManageField::ExpirationTime => "expiration_time",
            AccountManageField::Logincount => "logincount",
            AccountManageField::Sex => "sex",
        }
    }
}

/// The state of a game account, as read from the login and char tables.
#[derive(Debug, Clone, PartialEq, Eq)]
pub struct AccountStatus {
    pub account_id: i64,
    pub userid: String,
    pub characters: i64,
    pub state: i64,
    pub group_id: i64,
    pub unban_time: i64,
    pub expiration_time: i64,
}

} // verus!
