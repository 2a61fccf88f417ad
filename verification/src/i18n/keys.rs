//! Typed message keys: every message the library renders is named here.
use vstd::prelude::*;

verus! {

#[derive(Debug, Clone, Copy, PartialEq, Eq, Hash, Structural)]
pub enum I18nKey {
    ButtonFirst,
    ButtonPrevious,
    ButtonNext,
    ButtonLast,
    ErrorInvalidMvpPanel,
    ErrorGmmsgEmpty,
    ErrorGmmsgTooLong,
    ErrorGmmsgHexColor,
    GmmsgTestNoSend,
    GmmsgMissingQueue,
    GmmsgEncodingUnsupported,
    GmmsgDisabled,
    GmmsgBridgeNotConfigured,
    ErrorAccountUsernameLength,
    ErrorAccountUsernameChars,
    ErrorAccountPasswordLength,
    ErrorAccountPasswordChars,
    ErrorAccountSex,
    ErrorAccountBirthdate,
    ErrorAccountEmailLength,
    ErrorAccountEmailInvalid,
    ErrorMissingOption,
    ErrorAccountRequired,
    ErrorAccountIdPositive,
    ErrorAccountDeleteDisabled,
    ErrorAccountDeleteConfirm,
    ErrorAccountForbiddenField,
    ErrorAccountInvalidField,
    ErrorAccountValueInteger,
    ErrorAccountValueNonNegative,
    ErrorNoResult,
    ErrorUnknownCommand,
    ErrorUnknownSubcommand,
    ErrorAccountExactNotFound,
    ErrorAccountIdExactNotFound,
    TitleGmMessage,
    ErrorAccountExists,
    ErrorAccountNotFound,
    EmbedAccountModifiedTitle,
    EmbedAccountEditSuccess,
    EmbedAccountBanSuccess,
    EmbedAccountUnbanSuccess,
    EmbedAccountDeleteSuccess,
    ErrorItemNotFoundGeneric,
    ErrorMobNotFoundGeneric,
    ErrorPlayerNotFoundGeneric,
    FieldAccount,
    FieldAction,
    FieldField,
    FieldValue,
    FieldBanEnd,
    FieldBeforeSummary,
    FieldAfterSummary,
    TitleAccountStorage,
    TitleAuditAtcommands,
    TitleAuditCreatedItems,
    TitleAuditZeny,
    TitleCartInventory,
    TitleChatLogSearch,
    TitleDbHealth,
    TitleDebugTables,
    TitleGmActivity,
    TitleGuildStorage,
    TitleItemDetails,
    TitleItemSearch,
    TitleLogVolume,
    TitleMobDetails,
    TitlePlayerRank,
    TitleReportContext,
    TitleSqlUpdates,
    TitleTableCounters,
    TitleTopMvp,
    TitleWhoDrops,
}

/// The catalog key of each typed key.
pub open spec fn key_text(key: I18nKey) -> Seq<char> {
    match key {
        I18nKey::ButtonFirst => "button-first"@,
        I18nKey::ButtonPrevious => "button-previous"@,
        I18nKey::ButtonNext => "button-next"@,
        I18nKey::ButtonLast => "button-last"@,
        I18nKey::ErrorInvalidMvpPanel => "error-invalid-mvp-panel"@,
        I18nKey::ErrorGmmsgEmpty => "error-gmmsg-empty"@,
        I18nKey::ErrorGmmsgTooLong => "error-gmmsg-too-long"@,
        I18nKey::ErrorGmmsgHexColor => "error-gmmsg-hex-color"@,
        I18nKey::GmmsgTestNoSend => "gmmsg-test-no-send"@,
        I18nKey::GmmsgMissingQueue => "gmmsg-missing-queue"@,
        I18nKey::GmmsgEncodingUnsupported => "gmmsg-encoding-unsupported"@,
        I18nKey::GmmsgDisabled => "gmmsg-disabled"@,
        I18nKey::GmmsgBridgeNotConfigured => "gmmsg-bridge-not-configured"@,
        I18nKey::ErrorAccountUsernameLength => "error-account-username-length"@,
        I18nKey::ErrorAccountUsernameChars => "error-account-username-chars"@,
        I18nKey::ErrorAccountPasswordLength => "error-account-password-length"@,
        I18nKey::ErrorAccountPasswordChars => "error-account-password-chars"@,
        I18nKey::ErrorAccountSex => "error-account-sex"@,
        I18nKey::ErrorAccountBirthdate => "error-account-birthdate"@,
        I18nKey::ErrorAccountEmailLength => "error-account-email-length"@,
        I18nKey::ErrorAccountEmailInvalid => "error-account-email-invalid"@,
        I18nKey::ErrorMissingOption => "error-missing-option"@,
        I18nKey::ErrorAccountRequired => "error-account-required"@,
        I18nKey::ErrorAccountIdPositive => "error-account-id-positive"@,
        I18nKey::ErrorAccountDeleteDisabled => "error-account-delete-disabled"@,
        I18nKey::ErrorAccountDeleteConfirm => "error-account-delete-confirm"@,
        I18nKey::ErrorAccountForbiddenField => "error-account-forbidden-field"@,
        I18nKey::ErrorAccountInvalidField => "error-account-invalid-field"@,
        I18nKey::ErrorAccountValueInteger => "error-account-value-integer"@,
        I18nKey::ErrorAccountValueNonNegative => "error-account-value-non-negative"@,
        I18nKey::ErrorNoResult => "error-no-result"@,
        I18nKey::ErrorUnknownCommand => "error-unknown-command"@,
        I18nKey::ErrorUnknownSubcommand => "error-unknown-subcommand"@,
        I18nKey::ErrorAccountExactNotFound => "error-account-exact-not-found"@,
        I18nKey::ErrorAccountIdExactNotFound => "error-account-id-exact-not-found"@,
        I18nKey::TitleGmMessage => "title-gm-message"@,
        I18nKey::ErrorAccountExists => "error-account-exists"@,
        I18nKey::ErrorAccountNotFound => "error-account-not-found"@,
        I18nKey::EmbedAccountModifiedTitle => "embed-account-modified-title"@,
        I18nKey::EmbedAccountEditSuccess => "embed-account-edit-success"@,
        I18nKey::EmbedAccountBanSuccess => "embed-account-ban-success"@,
        I18nKey::EmbedAccountUnbanSuccess => "embed-account-unban-success"@,
        I18nKey::EmbedAccountDeleteSuccess => "embed-account-delete-success"@,
        I18nKey::ErrorItemNotFoundGeneric => "error-item-not-found-generic"@,
        I18nKey::ErrorMobNotFoundGeneric => "error-mob-not-found-generic"@,
        I18nKey::ErrorPlayerNotFoundGeneric => "error-player-not-found-generic"@,
        I18nKey::FieldAccount => "field-account"@,
        I18nKey::FieldAction => "field-action"@,
        I18nKey::FieldField => "field-field"@,
        I18nKey::FieldValue => "field-value"@,
        I18nKey::FieldBanEnd => "field-ban-end"@,
        I18nKey::FieldBeforeSummary => "field-before-summary"@,
        I18nKey::FieldAfterSummary => "field-after-summary"@,
        I18nKey::TitleAccountStorage => "title-account-storage"@,
        I18nKey::TitleAuditAtcommands => "title-audit-atcommands"@,
        I18nKey::TitleAuditCreatedItems => "title-audit-created-items"@,
        I18nKey::TitleAuditZeny => "title-audit-zeny"@,
        I18nKey::TitleCartInventory => "title-cart-inventory"@,
        I18nKey::TitleChatLogSearch => "title-chat-log-search"@,
        I18nKey::TitleDbHealth => "title-db-health"@,
        I18nKey::TitleDebugTables => "title-debug-tables"@,
        I18nKey::TitleGmActivity => "title-gm-activity"@,
        I18nKey::TitleGuildStorage => "title-guild-storage"@,
        I18nKey::TitleItemDetails => "title-item-details"@,
        I18nKey::TitleItemSearch => "title-item-search"@,
        I18nKey::TitleLogVolume => "title-log-volume"@,
        I18nKey::TitleMobDetails => "title-mob-details"@,
        I18nKey::TitlePlayerRank => "title-player-rank"@,
        I18nKey::TitleReportContext => "title-report-context"@,
        I18nKey::TitleSqlUpdates => "title-sql-updates"@,
        I18nKey::TitleTableCounters => "title-table-counters"@,
        I18nKey::TitleTopMvp => "title-top-mvp"@,
        I18nKey::TitleWhoDrops => "title-who-drops"@,
    }
}

impl I18nKey {
    pub fn as_str(self) -> (r: &'static str)
        ensures
            r@ == key_text(self),
    {
        match self {
            I18nKey::ButtonFirst => "button-first",
            I18nKey::ButtonPrevious => "button-previous",
            I18nKey::ButtonNext => "button-next",
            I18nKey::ButtonLast => "button-last",
            I18nKey::ErrorInvalidMvpPanel => "error-invalid-mvp-panel",
            I18nKey::ErrorGmmsgEmpty => "error-gmmsg-empty",
            I18nKey::ErrorGmmsgTooLong => "error-gmmsg-too-long",
            I18nKey::ErrorGmmsgHexColor => "error-gmmsg-hex-color",
            I18nKey::GmmsgTestNoSend => "gmmsg-test-no-send",
            I18nKey::GmmsgMissingQueue => "gmmsg-missing-queue",
            I18nKey::GmmsgEncodingUnsupported => "gmmsg-encoding-unsupported",
            I18nKey::GmmsgDisabled => "gmmsg-disabled",
            I18nKey::GmmsgBridgeNotConfigured => "gmmsg-bridge-not-configured",
            I18nKey::ErrorAccountUsernameLength => "error-account-username-length",
            I18nKey::ErrorAccountUsernameChars => "error-account-username-chars",
            I18nKey::ErrorAccountPasswordLength => "error-account-password-length",
            I18nKey::ErrorAccountPasswordChars => "error-account-password-chars",
            I18nKey::ErrorAccountSex => "error-account-sex",
            I18nKey::ErrorAccountBirthdate => "error-account-birthdate",
            I18nKey::ErrorAccountEmailLength => "error-account-email-length",
            I18nKey::ErrorAccountEmailInvalid => "error-account-email-invalid",
            I18nKey::ErrorMissingOption => "error-missing-option",
            I18nKey::ErrorAccountRequired => "error-account-required",
            I18nKey::ErrorAccountIdPositive => "error-account-id-positive",
            I18nKey::ErrorAccountDeleteDisabled => "error-account-delete-disabled",
            I18nKey::ErrorAccountDeleteConfirm => "error-account-delete-confirm",
            I18nKey::ErrorAccountForbiddenField => "error-account-forbidden-field",
            I18nKey::ErrorAccountInvalidField => "error-account-invalid-field",
            I18nKey::ErrorAccountValueInteger => "error-account-value-integer",
            I18nKey::ErrorAccountValueNonNegative => "error-account-value-non-negative",
            I18nKey::ErrorNoResult => "error-no-result",
            I18nKey::ErrorUnknownCommand => "error-unknown-command",
            I18nKey::ErrorUnknownSubcommand => "error-unknown-subcommand",
            I18nKey::ErrorAccountExactNotFound => "error-account-exact-not-found",
            I18nKey::ErrorAccountIdExactNotFound => "error-account-id-exact-not-found",
            I18nKey::TitleGmMessage => "title-gm-message",
            I18nKey::ErrorAccountExists => "error-account-exists",
            I18nKey::ErrorAccountNotFound => "error-account-not-found",
            I18nKey::EmbedAccountModifiedTitle => "embed-account-modified-title",
            I18nKey::EmbedAccountEditSuccess => "embed-account-edit-success",
            I18nKey::EmbedAccountBanSuccess => "embed-account-ban-success",
            I18nKey::EmbedAccountUnbanSuccess => "embed-account-unban-success",
            I18nKey::EmbedAccountDeleteSuccess => "embed-account-delete-success",
            I18nKey::ErrorItemNotFoundGeneric => "error-item-not-found-generic",
            I18nKey::ErrorMobNotFoundGeneric => "error-mob-not-found-generic",
            I18nKey::ErrorPlayerNotFoundGeneric => "error-player-not-found-generic",
            I18nKey::FieldAccount => "field-account",
            I18nKey::FieldAction => "field-action",
            I18nKey::FieldField => "field-field",
            I18nKey::FieldValue => "field-value",
            I18nKey::FieldBanEnd => "field-ban-end",
            I18nKey::FieldBeforeSummary => "field-before-summary",
            I18nKey::FieldAfterSummary => "field-after-summary",
            I18nKey::TitleAccountStorage => "title-account-storage",
            I18nKey::TitleAuditAtcommands => "title-audit-atcommands",
            I18nKey::TitleAuditCreatedItems => "title-audit-created-items",
            I18nKey::TitleAuditZeny => "title-audit-zeny",
            I18nKey::TitleCartInventory => "title-cart-inventory",
            I18nKey::TitleChatLogSearch => "title-chat-log-search",
            I18nKey::TitleDbHealth => "title-db-health",
            I18nKey::TitleDebugTables => "title-debug-tables",
            I18nKey::TitleGmActivity => "title-gm-activity",
            I18nKey::TitleGuildStorage => "title-guild-storage",
            I18nKey::TitleItemDetails => "title-item-details",
            I18nKey::TitleItemSearch => "title-item-search",
            I18nKey::TitleLogVolume => "title-log-volume",
            I18nKey::TitleMobDetails => "title-mob-details",
            I18nKey::TitlePlayerRank => "title-player-rank",
            I18nKey::TitleReportContext => "title-report-context",
            I18nKey::TitleSqlUpdates => "title-sql-updates",
            I18nKey::TitleTableCounters => "title-table-counters",
            I18nKey::TitleTopMvp => "title-top-mvp",
            I18nKey::TitleWhoDrops => "title-who-drops",
        }
    }

    /// Every typed key, each once.
    pub fn all() -> (r: Vec<I18nKey>)
        ensures
            r@ == seq![
                I18nKey::ButtonFirst,
                I18nKey::ButtonPrevious,
                I18nKey::ButtonNext,
                I18nKey::ButtonLast,
                I18nKey::ErrorInvalidMvpPanel,
                I18nKey::ErrorGmmsgEmpty,
                I18nKey::ErrorGmmsgTooLong,
                I18nKey::ErrorGmmsgHexColor,
                I18nKey::GmmsgTestNoSend,
                I18nKey::GmmsgMissingQueue,
                I18nKey::GmmsgEncodingUnsupported,
                I18nKey::GmmsgDisabled,
                I18nKey::GmmsgBridgeNotConfigured,
                I18nKey::ErrorAccountUsernameLength,
                I18nKey::ErrorAccountUsernameChars,
                I18nKey::ErrorAccountPasswordLength,
                I18nKey::ErrorAccountPasswordChars,
                I18nKey::ErrorAccountSex,
                I18nKey::ErrorAccountBirthdate,
                I18nKey::ErrorAccountEmailLength,
                I18nKey::ErrorAccountEmailInvalid,
                I18nKey::ErrorMissingOption,
                I18nKey::ErrorAccountRequired,
                I18nKey::ErrorAccountIdPositive,
                I18nKey::ErrorAccountDeleteDisabled,
                I18nKey::ErrorAccountDeleteConfirm,
                I18nKey::ErrorAccountForbiddenField,
                I18nKey::ErrorAccountInvalidField,
                I18nKey::ErrorAccountValueInteger,
                I18nKey::ErrorAccountValueNonNegative,
                I18nKey::ErrorNoResult,
                I18nKey::ErrorUnknownCommand,
                I18nKey::ErrorUnknownSubcommand,
                I18nKey::ErrorAccountExactNotFound,
                I18nKey::ErrorAccountIdExactNotFound,
                I18nKey::TitleGmMessage,
                I18nKey::ErrorAccountExists,
                I18nKey::ErrorAccountNotFound,
                I18nKey::EmbedAccountModifiedTitle,
                I18nKey::EmbedAccountEditSuccess,
                I18nKey::EmbedAccountBanSuccess,
                I18nKey::EmbedAccountUnbanSuccess,
                I18nKey::EmbedAccountDeleteSuccess,
                I18nKey::ErrorItemNotFoundGeneric,
                I18nKey::ErrorMobNotFoundGeneric,
                I18nKey::ErrorPlayerNotFoundGeneric,
                I18nKey::FieldAccount,
                I18nKey::FieldAction,
                I18nKey::FieldField,
                I18nKey::FieldValue,
                I18nKey::FieldBanEnd,
                I18nKey::FieldBeforeSummary,
                I18nKey::FieldAfterSummary,
                I18nKey::TitleAccountStorage,
                I18nKey::TitleAuditAtcommands,
                I18nKey::TitleAuditCreatedItems,
                I18nKey::TitleAuditZeny,
                I18nKey::TitleCartInventory,
                I18nKey::TitleChatLogSearch,
                I18nKey::TitleDbHealth,
                I18nKey::TitleDebugTables,
                I18nKey::TitleGmActivity,
                I18nKey::TitleGuildStorage,
                I18nKey::TitleItemDetails,
                I18nKey::TitleItemSearch,
                I18nKey::TitleLogVolume,
                I18nKey::TitleMobDetails,
                I18nKey::TitlePlayerRank,
                I18nKey::TitleReportContext,
                I18nKey::TitleSqlUpdates,
                I18nKey::TitleTableCounters,
                I18nKey::TitleTopMvp,
                I18nKey::TitleWhoDrops,
            ],
    {
        let mut keys = Vec::new();
        keys.push(I18nKey::ButtonFirst);
        keys.push(I18nKey::ButtonPrevious);
        keys.push(I18nKey::ButtonNext);
        keys.push(I18nKey::ButtonLast);
        keys.push(I18nKey::ErrorInvalidMvpPanel);
        keys.push(I18nKey::ErrorGmmsgEmpty);
        keys.push(I18nKey::ErrorGmmsgTooLong);
        keys.push(I18nKey::ErrorGmmsgHexColor);
        keys.push(I18nKey::GmmsgTestNoSend);
        keys.push(I18nKey::GmmsgMissingQueue);
        keys.push(I18nKey::GmmsgEncodingUnsupported);
        keys.push(I18nKey::GmmsgDisabled);
        keys.push(I18nKey::GmmsgBridgeNotConfigured);
        keys.push(I18nKey::ErrorAccountUsernameLength);
        keys.push(I18nKey::ErrorAccountUsernameChars);
        keys.push(I18nKey::ErrorAccountPasswordLength);
        keys.push(I18nKey::ErrorAccountPasswordChars);
        keys.push(I18nKey::ErrorAccountSex);
        keys.push(I18nKey::ErrorAccountBirthdate);
        keys.push(I18nKey::ErrorAccountEmailLength);
        keys.push(I18nKey::ErrorAccountEmailInvalid);
        keys.push(I18nKey::ErrorMissingOption);
        keys.push(I18nKey::ErrorAccountRequired);
        keys.push(I18nKey::ErrorAccountIdPositive);
        keys.push(I18nKey::ErrorAccountDeleteDisabled);
        keys.push(I18nKey::ErrorAccountDeleteConfirm);
        keys.push(I18nKey::ErrorAccountForbiddenField);
        keys.push(I18nKey::ErrorAccountInvalidField);
        keys.push(I18nKey::ErrorAccountValueInteger);
        keys.push(I18nKey::ErrorAccountValueNonNegative);
        keys.push(I18nKey::ErrorNoResult);
        keys.push(I18nKey::ErrorUnknownCommand);
        keys.push(I18nKey::ErrorUnknownSubcommand);
        keys.push(I18nKey::ErrorAccountExactNotFound);
        keys.push(I18nKey::ErrorAccountIdExactNotFound);
        keys.push(I18nKey::TitleGmMessage);
        keys.push(I18nKey::ErrorAccountExists);
        keys.push(I18nKey::ErrorAccountNotFound);
        keys.push(I18nKey::EmbedAccountModifiedTitle);
        keys.push(I18nKey::EmbedAccountEditSuccess);
        keys.push(I18nKey::EmbedAccountBanSuccess);
        keys.push(I18nKey::EmbedAccountUnbanSuccess);
        keys.push(I18nKey::EmbedAccountDeleteSuccess);
        keys.push(I18nKey::ErrorItemNotFoundGeneric);
        keys.push(I18nKey::ErrorMobNotFoundGeneric);
        keys.push(I18nKey::ErrorPlayerNotFoundGeneric);
        keys.push(I18nKey::FieldAccount);
        keys.push(I18nKey::FieldAction);
        keys.push(I18nKey::FieldField);
        keys.push(I18nKey::FieldValue);
        keys.push(I18nKey::FieldBanEnd);
        keys.push(I18nKey::FieldBeforeSummary);
        keys.push(I18nKey::FieldAfterSummary);
        keys.push(I18nKey::TitleAccountStorage);
        keys.push(I18nKey::TitleAuditAtcommands);
        keys.push(I18nKey::TitleAuditCreatedItems);
        keys.push(I18nKey::TitleAuditZeny);
        keys.push(I18nKey::TitleCartInventory);
        keys.push(I18nKey::TitleChatLogSearch);
        keys.push(I18nKey::TitleDbHealth);
        keys.push(I18nKey::TitleDebugTables);
        keys.push(I18nKey::TitleGmActivity);
        keys.push(I18nKey::TitleGuildStorage);
        keys.push(I18nKey::TitleItemDetails);
        keys.push(I18nKey::TitleItemSearch);
        keys.push(I18nKey::TitleLogVolume);
        keys.push(I18nKey::TitleMobDetails);
        keys.push(I18nKey::TitlePlayerRank);
        keys.push(I18nKey::TitleReportContext);
        keys.push(I18nKey::TitleSqlUpdates);
        keys.push(I18nKey::TitleTableCounters);
        keys.push(I18nKey::TitleTopMvp);
        keys.push(I18nKey::TitleWhoDrops);
        assert(keys@ =~= seq![
            I18nKey::ButtonFirst,
            I18nKey::ButtonPrevious,
            I18nKey::ButtonNext,
            I18nKey::ButtonLast,
            I18nKey::ErrorInvalidMvpPanel,
            I18nKey::ErrorGmmsgEmpty,
            I18nKey::ErrorGmmsgTooLong,
            I18nKey::ErrorGmmsgHexColor,
            I18nKey::GmmsgTestNoSend,
            I18nKey::GmmsgMissingQueue,
            I18nKey::GmmsgEncodingUnsupported,
            I18nKey::GmmsgDisabled,
            I18nKey::GmmsgBridgeNotConfigured,
            I18nKey::ErrorAccountUsernameLength,
            I18nKey::ErrorAccountUsernameChars,
            I18nKey::ErrorAccountPasswordLength,
            I18nKey::ErrorAccountPasswordChars,
            I18nKey::ErrorAccountSex,
            I18nKey::ErrorAccountBirthdate,
            I18nKey::ErrorAccountEmailLength,
            I18nKey::ErrorAccountEmailInvalid,
            I18nKey::ErrorMissingOption,
            I18nKey::ErrorAccountRequired,
            I18nKey::ErrorAccountIdPositive,
            I18nKey::ErrorAccountDeleteDisabled,
            I18nKey::ErrorAccountDeleteConfirm,
            I18nKey::ErrorAccountForbiddenField,
            I18nKey::ErrorAccountInvalidField,
            I18nKey::ErrorAccountValueInteger,
            I18nKey::ErrorAccountValueNonNegative,
            I18nKey::ErrorNoResult,
            I18nKey::ErrorUnknownCommand,
            I18nKey::ErrorUnknownSubcommand,
            I18nKey::ErrorAccountExactNotFound,
            I18nKey::ErrorAccountIdExactNotFound,
            I18nKey::TitleGmMessage,
            I18nKey::ErrorAccountExists,
            I18nKey::ErrorAccountNotFound,
            I18nKey::EmbedAccountModifiedTitle,
            I18nKey::EmbedAccountEditSuccess,
            I18nKey::EmbedAccountBanSuccess,
            I18nKey::EmbedAccountUnbanSuccess,
            I18nKey::EmbedAccountDeleteSuccess,
            I18nKey::ErrorItemNotFoundGeneric,
            I18nKey::ErrorMobNotFoundGeneric,
            I18nKey::ErrorPlayerNotFoundGeneric,
            I18nKey::FieldAccount,
            I18nKey::FieldAction,
            I18nKey::FieldField,
            I18nKey::FieldValue,
            I18nKey::FieldBanEnd,
            I18nKey::FieldBeforeSummary,
            I18nKey::FieldAfterSummary,
            I18nKey::TitleAccountStorage,
            I18nKey::TitleAuditAtcommands,
            I18nKey::TitleAuditCreatedItems,
            I18nKey::TitleAuditZeny,
            I18nKey::TitleCartInventory,
            I18nKey::TitleChatLogSearch,
            I18nKey::TitleDbHealth,
            I18nKey::TitleDebugTables,
            I18nKey::TitleGmActivity,
            I18nKey::TitleGuildStorage,
            I18nKey::TitleItemDetails,
            I18nKey::TitleItemSearch,
            I18nKey::TitleLogVolume,
            I18nKey::TitleMobDetails,
            I18nKey::TitlePlayerRank,
            I18nKey::TitleReportContext,
            I18nKey::TitleSqlUpdates,
            I18nKey::TitleTableCounters,
            I18nKey::TitleTopMvp,
            I18nKey::TitleWhoDrops,
        ]);
        keys
    }
}

} // verus!
