//! The message catalogs and the lookup of a key in them.
use vstd::prelude::*;
use crate::i18n::locale::BotLocale;
use crate::text::{
    chars_eq, chars_of, find_char, first_index_of, lemma_first_index_in_bounds, split_on, split_once_spec, trim, trim_bounds,
};

verus! {

/// The `fr-FR` message catalog: `key = value` lines, `#` comments.
pub const FR_FR: &'static str = "# Catalogue français (langue par défaut).

button-first = Début
button-previous = Précédent
button-next = Suivant
button-last = Fin
error-invalid-mvp-panel = Panneau MVP invalide ou expiré.
error-gmmsg-empty = Le message ne peut pas être vide.
error-gmmsg-too-long = Le message dépasse la limite configurée de { $max } caractères.
error-gmmsg-hex-color = La couleur doit être au format RRGGBB.
gmmsg-test-no-send = Mode test actif : aucun message n’a été envoyé en jeu.
gmmsg-missing-queue = La table `discord_gmmsg_queue` est absente.
gmmsg-encoding-unsupported = Le message contient des caractères non compatibles avec l’encodage Windows-1252 utilisé par le client en jeu.
gmmsg-disabled = GMMSG est désactivé dans la configuration.
gmmsg-bridge-not-configured = Le bridge en jeu n’est pas configuré.
error-account-username-length = Le nom de compte doit contenir entre 4 et 23 caractères.
error-account-username-chars = Le nom de compte doit contenir uniquement lettres, chiffres ou `_`.
error-account-password-length = Le mot de passe doit contenir entre 8 et 32 caractères.
error-account-password-chars = Le mot de passe ne doit pas contenir d’espace ou caractère de contrôle.
error-account-sex = Le sexe du compte doit être `M` ou `F`.
error-account-birthdate = La date de naissance doit être au format `YYYY-MM-DD`.
error-account-email-length = L’email du compte doit contenir au maximum 39 caractères.
error-account-email-invalid = L’email du compte est invalide.
error-missing-option = Option obligatoire manquante : { $option }.
error-account-required = Le compte doit être renseigné.
error-account-id-positive = L’account_id doit être strictement positif.
error-account-delete-disabled = La désactivation forte de compte est désactivée par configuration.
error-account-delete-confirm = Confirmation invalide. Renseigne `SUPPRIMER` exactement.
error-account-forbidden-field = Le champ `{ $field }` ne peut jamais être modifié par cette commande.
error-account-invalid-field = Le champ `{ $field }` n’est pas autorisé.
error-account-value-integer = La valeur de `{ $field }` doit être un entier.
error-account-value-non-negative = La valeur de `{ $field }` doit être positive ou nulle.
error-no-result = Aucun résultat.
error-unknown-command = Commande inconnue.
error-unknown-subcommand = Sous-commande { $command } inconnue.
error-account-exact-not-found = Aucun compte ne correspond exactement à ce userid ou account_id.
error-account-id-exact-not-found = Aucun compte ne correspond à cet account_id.
title-gm-message = Message GM
error-account-exists = Le compte `{ $account }` existe déjà.
error-account-not-found = Aucun compte n’a été trouvé.
embed-account-modified-title = Compte modifié
embed-account-edit-success = Le compte a été modifié.
embed-account-ban-success = Le compte a été bloqué.
embed-account-unban-success = Le compte a été débloqué.
embed-account-delete-success = Le compte a été désactivé fortement. Aucune ligne `login` n’a été supprimée.
error-item-not-found-generic = Aucun item n’a été trouvé.
error-mob-not-found-generic = Aucun monstre n’a été trouvé.
error-player-not-found-generic = Aucun personnage n’a été trouvé.
field-account = Compte
field-action = Action
field-field = Champ
field-value = Valeur
field-ban-end = Fin de ban
field-before-summary = Résumé avant action
field-after-summary = Résumé après action
title-account-storage = Storage compte
title-audit-atcommands = Audit atcommands
title-audit-created-items = Audit des items créés
title-audit-zeny = Audit zeny
title-cart-inventory = Cart personnage
title-chat-log-search = Recherche chatlog
title-db-health = DB health
title-debug-tables = Tables rAthena détectées
title-gm-activity = Activite GM
title-guild-storage = Storage guilde
title-item-details = Fiche item
title-item-search = Recherche items
title-log-volume = Volume des logs
title-mob-details = Fiche monstre
title-player-rank = Rang personnage
title-report-context = Contexte signalement
title-sql-updates = sql_updates
title-table-counters = Compteurs de tables
title-top-mvp = Top MVP
title-who-drops = Who drops
";

/// The `en-US` message catalog: `key = value` lines, `#` comments.
pub const EN_US: &'static str = "# English catalog.

button-first = First
button-previous = Previous
button-next = Next
button-last = Last
error-invalid-mvp-panel = Invalid or expired MVP panel.
error-gmmsg-empty = The message cannot be empty.
error-gmmsg-too-long = The message exceeds the configured limit of { $max } characters.
error-gmmsg-hex-color = The color must use the RRGGBB format.
gmmsg-test-no-send = Test mode active: no message was sent in game.
gmmsg-missing-queue = The `discord_gmmsg_queue` table is missing.
gmmsg-encoding-unsupported = The message contains characters that are not compatible with the Windows-1252 encoding used by the game client.
gmmsg-disabled = GMMSG is disabled in the configuration.
gmmsg-bridge-not-configured = The in-game bridge is not configured.
error-account-username-length = The account name must contain between 4 and 23 characters.
error-account-username-chars = The account name may only contain letters, digits or `_`.
error-account-password-length = The password must contain between 8 and 32 characters.
error-account-password-chars = The password must not contain spaces or control characters.
error-account-sex = The account sex must be `M` or `F`.
error-account-birthdate = The birth date must use the `YYYY-MM-DD` format.
error-account-email-length = The account email may contain at most 39 characters.
error-account-email-invalid = The account email is invalid.
error-missing-option = Missing required option: { $option }.
error-account-required = The account must be provided.
error-account-id-positive = The account_id must be strictly positive.
error-account-delete-disabled = Strong account deactivation is disabled by configuration.
error-account-delete-confirm = Invalid confirmation. Enter `SUPPRIMER` exactly.
error-account-forbidden-field = The field `{ $field }` can never be modified by this command.
error-account-invalid-field = The field `{ $field }` is not allowed.
error-account-value-integer = The value of `{ $field }` must be an integer.
error-account-value-non-negative = The value of `{ $field }` must be zero or positive.
error-no-result = No result.
error-unknown-command = Unknown command.
error-unknown-subcommand = Unknown { $command } subcommand.
error-account-exact-not-found = No account exactly matches this userid or account_id.
error-account-id-exact-not-found = No account matches this account_id.
title-gm-message = GM message
error-account-exists = The account `{ $account }` already exists.
error-account-not-found = No account was found.
embed-account-modified-title = Account updated
embed-account-edit-success = The account was updated.
embed-account-ban-success = The account was blocked.
embed-account-unban-success = The account was unblocked.
embed-account-delete-success = The account was strongly disabled. No `login` row was deleted.
error-item-not-found-generic = No item was found.
error-mob-not-found-generic = No monster was found.
error-player-not-found-generic = No character was found.
field-account = Account
field-action = Action
field-field = Field
field-value = Value
field-ban-end = Ban end
field-before-summary = Summary before the action
field-after-summary = Summary after the action
title-account-storage = Account storage
title-audit-atcommands = Atcommand audit
title-audit-created-items = Created items audit
title-audit-zeny = Zeny audit
title-cart-inventory = Character cart
title-chat-log-search = Chat log search
title-db-health = DB health
title-debug-tables = Detected rAthena tables
title-gm-activity = GM activity
title-guild-storage = Guild storage
title-item-details = Item details
title-item-search = Item search
title-log-volume = Log volume
title-mob-details = Monster details
title-player-rank = Character rank
title-report-context = Report context
title-sql-updates = sql_updates
title-table-counters = Table counters
title-top-mvp = Top MVP
title-who-drops = Who drops
";

/// The `es-ES` message catalog: `key = value` lines, `#` comments.
pub const ES_ES: &'static str = "# Catálogo en español.

button-first = Inicio
button-previous = Anterior
button-next = Siguiente
button-last = Final
error-invalid-mvp-panel = Panel MVP no válido o caducado.
error-gmmsg-empty = El mensaje no puede estar vacío.
error-gmmsg-too-long = El mensaje supera el límite configurado de { $max } caracteres.
error-gmmsg-hex-color = El color debe tener el formato RRGGBB.
gmmsg-test-no-send = Modo de prueba activo: no se envió ningún mensaje en el juego.
gmmsg-missing-queue = Falta la tabla `discord_gmmsg_queue`.
gmmsg-encoding-unsupported = El mensaje contiene caracteres no compatibles con la codificación Windows-1252 que usa el cliente del juego.
gmmsg-disabled = GMMSG está desactivado en la configuración.
gmmsg-bridge-not-configured = El puente del juego no está configurado.
error-account-username-length = El nombre de cuenta debe contener entre 4 y 23 caracteres.
error-account-username-chars = El nombre de cuenta solo puede contener letras, números o `_`.
error-account-password-length = La contraseña debe contener entre 8 y 32 caracteres.
error-account-password-chars = La contraseña no debe contener espacios ni caracteres de control.
error-account-sex = El sexo de la cuenta debe ser `M` o `F`.
error-account-birthdate = La fecha de nacimiento debe tener el formato `YYYY-MM-DD`.
error-account-email-length = El correo de la cuenta debe contener como máximo 39 caracteres.
error-account-email-invalid = El correo de la cuenta no es válido.
error-missing-option = Falta la opción obligatoria: { $option }.
error-account-required = Debe indicarse la cuenta.
error-account-id-positive = El account_id debe ser estrictamente positivo.
error-account-delete-disabled = La desactivación fuerte de cuentas está desactivada por configuración.
error-account-delete-confirm = Confirmación no válida. Escribe `SUPPRIMER` exactamente.
error-account-forbidden-field = El campo `{ $field }` nunca puede modificarse con este comando.
error-account-invalid-field = El campo `{ $field }` no está permitido.
error-account-value-integer = El valor de `{ $field }` debe ser un número entero.
error-account-value-non-negative = El valor de `{ $field }` debe ser positivo o cero.
error-no-result = Ningún resultado.
error-unknown-command = Comando desconocido.
error-unknown-subcommand = Subcomando { $command } desconocido.
error-account-exact-not-found = Ninguna cuenta coincide exactamente con este userid o account_id.
error-account-id-exact-not-found = Ninguna cuenta coincide con este account_id.
title-gm-message = Mensaje GM
error-account-exists = La cuenta `{ $account }` ya existe.
error-account-not-found = No se encontró ninguna cuenta.
embed-account-modified-title = Cuenta modificada
embed-account-edit-success = La cuenta se ha modificado.
embed-account-ban-success = La cuenta se ha bloqueado.
embed-account-unban-success = La cuenta se ha desbloqueado.
embed-account-delete-success = La cuenta se ha desactivado por completo. No se ha borrado ninguna fila de `login`.
error-item-not-found-generic = No se ha encontrado ningún objeto.
error-mob-not-found-generic = No se ha encontrado ningún monstruo.
error-player-not-found-generic = No se ha encontrado ningún personaje.
field-account = Cuenta
field-action = Acción
field-field = Campo
field-value = Valor
field-ban-end = Fin del bloqueo
field-before-summary = Resumen antes de la acción
field-after-summary = Resumen después de la acción
title-account-storage = Almacén de la cuenta
title-audit-atcommands = Auditoría de atcommands
title-audit-created-items = Auditoría de objetos creados
title-audit-zeny = Auditoría de zeny
title-cart-inventory = Carro del personaje
title-chat-log-search = Búsqueda en el registro de chat
title-db-health = Estado de la base de datos
title-debug-tables = Tablas rAthena detectadas
title-gm-activity = Actividad de GM
title-guild-storage = Almacén del gremio
title-item-details = Ficha del objeto
title-item-search = Búsqueda de objetos
title-log-volume = Volumen de registros
title-mob-details = Ficha del monstruo
title-player-rank = Rango del personaje
title-report-context = Contexto de la denuncia
title-sql-updates = sql_updates
title-table-counters = Contadores de tablas
title-top-mvp = Top MVP
title-who-drops = Quién lo suelta
";

/// The `de-DE` message catalog: `key = value` lines, `#` comments.
pub const DE_DE: &'static str = "# Deutscher Katalog.

button-first = Anfang
button-previous = Zurück
button-next = Weiter
button-last = Ende
error-invalid-mvp-panel = Ungültiges oder abgelaufenes MVP-Panel.
error-gmmsg-empty = Die Nachricht darf nicht leer sein.
error-gmmsg-too-long = Die Nachricht überschreitet das konfigurierte Limit von { $max } Zeichen.
error-gmmsg-hex-color = Die Farbe muss im Format RRGGBB angegeben werden.
gmmsg-test-no-send = Testmodus aktiv: Im Spiel wurde keine Nachricht gesendet.
gmmsg-missing-queue = Die Tabelle `discord_gmmsg_queue` fehlt.
gmmsg-encoding-unsupported = Die Nachricht enthält Zeichen, die mit der vom Spielclient verwendeten Windows-1252-Kodierung nicht kompatibel sind.
gmmsg-disabled = GMMSG ist in der Konfiguration deaktiviert.
gmmsg-bridge-not-configured = Die Spielbrücke ist nicht konfiguriert.
error-account-username-length = Der Kontoname muss zwischen 4 und 23 Zeichen lang sein.
error-account-username-chars = Der Kontoname darf nur Buchstaben, Ziffern oder `_` enthalten.
error-account-password-length = Das Passwort muss zwischen 8 und 32 Zeichen lang sein.
error-account-password-chars = Das Passwort darf keine Leerzeichen oder Steuerzeichen enthalten.
error-account-sex = Das Geschlecht des Kontos muss `M` oder `F` sein.
error-account-birthdate = Das Geburtsdatum muss im Format `YYYY-MM-DD` angegeben werden.
error-account-email-length = Die E-Mail-Adresse des Kontos darf höchstens 39 Zeichen enthalten.
error-account-email-invalid = Die E-Mail-Adresse des Kontos ist ungültig.
error-missing-option = Erforderliche Option fehlt: { $option }.
error-account-required = Das Konto muss angegeben werden.
error-account-id-positive = Die account_id muss strikt positiv sein.
error-account-delete-disabled = Die starke Kontodeaktivierung ist per Konfiguration deaktiviert.
error-account-delete-confirm = Ungültige Bestätigung. Gib genau `SUPPRIMER` ein.
error-account-forbidden-field = Das Feld `{ $field }` kann mit diesem Befehl nie geändert werden.
error-account-invalid-field = Das Feld `{ $field }` ist nicht erlaubt.
error-account-value-integer = Der Wert von `{ $field }` muss eine ganze Zahl sein.
error-account-value-non-negative = Der Wert von `{ $field }` muss null oder positiv sein.
error-no-result = Kein Ergebnis.
error-unknown-command = Unbekannter Befehl.
error-unknown-subcommand = Unbekannter Unterbefehl { $command }.
error-account-exact-not-found = Kein Konto entspricht genau dieser userid oder account_id.
error-account-id-exact-not-found = Kein Konto entspricht dieser account_id.
title-gm-message = GM-Nachricht
error-account-exists = Das Konto `{ $account }` existiert bereits.
error-account-not-found = Es wurde kein Konto gefunden.
embed-account-modified-title = Konto geändert
embed-account-edit-success = Das Konto wurde geändert.
embed-account-ban-success = Das Konto wurde gesperrt.
embed-account-unban-success = Das Konto wurde entsperrt.
embed-account-delete-success = Das Konto wurde dauerhaft deaktiviert. Keine `login`-Zeile wurde gelöscht.
error-item-not-found-generic = Kein Gegenstand gefunden.
error-mob-not-found-generic = Kein Monster gefunden.
error-player-not-found-generic = Kein Charakter gefunden.
field-account = Konto
field-action = Aktion
field-field = Feld
field-value = Wert
field-ban-end = Sperrende
field-before-summary = Zusammenfassung vor der Aktion
field-after-summary = Zusammenfassung nach der Aktion
title-account-storage = Konto-Lager
title-audit-atcommands = Atcommand-Prüfung
title-audit-created-items = Prüfung erstellter Gegenstände
title-audit-zeny = Zeny-Prüfung
title-cart-inventory = Charakter-Karren
title-chat-log-search = Chatlog-Suche
title-db-health = Datenbankzustand
title-debug-tables = Erkannte rAthena-Tabellen
title-gm-activity = GM-Aktivität
title-guild-storage = Gildenlager
title-item-details = Gegenstandsdetails
title-item-search = Gegenstandssuche
title-log-volume = Log-Umfang
title-mob-details = Monsterdetails
title-player-rank = Charakterrang
title-report-context = Meldungskontext
title-sql-updates = sql_updates
title-table-counters = Tabellenzähler
title-top-mvp = Top-MVP
title-who-drops = Wer lässt es fallen
";

/// The text of the catalog of a locale.
pub open spec fn catalog_text(locale: BotLocale) -> Seq<char> {
    match locale {
        BotLocale::FrFr => FR_FR@,
        BotLocale::EnUs => EN_US@,
        BotLocale::EsEs => ES_ES@,
        BotLocale::DeDe => DE_DE@,
    }
}

/// The trimmed key and value of a catalog line, when the line holds an entry:
/// once trimmed it is not empty, is not a `#` comment and holds an `=`.
pub open spec fn line_entry(line: Seq<char>) -> Option<(Seq<char>, Seq<char>)> {
    let t = trim(line);
    if t.len() == 0 || t[0] == '#' {
        None
    } else {
        match split_once_spec(t, '=') {
            Some(parts) => Some((trim(parts.0), trim(parts.1))),
            None => None,
        }
    }
}

/// The value a line gives to `key`, if it is an entry for that key.
pub open spec fn line_value_for(line: Seq<char>, key: Seq<char>) -> Option<Seq<char>> {
    match line_entry(line) {
        Some(entry) => if entry.0 == key { Some(entry.1) } else { None },
        None => None,
    }
}

/// The value of the first entry for `key` among the lines of `text`
/// (lines are separated by `\n`; a `\r` before it is whitespace and trimmed away).
pub open spec fn lookup_text(text: Seq<char>, key: Seq<char>) -> Option<Seq<char>>
    decreases text.len(),
{
    match first_index_of(text, '\n') {
        Some(i) => match line_value_for(text.take(i as int), key) {
            Some(v) => Some(v),
            None => if i < text.len() {
                lookup_text(text.skip(i as int + 1), key)
            } else {
                None
            },
        },
        None => line_value_for(text, key),
    }
}

/// What `lookup` finds: the entry of the locale's catalog, else that of the French catalog.
pub open spec fn lookup_spec(locale: BotLocale, key: Seq<char>) -> Option<Seq<char>> {
    match lookup_text(catalog_text(locale), key) {
        Some(v) => Some(v),
        None => lookup_text(catalog_text(BotLocale::FrFr), key),
    }
}

/// The characters of an optional string slice.
pub open spec fn opt_str(o: Option<&str>) -> Option<Seq<char>> {
    match o {
        Some(s) => Some(s@),
        None => None,
    }
}

pub fn catalog(locale: BotLocale) -> (r: &'static str)
    ensures
        r@ == catalog_text(locale),
{
    match locale {
        BotLocale::FrFr => FR_FR,
        BotLocale::EnUs => EN_US,
        BotLocale::EsEs => ES_ES,
        BotLocale::DeDe => DE_DE,
    }
}

pub fn lookup(locale: BotLocale, key: &str) -> (r: Option<&'static str>)
    ensures
        opt_str(r) == lookup_spec(locale, key@),
{
    match lookup_in_catalog(catalog(locale), key) {
        Some(v) => Some(v),
        None => lookup_in_catalog(catalog(BotLocale::DEFAULT), key),
    }
}

/// The bounds, inside `line`, of the value the line gives to `key`.
fn entry_bounds(line: &[char], key: &[char]) -> (r: Option<(usize, usize)>)
    ensures
        match line_value_for(line@, key@) {
            Some(v) => r matches Some(b) && b.0 <= b.1 <= line@.len() && line@.subrange(
                b.0 as int,
                b.1 as int,
            ) == v,
            None => r is None,
        },
{
    let (ts, te) = trim_bounds(line);
    if ts == te || line[ts] == '#' {
        return None;
    }
    let t = &line[ts..te];
    assert(t@ == trim(line@));
    assert(t@.len() > 0 && t@[0] != '#');
    match find_char(t, '=') {
        None => {
            assert(split_once_spec(t@, '=') is None);
            assert(line_entry(line@) is None);
            None
        },
        Some(e) => {
            assert(split_once_spec(t@, '=') == Some((t@.take(e as int), t@.skip(e as int + 1))));
            let kpart = &t[0..e];
            let (ks, ke) = trim_bounds(kpart);
            let key_found = &kpart[ks..ke];
            assert(kpart@ == t@.take(e as int));
            assert(key_found@ =~= kpart@.subrange(ks as int, ke as int));
            if !chars_eq(key_found, key) {
                return None;
            }
            let vpart = &t[e + 1..t.len()];
            assert(vpart@ == t@.skip(e as int + 1));
            let (vs, ve) = trim_bounds(vpart);
            assert(line_entry(line@) == Some((trim(kpart@), trim(vpart@))));
            let a = ts + e + 1 + vs;
            let b = ts + e + 1 + ve;
            assert(line@.subrange(a as int, b as int) =~= vpart@.subrange(vs as int, ve as int));
            Some((a, b))
        },
    }
}

/// The value of the first entry for `key` in a catalog text.
pub fn lookup_in_catalog(catalog: &'static str, key: &str) -> (r: Option<&'static str>)
    ensures
        opt_str(r) == lookup_text(catalog@, key@),
{
    let cs = chars_of(catalog);
    let kc = chars_of(key);
    let n = cs.len();
    let mut pos: usize = 0;
    assert(cs@.skip(0) =~= cs@);
    while pos <= n
        invariant
            n == cs@.len(),
            cs@ == catalog@,
            kc@ == key@,
            pos <= n,
            lookup_text(cs@, kc@) == lookup_text(cs@.skip(pos as int), kc@),
        decreases n - pos,
    {
        let rest = &cs.as_slice()[pos..n];
        assert(rest@ == cs@.skip(pos as int));
        let found = find_char(rest, '\n');
        let line_end: usize = match found {
            Some(i) => pos + i,
            None => n,
        };
        let line = &cs.as_slice()[pos..line_end];
        proof {
            match found {
                Some(i) => {
                    assert(line@ =~= rest@.take(i as int));
                    assert(first_index_of(rest@, '\n') == Some(i as nat));
                },
                None => {
                    assert(line@ =~= rest@);
                    assert(first_index_of(rest@, '\n') is None);
                },
            }
        }
        match entry_bounds(line, kc.as_slice()) {
            Some((a, b)) => {
                assert(line@.subrange(a as int, b as int) =~= cs@.subrange(pos + a, pos + b));
                assert(line_value_for(line@, kc@) is Some);
                assert(lookup_text(rest@, kc@) == line_value_for(line@, kc@));
                return Some(catalog.substring_char(pos + a, pos + b));
            },
            None => {},
        }
        match found {
            Some(i) => {
                assert(rest@.skip(i as int + 1) =~= cs@.skip(pos + i + 1));
                assert(line_value_for(line@, kc@) is None);
                assert(lookup_text(rest@, kc@) == lookup_text(rest@.skip(i as int + 1), kc@));
                pos = pos + i + 1;
            },
            None => {
                return None;
            },
        }
    }
    None
}

/// When a locale's catalog has no entry for a key, its lookup is that of the French catalog.
pub proof fn lemma_lookup_falls_back_to_french(locale: BotLocale, key: Seq<char>)
    requires
        lookup_text(catalog_text(locale), key) is None,
    ensures
        lookup_spec(locale, key) == lookup_spec(BotLocale::FrFr, key),
{
}

/// The value of the first line, among `lines`, that is an entry for `key`.
pub open spec fn first_entry_value(lines: Seq<Seq<char>>, key: Seq<char>) -> Option<Seq<char>>
    decreases lines.len(),
{
    if lines.len() == 0 {
        None
    } else {
        match line_value_for(lines[0], key) {
            Some(v) => Some(v),
            None => first_entry_value(lines.drop_first(), key),
        }
    }
}

/// A catalog lookup reads the text's lines, split at each `\n`, and takes the value
/// of the first line that is an entry for the key; later entries for it are ignored.
pub proof fn lemma_lookup_is_first_entry(text: Seq<char>, key: Seq<char>)
    ensures
        lookup_text(text, key) == first_entry_value(split_on(text, '\n'), key),
    decreases text.len(),
{
    let lines = split_on(text, '\n');
    lemma_first_index_in_bounds(text, '\n');
    match first_index_of(text, '\n') {
        Some(i) => {
            if i < text.len() {
                let rest = text.skip(i as int + 1);
                lemma_lookup_is_first_entry(rest, key);
                assert(lines == seq![text.take(i as int)] + split_on(rest, '\n'));
                assert(lines[0] == text.take(i as int));
                assert(lines.drop_first() =~= split_on(rest, '\n'));
                assert(lines.len() > 0);
                assert(first_entry_value(lines, key) == match line_value_for(lines[0], key) {
                    Some(v) => Some(v),
                    None => first_entry_value(lines.drop_first(), key),
                });
                assert(lookup_text(text, key) == match line_value_for(text.take(i as int), key) {
                    Some(v) => Some(v),
                    None => lookup_text(rest, key),
                });
            } else {
                assert(lines =~= seq![text]);
                assert(seq![text].drop_first() =~= Seq::<Seq<char>>::empty());
            }
        },
        None => {
            assert(lines =~= seq![text]);
            assert(seq![text].drop_first() =~= Seq::<Seq<char>>::empty());
        },
    }
}

} // verus!
