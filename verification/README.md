# rathenafr_bot

The verified core of a Discord bot for rAthena game servers, written in Verus.

- `src/` — the library. Its functions carry contracts proved by Verus, except a few
  small wrappers around standard-library and `anyhow` calls, whose contracts are
  trusted and say what those calls document:
  text and number handling (`text`, `numbers`), localisation (`i18n`), the
  account-management rules (`account_manage`), option validation (`validation`),
  staff rank checks (`access`), command routing and option lookup (`routing`,
  `packs`, `flows`), the MVP list panel (`components`), answer bodies and error
  localisation (`responses`, `sanitize`), log-safe values (`observability`) and
  the `.env` search list (`env_hint`).
- `tests/` — the behaviour checked on concrete values.
- `app/` — the process around the library: environment loading, the Discord
  gateway client, and the conversion between Discord values and the library's
  types.
