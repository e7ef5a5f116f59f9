# nbf

A plugin framework for a Discord bot that keeps Steam play statistics of guild members.

Plugins set themselves up on a `Framework`, whose state container holds one value per type.
The Discord plugin mirrors guilds, users and members into PostgreSQL; the Steam plugin
refreshes owned games and play times and answers the `steam` command tree; the fluent plugin
localizes the commands from message sources; the lifecycle plugin runs the registered hooks.

Layout:

- `src/` is the library, verified with Verus: the state container, plugin loading, lifecycle
  steps, command localization, the SQL that is sent to the database (built with sea-query),
  the rows of the synchronisation, paging of the command answers, message texts, and the
  Steam Web API addresses. `src/laws.rs` states properties that span several functions
  (paging, the order of the hooks, localization, decimal texts, chunking and the like); the
  statements' contracts speak of their parts (tables, columns, conditions, rows) as
  `src/sql.rs` names them.
- `app/` is the program around it: reading the environment, the HTTP calls to Steam, the
  database connection (sqlx), and the Discord client (poise).
- `tests/` runs the library on concrete values.
