# ra_discord_rp

Shows a user's RetroAchievements activity as Discord rich presence. The library in
`src/` holds the logic, verified with Verus; `app/main.rs` is the program around it
(command line, configuration file, HTTP, Discord IPC, prompts, logging).

- `src/config.rs`: defaults, settings taken from the environment, the request URL.
- `src/config/config.rs`: the configuration file's settings, their check, load errors.
- `src/config/paths.rs`: the configuration directory and file path.
- `src/config/setup.rs`: checks of the answers typed during setup, console images.
- `src/ra_api.rs`: the API's user summary, image URLs, whether the user plays.
- `src/discord.rs`: what the presence shows for a summary.
- `src/state.rs`: the idle timer that decides when the presence is cleared.
- `src/control.rs`: command-line command, log level, what each poll leads to.
- `src/text.rs`: text helpers (decimal notation, joining, trimming).
