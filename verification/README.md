# Remote Commander

Remote control of a computer through a Telegram bot: system status, ending
processes by name, the volume level, opening YouTube, and shutting down or
rebooting after a confirmation. Only the chats listed in `ALLOWED_CHAT_IDS`
are served.

## Layout

- `src/` — the verified library (Verus):
  - `bot.rs` — what the bot does for each command and button, and its answers;
  - `config.rs` — reading `TELEGRAM_BOT_TOKEN` and `ALLOWED_CHAT_IDS`;
  - `system_manager.rs` — memory figures, ending processes, opening a link,
    power operations, the volume level and the `amixer` call;
  - `autostart.rs` — the Task Scheduler / systemd registration dialogue;
  - `cli.rs` — command-line modes and start-up error lines;
  - `text.rs` — decimal numbers, trimming, splitting and integer parsing.
- `app/` — the program: Telegram updates, the environment, files, processes
  and the Windows audio interface.
- `tests/` — tests of the library.

Commands: `/help`, `/status`, `/youtube`, `/kill <name>`, `/vol <0-100>`,
`/poweroff`, `/reboot`. Autostart: `--install` / `--uninstall`.
