# telegram_bot_seller

A Telegram sales assistant for a perfume shop, with a web admin panel. The bot
answers customers through a chat model (MiniMax, DeepSeek or Gemini, with
failover), lets the model read and change the shop's records through tools,
transcribes voice notes and describes photos, and rate-limits each customer.

## Layout

- `src/` — the verified library (Verus): the data, decisions and formats of the
  bot and the panel, each with its contract:
  - `rate_limiter` — the sliding-window limiter, with its laws (never more than
    the limit inside any window, other users untouched, expiry readmits).
  - `config`, `settings` — configuration from the environment; the settings
    page, what saving it writes, and the configuration the running bot uses.
  - `ai/` — the dialogue turn state machine (`dialog`), the reaction marker
    (`reaction`), the model router (`router`), the tool names, arguments and
    record merges (`tools`), the tool schema (`schema`), the DeepSeek, MiniMax and
    Gemini request rules.
  - `telegram` — message classification, the order in which a message is handled,
    offsets, URLs, replies (the rate-limit warning among them) and the polling policy.
  - `admin` — Basic authentication, dashboard highlights, form cleaning,
    redirects, backups and the health report.
  - `orders`, `types`, `catalog`, `contacts`, `media_manager`, `seed`, `error`,
    `retry`, `resources` — records, identifiers, seed data, errors, the retry rule
    for outgoing requests and the phone resource figures.
  - `text`, `numbers`, `encoding` — trimming, search, decimal numbers, Base64
    and percent-encoding (the last two through the `base64` and `urlencoding`
    crates).
- `app/` — the process around it, performing the I/O the library decides on: environment, SQLite, HTTP clients and server,
  serde copies of the library's message types.
- `tests/` — tests of the library on concrete values.
