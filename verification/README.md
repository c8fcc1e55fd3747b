# producthunt

A command-line client for searching and scraping Product Hunt through the
Apify Product Hunt scraper actor, with its logic verified by Verus.

- `src/` is the verified library: account resolution (`account`), the
  configured accounts (`config`), requests to the Apify API and the meaning
  of its answers (`client`), the error envelope and exit codes (`error`),
  the command dispatcher and scraper inputs (`commands`), the command-line
  grammar as data, stated in full (`cli`, `grammar`), the JSON model
  (`json`, which reads and writes JSON with serde_json), the YAML and JSON
  output (`output`), the agent manual (`readme`) and text helpers (`text`).
- `app/` is the program around it: argument parsing with clap, the
  configuration file, the key stores (the platform's native store, or an
  owner-only file when `PRODUCTHUNT_SECRET_STORE=plaintext`), prompts on the
  terminal, HTTP with ureq, and writing to stdout and stderr.
- `tests/` exercises the library on concrete values.
