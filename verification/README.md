# openrustclaw_cli

The command layer of OpenRustClaw, a self-hosted AI assistant runtime, as a
library whose decisions are proved with Verus, plus a thin command-line
program around it.

## Layout

- `src/` — the verified library. Each module states its behaviour in
  `requires` / `ensures` contracts over spec functions and views, and Verus
  proves the code against them:
  - `wizard.rs`, `model_setup.rs`, `onboarding.rs`: the onboarding wizard and
    the model setup as state machines (state and answer in, next state and
    action out), the persisted setup state and its step bookkeeping;
  - `orchestration.rs`, `orchestrate.rs`: planning, delegation budgets and
    run records of orchestrated runs;
  - `runtime.rs`, `services.rs`, `schedule.rs`, `probes.rs`: runtime status,
    health, upgrade and rollback plans, service units, schedules and provider
    probes;
  - `config_migration.rs`, `toml_doc.rs`: reading a runtime configuration
    from its TOML text, migrating legacy keys, and rendering it back;
  - `vault.rs`, `crypto.rs`, `security.rs`, `audit.rs`: the encrypted secret
    vault, the security posture and the security audit;
  - `env_file.rs`, `self_hosted.rs`, `listings.rs`, `session.rs`, `models.rs`,
    `optimize.rs`, `paths.rs`, `text.rs`, `order.rs`: the smaller rules and the
    string and ordering helpers they share.
- Calls into outside crates (`toml`, `argon2`, `chacha20poly1305`, `base64`,
  `rand`, `uuid`, `chrono`, `shlex`) stand behind small trusted wrappers whose
  contracts say what those crates document; everything around them is proved.
- `tests/` — tests of the library on concrete values.
- `app/` — the program: argument handling, terminal prompts, files, and
  serde copies of the library's types for the JSON it stores. It performs the
  actions that the library's state machines ask for and hands back what
  happened.

## Checking

Verus verifies `src/`; the tests run with the real outside crates linked.
