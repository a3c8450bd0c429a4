# preset_gg

The Preset.gg API turns a text prompt and an Audius track into a Vital
synthesizer preset with the help of Gemini, gated by the $AUDIO balance of a
Solana wallet.

- `src/` is the verified library (Verus): request validation, the per-IP
  rate limiter, the generation pipeline as a state machine (tier check,
  Serum only from Pro, one generation a day without a wallet), the Gemini
  messages and retry rule, the Vital parameter table, preset metadata and
  section switches, Audius fetching rules, wallet tiers and token accounts,
  configuration, CORS and the error statuses.
- `app/` is the Axum server around it: environment, HTTP calls to Audius,
  Gemini and the Solana RPC, JSON bodies, and the floating-point conversion
  of Gemini's parameter values.
- `tests/` exercises the library on concrete values.
