# yral_common

Shared logic of the yral services, written in Verus. The functions under
`src/` carry contracts that Verus proves, except the few small wrappers of
outside calls (`crc32fast::hash`, `Principal::as_slice`, `to_text` and
`==`, `Duration::from_secs`, `checked_add` and `saturating_sub`,
`SystemTime::checked_add`, `str::to_lowercase`, the JSON member readers over
`serde_json`), whose contracts are trusted, and the declarations of outside
types in `src/outside.rs`.

- `src/global_constants.rs`, `src/limits.rs`: coin denominations, their
  cycle of enabled coins, and sats limits.
- `src/videogen/`: the unified generation request, each model's input
  checks and adaptation of the request, the provider descriptions, the
  registry that routes a request by model id, model prices and token
  conversion, and the rules of the service client.
- `src/post.rs`, `src/feed_*.rs`: feed items in their numeric and textual
  post-id forms, their conversions, the keys and trimming rules of the
  cache, and the reading of stored entries written by older writers.
- `src/post_details.rs`: posts as the apps show them, which of them are
  shown, where they are read from, and the merging of what is known of
  their creators.
- `src/hon.rs`, `src/vote.rs`, `src/pump_dump.rs`, `src/games_pager.rs`:
  records of the hot-or-not and pump-or-dump games.
- `src/profile.rs`, `src/session.rs`, `src/ref_history.rs`: user profiles,
  signing in (the session's lifetime and the steps between the service
  calls), and referral history entries.

`app/` holds what Verus does not see: Redis commands, HTTP calls, the
environment, serde forms of the library's types, and the scores computed
with floating point.

`tests/` runs the library on concrete values.
