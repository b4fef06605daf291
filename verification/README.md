# maestro

Verified core of an agent-orchestration desktop app and of the git-hosting
and organization routes of its server, written in Verus.

- `src/` is the library, verified by Verus: the streaming adapters of the
  agent harnesses, the hook and tool pipelines, the local git parsers, the
  conversation storage rules (thread resumption included), the git
  smart-HTTP protocol pieces, the repository browser's parsers, and the decisions of the
  server's admin, team, invitation, cron, flag and secret endpoints (as step
  functions: given what a handler has learnt, the next store call or reply),
  with the audit entries those handlers record once they succeed.
  The calls into `uuid`, `chrono`, `sha2`, `hex`, `base64` and std that the
  library makes stand behind trusted wrappers, in `src/sys.rs` and (for
  `String::push`) `src/text.rs`; what depends on the clock or on chance is
  stated only as far as it holds of every outcome.
- `tests/` runs the library on concrete values.
- `app/` is the I/O around it: JSON files on disk, git and hook processes,
  the daemon connection and pseudo-terminals.

Verify with Verus on `src/lib.rs`; build and test with cargo.
