# cognos-hal

The Human Approval Layer (HAL): the rules that decide whether an agent's action
runs, is announced, needs a confirmation or is refused, together with the
tamper-evident records of what was decided. The rules are written in Verus and
verified against the contracts that stand beside them.

* `src/` is the verified library. Scores are fixed-point numbers in billionths
  (`score`), times are nanoseconds since the epoch (`clock`), and maps are
  insertion-ordered tables (`table`). Calls into other crates stand behind small
  trusted functions in `clock`, `digest`, `ident`, `json`, `text`,
  `action_validator` and `audit_log`, each with a comment on what is claimed.
* `tests/` runs the library on concrete values.
* `app/` is the daemon: sockets, files, clocks, threads and serialization.
