# cache_diagnostics

Privacy-preserving prompt-cache diagnostics: keyed, domain-separated
HMAC-SHA256 fingerprints of model requests, and the immutable request and
outcome records an attempt emits, together with the session input queue, the
exec-completion notice and the host skill provider's locators.

- `src/` is the verified library (Verus). Each public function states what it
  returns in its `ensures`; the proof functions named `lemma_*` state the
  properties that span several calls (records of an attempt are linked and
  emitted at most once, framing is injective, the tool-array scan gives back
  the serialized JSON values an array was made of, claimed results can be put
  back, pending input is what is taken, written records are numbered without
  gaps).
- `tests/` exercises the library on concrete values.
- `app/` holds the I/O around it: the installation key file, the append-only
  JSONL record file, shared attempt handles, and skill file reads.
