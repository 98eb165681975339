# licensepack

Verified licensing-registry data and rules, written in Verus.

- `src/types.rs` — licence status, domain and compliance-state enums, with
  their names and terminal states.
- `src/components.rs` — licence conditions, permissions, restrictions and
  holders; condition expiry compares `YYYY-MM-DD` dates parsed by chrono,
  and a date that does not parse counts as already past.
- `src/table.rs`, `src/text.rs` — tables kept in ascending key order and the
  text helpers the rules use.
- `src/license.rs`, `src/catalog.rs` — regulator profiles and licence-type
  definitions, with their views and the consistency properties of a catalog;
  a licence type's requirement and fee tables are keyed tables.
- One module per jurisdiction (`src/brazil.rs`, `src/uae.rs`,
  `src/united_states.rs`, ...) — the regulators and licence types of that
  jurisdiction, each function proved to return exactly its listed records,
  and each catalog proved consistent (every licence type is granted by a
  listed regulator of the jurisdiction, every regulator grants something,
  licence-type identifiers are distinct and start with their regulator's
  identifier and a colon).
- `src/pack.rs` — the licensepack container: adding and looking up records,
  licences by holder DID, the delta between two snapshots, and the decision
  of a licence verification from evaluated states (the first compliant
  licence, else the best state found on the compliance lattice).

Not provided: the content digest of a licensepack, the query for active
licences, and the evaluation of one licence's compliance for an activity on
a date; `decide_verification` takes the evaluated states as its input.

`app/` holds the JSON forms of the records and of licensepacks (serde
copies with conversions) and the JSON rendering of a delta. `tests/` exercises the library.
