# linexus_core

The domain core of the Linexus ecosystem, verified with Verus.

- `src/identity.rs` — node identities, the lifecycle phases with their weekly
  obligations and claim rights, infrastructure classes.
- `src/demiurge.rs` — value classes, ledger entries that decay after a 5-year
  epoch, and balances.
- `src/engine.rs` — demands and their routing to the first eligible human.
- `src/funnel.rs` — the Permission Funnel's rule table for every intent.
- `src/jobs.rs` — maintenance jobs planned for breached KPIs.
- `src/errors.rs` — the error enum.

Floating-point readings (solar efficiency, council thresholds, cost
estimates, KPI severities) are kept in the library as IEEE-754 bit patterns.
`app/` holds the serde and thiserror forms of the types, converts them to and
from the library's, and performs the floating-point KPI assessment.
