# abr_lompoc_utility

Relational analysis of the Lompoc municipal utilities, with its structural
claims proved by Verus.

- `src/electric/domain.rs` — the electric grid domain (loci S1, T1–T2,
  D1–D4, L1–L3 and their edges). `declare_domain` is proved to return the
  declared graph, with a single supply locus that no edge enters, every
  locus reachable from it, every load fed, every edge between declared
  loci, and the transmission lines fed only from the supply.
- `src/electric/{observables,wholesale_cost,pilot}.rs` — whole-number
  declared inputs, the disposition-retail gap, retail revenue and the
  pilot declaration (whose counts match the domain).
- `src/mdm_sim/domain.rs` — the meter-to-bill chain M → H → V → A → S → B,
  proved to be a chain over distinct loci with a single operator site A
  between VEE and storage, M as sole source and B as sole sink.
- `src/mdm_sim/{measurement,operators}.rs` — the measurement mapping's
  whole-number constants, the per-class Δ bounds, when Δ is declared
  between two reads, and the anomaly verdict.
- `app/` — the floating-point scenario arithmetic (load profile, savings,
  wholesale cost, TCO scenarios, Δ over register readings) and the two
  reports; run with `electric`, `mdm`, or no argument for both.
