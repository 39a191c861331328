# wuwa_gacha_sim

A simulator of the limited 5★ character banner of Wuthering Waves, verified with Verus.

- `src/gacha.rs`: the probability model (exact, in per mille), the pity state
  machine (`PityState::step`, `Banner::pull`) and its laws: hard pities, 4★ pity
  reset by a 5★, the 50/50 guarantee, over single pulls and over runs.
- `src/stats.rs`: statistics of a run (`Stats::record`, `simulate`), with the
  coral identity and the stretch bookkeeping as an invariant.
- `src/theory.rs`: reference values as exact integers, and the layout of the
  exact-expectation table, proved to follow the state machine.
- `src/rng.rs`: the ChaCha8 random source, whose draws are a function of the
  seed and the position, and seeds; `stats::simulate_seeded` makes a run a
  function of its seed, and `stats::simulate_runs` makes repeated runs from
  consecutive seeds.
- `src/layout.rs`: display-width aware text layout and decimal numerals.
- `src/report.rs`: the report text (sections in order, detail lines, header,
  light lines), with the floating-point cells handed in as text.
- `app/`: the command-line program: argument parsing, colour detection, the
  floating-point parts (formatted rates, the expectation table) and printing.
