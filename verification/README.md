# prediction_engine

A conditional-probability metrics engine for classified market days, weeks,
trading sessions and eight-hour bars, written in Verus. For every pattern of
recent context (the biases of the previous sessions, bars, days or weeks) it
counts how often each outcome followed, over several lookback windows, and
turns those counts into base rates, conditional rates, lifts and confidence
scores (PDCS, PCS, TCS).

## Layout

- `src/` — the verified library.
  - `keys`, `labels`, `models`: grouping keys, bias families and seven-state
    outcomes, the record types.
  - `aggregate`, `rates`, `contexts`, `prepare`, `windows`, `joins`,
    `service`, `pipeline`: the lookback-window rate tables of the ML metrics
    and the per-asset pipeline that computes all of them.
  - `tally`, `ordering`, `view_contexts`, `calculator`, `rate_inputs`,
    `unified`: the time-weighted rates (ALL 0.6, 1Y 0.3, 6M 0.1), the stable
    sort of days and weeks, the day and week contexts, and the PDCS scores.
  - `ml_features`: raw (unweighted) conditional rates for the ML models.
  - `scores`: PDCS, PCS and TCS scores from rounded probabilities.
  - `cli`, `fetchable`: the command set, TCS chain names and query plans, and
    the SQL each record kind is loaded with.
  - `laws`: properties of the library proved over its specifications.
- `app/` — the program around the library: command line, database reads and
  writes, report formatting and the floating-point conversions.
- `tests/` — executable tests of the library.

Dates are day numbers (January 1 of year 1 is day 1); weighted counts are kept
in tenths and scores in hundredths, so every computation in `src/` is exact.
