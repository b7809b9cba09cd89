# hmm-rs

Hidden Markov Models (categorical, Gaussian, Gaussian-mixture, multinomial
and Poisson emissions; EM and variational Bayes training).

## Layout

- `src/` — the verified library (Verus). It holds the discrete rules of the
  models, each with a contract proved by Verus:
  - `base`: decoder and forward-backward selectors, parameter flags, the
    free-parameter count used by AIC/BIC (with its additivity laws), the
    base shape checks and the layout of the start/transition statistics;
  - `emissions/*`, `vhmm/*`: per emission model, the free-scalar counts,
    the parameter shape checks with their error messages, the layout of the
    accumulated statistics and the rows that seed the initial means;
  - `utils`: splitting concatenated observations into sequences and joining
    decoded state sequences;
  - `error`: the error type and its messages.
- `app/` — the numerical side (forward-backward, Viterbi, emission
  densities, EM and variational updates, sampling, serde support), which
  computes on floating-point arrays and calls the library for the rules
  above.
- `tests/` — tests of the library.
