# fa

A terminal stock-watching and backtesting tool for A-shares and US stocks,
whose logic is a library verified with Verus.

- `src/` — the verified library: decimals, symbols and periods, quotes and
  bars, the data providers' request addresses and response parsers, the
  provider router's retry and fallback decisions, the quote cache, the
  configuration file, the portfolio figures, indicators, the backtest engine
  and strategies, and the terminal interface's state machine, key bindings,
  texts and chart window.
- `app/` — the program around it: terminal drawing (ratatui), key input
  (crossterm), HTTP requests (reqwest), SQLite storage (rusqlite), the TOML
  file (serde, toml), and the figures computed in floating point (RSI,
  Bollinger bands, Sharpe ratio, annualised return).
- `tests/` — tests of the library.
