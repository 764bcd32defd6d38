evtclib
=======

`evtclib` reads `.evtc` files, as generated by the arcdps addon for Guild Wars 2, and turns them
into a high-level log of agents and events. The library is written in Verus: every function in
`src/` carries a contract, and Verus proves all of them but the trusted wrappers around calls into
`byteorder`, `zip`, `fnv` and std's text handling, whose contracts are taken as given.

Layout
------

* `src/raw/` – the low-level reader: header, agent, skill and event records (both event
  revisions), and zipped logs (`.zevtc`, `.evtc.zip`).
* `src/event.rs`, `src/agent.rs` – conversion of raw records into high-level events and agents.
* `src/processing.rs` – building a `Log`: agents sorted by address, aware times, instance ids and
  masters set from the events.
* `src/lib.rs` – the `Log` and its queries (players, bosses, timestamps, rewards, ...).
* `src/gamedata.rs` – encounters, bosses, professions and elite specializations.
* `src/analyzers/` – per-encounter challenge mote and outcome detection.
* `src/statistics/` – damage statistics, boon queues, damage and mechanic logs, and trackers.
* `src/bytes.rs`, `src/text.rs` – the calls into `byteorder` and into std's UTF-8 handling, each
  with the contract it is trusted to meet; the calls into `zip` (in `src/raw/parser.rs`) and into
  the FNV hash map (in `src/statistics/boon.rs`) are trusted in the same way.
* `app/main.rs` – a command line program that reads a file and prints a summary of its log.
* `tests/` – tests on concrete values.
