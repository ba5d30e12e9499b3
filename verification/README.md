# libmedium

A library for lm-sensors' sysfs interface (`/sys/class/hwmon`), verified with Verus.

The library decides everything and touches nothing: it names the files that a sensor or
the hwmon tree keeps its values in, decodes what was read from them into typed units,
encodes values to write, maps failed accesses to errors, and discovers the hwmons and their
sensors. The caller performs each file access and hands the outcome back.

Layout:

- `src/` — the verified library.
  - `units` — the units and their raw text, with the law that a value's text decodes back
    into it.
  - `sensors` — subfunction types, sensor traits per kind, errors, state capture and
    restore, virtual sensors.
  - `hwmon` — `Hwmon`, `Hwmons`, the parsing machine (`parser`) and the file name rules it
    uses (`discovery`), hwmon attributes.
  - `text` — trimming, decimal text and path joining, with their specifications.
- `tests/` — the tests; the parsing tests drive the parser from a file system held in memory.
- `app/` — the file system side: `std::fs` and `tokio::fs` drivers.
