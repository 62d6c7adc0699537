# super_analyzer

Verified core of an auditor for Android applications, written in Verus.

- `src/criticity.rs`: the severity levels of findings, their order, their
  names and case-insensitive reading of a name.
- `src/error.rs`: the error type, the exit code of each error, and the
  conversion of I/O and JSON failures into it.
- `src/snippet.rs`: `get_code`, the source lines shown around a finding,
  with the line splitting it relies on and the laws about the shown text.
- `src/report.rs`: the heading and colour of a reported vulnerability.
- `src/text.rs`: ASCII case folding and decimal numerals.
- `app/`: command line parsing, coloured terminal output, folder copies and
  the serialisable form of a severity level; not verified.
