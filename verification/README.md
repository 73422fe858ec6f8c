# jav

`jav` is a command-line companion for Java projects: it creates projects
from templates, recognises Maven, Gradle and plain `src/main/java` layouts,
and gives one command shape for `new`, `build`, `test`, `run`, `clean`,
`doctor` and `upgrade`.

## Layout

- `src/` is the verified library (Verus). It decides what each command
  does and states it in contracts:
  - `cli` — the command line as plain values;
  - `project` — project kinds, their detection from marker files, and the
    ordering of Java sources;
  - `templates` — template manifests, Spring features, the files of each
    template (`content` holds the file templates) and their rendering with
    Tera (`render`);
  - `commands` — `new`, `build` (module `building`), `test`, `run`, `clean`,
    the `doctor` report and the decisions of `upgrade`;
  - `upgrade` — release metadata, host checks, SHA-256 digests, archive
    entries and the Windows replacement script;
  - `process` — the `CommandRunner` capability;
  - `text` — character-level string functions with exact contracts.
- `app/` is the executable: argument parsing with clap, prompts, processes,
  files and HTTP. It asks the library what to do and does it.
- `tests/` exercises the library on concrete values.
