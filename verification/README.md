# psml

PSML (Prompt String Markup Language) is a small HTML-like markup for a
shell prompt.  Write the markup once and get a ready-to-use prompt for
bash, zsh, fish, PowerShell, cmd.exe or Nushell.

```html
<psml>
  <head><title>my terminal</title></head>
  <body>
    <color fg="green"><bold><user/>@<host/></bold></color>
    <color fg="blue"><cwd/></color>
    <git prefix=" (" suffix=")"/>
    <symbol/>
  </body>
</psml>
```

## Layout

- `src/` — the library, verified with Verus:
  - `ir.rs` — the tree of a document (`Node`, `Document`) and its
    mathematical value;
  - `parser.rs` — PSML text to a tree; the tree builder takes plain lexer
    events and is specified by `spec_feed`/`spec_finish`;
  - `xml.rs` — the `quick_xml` lexer behind trusted wrappers;
  - `render/` — one backend per shell, each specified by a spec function
    (`bash_render`, `zsh_render`, ...), plus the registry of shells and the
    shared quoting and color rules;
  - `preview.rs` — a live ANSI preview from observed values;
  - `properties.rs`, `quoting.rs` — properties of the whole: names of the
    registry, `--raw` against the wrapped output, what cmd.exe refuses, the
    parser's text and nesting rules, and that every quoting rule reads back
    as the quoted text.
- `app/` — the `psml` command: arguments, files, stdin, and the observations
  of the machine for `--preview`.
- `tests/` — the tests of the library.

## Usage

```bash
psml prompt.psml                     # bash by default, prints PS1='...'
psml prompt.psml --shell zsh         # prints PROMPT='...'
psml prompt.psml --shell fish        # prints a fish_prompt function
psml prompt.psml --raw               # just the prompt value, no wrapper
psml prompt.psml --preview           # how it looks right now
psml --list-shells
```
