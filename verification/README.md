# env_editor

A structured editor for `.env` configuration templates: it reads a template
into section headers and variables with their help text, merges the values of
an existing `.env` into it, validates values, masks secrets, generates random
secrets, and writes the result back with LF or CRLF line endings, locally or on
a server over SSH/SFTP.

## Layout

- `src/` is the library, verified with Verus:
  - `text.rs`, `numeral.rs`: models of the string operations used, over
    `Seq<char>`, with executable versions proved against them.
  - `item.rs`: the entries of a template, sensitive keys, the search filter.
  - `parse.rs`: reading a template (`parse_text` is the model,
    `parse_content` the proved implementation).
  - `serialize.rs`: writing items back (`serialize_text`, `serialize_items`).
  - `merge.rs`: taking values of an existing file into the template.
  - `secret.rs`, `settings.rs`, `i18n.rs`: secrets, output settings, the
    phrase catalogue in five languages.
  - `remote.rs`: profiles, the trust-on-first-use host-key check, the
    directory listing order and the candidate files on a server.
  - `app.rs`, `session.rs`: the editor's state and what each command does to
    it, given what reading a file or the server gave.
  - `roundtrip.rs`, `reload.rs`, `laws.rs`: the properties that span several functions,
    among them that saving and loading again gives the items back.
- `tests/` runs the library on concrete inputs.
- `app/` is the desktop program around it: the window, file dialogs, local
  files, the SSH/SFTP connection, the keyring and the profile files.
