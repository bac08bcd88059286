# unidpp-config

The UniDPP operator manifest: one validated declaration of every knob of
every service, and the environment block each service reads from it.

- `src/` — the verified library (Verus): the manifest model and its
  defaults, `${NAME}` substitution, the JSON-or-YAML shape test, semantic
  validation (with the sovereign egress rule), the service list and public
  URLs, `render_env`, which lists a service's variables one per line in
  name order, and the finishing of the published JSON Schema (every object
  node that lists fields or items refuses unknown members; dialect and
  title stamped on).
- `app/` — the `unidpp-config` command line: reading files and the process
  environment, parsing YAML/JSON into the model (serde), deriving the raw
  JSON Schema from the model (schemars) and handing it to the library to
  finish, and printing.
- `tests/` — the library's tests.

## Environment variables

A service's variables are held in `env::EnvVars`: a vector of name/value
pairs kept sorted by name with no name twice (its well-formedness, proved
to be kept by every operation), together with the map it denotes. The
rendered block lists the entries in that order. A `BTreeMap<String,
String>` would give the same order, but vstd specifies `BTreeMap` only for
keys whose ordering it knows to be lawful, and `String` is not among them,
so nothing about the order or the contents of such a map could be proved
here; the sorted vector carries the same promise with a proof.
