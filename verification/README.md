# iris

A verified library for a theme orchestration tool: it decides how terminals,
prompts, multiplexers and CLI tools are themed, and proves those decisions
against their contracts with Verus.

- `src/` is the library. It plans what each application's theme needs
  (file operations, blocks injected into configuration files, links), checks
  the health of an application's setup against an observed file system, computes
  configuration diffs, and keeps the registry of generators and the user's
  enabled set. Every function there carries a `requires`/`ensures` contract,
  and the laws that span functions are public proof functions.
- `tests/` runs the library on concrete values.
- `app/` is the command line around it: it reads the file system and the
  environment, asks the library what to do, and performs the operations.
