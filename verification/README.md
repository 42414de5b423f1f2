# aurr-manager

Automates remote jobs through cloud storage: tools are uploaded to a cloud
container, and one shell line, run on the target, sets up a working
directory, downloads and prepares the tools, runs them with the call options
that a task template names, and cleans up.

The crate is a Verus library with a thin program around it.

- `src/` is the verified library: the text and key/value tables that
  configurations are made of, task and case templates, tools and objects
  with their tasks and command lines, the decisions of a case run
  (`run.rs`), the cloud resources and the download sync, the registry of
  cloud service managers, and the command line's own decisions.
  Every public function has a contract that Verus proves; the few calls into std
  and into `uuid` and `hex` stand behind small trusted wrappers.
- `tests/` runs the library on concrete values.
- `app/` is the program: the command line (`clap`), reading configuration
  and JSON files (`config`, `serde`), the Azure storage account
  (`azure_storage_blobs`), logging, and the loops that carry out each step
  that the library decides.
