# pertisk_mgmt

The decisions of a management server for Kubernetes clusters on hypervisors:
who may sign in, which job may start, what a job does next, what an add-on
installs, which nodes answer, and what is shown of all that.

- `src/` is the library. Every function has a contract, and laws that relate
  several functions are proof functions named `law_*`.
- `tests/` runs the library on concrete values.
- `app/` is the server around it: the database, the tools, HTTP.

Jobs are written as steps. A step returns actions; the server performs them in
order, and the answer to the last one is the input of the next step. Where a job
remembers something from step to step, or goes from node to node, one function
takes the answer, updates what is remembered and returns the next step
(`resize_next`, `upgrade_next`, `os_next`).

The server reads the manifests of the NFS add-on from `examples/addons/nfs/`.
It has a client for Proxmox only. Checking OS bundles, machine configurations and
TPM quotes is left to other crates, which are not linked (see `app/parts.rs`).
