# krun_host

Host-side pieces of a virtual machine monitor, verified with Verus: the decisions of the
virtio-gpu worker thread, and the rows of the start-up profiler.

* `src/` is the library. Each piece of outside work is a step that carries what the work needs
  and a continuation for what the work returned; `src/queue_run.rs` and the laws in the other
  modules state what holds of every run.
* `app/` performs the steps: it polls descriptors, drives the device and writes files.
* `tests/` runs the library on concrete values, with the outside crates linked.
