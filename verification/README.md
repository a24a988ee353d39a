# virtualos

A small container and microVM runtime whose decision-making core is verified
with Verus.

- `src/` is the verified library: image references and manifests, the layer
  store (paths, layer decompression and digest checks, overlay options), control-group settings and
  the search for a delegated group, the container lifecycle as a state
  machine, address allocation, network set-up as command plans, the container
  process set-up, microVM configuration and boot-header patching, the serial
  console (the bytes it sends and receives) and port dispatch, the start and
  stop sequences of a container process, the records built by the kernel probes and the
  decoding of the records they emit.
- `app/` is the command-line program around it: argument handling, HTTP
  registry access, mounts, `clone3`, KVM, eBPF loading, metrics and logging.
- `tests/` exercises the library on concrete values.
