# loopdev

Setup and control of Linux loop devices, with the decisions around the
`ioctl` calls verified by Verus.

- `src/` is the verified library: the `loop_info64` record and its flags
  (`info.rs`), the option builder (`options.rs`), the attach sequence as a
  state machine with its roll-back (`attach.rs`), the loop requests and their
  codes (`request.rs`), `ioctl` results (`error.rs`), device numbers and the
  wait for device nodes (`device.rs`), and device paths (`path.rs`).
- `app/` opens the devices, issues the `ioctl`s and drives the attach state
  machine: `LoopControl`, `LoopDevice` and its `AttachOptions`.
- `tests/` exercises the library on concrete values.
