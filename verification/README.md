# nccl4rust

Verified core of Rust wrappers over NCCL's device communicator API.

- `src/team.rs`: the `Team` descriptor and the range check that decides
  whether a team rank may be translated to a world or LSA rank.
- `src/requirements.rs`: the image of `ncclDevCommRequirements_t`, its
  initializer and the builders that change one field each.
- `src/device_comm.rs`: the owned host image of a device communicator: when a
  freshly written image is kept, the layout of a device copy, and destruction,
  which consumes the owner so that it happens at most once.
- `app/`: the unsafe FFI glue (device shim calls, raw device handles, the C
  structs of the bindings) that hands plain values to the library.
