# podlet

A verified library for generating Podman Quadlet files: it turns `podman run` options,
compose services and Kubernetes pieces into the sections of `.container`, `.kube`, `.network`,
`.volume`, `.pod`, `.image`, `.build` and `.artifact` files, writes their text, and makes them
fit older Podman versions.

The library is written in Verus. Every function under `src/` states what it returns in its
`ensures` over spec functions, and Verus proves it; laws that relate several calls (parsing the
text of a value gives the value back, extraction is a filter, downgrading twice changes nothing
more, ...) are public proof functions.

Layout:

- `src/`: the verified library, one module per kind of value or section
  (`mount`, `volume`, `idmap`, `device`, `quadlet_container`, `container_text`,
  `container_downgrade`, `quadlet_kube`, `quadlet_pod`, `quadlet_network`, ...), the
  serializers (`quadlet_ser`, `args_ser`, `mount_options`) over the value model in `value`,
  and the laws (`mount_laws`, `volume_laws`, and proof functions beside the code they speak of).
- `tests/`: tests of the library on concrete values.
- `app/`: a thin command line front end that reads option values and prints what the library
  gives back.

Calls into other crates (`shlex`, `url`, `path-clean`, `duration-str`, `serde_json`, `umask`)
are made through small trusted wrappers whose contracts say what those crates document.
