# kickit

An immutable init system with sandboxed services: the init (`kickit`), its
sandboxer (`warden`) and its control tool (`ktctl`).

`src/` is the library, verified with Verus: the formats the programs share
(service caches, compressed service logs, socket replies), the reading of
their arguments and configuration, the plans they carry out (mounts, the
work directory, a sandbox's container and namespaces, power-off) and the
decisions about services. Laws that tie the programs together are proved
there too, such as that a log file the init writes (an empty log, then
entries appended one by one) is read back by ktctl entry by entry in plain
output, or that the arguments the init gives warden are read by warden as the
sandbox asked for.

`app/` holds the programs around the library: files, sockets, processes,
mounts and the console.

`tests/` runs the library on concrete values.
