# rustic_vfs

An OpenDAL service that presents the snapshots of a
[rustic](https://github.com/rustic-rs/rustic) repository as a read-only virtual
filesystem. Its logic is verified with Verus.

- `src/` is the verified library. Configuration and storage are in `config`,
  `storage` and `repository`, the answers to `stat`, `read` and `list` in
  `backend`, `reader`, `lister`, `node` and `path`, the background refresh in
  `refresh`, and errors in `error`. The public proof functions named `law_..` say
  what holds across functions.
- `app/` connects the library to rustic's I/O and to OpenDAL.
- `tests/` runs the library, against a real repository where one is needed.

Snapshots stand under `[hostname]/[label]/time`, and the newest of each host and
label once more under `latest`. A configuration needs the location of a repository
and credentials for it; repository and filesystem are read again every five
minutes unless the configuration says otherwise. Locations are on the local disk:
the other storages of rustic are left out of the build.
