# mount_sidecar

The rules by which the users of a mounted environment, and the sidecar process that mounts it,
get along with each other. The rules are stated in contracts and proved with Verus.

## Layout

- `src/` is the verified library. It does no I/O: it says what to do next and is told what came of
  it.
  - `coordination`: the lock file, the pid file and the overlay directory beside a mount point
  - `pidfile`: writing and reading the pid file, and whether a sidecar is alive
  - `ensure`: how a user comes to a mounted environment
  - `start`: starting a sidecar and waiting until it is ready
  - `managed`: the life of a sidecar, with its grace period
  - `mountpoint`: telling a mount point, and cleaning up after a dead sidecar
  - `mount`, `umount`: the two commands
  - `prefetch`: which packages are fetched before a mount, and in which order
  - `protocol`, `path`, `text`: what the others are made of
- `app/` is the part that talks to the operating system, to the network and to the file system. It
  carries out the steps that the library asks for.
- `tests/` runs the library on concrete values.

## What is proved

Each public function states its result for every input that its `requires` admits. Beyond that, each module has laws, the
proof functions whose names start with `law_`. Some of them:

- While one user looks for a sidecar with the lock to itself, cleans up before a start or starts a
  sidecar, no other does.
- A user starts over a limited number of times, then fails.
- A clean-up leaves a live sidecar and its mount alone.
- An environment is reported mounted only when its sidecar was found alive or became ready.
- A sidecar ends for want of users exactly when none was there for a whole grace period.
- A sidecar holds the lock only between a probe and its release.
- A pid that was written to a pid file is read back, and only the id of a single process is ever
  told to end.
- An environment is reported unmounted only when the last look found it so.
- Two environments whose names are valid UTF-8 share a coordination file only if they have the same
  parent directory and the same name.

## What is trusted

- `path::decode_lossy`: what `String::from_utf8_lossy` makes of bytes
- `start::feed_path`: the `Hash` of `std::path::Path`, of which nothing is claimed
- `mount::default_environment_name`: the constant `rattler_lock::DEFAULT_ENVIRONMENT_NAME`
- `prefetch::find_environment` and `prefetch::packages_for`: what a `rattler_lock::LockFile` holds
