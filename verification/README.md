# mold

A Mach-O linker front end built on GNU bfd, with the logic that fetches,
configures and builds the autotools libraries it links against.

- `src/` is the verified library:
  - `command.rs`: command lines, Unix path joining, make's arguments, exit
    statuses.
  - `autotools.rs`: building a dependency in place (resolve, download and
    unpack, configure, make) as a state machine whose caller does the outside
    work; laws on its runs.
  - `autotools_install.rs`: downloading into temporary directories, building
    and installing under a prefix, in the same style.
  - `bfd.rs`: the C strings handed to libbfd, opened object files, the link
    settings, and reading libbfd's null-terminated target list.
- `app/` is the program around it: libbfd declarations and calls, the file
  system, downloads and processes that drive the state machines.
- `tests/` runs the library on concrete values.
