# multiseat_virtualization

The verified core of a multi-seat desktop. A second person works at the same computer in a
Windows guest that runs in a VirtualBox machine, with a keyboard, a mouse and a display of their
own. The library decides what is done about that machine: how it is made, how Windows is
installed in it, how it is started and stopped, which physical device is handed to it, where its
window stands, and what is reported of all this.

## Layout

- `src/` is the library. Everything in it is verified by Verus.
  - `journal` is the language of the contracts. A service puts requests to components that
    nothing is promised of: `VBoxManage`, windows, files, the clock. Its contract says that it ran
    a *program*: a function from its state and from the answers to its requests, its new state and
    its result. The programs are spec functions whose names end in `_p`.
  - `text`, `paths`, `text_map`, `duplicate` and `sequences` are what the rest is written with.
  - `devices`, `displays`, `seats` and `keyboard_routing` are the data of the desktop.
  - `virtualization` holds the backends, the probe of the host and the correlation of physical
    devices with USB devices. `virtualization::virtualbox` holds the service of the second seat.
  - The modules whose names end in `_laws`, and the functions whose names begin with `law_`,
    state what holds of whole programs, whatever the components answer.
- `app/` is ordinary Rust around the library: processes, temporary files, the registry, Windows'
  own windows, and the copies of the library's types that are serialized.
- `tests/` are tests of the library.

## What is trusted

The contracts of `String::push`, `String::from_utf8`, `String::from_utf8_lossy` and the quoting
of `{:?}` are believed, as are the clocks, of which nothing is promised.

## How the journal is tied to the calls

The traits `VBoxManageExecutor`, `InstallationHost`, `ProbeHost`, `Desktop`, `HardwareInventory`,
`FocusProtectionBackend`, `MouseIntegrationController` and `PresentationBackend` stand for what
is outside. Each has a relation, `answers`, between requests and answers. An implementation may
choose it, and it allows everything where none is chosen. A call gives an answer that the
relation allows, and leaves the relation as it is. Nothing else is promised. (What guards focus,
switches the mouse or shows windows has a second relation, `answers_now`, which may change: it
says how the simulated components of a new service begin.)

A constructor says that it keeps the components that it was given, and with them their relations.
Every contract says that each exchange that the journal gains is one that the components allow
(`journal::runs`, `journal::law_the_journal_is_true`). As nothing is known of a component's
relation but what a call of it gives, a machine cannot note a request that it did not put, nor an
answer that it did not get. That a component was not asked more often than is noted is not
stated, nor are flags and clocks tied in this way: they are no components.
