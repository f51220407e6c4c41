# Yet Another BG3 Mod Loader

A native-plugin loader for Baldur's Gate 3. It watches for the game to start
(or waits a while for one running game), checks that the game process was not
patched already, and loads the plugin dlls from the plugins folder in the
Larian local data folder into it, either directly or through its loader
library.

## Layout

- `src/` is the library, written in Verus and verified: the decisions of the
  process watchers (which processes are new, which are watched executables,
  when a watcher times out or stops), which plugin files are loaded and under
  which name they are reported, the dirty check's folder-identity cache and
  retry limits, the steps of the buffer-growing loops around the Windows
  process APIs, the folders and executables the tools work with, the launcher preferences'
  backend values, the loader library's digest and `Init` export checks, and
  the log pipe's client authorization. Public functions state their results
  in their `ensures`; where an outside answer decides the result (the
  user's local data folder, the PE parser's acceptance of the loader, the
  stop token's signals), the function that makes the call states what holds
  whatever came back (for the stop token, nothing beyond its type) and a
  verified function that takes the answer states the rest; the laws that relate several functions are public
  proof functions, and those of a whole watcher run hold of every state of
  its verified step function, whose actions the application only carries
  out.
- `app/` is the Windows program around the library: command line, popups,
  logging, configuration file, COM and WMI, process handles, remote memory
  and threads. It hands the library plain values and acts on what comes back.
- `tests/` runs the library on concrete values.
