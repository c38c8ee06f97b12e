# conveyorbelt

A development server for web projects: it watches the sources of the git
work tree it is started in, runs a build command on every change (with the
served directory in the environment variable `SERVE_PATH`), serves that
directory at `http://localhost:<port>/`, launches a browser at that address
and reloads the page whenever a build succeeds.

```
$ conveyorbelt <build command>
```

## Layout

- `src/` is the library, verified with Verus:
  - `app.rs`: the state machine that decides, for each event of the server,
    the build process, the file watcher and the browser, what to do next;
  - `laws.rs`: properties of that state machine over all states and events;
  - `fswatch.rs`: which file system notifications count as changes, and
    whether git ignores each changed path;
  - `browser.rs`, `project_path.rs`, `cli.rs`, `control.rs`: checks on the
    browser's pages, the project root from git's output, the command line,
    and the exit decision of a start-up step.
- `app/` is the program around the library: the processes, the HTTP server,
  the file watcher, the browser and the event loop.
- `tests/` exercises the library on concrete values.
