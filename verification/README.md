# harness_desktop

The decision logic of a small desktop shell around the DeepSeek Harness server,
written and verified in Verus.

The library never touches the outside world. Where work is needed (a probe of the
port, a file, a process, the autostart switch) it names the next step, and the
caller hands the outcome back as a plain value.

- `server`: the server manager, its reports, and the steps of a start
- `watcher`: the watch over a launched server
- `lifecycle`: what holds of a manager over whole sequences of operations
- `probe`: whether the port answers, and whether it serves the harness
- `npm_cache`, `upgrade`: the upgrade of the server's package
- `autostart`: the autostart switch
- `place`: places in the file system, as plain values
- `tray`: the tray menu and the meaning of clicks
- `text`: decimal numbers, search, trimming and the tail of a log

`app/` is the Tauri application that carries out the steps.
