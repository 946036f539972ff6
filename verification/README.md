# fix-x

A Windows tray program that rewrites copied `x.com/<user>/status/<id>` links
to `fxtwitter.com` or `vxtwitter.com`, verified with Verus.

- `src/` is the verified library: recognising and rewriting post links
  (`clipboard`), the clipboard watcher's decisions (`clipboard`), settings
  (`config`), interface languages and texts (`i18n`), the `Run` registry value
  (`startup`), the decisions of the tray icon, menu and settings window
  (`gui`), the installer's decisions and script (`installer`), and text
  helpers (`text`).
- `app/` is the Windows program around it: windows, clipboard and registry
  access, the settings file, and (`app/installer/`) the installer executable.
- `tests/` exercises the library.
