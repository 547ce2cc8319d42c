# showkey

Shows the key combinations, mouse clicks and touchpad gestures that are pressed
as floating "chips" on a Wayland layer-shell overlay.

- `src/` is the verified library: key labels (`keymap`), the keyboard state and
  the reporter that turns key events into chips (`state`), pointer chips
  (`pointer`), the chip rack of the overlay (`chip`), keyboard detection
  (`keyboard`), the settings model and the settings window's texts and style
  (`settings`, `texts`), debounced saving (`debounce`), pause control
  (`control`) and the XDG paths (`xdg`).
- `app/` is the program around it: GTK overlay and settings window, the tray
  icon, evdev and libinput readers, the settings file.
- `tests/` exercises the library on concrete values.
