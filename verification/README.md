# quick-translate

A translator for the Linux desktop that sends text to a chat-completion
service and shows the answer, either in a one-shot popup (the clipboard is
translated and the translation copied back) or in a two-pane window that lives
in the system tray.

- `src/` is the library, verified with Verus: the model and language catalogs,
  the requests and prompts, the interpretation of replies, the parsing of the
  pointer position and of clipboard output, trimming, word counting and
  integer parsing, the tray icon's pixels, and the decisions of the two
  windows (model and key settings, the swap of languages and texts,
  translation progress, tray and close handling, shortcuts); only the showing
  and hiding of the settings panel is left to the widgets.
- `app/` is the program around it: GTK widgets, the tray service, HTTP calls,
  the clipboard tools and the environment file.
- `tests/` runs the library on concrete values, comparing the text functions
  with the standard library's.
