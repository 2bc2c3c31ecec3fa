# zed

The decisions of an editor, verified with Verus: where the messages of a collaboration server go,
how an editor is shown, searched, navigated and saved, what is asked of language servers and made
of their answers, which images are fetched, and how the application starts.

- `src/` is the library. Its functions are verified against their contracts, but for the few that
  call other code and are named below.
  - `client`: subscriptions, handlers and the routing of messages.
  - `editor`: tabs, breadcrumbs, navigation, saving and search.
  - `lsp_command`: requests to language servers and their answers.
  - `image_cache`, `open_listener`, `paths`, `text`, `ui`.
  - `startup`: arguments, the login shell, panics, logs, fonts and themes.
- `app/` is the program around it: input and output, and the crates that do them.
- `tests/` runs the library.

Facts that span several functions are stated as proof functions whose names begin with `law_`.
What other crates and the standard library compute is called through small functions whose contracts
are trusted: the decoding of percent escapes (`urlencoding`), the URLs of files (`url`, by way of
`lsp-types`), the formats of images (`image`), the reading of bytes that may not be text
(`String::from_utf8_lossy`), and the way a path is quoted (the `Debug` of `Path`).
