# ghdesk

A terminal workbench for GitHub pull requests and issues, with its logic
verified by Verus. It lists what you have opened or are assigned to, narrows the
list by state, organization and query, previews the selected item, opens it in a
browser, copies its address or number, and creates pull requests. It needs the
`gh` command, logged in.

## Layout

- `src/` is the library. Everything in it is verified.
  - `text`, `style`, `geometry`, `keys`: strings, styled text, rectangles, keys.
  - `category`, `item`, `graphql`, `github`, `form`, `cli`: searches, items,
    replies, commands, the form for a pull request, the command line.
  - `markdown`, `render`: a document's events, and the lines they become.
  - `model`, `app`: the state, and what each key, event and reply does to it.
  - `screen`, `plan`, `draw`: what the screen shows, and where.
  - `text_laws`, `github_laws`, `render_laws`, `model_laws`, `screen_laws`: what
    holds of these together.
- `app/` is the program: it reads the terminal's events, runs the commands, keeps
  the worker thread and the clipboard, and puts the screen on the terminal.
- `tests/` runs the library.

## What is trusted

Markdown is parsed by `pulldown_cmark`, and areas are divided by `ratatui`. The
functions that call them state what they rely on (`markdown`, `geometry`), and so
do the few functions of the standard library in `text`.

## Keys

| Key | |
| --- | --- |
| `Tab` / `Shift+Tab` | next or previous category |
| `j` / `k`, `↓` / `↑` | next or previous item |
| `n` | create a pull request |
| `e`, `/` | edit the query |
| `a` | edit the organization |
| `s` | open, closed, all |
| `r` | search again |
| `Enter`, `o` | open in a browser |
| `PageUp` / `PageDown`, `J` / `K` | scroll the preview |
| `<`, `Command+Shift+,` | copy the address |
| `>`, `Command+Shift+.` | copy the number |
| `Esc`, `q`, `Ctrl+C`, `Command+W` | quit |

The wheel scrolls the preview when it turns over it, and moves the selection
elsewhere.
