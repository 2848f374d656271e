# politiktok

The view-model logic of the PolitikTok campaign platform's pages, verified
with Verus: how each form is read and validated before a server call, how
text fields are trimmed and split into lists, which badge or class a status
gets, how selections toggle, how the coaching and policy chats take a
message at once and fill in the reply later, how a debate briefing splits
into sections, and how text is escaped for the clipboard.

- `src/` is the verified library. `text` and `numbers` hold the string and
  number handling the pages share (trimming, `lines`, `split`, decimal
  formatting, `i32` parsing); `selection` the toggle of multi-select lists;
  `forms` the shared field rules; `clipboard` the copy scripts; one module
  per page holds that page's rules.
- `tests/` runs the library on concrete values.
- `app/` holds what stays outside it: scores and amounts kept as
  floating-point numbers, raw JSON values from the server, and the checks
  made before calling library functions that have preconditions.
