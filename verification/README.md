# galoy_cli

A command-line client for a Galoy banking backend, with its decision logic
verified by Verus.

- `src/` is the verified library: the balance report (`balance`), batch
  payments from CSV files (`batch`), the reading of GraphQL replies
  (`responses`, `queries`), authentication helpers (`auth`), the command
  line's own checks (`cli`), exact decimal amounts (`decimal`), error types
  and their messages (`errors`), and the wallet kinds (`types`, `utils`).
  Calls into `rust_decimal`, `csv`, `serde_json`, `url` and `reqwest` sit
  behind small trusted wrappers whose contracts are stated in their doc
  comments.
- `app/` is the program around it: the command line, the HTTP requests, the
  captcha web page, the token file.
- `tests/` runs the library on concrete inputs.
