# circom_ast

Reads Circom source and builds its abstract syntax tree, with the library's
behaviour stated in contracts and proved by Verus.

The pipeline:

1. `input` takes tabs, line comments and block comments out of the source
   text (line breaks stay, so tokens keep their line numbers).
2. `lexer` splits the text into tokens with the token rules' regular
   expressions (the `regex` crate matches them).
3. `parser` reads a grammar text, builds the LR(1) item sets and parse
   tables of the augmented grammar, and runs the shift-reduce loop on the
   tokens; it reports the reductions it made, in order.
4. `ast` turns that list of reductions into the tree.

`text` holds the string and sequence helpers that the others share.

`app/` is the command-line program: it reads the Circom file, calls the
library, and writes the tree as JSON (through `serde_json`), logging with
`log4rs`.
