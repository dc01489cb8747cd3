# nix_parser

A parser for the Nix expression language over a token stream, verified with Verus.

- `span`: byte spans and their merge.
- `error`: parse errors and error stacks.
- `lexer`: the tokens the parser reads, windows onto a token stream (`Tokens`), their
  equality and copies (`lexer::compare`), and the text in which tokens are shown for
  debugging (`lexer::debug`).
- `parser`: the grammar as spec functions (`parser::grammar`), the parser that computes
  it (`parser::expr`), partial values for error recovery (`parser::partial`), the
  error-reporting property (`parser::sound`), and the whole-input entry points.
- `ast`: the syntax tree, its rendering back into Nix source (`ast::display`), its
  span-insensitive equality (`ast::eq`) and its copies (`ast::clone`).
- `text`: decimal numbers and quoted strings.

Every parser states in its contract that its result is the value of the grammar function of
the same name; full parses also state that a successful result holds no error node, and that
a refused input is answered with at least one error.
