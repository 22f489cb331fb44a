# floreria

The rules of a flower shop kept on chain by its owner: products (name, price,
stock, availability), customers (name, purchases, amount spent) and the sales
between them. Only the owner's signature changes the shop; names are at most
60 UTF-8 bytes; a shop holds at most 40 products and 40 customers.

- `src/` — the verified library: the shop's model, each instruction as a
  function on values (`reglas`), the instructions themselves (`programa`),
  with contracts that pin their results, and the laws that relate them
  (`leyes`).
- `app/` — the Anchor program around the library: the accounts, the error
  codes, the events, reading the clock and emitting.
- `tests/` — tests of the library on concrete values.
