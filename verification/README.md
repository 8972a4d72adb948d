# cw_dao

The rules of a DAO whose members vote with the weight of a token: proposals, votes, thresholds and
quorums, deposits, and the list of tokens that the treasury holds. The rules are written in Verus,
and every function states what it returns and what it leaves behind.

- `src/` is the library. `contract` handles the messages that change the state, `query` those that
  read it. `state` is what the contract remembers; `proposal`, `threshold` and `expiration` hold the
  rules of voting; `table` and `order` keep records in the order of their keys; `token` makes messages
  to token contracts; `outside` lists what has to be asked of the chain, and `records` what has to be
  read from its store. `laws`, `page_laws` and `part_laws` state and prove what holds over any number
  of messages, of every page, and of a part of the state.
- `app/` puts the library on a chain: it loads and stores the state, puts the questions, and writes
  answers as JSON.
- `tests/` runs the library on concrete values.

The library asks the chain nothing itself. `instantiate_questions`, `execute_questions` and
`query_questions` say what has to be asked before a message can be handled; the answers are handed
in with the message. `execute_fits` and `query_fits` tell whether a message can be handled with these
answers at all: where a sum would be too large to write down, it cannot.

Nor does it need the whole state. `execute_records` and `query_records` say which proposals and ballots
have to be read; on a state with these alone, a message gets the same answer and leaves the same
changes behind.

Believed without proof are three functions of `cw0` on points in time, and that a token message always
has a JSON encoding, which follows from the message alone.
