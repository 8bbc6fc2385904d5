# inx_eddn

A relay from the EDDN feed of Elite Dangerous journal events to the EDCAS
contract on an EVM node, with its rules verified by Verus.

- `src/` is the verified library:
  - `journal` decides, for each journal event, which contract calls record it
    and with which arguments, and where a missing field stops the event;
  - `value` parses the text of a message with `json` and holds the model of
    the parsed value that those rules read;
  - `number` reads decimal integers and the fixed-point numbers (`Floating`)
    the contract takes;
  - `text` holds the character-level helpers;
  - `eddn` decides what becomes of each compressed update from the feed;
  - `send` judges the outcome of sending a call and when to retry;
  - `settings` reads the command line and the retry settings;
  - `hornet` builds the signed message that a block carries.
- `app/` is the program around it: the ZeroMQ subscription, the channel and
  threads, and the calls to the node.
- `tests/` exercises the library on concrete events and values.

The program reads `contracts/EDCAS.abi` for the contract's interface and the
environment variables `ZEROMQ_URL`, `EVM_URL`, `PRIVATE_KEY`, `SC_ADDRESS`,
`RETRY_TIMEOUT` and `DURATION_TIMEOUT`; the flags `-evm`, `-pk`, `-sc`, `-rt`
and `-dt` set the last five.
