# wallet_dashboard

Four panes of a wallet's dashboard, written and proved in Verus:

- `function_panel` lays out what a call does: the sentence of its headline, its
  arguments, and what casts doubt on either.
- `sign_review` is the review every signature passes through: the steps that are
  signed, what they move and cost, and the buttons that confirm or dismiss.
- `wc_panes` shows what a connected application asks for, what approving would
  grant, and the open sessions.
- `tx_builder` composes calls, queues them into a batch, and decides what is
  simulated and sent to review. `txbuilder` holds the values it works on.

`calendar`, `chain`, `primitives` and `text` are what these share.

The panes neither draw nor talk to anyone. Each function takes plain values and
gives plain values back: what is on screen, the message behind each button, and
what the rest of the wallet is asked for. A `laws` module beside a pane states
what holds of it whatever happens.

`app/` draws the panes with iced and passes the wallet's answers on. `tests/`
runs the library.
