# vekslosh

A desk that buys and sells bitcoin for government currencies and offsets every
trade on the ByBit exchange.

`src/` is the library. It decides everything: what a request is for, what it is
answered, how much of a trade is hedged, what is sent to the exchange, how that
is signed, how long the desk waits for it, and what changes hands in the end.
Each function states what it does in its contract, and Verus proves it.

Numbers are IEEE 754 binary64. The library holds them by their bit patterns,
decides on their exact values, and describes each computation as an expression.
`app/` evaluates those expressions, and does all input and output: it runs the
steps that the library asks for and hands back what came of them.

| module | contents |
| --- | --- |
| `number` | binary64 numbers and expressions over them |
| `text` | decimal and hexadecimal digits |
| `conversion` | currencies, amounts, and the table that converts them |
| `earn_percentage` | the share of the fee that is earned in sats |
| `hedge` | the size of a hedge, and the settlement of a trade |
| `bybit` | orders, signatures and replies of the exchange |
| `mock` | an exchange with fixed prices |
| `error` | errors and the answers that they get |
| `web` | routes, and the steps of a trade |

Two crates are called from the library: `hmac-sha256` for signatures, and
`hyper` for the errors of connections and for status codes.
