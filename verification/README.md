# atbbank

A payment connector to the SmartVista gateway of ATB Bank, verified with Verus.

- `src/domain`: the payment router's vocabulary, as far as the connector reads or fills it.
- `src/transformers`: the requests to the bank, its answers, and what they mean.
- `src/connector`: the flows. Each makes a request and reads the answer.
- `src/laws.rs`: what holds across the flows.
- `app`: the same on bytes and JSON. It decodes answers and stored records with serde, notes the
  answers in the host's record of the call, and hands the forms to an encoder.

An order is registered first. The cardholder then comes back to the router, which submits the card
that was stored with the order. A record that names a 3DS transaction makes it submit that instead;
no answer of the bank brings such a transaction at present, so only the host can store one.
Afterwards an order can be captured, voided, refunded and asked about.
