# commerce

The request validation, query planning and data mapping of a commerce
service (shops, their customizations and domains, offers with their images,
prices and shipping rates), written in Verus with their contracts proved.

- `src/` is the library. `model/` describes the statements the service runs
  (`query.rs` holds the statement descriptions, with the relations joined,
  gathered and grouped with each row; one file per table builds them) and
  reads the relations that Postgres sends aggregated with a row
  (`record.rs`). `services/` holds what each service accepts and decides;
  `subscribers.rs` what an event about a website writes. `api.rs` holds the
  enumerations of the protocol, `status.rs` the statuses that refused
  requests are answered with.
- `app/` is the service around the library: configuration, the connection
  pool, the statements written out in SQL with sea-query, the image storage,
  NATS (published events, and the website events it follows) and the gRPC
  server.
- `tests/` run the library on concrete values.

## What the crate does not hold

The gRPC messages, enumerations and servers of the service are generated
from protocol definitions that this crate does not hold. So:

- the server in `app/` answers only health and reflection requests; the
  shop, customization, domain, offer and shipping-rate services are not
  wired, and `app/handlers.rs` holds the request handlers they would call;
- the answers built from records (shops, customizations, domain statuses,
  offers, prices, shipping rates) and the checks that read the protocol's
  enumerations are not written: offer types (`OfferType`), prices
  (`Currency`, `PriceType`, `PriceBillingScheme`, `RecurringInterval`),
  shop layouts (`ShopLayoutType`) and domain statuses (`DomainStatus`).
  This leaves out validating a price and an offer type, creating and
  updating offers, putting a price or a shop customization, and reading and
  updating a domain's status.
