# stationery

A catalogue service for a stationery shop: brands, a two-level category
tree, products and their sellable variants, served as a JSON API and as
Arabic HTML pages over PostgreSQL.

## Layout

- `src/` — the library, verified with Verus.
  - `text.rs`: trimming (Unicode white space), character counts, ASCII
    case-insensitive comparison, decimal ids, avatar letters and colours,
    and the laws about them.
  - `status.rs`, `reply.rs`: HTTP statuses, what a database failure is
    (by SQLSTATE code), the replies of the API and the answers of the
    pages, flash messages and live-search patterns.
  - `brand.rs`, `category.rs`, `product.rs`, `product_variant.rs`: the
    records, the payloads and forms, and the rules they must meet; the
    category tree and the page rows. Each has `api` and `web` submodules
    with the decisions of the endpoints and the pages (what to write, what
    to answer for each outcome of the database), and `filters` for the
    avatars.
- `tests/` — tests of the library on concrete values.
- `app/` — the server: routes, database queries, templates, and the
  decoding of JSON bodies and HTML forms. It asks the database, hands the
  answers to the library, and carries out what the library decides.
