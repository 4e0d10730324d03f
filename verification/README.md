# vendor_api

The vendor service of a bookstore platform: vendors list and advance their
orders, manage their inventory and see their dashboard; admins approve
vendor applications.

- `src/` is the verified library (Verus): the order status lifecycle and its
  laws (`status`), the errors and their responses (`error`), access
  decisions on tokens and bookstores (`auth`), order listing, lookup and
  status changes (`orders`), application approval (`applications`),
  inventory updates (`inventory`) and the dashboard without a store
  (`stats`).
- `app/` is the web server around it: routes, request extraction, token
  decoding, database queries, JSON responses, and the money figures that are
  answered as floating-point numbers.
- `tests/` exercise the library on concrete values.
