# stripe_subscription

Durable Stripe Billing behaviour for Lenso applications: subscription-mode Checkout Sessions,
Customer Portal sessions, verified webhooks, usage events, and the reconciliation of product
entitlements.

- `src/` is the verified library. Every decision is a function with a contract; a flow that waits
  for the database, Stripe or another capability is a series of such functions, each of which says
  what is to be performed before the next.
- `app/` performs it: PostgreSQL, HTTP, the capabilities, and the serialized forms.
- `tests/` runs the library on concrete values.
