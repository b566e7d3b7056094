# blawgd

The web client of Blawgd, a micro-blogging platform whose posts, likes and
follows live on a Cosmos chain.

- `src/` is the verified library: the service endpoints of the page's host,
  the routing of addresses to pages, the markup of posts and pages, the feed's
  paging, the like and repost counters, the decisions taken on what local
  storage holds, and the Tendermint RPC addresses of the light client. Every
  public function carries a contract that Verus proves; the `law_*` proof
  functions state what holds across functions.
- `tests/` runs the library on concrete values.
- `app/` is the browser side: DOM access, local storage, event handlers and
  network requests, calling into the library for every decision.
