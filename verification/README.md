# chigua

A small scraping gateway for a few content sites, written in Verus.

`src/` is the verified library:

- `model` — the values the handlers read and answer with, and the events,
  actions and states of the request handlers.
- `gateway` — the gateway server's routes (`caoliu`, `hl`, `mrds`,
  `caoliu_image`) as state machines over an in-process cache and a site table.
- `image_fetch` — the image-fetch server's routes (`caoliu`, `mrds`,
  `caoliu_image`), which ask an address service for each site's base url and
  use a shared cache that can fail.
- `scrape` — which elements of each site's pages are read, and how the answer
  is built from them.
- `render` — the JSON text of an answer.
- `links` — reading a service's hostname out of the host's link list.
- `text` — string helpers (`trim_end_matches` for a repeated suffix, and so on).
- `bindings` — the trusted calls into scraper, regex, base64 and serde_json.
- `laws` — properties across steps: a page or image served from the cache is
  the one first served (for the image-fetch pages, when the stored JSON reads
  back as the answer it was written from), every request is answered after a
  bounded number of events, different pages never share a cache key (an
  image url and a caoliu page id of the same text do share one, as the
  `caoliu_` prefix is common to both routes).

`app/` runs the two servers (actix-web and axum): it performs the actions that
the state machines ask for (cache, HTTP, address service), reads cached
image-fetch pages back into `Response` values with serde, and turns the
answers into HTTP responses. `app/main.rs` starts the gateway, or the
image-fetch server when its first argument is `image-fetch`.
