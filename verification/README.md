# coffeeshop

A framework for HTTP hosts that hand their requests to load-balanced workers:
a *waiter* takes a request, puts it as a *ticket* on a queue, a *barista* in
any shop of the cluster takes the ticket, has the *coffee machine* process it,
stores the result in a table and announces it to all shops over multicast, and
the waiter answers with the result.

The decisions of this framework are verified with Verus:

- `src/` is the verified library: the errors and their JSON form, the
  configuration and its checks, the announcements and their wire numbers, the
  orders a waiter awaits and how they are settled and purged, the records of
  results in the table, the text form of queue payloads, the once-only
  completion of received messages, the plans of a barista, and the addresses
  and texts these need. Laws that span several operations stand as public
  proof functions beside the operations.
- `app/` is the runtime around it: the HTTP server, the clients of the queue
  and the table, the multicast sockets, the compression of payloads and the
  async tasks of the shop. It hands plain values to the library and performs
  what the library decides.
- `tests/` runs the library on concrete values.
