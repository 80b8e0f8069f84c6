# dimigomeal

The back end of a school meal service: it scrapes the school's cafeteria
board into a meal store, serves meals and live-activity registrations over
HTTP, and pushes the current menu to registered iOS devices.

- `src/` is the verified library (Verus). It holds the text handling
  (trimming, splitting, joining, decimal parsing), the scraping of the board
  and post pages, calendar dates and the local clock, the meal slot of a time
  of day, device-token decisions, the replies of the HTTP endpoints and the
  decisions of the command line. Calls into `regex`, `visdom` and `chrono`
  stand behind small trusted functions whose contracts are documented beside
  them.
- `app/` is the program around it: the command line, the SQLite store, the
  HTTP server and the HTTP requests to the board and to the push service.
- `tests/` runs the library on concrete inputs.
