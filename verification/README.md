# foxy_views

The view logic of the Foxy mod manager, verified with Verus.

- `src/` is the library. It holds what the views decide and compute: texts,
  orders, which control works, what a click changes, the steps of background
  tasks, and the import of a Swifty configuration. Every function has a contract,
  and laws that span functions stand as public proof functions named `law_*`.
- `tests/` runs the library on concrete values.
- `app/` draws the views with egui and does the work around them: files, dialogs,
  the clipboard, archives and threads. What only the surrounding application
  knows comes in through its `Host` traits.

Measurements that are floating-point numbers are carried by their bits and are
compared or cut to whole numbers in the library; what computes with them stands
in `app/`. Texts are English and are the keys of their translations.
