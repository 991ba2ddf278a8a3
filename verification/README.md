# rocket_yew_todo

A todo list: a Yew client and a Rocket server that keeps the tasks in
MongoDB.

- `src/` is the verified library. `state` and `model` hold the client's list
  and its message handling (the effects to perform come back as `Action`s);
  `view` the page's class names and links; `task_client` and
  `task_requests` the requests the client sends; `store` the server's rules
  for reading documents and saving entries (a `SaveSession` says which store
  request comes next); `object_id` and `text` the calls into `bson` and
  `str::trim`; `laws` properties that span several calls.
- `app/` runs the library: the Rocket routes, the MongoDB calls, the Yew
  component and its fetches, and serde copies of the library's types.
- `tests/` exercises the library on concrete values.
