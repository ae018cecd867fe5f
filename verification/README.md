# netconnection

The `NetConnection` class of the ActionScript 1/2 virtual machine (Flash
Remoting and local connections), written in Verus with its contracts proved.

## Layout

- `src/value.rs`: the values the class works on (`Value`, and its view
  `AvmValue`). Numbers and other values the class never inspects are carried
  as opaque tokens.
- `src/heap.rs`: objects, their properties and native parts, and the heap.
- `src/runtime.rs`: the state the methods read and change (`Runtime`): the
  heap, the connections as the host reports them, and the effects the methods
  ask the host to carry out (send a call, close a connection, call a script
  method, ...). It also holds the conversions of values to strings, booleans
  and objects.
- `src/net_connection.rs`: the class: constructor, `isConnected`, `protocol`,
  `uri`, `addHeader`, `call`, `realcall`, `close`, `connect`, `getService`, the
  status events and replies, and the prototype and class objects.
- `src/service_proxy.rs`: the proxy that `getService` returns, its
  `__resolve`, its calls and the responder that forwards replies to the client.
- `src/task.rs`: the methods that may need script code (string and boolean
  conversions of objects and numbers, getters and setters) run as tasks. A
  task runs until it ends with a value or an error, or stops with
  `Action::Ask`, handing the host a request and the task; the host does the
  work and continues the task with `resume`, giving the value or the error
  that came back. An error ends the method, and nothing after it happens.
- `src/laws.rs`: properties that span several methods.
- `app/lib.rs`: conversions between the library's values and the AMF values of
  the `flash-lso` crate, for the host's network code, and the text of the
  trace lines.

Each method's contract states the new runtime and result through a spec
function named after it (`call_spec`, `close_spec`, ...).
