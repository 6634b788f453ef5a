# Providence

Long-running sessions with child processes, driven over a message channel.

A *server* runs child processes on behalf of a *client*. The two exchange
binary-encoded messages over the server's standard input and output: the client
asks for a process to be spawned or killed or sends it input, and the server
answers when a child has started or stopped and relays its standard output and
standard error. Every process is named by a number that the client picks.

The library in `src/` holds the decisions of both ends, verified with
[Verus](https://github.com/verus-lang/verus):

- `messages`: the messages and the ids of processes.
- `wire`: the task that decodes messages from a stream and relays them, and the
  task that writes messages to a stream.
- `server`: the server's main loop as a machine from outcomes to the next work,
  `server::children` with the children that are running, `server::child` with
  the tasks on a child's pipes and its shutdown, and `server::laws` with what
  holds over many steps.
- `client`: the client, and the session that it holds with a server.
- `process`: requests to start a process.
- `text` and `results`: decimal numbers, UTF-8 and lists of results.

Each machine takes the outcome of the work that was just done and returns the
next work, or the result with which it ends. The program in `app/` does the
work: it starts processes, reads and writes their pipes, encodes messages and
hands them through channels.

    providence server
    providence client
