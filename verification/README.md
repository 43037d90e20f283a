# discord-cli

A command-line control panel for Discord Web, driven through a browser that
the agent-browser tool controls over the Chrome DevTools Protocol.

`src/` is the verified library:

- `manifest`: the commands, MCP tools and skills, and the `describe` manifest;
- `params`: reading command parameters (trimmed strings, integers);
- `registry`, `executor`: resolving a command name to what it runs;
- `script`: the scripts run in the page, with their arguments quoted as JSON;
- `browser`: the actions a command asks of the browser and the replies;
- `navigate`: switching server and channel, scrolling the channel list;
- `read`, `channels`, `switch`, `search`, `send`: one state machine per
  command that talks to the browser in several steps;
- `servers`, `members`, `status`, `open`: answers of the one-step commands;
- `laws`: properties that span several functions.

`app/` is the program: argument handling, the agent-browser binding, and the
loop that performs the actions a state machine asks for.
