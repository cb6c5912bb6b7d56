# docks

An interactive helper around docker for the project in the current folder:
building, pushing and pulling images, starting, stopping, restarting and
removing containers, reading logs, and deploying the containers that
`docks.toml` lists, on this machine and on servers reached over ssh.

The library in `src/` is verified with Verus. It holds the tool's decisions,
each with a proved contract, and the laws that hold across them:

- `invocation`: the command lines of docker, ssh, rsync, ncat and the rest;
- `plan`: plans of steps, and what each step's outcome means (`verdict`);
- `commands`: the plans of the single commands;
- `config`: the `docks.toml` document and the servers it names;
- `deploy`: local and remote deployments, and the check of running containers;
- `chore`: the interactive chores, as state machines;
- `menu`: the main menu;
- `messages`, `error`: what the tool prints and reports;
- `laws`, `trace`: properties that hold across these functions.

The program in `app/` performs what the library asks: it starts the programs,
asks the questions, reads the clock, reads `docks.toml` and has toml parse
it into the library's document, and prints.

`docks.toml` holds a `local` table with the `containers` deployed on this
machine, and one table per server:

```toml
[local]
containers = ["db"]

[alpha]
username = "root"
port = "22"
ip = "10.0.0.1"
containers = ["blog", "wiki"]
```
