# rslprompt

A zsh prompt. The library in `src/` is verified with Verus: it holds what the
prompt shows and how it finds it out, as state machines that say what they
need to know next. The program in `app/` answers those requests from the
environment, the file system, `git` and the cache of the background job,
forks that job, and prints.

- `text`, `number`, `path`: characters, decimal numbers and file-system paths,
  each stated over its mathematical model (`Seq<char>`, `nat`, components).
- `context`: the shell state. `context::query` is the search for the Git
  context of a directory (repository root, git directory, common directory,
  HEAD, background status, stashes, operations in progress); it is built from
  `context::root` and `context::head`, which find the repository root and the
  HEAD information.
- `widgets`, `renderer`: what each widget shows and how the prompt lays them
  out, spaces included.
- `shell`: the zsh setup script (`rslprompt init zsh`).
- `background`: the cache key and the data of the background `git status` job;
  reading and writing the cache and forking the job are in `app/`.
