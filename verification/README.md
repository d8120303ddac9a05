# pureff

A GitHub App that fast-forward merges a pull request when the box in its comment is ticked.

- `src/` is the verified library (Verus): the comment texts (`messages`), the mapping from
  GitHub's branch comparison to a fast-forward status and the reference update that merges
  (`fast_forward`), the parsing of the bot's user id (`config`), the plain-value model of a
  webhook event (`events`), and, in `handlers`, every decision of the webhook handlers, with
  the laws that hold across them (`handlers::consistency`).
- `app/` is the program around it: it reads the environment, runs the webhook server, makes
  the GitHub API calls that the library's decisions name, and logs.
- `tests/` runs the library on concrete values.
