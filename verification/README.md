# aws_push_code

Pushes the contents of a git repository into an S3 object, for a
webhook-driven continuous-delivery pipeline: a GitLab push event becomes a
unit of work on a queue (`accept`), and queued work is performed by cloning
the pushed branch, zipping it and uploading the archive (`work`).

- `src/` is the verified library (Verus). The effects are traits that a
  runtime implements (`effect::file`, `effect::repo`, `effect::zip`,
  `effect::s3`, `effect::secret`); what each operation may give back is a
  spec function of the trait, which allows anything unless a verified
  runtime narrows it. The decisions around the operations are the
  library's own and are verified: `effect::repo::clone_repo` decides which
  lookups a target takes and which commit is checked out;
  `effect::zip::zip_directory` decides what goes into an archive and hands
  the runtime the plan to write. `submission::Submission` is the state
  machine that orders a submission's effects and fixes their arguments,
  with its laws; its step methods perform each effect only in its turn and
  keep a ghost record of what was performed, which `Submission::run`
  states. `Submit` and `handler::perform_work` state their results in
  terms of it; `handler` decides what a push event asks for;
  `effect::secret` reads a deploy key out of a secret's text.
- `app/` is the production runtime (temporary files, git2, zip, AWS through
  rusoto) and the Lambda entry points.
- `tests/` runs the library against in-memory effects.
