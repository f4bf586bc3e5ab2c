//! `Command`, the example struct of the builder derive, with the builder
//! that the derive generates for it.
use vstd::prelude::*;
use crate::syntax::strings_view;

verus! {

/// A command to run: the executable, its arguments, its environment and,
/// optionally, the directory to run it in.
#[derive(Debug)]
pub struct Command {
    pub executable: String,
    pub args: Vec<String>,
    pub env: Vec<String>,
    pub current_dir: Option<String>,
}

/// The view of a [`Command`].
pub struct SpecCommand {
    pub executable: Seq<char>,
    pub args: Seq<Seq<char>>,
    pub env: Seq<Seq<char>>,
    pub current_dir: Option<Seq<char>>,
}

/// The view of an optional string.
pub open spec fn opt_string(o: Option<String>) -> Option<Seq<char>> {
    match o {
        Some(s) => Some(s@),
        None => None,
    }
}

/// The view of an optional list of strings.
pub open spec fn opt_strings(o: Option<Vec<String>>) -> Option<Seq<Seq<char>>> {
    match o {
        Some(v) => Some(strings_view(v@)),
        None => None,
    }
}

impl View for Command {
    type V = SpecCommand;

    open spec fn view(&self) -> SpecCommand {
        SpecCommand {
            executable: self.executable@,
            args: strings_view(self.args@),
            env: strings_view(self.env@),
            current_dir: opt_string(self.current_dir),
        }
    }
}

/// The builder of a [`Command`]: each field is unset until its setter is
/// called.
#[derive(Debug)]
pub struct CommandBuilder {
    pub executable: Option<String>,
    pub args: Option<Vec<String>>,
    pub env: Option<Vec<String>>,
    pub current_dir: Option<String>,
}

/// The view of a [`CommandBuilder`].
pub struct SpecCommandBuilder {
    pub executable: Option<Seq<char>>,
    pub args: Option<Seq<Seq<char>>>,
    pub env: Option<Seq<Seq<char>>>,
    pub current_dir: Option<Seq<char>>,
}

impl View for CommandBuilder {
    type V = SpecCommandBuilder;

    open spec fn view(&self) -> SpecCommandBuilder {
        SpecCommandBuilder {
            executable: opt_string(self.executable),
            args: opt_strings(self.args),
            env: opt_strings(self.env),
            current_dir: opt_string(self.current_dir),
        }
    }
}

/// The builder with no field set.
pub open spec fn empty_builder() -> SpecCommandBuilder {
    SpecCommandBuilder { executable: None, args: None, env: None, current_dir: None }
}

/// The error of [`CommandBuilder::build`]: a required field is not set.
#[derive(Debug)]
pub struct BuildError {
    /// The message, "Command field: `name` not set".
    pub message: String,
}

impl BuildError {
    /// The error's message.
    pub fn to_string(&self) -> (res: String)
        ensures
            res@ == self.message@,
    {
        self.message.clone()
    }
}

/// The message of the error for the unset required field `name`.
pub open spec fn not_set_message(name: Seq<char>) -> Seq<char> {
    "Command field: `"@ + name + "` not set"@
}

/// What `build` does to a builder: the builder that it leaves, and the
/// command, or the message of the error.
///
/// The fields are taken out of the builder in order: `executable`, `args`,
/// `env`, `current_dir`. The first required field (all but `current_dir`)
/// that is unset stops the build with its error; the fields taken before
/// it are left unset and those after it are left as they were.
pub open spec fn spec_build(b: SpecCommandBuilder) -> (SpecCommandBuilder, Result<SpecCommand, Seq<char>>) {
    match b.executable {
        None => (b, Err(not_set_message("executable"@))),
        Some(executable) => match b.args {
            None => (
                SpecCommandBuilder { executable: None, ..b },
                Err(not_set_message("args"@)),
            ),
            Some(args) => match b.env {
                None => (
                    SpecCommandBuilder { executable: None, args: None, ..b },
                    Err(not_set_message("env"@)),
                ),
                Some(env) => (
                    empty_builder(),
                    Ok(SpecCommand { executable, args, env, current_dir: b.current_dir }),
                ),
            },
        },
    }
}

/// The error for the unset required field `name`.
fn not_set(name: &str) -> (res: BuildError)
    ensures
        res.message@ == not_set_message(name@),
{
    let mut message = String::from_str("Command field: `");
    message.append(name);
    message.append("` not set");
    BuildError { message }
}

impl Command {
    /// A builder with no field set.
    pub fn builder() -> (res: CommandBuilder)
        ensures
            res@ == empty_builder(),
    {
        CommandBuilder { executable: None, args: None, env: None, current_dir: None }
    }
}

impl CommandBuilder {
    /// Sets `executable`.
    pub fn executable(&mut self, executable: String) -> (res: &mut Self)
        ensures
            res@ == (SpecCommandBuilder { executable: Some(executable@), ..old(self)@ }),
            *final(self) == *final(res),
    {
        self.executable = Some(executable);
        self
    }

    /// Sets `args`.
    pub fn args(&mut self, args: Vec<String>) -> (res: &mut Self)
        ensures
            res@ == (SpecCommandBuilder { args: Some(strings_view(args@)), ..old(self)@ }),
            *final(self) == *final(res),
    {
        self.args = Some(args);
        self
    }

    /// Sets `env`.
    pub fn env(&mut self, env: Vec<String>) -> (res: &mut Self)
        ensures
            res@ == (SpecCommandBuilder { env: Some(strings_view(env@)), ..old(self)@ }),
            *final(self) == *final(res),
    {
        self.env = Some(env);
        self
    }

    /// Sets `current_dir`.
    pub fn current_dir(&mut self, current_dir: String) -> (res: &mut Self)
        ensures
            res@ == (SpecCommandBuilder { current_dir: Some(current_dir@), ..old(self)@ }),
            *final(self) == *final(res),
    {
        self.current_dir = Some(current_dir);
        self
    }

    /// Takes the fields out of the builder and makes the command, as
    /// [`spec_build`] states it.
    pub fn build(&mut self) -> (res: Result<Command, BuildError>)
        ensures
            final(self)@ == spec_build(old(self)@).0,
            match (res, spec_build(old(self)@).1) {
                (Ok(c), Ok(d)) => c@ == d,
                (Err(e), Err(m)) => e.message@ == m,
                _ => false,
            },
    {
        let executable = if let Some(v) = self.executable.take() {
            v
        } else {
            return Err(not_set("executable"));
        };
        let args = if let Some(v) = self.args.take() {
            v
        } else {
            return Err(not_set("args"));
        };
        let env = if let Some(v) = self.env.take() {
            v
        } else {
            return Err(not_set("env"));
        };
        let current_dir = self.current_dir.take();
        Ok(Command { executable, args, env, current_dir })
    }
}

/// Building after every required field has been set gives back exactly the
/// values that were set, with `current_dir` as it stood, and leaves the
/// builder with no field set.
pub proof fn law_build_returns_what_was_set(
    b: SpecCommandBuilder,
    executable: Seq<char>,
    args: Seq<Seq<char>>,
    env: Seq<Seq<char>>,
)
    ensures
        spec_build(
            SpecCommandBuilder { executable: Some(executable), args: Some(args), env: Some(env), ..b },
        ) == (empty_builder(), Ok::<SpecCommand, Seq<char>>(
            SpecCommand { executable, args, env, current_dir: b.current_dir },
        )),
{
}

/// Building succeeds exactly when `executable`, `args` and `env` are all
/// set; otherwise the error names the first of them, in that order, that is
/// not set.
pub proof fn law_build_fails_on_first_unset_field(b: SpecCommandBuilder)
    ensures
        spec_build(b).1 is Ok <==> (b.executable is Some && b.args is Some && b.env is Some),
        b.executable is None ==> spec_build(b).1 == Err::<SpecCommand, Seq<char>>(
            not_set_message("executable"@),
        ),
        b.executable is Some && b.args is None ==> spec_build(b).1 == Err::<SpecCommand, Seq<char>>(
            not_set_message("args"@),
        ),
        b.executable is Some && b.args is Some && b.env is None ==> spec_build(b).1 == Err::<
            SpecCommand,
            Seq<char>,
        >(not_set_message("env"@)),
{
}

/// A builder gives at most one command: building a second time, with no
/// setter called in between, always fails.
pub proof fn law_build_takes_the_fields(b: SpecCommandBuilder)
    ensures
        spec_build(spec_build(b).0).1 is Err,
{
}

/// A new builder cannot be built: its required fields are unset.
pub proof fn law_new_builder_is_empty()
    ensures
        spec_build(empty_builder()) == (empty_builder(), Err::<SpecCommand, Seq<char>>(
            not_set_message("executable"@),
        )),
{
}

} // verus!
