//! A builder for external command invocations, with structured reporting of
//! every failure mode.
//!
//! [`Command`] accumulates an executable name, arguments, environment
//! overrides, and stdio routing, and keeps a display string that always equals
//! the space-joined executable name and arguments. Launching and waiting on
//! the operating-system process is left to an unverified shell around this
//! crate; the mapping from a process's outcome to a [`error::Error`] or an
//! [`output::Output`] is part of the library.

pub mod error;
pub mod output;

pub use crate::error::Cause;
pub use crate::error::Error;
pub use crate::error::OsError;
pub use crate::output::ExitStatus;
pub use crate::output::Output;
pub use crate::output::Utf8Error;

use vstd::prelude::*;

verus! {

/// Routing for one of a child process's three standard streams.
#[derive(Clone, Copy, Debug, PartialEq, Eq, Structural)]
pub enum StdioCfg {
    /// The child shares the parent's stream.
    Inherit,
    /// The stream is connected to nothing; writes are discarded, reads see
    /// end-of-file.
    Null,
    /// The stream is connected to a pipe, to be written or drained by the
    /// caller.
    Piped,
}

/// The display string grown so far, extended by one component: a single space
/// separates components, and nothing precedes the first one.
pub open spec fn join_next(display: Seq<char>, component: Seq<char>) -> Seq<char> {
    if display.len() == 0 {
        component
    } else {
        display + " "@ + component
    }
}

/// The display string of an executable name followed by arguments: the name,
/// then each argument in order, space-joined.
pub open spec fn display_of(name: Seq<char>, args: Seq<Seq<char>>) -> Seq<char>
    decreases args.len(),
{
    if args.len() == 0 {
        name
    } else {
        join_next(display_of(name, args.drop_last()), args.last())
    }
}

/// The display string of each argument in `args`, preceded by one space, in
/// order.
pub open spec fn spaced(args: Seq<Seq<char>>) -> Seq<char>
    decreases args.len(),
{
    if args.len() == 0 {
        Seq::empty()
    } else {
        spaced(args.drop_last()) + " "@ + args.last()
    }
}

/// Growing a display string component by component is the same as growing it
/// by a whole block of components at once.
pub proof fn lemma_display_of_concat(name: Seq<char>, a: Seq<Seq<char>>, b: Seq<Seq<char>>)
    ensures
        display_of(name, a + b) == display_of(display_of(name, a), b),
    decreases b.len(),
{
    if b.len() == 0 {
        assert(a + b =~= a);
    } else {
        lemma_display_of_concat(name, a, b.drop_last());
        assert((a + b).drop_last() =~= a + b.drop_last());
        assert((a + b).last() == b.last());
    }
}

/// Law: for a nonempty executable name, the display string is the name
/// followed by every argument added so far, space-joined, in addition order.
pub proof fn lemma_display_space_joined(name: Seq<char>, args: Seq<Seq<char>>)
    requires
        name.len() > 0,
    ensures
        display_of(name, args) == name + spaced(args),
    decreases args.len(),
{
    if args.len() == 0 {
        assert(name + spaced(args) =~= name);
    } else {
        lemma_display_space_joined(name, args.drop_last());
        assert(name + spaced(args) =~= (name + spaced(args.drop_last())) + " "@ + args.last());
    }
}

/// Law: any well-formed command with a nonempty executable name displays as
/// the name followed by each added argument, space-joined, in addition order
/// — and only argument additions touch the display string.
pub proof fn lemma_command_display(c: Command)
    requires
        c.wf(),
        c.name@.len() > 0,
    ensures
        c.display@ == c.name@ + spaced(c.args.deep_view()),
{
    lemma_display_space_joined(c.name@, c.args.deep_view());
}

/// The environment overrides described by `entries`: each entry binds its key,
/// and a later entry for a key overrides an earlier one.
pub open spec fn env_map_of(entries: Seq<(Seq<char>, Seq<char>)>) -> Map<Seq<char>, Seq<char>>
    decreases entries.len(),
{
    if entries.len() == 0 {
        Map::empty()
    } else {
        env_map_of(entries.drop_last()).insert(entries.last().0, entries.last().1)
    }
}

/// Environment overrides `m`, extended by `entries` in order.
pub open spec fn env_map_extended(
    m: Map<Seq<char>, Seq<char>>,
    entries: Seq<(Seq<char>, Seq<char>)>,
) -> Map<Seq<char>, Seq<char>>
    decreases entries.len(),
{
    if entries.len() == 0 {
        m
    } else {
        env_map_extended(m, entries.drop_last()).insert(entries.last().0, entries.last().1)
    }
}

/// Law: adding a value for a key and later adding another value for the same
/// key leaves the environment that the later addition alone would have left:
/// the later value wins.
pub proof fn lemma_env_later_addition_overrides(
    entries: Seq<(Seq<char>, Seq<char>)>,
    key: Seq<char>,
    first: Seq<char>,
    second: Seq<char>,
)
    ensures
        env_map_of(entries.push((key, first)).push((key, second))) == env_map_of(
            entries.push((key, second)),
        ),
{
    let twice = entries.push((key, first)).push((key, second));
    let once = entries.push((key, second));
    assert(twice.drop_last() =~= entries.push((key, first)));
    assert(entries.push((key, first)).drop_last() =~= entries);
    assert(once.drop_last() =~= entries);
    assert(env_map_of(entries.push((key, first))) == env_map_of(entries).insert(key, first));
    assert(env_map_of(twice) == env_map_of(entries).insert(key, first).insert(key, second));
    assert(env_map_of(once) == env_map_of(entries).insert(key, second));
    assert(env_map_of(entries).insert(key, first).insert(key, second) =~= env_map_of(
        entries,
    ).insert(key, second));
}

/// Law: the environment overrides bind exactly the keys that were explicitly
/// added, so a command built pure carries exactly the variables added to it.
pub proof fn lemma_env_exactly_added_keys(entries: Seq<(Seq<char>, Seq<char>)>, key: Seq<char>)
    ensures
        env_map_of(entries).contains_key(key) <==> exists|i: int|
            0 <= i < entries.len() && entries[i].0 == key,
    decreases entries.len(),
{
    if entries.len() > 0 {
        let prefix = entries.drop_last();
        lemma_env_exactly_added_keys(prefix, key);
        if env_map_of(entries).contains_key(key) && entries.last().0 != key {
            let i = choose|i: int| 0 <= i < prefix.len() && prefix[i].0 == key;
            assert(entries[i].0 == key);
        }
        if exists|i: int| 0 <= i < entries.len() && entries[i].0 == key {
            let i = choose|i: int| 0 <= i < entries.len() && entries[i].0 == key;
            if i < entries.len() - 1 {
                assert(prefix[i].0 == key);
            } else {
                assert(entries.last().0 == key);
            }
        }
    }
}

/// A builder for one command invocation.
///
/// The builder itself is plain data; running it is the job of an unverified
/// shell around this crate, which reads these fields.
#[derive(Debug)]
pub struct Command {
    /// The executable's name or path.
    pub name: String,
    /// The arguments added so far, in addition order.
    pub args: Vec<String>,
    /// Environment overrides, in addition order; a later entry for a key
    /// overrides an earlier one (see [`Command::env_map`]).
    pub env: Vec<(String, String)>,
    /// Whether the child inherits the parent's environment beneath the
    /// overrides; `false` means the environment is exactly the overrides.
    pub inherit_env: bool,
    /// Routing for the child's standard input.
    pub stdin_cfg: StdioCfg,
    /// Routing for the child's standard output.
    pub stdout_cfg: StdioCfg,
    /// Routing for the child's standard error.
    pub stderr_cfg: StdioCfg,
    /// The human-readable rendering of the invocation; always the space-joined
    /// name and arguments (see [`Command::wf`]).
    pub display: String,
}

impl Command {
    /// The display string is exactly the space-joined name and arguments.
    /// Constructors establish this and every method preserves it.
    pub open spec fn wf(&self) -> bool {
        self.display@ == display_of(self.name@, self.args.deep_view())
    }

    fn push_display(&mut self, component: &String)
        ensures
            *final(self) == (Command { display: final(self).display, ..*old(self) }),
            final(self).display@ == join_next(old(self).display@, component@),
    {
        if !self.display.as_str().is_empty() {
            self.display.append(" ");
        }
        self.display.append(component.as_str());
    }

    /// Start building a command that inherits all environment variables from
    /// the parent process.
    pub fn impure(name: String) -> (cmd: Command)
        ensures
            cmd.name == name,
            cmd.args.deep_view() == Seq::<Seq<char>>::empty(),
            cmd.env.deep_view() == Seq::<(Seq<char>, Seq<char>)>::empty(),
            cmd.inherit_env,
            cmd.stdin_cfg == StdioCfg::Inherit,
            cmd.stdout_cfg == StdioCfg::Inherit,
            cmd.stderr_cfg == StdioCfg::Inherit,
            cmd.display@ == name@,
            cmd.wf(),
    {
        let mut cmd = Command {
            name,
            args: Vec::new(),
            env: Vec::new(),
            inherit_env: true,
            stdin_cfg: StdioCfg::Inherit,
            stdout_cfg: StdioCfg::Inherit,
            stderr_cfg: StdioCfg::Inherit,
            display: String::new(),
        };
        let name_copy = cmd.name.clone();
        cmd.push_display(&name_copy);
        cmd
    }

    /// Start building a command with a completely clean environment: the child
    /// sees exactly the variables added explicitly. Note that at minimum,
    /// you'll often want to add `PATH` and `TERM` for things to function as
    /// expected.
    pub fn pure(name: String) -> (cmd: Command)
        ensures
            cmd.name == name,
            cmd.args.deep_view() == Seq::<Seq<char>>::empty(),
            cmd.env.deep_view() == Seq::<(Seq<char>, Seq<char>)>::empty(),
            !cmd.inherit_env,
            cmd.stdin_cfg == StdioCfg::Inherit,
            cmd.stdout_cfg == StdioCfg::Inherit,
            cmd.stderr_cfg == StdioCfg::Inherit,
            cmd.display@ == name@,
            cmd.wf(),
    {
        let mut cmd = Command::impure(name);
        cmd.inherit_env = false;
        cmd
    }

    /// Get the command's string representation.
    pub fn display(&self) -> (r: &str)
        ensures
            r@ == self.display@,
    {
        self.display.as_str()
    }

    /// Route the child's standard input.
    pub fn set_stdin(&mut self, cfg: StdioCfg)
        ensures
            *final(self) == (Command { stdin_cfg: cfg, ..*old(self) }),
    {
        self.stdin_cfg = cfg;
    }

    /// Route the child's standard input, consuming and returning the builder.
    pub fn with_stdin(self, cfg: StdioCfg) -> (cmd: Command)
        ensures
            cmd == (Command { stdin_cfg: cfg, ..self }),
    {
        let mut cmd = self;
        cmd.set_stdin(cfg);
        cmd
    }

    /// Route the child's standard input to a pipe.
    pub fn set_stdin_piped(&mut self)
        ensures
            *final(self) == (Command { stdin_cfg: StdioCfg::Piped, ..*old(self) }),
    {
        self.set_stdin(StdioCfg::Piped);
    }

    /// Route the child's standard input to a pipe, consuming and returning the
    /// builder.
    pub fn with_stdin_piped(self) -> (cmd: Command)
        ensures
            cmd == (Command { stdin_cfg: StdioCfg::Piped, ..self }),
    {
        let mut cmd = self;
        cmd.set_stdin_piped();
        cmd
    }

    /// Route the child's standard output.
    pub fn set_stdout(&mut self, cfg: StdioCfg)
        ensures
            *final(self) == (Command { stdout_cfg: cfg, ..*old(self) }),
    {
        self.stdout_cfg = cfg;
    }

    /// Route the child's standard output, consuming and returning the builder.
    pub fn with_stdout(self, cfg: StdioCfg) -> (cmd: Command)
        ensures
            cmd == (Command { stdout_cfg: cfg, ..self }),
    {
        let mut cmd = self;
        cmd.set_stdout(cfg);
        cmd
    }

    /// Route the child's standard output to a pipe.
    pub fn set_stdout_piped(&mut self)
        ensures
            *final(self) == (Command { stdout_cfg: StdioCfg::Piped, ..*old(self) }),
    {
        self.set_stdout(StdioCfg::Piped);
    }

    /// Route the child's standard output to a pipe, consuming and returning
    /// the builder.
    pub fn with_stdout_piped(self) -> (cmd: Command)
        ensures
            cmd == (Command { stdout_cfg: StdioCfg::Piped, ..self }),
    {
        let mut cmd = self;
        cmd.set_stdout_piped();
        cmd
    }

    /// Route the child's standard error.
    pub fn set_stderr(&mut self, cfg: StdioCfg)
        ensures
            *final(self) == (Command { stderr_cfg: cfg, ..*old(self) }),
    {
        self.stderr_cfg = cfg;
    }

    /// Route the child's standard error, consuming and returning the builder.
    pub fn with_stderr(self, cfg: StdioCfg) -> (cmd: Command)
        ensures
            cmd == (Command { stderr_cfg: cfg, ..self }),
    {
        let mut cmd = self;
        cmd.set_stderr(cfg);
        cmd
    }

    /// Route the child's standard error to a pipe.
    pub fn set_stderr_piped(&mut self)
        ensures
            *final(self) == (Command { stderr_cfg: StdioCfg::Piped, ..*old(self) }),
    {
        self.set_stderr(StdioCfg::Piped);
    }

    /// Route the child's standard error to a pipe, consuming and returning the
    /// builder.
    pub fn with_stderr_piped(self) -> (cmd: Command)
        ensures
            cmd == (Command { stderr_cfg: StdioCfg::Piped, ..self }),
    {
        let mut cmd = self;
        cmd.set_stderr_piped();
        cmd
    }

    /// The environment overrides added so far, as a mapping; a later addition
    /// for a key overrides an earlier one.
    pub open spec fn env_map(&self) -> Map<Seq<char>, Seq<char>> {
        env_map_of(self.env.deep_view())
    }

    /// Append one argument, and extend the display string by it, separated by
    /// a single space. The argument is taken verbatim: no shell quoting or
    /// escaping is performed, since the value is handed to the operating
    /// system as one discrete token, never through a shell.
    pub fn add_arg(&mut self, value: String)
        ensures
            *final(self) == (Command {
                args: final(self).args,
                display: final(self).display,
                ..*old(self)
            }),
            final(self).args.deep_view() == old(self).args.deep_view().push(value@),
            final(self).display@ == join_next(old(self).display@, value@),
            old(self).wf() ==> final(self).wf(),
    {
        let shown = value.clone();
        self.args.push(value);
        self.push_display(&shown);
        proof {
            assert(self.args.deep_view() =~= old(self).args.deep_view().push(value@));
            let a = self.args.deep_view();
            assert(a.drop_last() =~= old(self).args.deep_view());
        }
    }

    /// Append one argument, consuming and returning the builder.
    pub fn with_arg(self, value: String) -> (cmd: Command)
        ensures
            cmd == (Command { args: cmd.args, display: cmd.display, ..self }),
            cmd.args.deep_view() == self.args.deep_view().push(value@),
            cmd.display@ == join_next(self.display@, value@),
            self.wf() ==> cmd.wf(),
    {
        let mut cmd = self;
        cmd.add_arg(value);
        cmd
    }

    /// Append each of `values` as an argument, in order.
    pub fn add_args(&mut self, values: Vec<String>)
        ensures
            *final(self) == (Command {
                args: final(self).args,
                display: final(self).display,
                ..*old(self)
            }),
            final(self).args.deep_view() == old(self).args.deep_view() + values.deep_view(),
            final(self).display@ == display_of(old(self).display@, values.deep_view()),
            old(self).wf() ==> final(self).wf(),
    {
        let n = values.len();
        let mut i: usize = 0;
        proof {
            assert(self.args.deep_view() =~= old(self).args.deep_view() + values.deep_view().take(
                0,
            ));
        }
        while i < n
            invariant
                i <= n == values.len(),
                self.args.deep_view() == old(self).args.deep_view() + values.deep_view().take(
                    i as int,
                ),
                self.display@ == display_of(old(self).display@, values.deep_view().take(i as int)),
                *self == (Command { args: self.args, display: self.display, ..*old(self) }),
            decreases n - i,
        {
            let value = values[i].clone();
            self.add_arg(value);
            proof {
                let vs = values.deep_view();
                assert(vs.take(i + 1).drop_last() =~= vs.take(i as int));
                assert(vs.take(i + 1).last() == vs[i as int]);
                assert(self.args.deep_view() =~= old(self).args.deep_view() + vs.take(i + 1));
            }
            i += 1;
        }
        proof {
            let vs = values.deep_view();
            assert(vs.take(n as int) =~= vs);
            if old(self).wf() {
                lemma_display_of_concat(old(self).name@, old(self).args.deep_view(), vs);
            }
        }
    }

    /// Append each of `values` as an argument, consuming and returning the
    /// builder.
    pub fn with_args(self, values: Vec<String>) -> (cmd: Command)
        ensures
            cmd == (Command { args: cmd.args, display: cmd.display, ..self }),
            cmd.args.deep_view() == self.args.deep_view() + values.deep_view(),
            cmd.display@ == display_of(self.display@, values.deep_view()),
            self.wf() ==> cmd.wf(),
    {
        let mut cmd = self;
        cmd.add_args(values);
        cmd
    }

    /// Add one environment override; a later addition for the same key
    /// overrides this one. The display string is unaffected.
    pub fn add_env_var(&mut self, key: String, val: String)
        ensures
            *final(self) == (Command { env: final(self).env, ..*old(self) }),
            final(self).env.deep_view() == old(self).env.deep_view().push((key@, val@)),
            final(self).env_map() == old(self).env_map().insert(key@, val@),
    {
        self.env.push((key, val));
        proof {
            assert(self.env.deep_view() =~= old(self).env.deep_view().push((key@, val@)));
            let e = self.env.deep_view();
            assert(e.drop_last() =~= old(self).env.deep_view());
        }
    }

    /// Add one environment override, consuming and returning the builder.
    pub fn with_env_var(self, key: String, val: String) -> (cmd: Command)
        ensures
            cmd == (Command { env: cmd.env, ..self }),
            cmd.env.deep_view() == self.env.deep_view().push((key@, val@)),
            cmd.env_map() == self.env_map().insert(key@, val@),
    {
        let mut cmd = self;
        cmd.add_env_var(key, val);
        cmd
    }

    /// Add each of `vars` as an environment override, in order.
    pub fn add_env_vars(&mut self, vars: Vec<(String, String)>)
        ensures
            *final(self) == (Command { env: final(self).env, ..*old(self) }),
            final(self).env.deep_view() == old(self).env.deep_view() + vars.deep_view(),
            final(self).env_map() == env_map_extended(old(self).env_map(), vars.deep_view()),
    {
        let n = vars.len();
        let mut i: usize = 0;
        proof {
            assert(self.env.deep_view() =~= old(self).env.deep_view() + vars.deep_view().take(0));
        }
        while i < n
            invariant
                i <= n == vars.len(),
                self.env.deep_view() == old(self).env.deep_view() + vars.deep_view().take(i as int),
                self.env_map() == env_map_extended(
                    old(self).env_map(),
                    vars.deep_view().take(i as int),
                ),
                *self == (Command { env: self.env, ..*old(self) }),
            decreases n - i,
        {
            let pair = &vars[i];
            let key = pair.0.clone();
            let val = pair.1.clone();
            self.add_env_var(key, val);
            proof {
                let vs = vars.deep_view();
                assert(vs.take(i + 1).drop_last() =~= vs.take(i as int));
                assert(vs.take(i + 1).last() == vs[i as int]);
                assert(self.env.deep_view() =~= old(self).env.deep_view() + vs.take(i + 1));
            }
            i += 1;
        }
        proof {
            assert(vars.deep_view().take(n as int) =~= vars.deep_view());
        }
    }

    /// Add each of `vars` as an environment override, consuming and returning
    /// the builder.
    pub fn with_env_vars(self, vars: Vec<(String, String)>) -> (cmd: Command)
        ensures
            cmd == (Command { env: cmd.env, ..self }),
            cmd.env.deep_view() == self.env.deep_view() + vars.deep_view(),
            cmd.env_map() == env_map_extended(self.env_map(), vars.deep_view()),
    {
        let mut cmd = self;
        cmd.add_env_vars(vars);
        cmd
    }

    /// Look up the override currently in force for `key`: the value of the
    /// latest addition for it, or `None` where no addition named it.
    pub fn env_value(&self, key: &String) -> (r: Option<String>)
        ensures
            r is Some <==> self.env_map().contains_key(key@),
            r matches Some(v) ==> self.env_map()[key@] == v@,
    {
        let n = self.env.len();
        let mut i: usize = n;
        proof {
            assert(self.env.deep_view().take(n as int) =~= self.env.deep_view());
        }
        while i > 0
            invariant
                i <= n == self.env.len(),
                self.env_map().contains_key(key@) == env_map_of(
                    self.env.deep_view().take(i as int),
                ).contains_key(key@),
                self.env_map().contains_key(key@) ==> env_map_of(
                    self.env.deep_view().take(i as int),
                )[key@] == self.env_map()[key@],
            decreases i,
        {
            i -= 1;
            proof {
                let e = self.env.deep_view();
                assert(e.take(i + 1).drop_last() =~= e.take(i as int));
                assert(e.take(i + 1).last() == e[i as int]);
            }
            let pair = &self.env[i];
            if pair.0 == *key {
                return Some(pair.1.clone());
            }
        }
        proof {
            assert(self.env.deep_view().take(0) =~= Seq::<(Seq<char>, Seq<char>)>::empty());
        }
        None
    }

    /// Route both standard output and standard error to pipes, whatever they
    /// were routed to before. Collecting a finished process's output requires
    /// exactly this routing, so a wait-for-output run applies it
    /// unconditionally just before spawning.
    pub fn set_outputs_piped(&mut self)
        ensures
            *final(self) == (Command {
                stdout_cfg: StdioCfg::Piped,
                stderr_cfg: StdioCfg::Piped,
                ..*old(self)
            }),
    {
        self.set_stdout_piped();
        self.set_stderr_piped();
    }
}

} // verus!
