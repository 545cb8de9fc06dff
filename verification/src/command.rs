//! A record put through the pipeline, with the builder the emitted
//! descriptors prescribe for it written out and verified: `Command`, whose
//! fields exercise every construction policy — a mandatory field, a
//! multi-valued field whose alias differs from the field name (so it keeps
//! its bulk-replace setter), a multi-valued field whose alias equals the
//! field name (so the bulk-replace setter is suppressed), and an optional
//! field.

use vstd::prelude::*;

use crate::output::not_set_message;

verus! {

/// The record whose instances the builder constructs.
#[derive(Debug, PartialEq)]
pub struct Command {
    pub executable: String,
    pub args: Vec<String>,
    pub env: Vec<String>,
    pub current_dir: Option<String>,
}

/// Mathematical image of [`Command`].
pub struct CommandView {
    pub executable: Seq<char>,
    pub args: Seq<Seq<char>>,
    pub env: Seq<Seq<char>>,
    pub current_dir: Option<Seq<char>>,
}

impl DeepView for Command {
    type V = CommandView;

    open spec fn deep_view(&self) -> CommandView {
        CommandView {
            executable: self.executable@,
            args: self.args.deep_view(),
            env: self.env.deep_view(),
            current_dir: self.current_dir.deep_view(),
        }
    }
}

/// The companion builder: one storage slot per field, single-valued slots
/// optional-valued and absent by default, multi-valued slots accumulating
/// and empty by default.
#[derive(Debug, PartialEq)]
pub struct CommandBuilder {
    pub executable: Option<String>,
    pub args: Vec<String>,
    pub env: Vec<String>,
    pub current_dir: Option<String>,
}

/// Mathematical image of [`CommandBuilder`].
pub struct CommandBuilderView {
    pub executable: Option<Seq<char>>,
    pub args: Seq<Seq<char>>,
    pub env: Seq<Seq<char>>,
    pub current_dir: Option<Seq<char>>,
}

impl DeepView for CommandBuilder {
    type V = CommandBuilderView;

    open spec fn deep_view(&self) -> CommandBuilderView {
        CommandBuilderView {
            executable: self.executable.deep_view(),
            args: self.args.deep_view(),
            env: self.env.deep_view(),
            current_dir: self.current_dir.deep_view(),
        }
    }
}

impl CommandBuilderView {
    /// The zero-value storage state: every slot at its default.
    pub open spec fn init() -> CommandBuilderView {
        CommandBuilderView {
            executable: None,
            args: Seq::empty(),
            env: Seq::empty(),
            current_dir: None,
        }
    }

    /// The state after the single-value setter for `executable`.
    pub open spec fn with_executable(self, v: Seq<char>) -> CommandBuilderView {
        CommandBuilderView { executable: Some(v), ..self }
    }

    /// The state after the bulk-replace setter for `args`.
    pub open spec fn with_args(self, vs: Seq<Seq<char>>) -> CommandBuilderView {
        CommandBuilderView { args: vs, ..self }
    }

    /// The state after the accumulator `arg` appends one element.
    pub open spec fn with_arg(self, v: Seq<char>) -> CommandBuilderView {
        CommandBuilderView { args: self.args.push(v), ..self }
    }

    /// The state after the accumulator `env` appends one element.
    pub open spec fn with_env(self, v: Seq<char>) -> CommandBuilderView {
        CommandBuilderView { env: self.env.push(v), ..self }
    }

    /// The state after the single-value setter for `current_dir`.
    pub open spec fn with_current_dir(self, v: Seq<char>) -> CommandBuilderView {
        CommandBuilderView { current_dir: Some(v), ..self }
    }
}

/// What finalizing from storage state `s` returns: the completed record
/// when the one mandatory slot is present, else the "not set" failure
/// naming it. Optional and multi-valued slots are used as they stand,
/// absent or empty included.
pub open spec fn build_result(s: CommandBuilderView) -> Result<CommandView, Seq<char>> {
    match s.executable {
        Some(e) => Ok(
            CommandView { executable: e, args: s.args, env: s.env, current_dir: s.current_dir },
        ),
        None => Err(not_set_message("executable"@)),
    }
}

/// The storage state finalizing leaves behind: fully reset on success so
/// the builder may be reused; on failure only the slots already moved out
/// of — here just the absent mandatory slot — are reset.
pub open spec fn build_after(s: CommandBuilderView) -> CommandBuilderView {
    match s.executable {
        Some(_) => CommandBuilderView::init(),
        None => CommandBuilderView { executable: None, ..s },
    }
}

impl Command {
    /// The zero-value constructor: every slot at its default.
    pub fn builder() -> (r: CommandBuilder)
        ensures
            r.deep_view() == CommandBuilderView::init(),
    {
        let r = CommandBuilder {
            executable: None,
            args: Vec::new(),
            env: Vec::new(),
            current_dir: None,
        };
        proof {
            assert(r.args.deep_view() =~= Seq::<Seq<char>>::empty());
            assert(r.env.deep_view() =~= Seq::<Seq<char>>::empty());
        }
        r
    }
}

impl CommandBuilder {
    /// Single-value setter: overwrites the `executable` slot with a present
    /// value.
    pub fn executable(&mut self, executable: String)
        ensures
            final(self).deep_view() == old(self).deep_view().with_executable(executable@),
    {
        self.executable = Some(executable);
    }

    /// Bulk-replace setter: overwrites the whole `args` container. Emitted
    /// because no alias of `args` equals the field's own name.
    pub fn args(&mut self, args: Vec<String>)
        ensures
            final(self).deep_view() == old(self).deep_view().with_args(args.deep_view()),
    {
        self.args = args;
    }

    /// Accumulator for the alias `arg`: appends one element to the `args`
    /// container.
    pub fn arg(&mut self, arg: String)
        ensures
            final(self).deep_view() == old(self).deep_view().with_arg(arg@),
    {
        let ghost pre = self.args.deep_view();
        self.args.push(arg);
        proof {
            assert(self.args.deep_view() =~= pre.push(arg@));
        }
    }

    /// Accumulator for the alias `env`: appends one element to the `env`
    /// container. The alias equals the field's own name, so `env` has no
    /// bulk-replace setter: this method takes the name instead.
    pub fn env(&mut self, env: String)
        ensures
            final(self).deep_view() == old(self).deep_view().with_env(env@),
    {
        let ghost pre = self.env.deep_view();
        self.env.push(env);
        proof {
            assert(self.env.deep_view() =~= pre.push(env@));
        }
    }

    /// Single-value setter: overwrites the `current_dir` slot with a
    /// present value.
    pub fn current_dir(&mut self, current_dir: String)
        ensures
            final(self).deep_view() == old(self).deep_view().with_current_dir(current_dir@),
    {
        self.current_dir = Some(current_dir);
    }

    /// Guarded finalize: moves every slot's value out, resetting it, and
    /// fails with "executable not set" exactly when that mandatory slot is
    /// absent. Optional and multi-valued slots never fail: their current
    /// values — possibly absent or empty — go into the record as they are.
    pub fn build(&mut self) -> (r: Result<Command, String>)
        ensures
            (match r {
                Ok(c) => Ok::<CommandView, Seq<char>>(c.deep_view()),
                Err(m) => Err::<CommandView, Seq<char>>(m@),
            }) == build_result(old(self).deep_view()),
            final(self).deep_view() == build_after(old(self).deep_view()),
    {
        let executable = match self.executable.take() {
            Some(e) => e,
            None => {
                let message = "executable not set".to_owned();
                proof {
                    reveal_strlit("executable not set");
                    reveal_strlit("executable");
                    reveal_strlit(" not set");
                    assert(message@ =~= not_set_message("executable"@));
                }
                return Err(message);
            },
        };
        let mut args: Vec<String> = Vec::new();
        core::mem::swap(&mut args, &mut self.args);
        let mut env: Vec<String> = Vec::new();
        core::mem::swap(&mut env, &mut self.env);
        let current_dir = self.current_dir.take();
        proof {
            assert(self.args.deep_view() =~= Seq::<Seq<char>>::empty());
            assert(self.env.deep_view() =~= Seq::<Seq<char>>::empty());
        }
        Ok(Command { executable, args, env, current_dir })
    }
}

/// The storage state after the accumulator `arg` is called once per element
/// of `vs`, in order.
pub open spec fn with_args_each(s: CommandBuilderView, vs: Seq<Seq<char>>) -> CommandBuilderView
    decreases vs.len(),
{
    if vs.len() == 0 {
        s
    } else {
        with_args_each(s, vs.drop_last()).with_arg(vs.last())
    }
}

/// The storage state after the accumulator `env` is called once per element
/// of `vs`, in order.
pub open spec fn with_env_each(s: CommandBuilderView, vs: Seq<Seq<char>>) -> CommandBuilderView
    decreases vs.len(),
{
    if vs.len() == 0 {
        s
    } else {
        with_env_each(s, vs.drop_last()).with_env(vs.last())
    }
}

/// The accumulation law for `arg`: calling the accumulator once per element
/// appends exactly those elements, in call order, and touches no other
/// slot — so `k` calls yield a container of size `k`.
pub proof fn lemma_accumulate_args(s: CommandBuilderView, vs: Seq<Seq<char>>)
    ensures
        with_args_each(s, vs).args == s.args + vs,
        with_args_each(s, vs).env == s.env,
        with_args_each(s, vs).executable == s.executable,
        with_args_each(s, vs).current_dir == s.current_dir,
    decreases vs.len(),
{
    if vs.len() == 0 {
        assert(s.args + vs =~= s.args);
    } else {
        lemma_accumulate_args(s, vs.drop_last());
        assert(s.args + vs =~= (s.args + vs.drop_last()).push(vs.last()));
    }
}

/// The accumulation law for `env`: as for `arg`, on the `env` slot.
pub proof fn lemma_accumulate_env(s: CommandBuilderView, vs: Seq<Seq<char>>)
    ensures
        with_env_each(s, vs).env == s.env + vs,
        with_env_each(s, vs).args == s.args,
        with_env_each(s, vs).executable == s.executable,
        with_env_each(s, vs).current_dir == s.current_dir,
    decreases vs.len(),
{
    if vs.len() == 0 {
        assert(s.env + vs =~= s.env);
    } else {
        lemma_accumulate_env(s, vs.drop_last());
        assert(s.env + vs =~= (s.env + vs.drop_last()).push(vs.last()));
    }
}

/// Finalizing a fresh builder whose mandatory slot was set and whose `arg`
/// accumulator ran once per element of `vs` yields exactly those elements,
/// in call order.
pub proof fn lemma_accumulated_built(e: Seq<char>, vs: Seq<Seq<char>>)
    ensures
        build_result(with_args_each(CommandBuilderView::init().with_executable(e), vs))
            == Ok::<CommandView, Seq<char>>(
            CommandView { executable: e, args: vs, env: Seq::empty(), current_dir: None },
        ),
{
    lemma_accumulate_args(CommandBuilderView::init().with_executable(e), vs);
    assert(Seq::<Seq<char>>::empty() + vs =~= vs);
}

/// The round-trip law: set every mandatory field once, leave optional and
/// multi-valued fields untouched, and finalize — construction succeeds,
/// the optional field comes out absent, the containers come out empty, and
/// the builder is reset to its zero value.
pub proof fn lemma_round_trip(e: Seq<char>)
    ensures
        build_result(CommandBuilderView::init().with_executable(e)) == Ok::<
            CommandView,
            Seq<char>,
        >(CommandView { executable: e, args: Seq::empty(), env: Seq::empty(), current_dir: None }),
        build_after(CommandBuilderView::init().with_executable(e)) == CommandBuilderView::init(),
{
}

/// The constructor-idempotence law: any two zero-value constructions yield
/// storage states that compare equal slot by slot.
pub proof fn lemma_constructor_idempotent(b1: CommandBuilder, b2: CommandBuilder)
    requires
        call_ensures(Command::builder, (), b1),
        call_ensures(Command::builder, (), b2),
    ensures
        b1.deep_view().executable == b2.deep_view().executable,
        b1.deep_view().args == b2.deep_view().args,
        b1.deep_view().env == b2.deep_view().env,
        b1.deep_view().current_dir == b2.deep_view().current_dir,
{
}

/// Finalize never fails on the optional or multi-valued slots: success
/// depends on the mandatory slot alone, whatever was or was not set
/// elsewhere.
pub proof fn lemma_build_ignores_optional(s: CommandBuilderView, v: Seq<char>)
    ensures
        build_result(s) is Ok <==> s.executable is Some,
        build_result(s.with_current_dir(v)) is Ok <==> build_result(s) is Ok,
        build_result(s.with_arg(v)) is Ok <==> build_result(s) is Ok,
        build_result(s.with_env(v)) is Ok <==> build_result(s) is Ok,
        build_result(s.with_args(s.args.push(v))) is Ok <==> build_result(s) is Ok,
{
}

} // verus!
