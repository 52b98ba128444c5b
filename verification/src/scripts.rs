//! The script runner: which commands of a recipe run for a target, in which
//! directory and shell, and when a run stops.

use crate::error::{PkgerError, PkgerErrorView, Phase};
use crate::recipe::{Recipe, RecipeView, Script, ScriptView, StepView};
use crate::session::{
    checked, checked_exec, copy_error, copy_opts, outcome_view, ExecOpts, ExecOptsView, ExecOutput,
    ExecOutputView,
};
use crate::target::{ImageTarget, ImageTargetView};
use crate::text::{
    has_prefix, lemma_replace_absent, lemma_replace_whole, occurs_in, replace, replace_all,
};
use vstd::prelude::*;

verus! {

/// The variable that stands for the build directory inside the container.
pub open spec fn bld_dir_var() -> Seq<char> {
    "$PKGER_BLD_DIR"@
}

/// The variable that stands for the output directory inside the container.
pub open spec fn out_dir_var() -> Seq<char> {
    "$PKGER_OUT_DIR"@
}

/// `dir` with the build directory variable and then the output directory
/// variable replaced, each wherever it occurs.
pub open spec fn resolved_dir(dir: Seq<char>, bld_dir: Seq<char>, out_dir: Seq<char>) -> Seq<char> {
    replace_all(replace_all(dir, bld_dir_var(), bld_dir), out_dir_var(), out_dir)
}

/// Substitutes the two directory variables in a working directory. The
/// replacement is literal: there is no way to escape a variable.
pub fn resolve_working_dir(dir: &str, bld_dir: &str, out_dir: &str) -> (r: String)
    ensures
        r@ == resolved_dir(dir@, bld_dir@, out_dir@),
{
    let first = replace(dir, "$PKGER_BLD_DIR", bld_dir);
    replace(first.as_str(), "$PKGER_OUT_DIR", out_dir)
}

/// A working directory that is the build directory variable resolves to
/// the build directory, and one that is the output directory variable to
/// the output directory. The first holds for a build directory in which
/// the output directory variable does not occur: the variables are replaced
/// one after the other, so such an occurrence would be replaced as well.
pub proof fn lemma_variables_resolve(bld_dir: Seq<char>, out_dir: Seq<char>)
    ensures
        !occurs_in(bld_dir, out_dir_var()) ==> resolved_dir(bld_dir_var(), bld_dir, out_dir)
            == bld_dir,
        resolved_dir(out_dir_var(), bld_dir, out_dir) == out_dir,
{
    reveal_strlit("$PKGER_BLD_DIR");
    reveal_strlit("$PKGER_OUT_DIR");
    lemma_replace_whole(bld_dir_var(), bld_dir);
    lemma_replace_whole(out_dir_var(), out_dir);
    if !occurs_in(bld_dir, out_dir_var()) {
        lemma_replace_absent(bld_dir, out_dir_var(), out_dir);
    }
    assert(!occurs_in(out_dir_var(), bld_dir_var())) by {
        let s = out_dir_var();
        let p = bld_dir_var();
        assert forall|i: int| 0 <= i <= s.len() implies !has_prefix(#[trigger] s.skip(i), p) by {
            if i == 0 {
                assert(s.skip(0).subrange(0, p.len() as int)[7] == 'O');
            }
        }
    }
    lemma_replace_absent(out_dir_var(), bld_dir_var(), bld_dir);
}

/// What a job knows of its surroundings when it runs scripts: the target and
/// the two canonical directories inside the container.
#[derive(Clone, Debug, PartialEq, Eq)]
pub struct BuildContext {
    pub target: ImageTarget,
    pub container_bld_dir: String,
    pub container_out_dir: String,
}

pub struct BuildContextView {
    pub target: ImageTargetView,
    pub container_bld_dir: Seq<char>,
    pub container_out_dir: Seq<char>,
}

impl View for BuildContext {
    type V = BuildContextView;

    open spec fn view(&self) -> BuildContextView {
        BuildContextView {
            target: self.target@,
            container_bld_dir: self.container_bld_dir@,
            container_out_dir: self.container_out_dir@,
        }
    }
}

/// The steps that run for a target.
pub open spec fn runs_for(target: ImageTargetView) -> spec_fn(StepView) -> bool {
    |step: StepView| step.runs_on(target.image, target.build_target)
}

/// The command that a step becomes in a given directory and shell.
pub open spec fn as_command(dir: Seq<char>, shell: Option<Seq<char>>) -> spec_fn(
    StepView,
) -> ExecOptsView {
    |step: StepView|
        ExecOptsView {
            cmd: step.cmd,
            working_dir: Some(dir),
            shell,
            user: None,
            env: Seq::empty(),
        }
}

impl ScriptView {
    /// The directory the phase runs in: its own, with the variables
    /// replaced, or else the default of the phase.
    pub open spec fn effective_dir(self, default_dir: Seq<char>, ctx: BuildContextView) -> Seq<
        char,
    > {
        match self.working_dir {
            Some(dir) => resolved_dir(dir, ctx.container_bld_dir, ctx.container_out_dir),
            None => default_dir,
        }
    }

    /// The commands of the phase for the target of `ctx`, in the order of
    /// the steps: one for each step that runs for the target.
    pub open spec fn commands(self, default_dir: Seq<char>, ctx: BuildContextView) -> Seq<
        ExecOptsView,
    > {
        self.steps.filter(runs_for(ctx.target)).map_values(
            as_command(self.effective_dir(default_dir, ctx), self.shell),
        )
    }
}

/// The commands that one phase executes for the target of `ctx`, in order.
/// A step is left out when its filters exclude the target. Each command
/// runs in the directory of the phase, or in `default_dir` where the phase
/// names none, and in the shell of the phase where it names one.
pub fn run_phase(script: &Script, default_dir: &str, ctx: &BuildContext) -> (r: Vec<ExecOpts>)
    ensures
        r.deep_view() == script@.commands(default_dir@, ctx@),
{
    let dir = match &script.working_dir {
        Some(dir) => resolve_working_dir(
            dir.as_str(),
            ctx.container_bld_dir.as_str(),
            ctx.container_out_dir.as_str(),
        ),
        None => default_dir.to_owned(),
    };
    let ghost keep = runs_for(ctx@.target);
    let ghost make = as_command(script@.effective_dir(default_dir@, ctx@), script@.shell);
    let mut out: Vec<ExecOpts> = Vec::new();
    let mut i: usize = 0;
    while i < script.steps.len()
        invariant
            i <= script.steps@.len(),
            keep == runs_for(ctx@.target),
            make == as_command(script@.effective_dir(default_dir@, ctx@), script@.shell),
            dir@ == script@.effective_dir(default_dir@, ctx@),
            out.deep_view() == script@.steps.take(i as int).filter(keep).map_values(make),
        decreases script.steps@.len() - i,
    {
        let ghost seen = script@.steps.take(i as int);
        let step = &script.steps[i];
        assert(script@.steps.take(i + 1) == seen.push(step@));
        proof {
            seen.lemma_filter_push(step@, keep);
            seen.filter(keep).lemma_push_map_commute(make, step@);
        }
        if step.runs_on(ctx.target.image.as_str(), ctx.target.build_target) {
            let shell = match &script.shell {
                Some(shell) => Some(shell.clone()),
                None => None,
            };
            let opts = ExecOpts {
                cmd: step.cmd.clone(),
                working_dir: Some(dir.clone()),
                shell,
                user: None,
                env: Vec::new(),
            };
            assert(opts.env.deep_view() == Seq::<(Seq<char>, Seq<char>)>::empty());
            out.push(opts);
        }
        i += 1;
    }
    assert(script@.steps.take(script.steps@.len() as int) == script@.steps);
    out
}

/// A command together with the phase it belongs to.
#[derive(Clone, Debug, PartialEq, Eq)]
pub struct PhaseCommand {
    pub phase: Phase,
    pub opts: ExecOpts,
}

pub struct PhaseCommandView {
    pub phase: Phase,
    pub opts: ExecOptsView,
}

impl View for PhaseCommand {
    type V = PhaseCommandView;

    open spec fn view(&self) -> PhaseCommandView {
        PhaseCommandView { phase: self.phase, opts: self.opts@ }
    }
}

impl DeepView for PhaseCommand {
    type V = PhaseCommandView;

    open spec fn deep_view(&self) -> PhaseCommandView {
        self@
    }
}

/// Marks a command as one of `phase`.
pub open spec fn in_phase(phase: Phase) -> spec_fn(ExecOptsView) -> PhaseCommandView {
    |opts: ExecOptsView| PhaseCommandView { phase, opts }
}

impl RecipeView {
    /// The commands of the configure phase; none where the recipe has no
    /// such phase. The phase runs in the build directory by default.
    pub open spec fn configure_commands(self, ctx: BuildContextView) -> Seq<PhaseCommandView> {
        match self.configure_script {
            Some(script) => script.commands(ctx.container_bld_dir, ctx).map_values(
                in_phase(Phase::Configure),
            ),
            None => Seq::empty(),
        }
    }

    /// The commands of the build phase, which runs in the build directory
    /// by default.
    pub open spec fn build_commands(self, ctx: BuildContextView) -> Seq<PhaseCommandView> {
        self.build_script.commands(ctx.container_bld_dir, ctx).map_values(in_phase(Phase::Build))
    }

    /// The commands of the install phase; none where the recipe has no such
    /// phase. The phase runs in the output directory by default.
    pub open spec fn install_commands(self, ctx: BuildContextView) -> Seq<PhaseCommandView> {
        match self.install_script {
            Some(script) => script.commands(ctx.container_out_dir, ctx).map_values(
                in_phase(Phase::Install),
            ),
            None => Seq::empty(),
        }
    }

    /// Every command of the recipe for the target of `ctx`, in the order in
    /// which they run: configure, then build, then install.
    pub open spec fn plan(self, ctx: BuildContextView) -> Seq<PhaseCommandView> {
        self.configure_commands(ctx) + self.build_commands(ctx) + self.install_commands(ctx)
    }
}

/// Appends the commands of one phase to a plan.
fn plan_phase(plan: &mut Vec<PhaseCommand>, phase: Phase, commands: &Vec<ExecOpts>)
    ensures
        final(plan).deep_view() == old(plan).deep_view() + commands.deep_view().map_values(
            in_phase(phase),
        ),
{
    let ghost all = commands.deep_view();
    let ghost tag = in_phase(phase);
    let mut i: usize = 0;
    while i < commands.len()
        invariant
            i <= commands@.len(),
            all == commands.deep_view(),
            tag == in_phase(phase),
            plan.deep_view() == old(plan).deep_view() + all.take(i as int).map_values(tag),
        decreases commands@.len() - i,
    {
        let ghost before = plan.deep_view();
        let opts = copy_opts(&commands[i]);
        plan.push(PhaseCommand { phase, opts });
        assert(plan.deep_view() == before.push(tag(all[i as int])));
        proof {
            all.take(i as int).lemma_push_map_commute(tag, all[i as int]);
        }
        i += 1;
    }
}

/// A run of the scripts of one job: the commands planned for it, how many
/// of them have succeeded, and the failure that stopped it, if one did.
#[derive(Debug, PartialEq, Eq)]
pub struct ScriptRun {
    plan: Vec<PhaseCommand>,
    done: usize,
    failure: Option<PkgerError>,
}

pub struct ScriptRunView {
    pub plan: Seq<PhaseCommandView>,
    pub done: nat,
    pub failure: Option<PkgerErrorView>,
}

/// What the caller of a script run has to do next.
#[derive(Clone, Debug, PartialEq, Eq)]
pub enum ScriptAction {
    /// Execute this command in the session and report what came of it.
    Exec(PhaseCommand),
    /// Every command has succeeded.
    Finished,
    /// The run has failed; nothing more is to be executed.
    Abort(PkgerError),
}

pub enum ScriptActionView {
    Exec(PhaseCommandView),
    Finished,
    Abort(PkgerErrorView),
}

impl View for ScriptAction {
    type V = ScriptActionView;

    open spec fn view(&self) -> ScriptActionView {
        match self {
            ScriptAction::Exec(c) => ScriptActionView::Exec(c@),
            ScriptAction::Finished => ScriptActionView::Finished,
            ScriptAction::Abort(e) => ScriptActionView::Abort(e@),
        }
    }
}

/// The failure that a command's outcome amounts to: the session's own error
/// where it could not run the command, a failed build step of the
/// command's phase where it exited with a code other than zero, and none
/// otherwise.
pub open spec fn failure_of(command: PhaseCommandView, outcome: Result<ExecOutputView, PkgerErrorView>)
    -> Option<PkgerErrorView> {
    match checked(Some(command.phase), command.opts.cmd, outcome) {
        Err(e) => Some(e),
        Ok(_) => None,
    }
}

impl ScriptRunView {
    /// The run at its start.
    pub open spec fn start(plan: Seq<PhaseCommandView>) -> ScriptRunView {
        ScriptRunView { plan, done: 0, failure: None }
    }

    /// What is to be done in this state: nothing more after a failure,
    /// else the next command of the plan, else nothing because all is done.
    pub open spec fn action(self) -> ScriptActionView {
        match self.failure {
            Some(e) => ScriptActionView::Abort(e),
            None => if self.done < self.plan.len() {
                ScriptActionView::Exec(self.plan[self.done as int])
            } else {
                ScriptActionView::Finished
            },
        }
    }

    /// The state after the outcome of the current command is known. A run
    /// that has failed or finished stays as it is.
    pub open spec fn after(self, outcome: Result<ExecOutputView, PkgerErrorView>) -> ScriptRunView {
        match self.action() {
            ScriptActionView::Exec(command) => match failure_of(command, outcome) {
                Some(e) => ScriptRunView { failure: Some(e), ..self },
                None => ScriptRunView { done: self.done + 1, ..self },
            },
            _ => self,
        }
    }

    /// The state after a series of outcomes.
    pub open spec fn after_all(self, outcomes: Seq<Result<ExecOutputView, PkgerErrorView>>)
        -> ScriptRunView
        decreases outcomes.len(),
    {
        if outcomes.len() == 0 {
            self
        } else {
            self.after(outcomes[0]).after_all(outcomes.skip(1))
        }
    }
}

/// Once a command has failed, the run aborts and stays aborted whatever is
/// reported afterwards: no later command is handed out. In particular a
/// failing step of the build phase keeps the install phase from running.
pub proof fn lemma_failure_stops_run(
    run: ScriptRunView,
    command: PhaseCommandView,
    outcome: Result<ExecOutputView, PkgerErrorView>,
    later: Seq<Result<ExecOutputView, PkgerErrorView>>,
)
    requires
        run.action() == ScriptActionView::Exec(command),
        failure_of(command, outcome) is Some,
    ensures
        run.after(outcome).after_all(later).action() == ScriptActionView::Abort(
            failure_of(command, outcome).unwrap(),
        ),
    decreases later.len(),
{
    let failed = run.after(outcome);
    lemma_aborted_stays(failed, later);
}

/// An aborted run does not change.
pub proof fn lemma_aborted_stays(
    run: ScriptRunView,
    later: Seq<Result<ExecOutputView, PkgerErrorView>>,
)
    requires
        run.failure is Some,
    ensures
        run.after_all(later) == run,
    decreases later.len(),
{
    if later.len() > 0 {
        lemma_aborted_stays(run, later.skip(1));
    }
}

impl View for ScriptRun {
    type V = ScriptRunView;

    closed spec fn view(&self) -> ScriptRunView {
        ScriptRunView {
            plan: self.plan.deep_view(),
            done: self.done as nat,
            failure: self.failure.deep_view(),
        }
    }
}

impl ScriptRun {
    #[verifier::type_invariant]
    spec fn valid(self) -> bool {
        self.done <= self.plan@.len()
    }

    /// What the caller has to do next.
    pub fn action(&self) -> (r: ScriptAction)
        ensures
            r@ == self@.action(),
    {
        proof {
            use_type_invariant(self);
        }
        match &self.failure {
            Some(e) => ScriptAction::Abort(copy_error(e)),
            None => {
                if self.done < self.plan.len() {
                    let c = &self.plan[self.done];
                    ScriptAction::Exec(PhaseCommand { phase: c.phase, opts: copy_opts(&c.opts) })
                } else {
                    ScriptAction::Finished
                }
            },
        }
    }

    /// Takes in the outcome of the command that `action` handed out. A
    /// failure, be it the session's or an exit code other than zero, aborts
    /// the run; a success moves it on to the next command.
    pub fn advance(&mut self, outcome: Result<ExecOutput, PkgerError>)
        ensures
            final(self)@ == old(self)@.after(outcome_view(outcome)),
    {
        proof {
            use_type_invariant(&*self);
        }
        if self.failure.is_some() || self.done >= self.plan.len() {
            return ;
        }
        let c = &self.plan[self.done];
        match checked_exec(Some(c.phase), c.opts.cmd.as_str(), outcome) {
            Err(e) => {
                self.failure = Some(e);
            },
            Ok(_) => {
                self.done = self.done + 1;
            },
        }
    }
}

/// Plans the scripts of a recipe for one target. The phases run in the
/// order configure, build, install; a phase the recipe does not have
/// contributes nothing. The run that comes back is at its start.
pub fn execute_scripts(recipe: &Recipe, ctx: &BuildContext) -> (r: ScriptRun)
    ensures
        r@ == ScriptRunView::start(recipe@.plan(ctx@)),
{
    let mut plan: Vec<PhaseCommand> = Vec::new();
    if let Some(script) = &recipe.configure_script {
        let commands = run_phase(script, ctx.container_bld_dir.as_str(), ctx);
        plan_phase(&mut plan, Phase::Configure, &commands);
    }
    let commands = run_phase(&recipe.build_script, ctx.container_bld_dir.as_str(), ctx);
    plan_phase(&mut plan, Phase::Build, &commands);
    if let Some(script) = &recipe.install_script {
        let commands = run_phase(script, ctx.container_out_dir.as_str(), ctx);
        plan_phase(&mut plan, Phase::Install, &commands);
    }
    ScriptRun { plan, done: 0, failure: None }
}

} // verus!
