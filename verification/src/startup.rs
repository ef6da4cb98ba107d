use vstd::prelude::*;

verus! {

/// A plugin of the host GUI framework that the application registers at
/// startup.
#[derive(Clone, Copy, Debug, PartialEq, Eq, Structural)]
pub enum Plugin {
    /// Native file and message dialogs.
    Dialog,
    /// Update checks and installs for the application itself.
    Updater,
    /// Process control: exiting and restarting the application.
    Process,
    /// Opening paths and URLs with the system's default handler.
    Opener,
}

/// The startup plan: which plugins the application registers on the
/// framework builder before the run loop starts, and which it installs from
/// the setup hook once an application handle exists (desktop targets only).
pub struct StartupPlan {
    /// Plugins attached to the builder, in registration order.
    pub builder_plugins: Vec<Plugin>,
    /// Plugins installed by the setup hook, in installation order.
    pub setup_plugins: Vec<Plugin>,
}

impl StartupPlan {
    /// Every plugin the plan registers, builder phase first, each phase in
    /// its registration order.
    pub open spec fn all_plugins(self) -> Seq<Plugin> {
        self.builder_plugins@ + self.setup_plugins@
    }

    /// Whether the plan registers plugin `p` in either phase.
    pub open spec fn spec_registers(self, p: Plugin) -> bool {
        self.builder_plugins@.contains(p) || self.setup_plugins@.contains(p)
    }

    /// A well-formed plan registers each plugin at most once over both
    /// phases.
    pub open spec fn wf(self) -> bool {
        forall|i: int, j: int|
            0 <= i < j < self.all_plugins().len()
                ==> self.all_plugins()[i] != self.all_plugins()[j]
    }

    /// Reports whether the plan registers plugin `p` in either phase.
    pub fn registers(&self, p: Plugin) -> (r: bool)
        ensures
            r == self.spec_registers(p),
    {
        contains_plugin(&self.builder_plugins, p) || contains_plugin(&self.setup_plugins, p)
    }
}

/// Reports whether `v` holds the plugin `p`.
fn contains_plugin(v: &Vec<Plugin>, p: Plugin) -> (r: bool)
    ensures
        r == v@.contains(p),
{
    let mut i: usize = 0;
    while i < v.len()
        invariant
            0 <= i <= v.len(),
            forall|k: int| 0 <= k < i ==> v@[k] != p,
        decreases v.len() - i,
    {
        if v[i] == p {
            return true;
        }
        i += 1;
    }
    false
}

/// The plan this application starts with: the dialog, process and opener
/// plugins on the builder, in that order, and the updater plugin in the
/// setup hook.
pub fn startup_plan() -> (plan: StartupPlan)
    ensures
        plan.builder_plugins@ == seq![Plugin::Dialog, Plugin::Process, Plugin::Opener],
        plan.setup_plugins@ == seq![Plugin::Updater],
        forall|p: Plugin| plan.spec_registers(p),
        plan.wf(),
{
    let mut builder_plugins: Vec<Plugin> = Vec::new();
    builder_plugins.push(Plugin::Dialog);
    builder_plugins.push(Plugin::Process);
    builder_plugins.push(Plugin::Opener);
    let mut setup_plugins: Vec<Plugin> = Vec::new();
    setup_plugins.push(Plugin::Updater);
    let plan = StartupPlan { builder_plugins, setup_plugins };
    proof {
        assert(plan.builder_plugins@ =~= seq![Plugin::Dialog, Plugin::Process, Plugin::Opener]);
        assert(plan.setup_plugins@ =~= seq![Plugin::Updater]);
        lemma_startup_plan_registers_all(plan);
    }
    plan
}

/// A plan with the dialog, process and opener plugins on the builder and
/// the updater plugin in the setup hook registers each of the four plugins,
/// and none of them twice.
pub proof fn lemma_startup_plan_registers_all(plan: StartupPlan)
    requires
        plan.builder_plugins@ == seq![Plugin::Dialog, Plugin::Process, Plugin::Opener],
        plan.setup_plugins@ == seq![Plugin::Updater],
    ensures
        forall|p: Plugin| plan.spec_registers(p),
        plan.wf(),
{
    assert(plan.all_plugins() =~= seq![
        Plugin::Dialog,
        Plugin::Process,
        Plugin::Opener,
        Plugin::Updater,
    ]);
    assert forall|p: Plugin| plan.spec_registers(p) by {
        match p {
            Plugin::Dialog => {
                assert(plan.builder_plugins@[0] == p);
            },
            Plugin::Process => {
                assert(plan.builder_plugins@[1] == p);
            },
            Plugin::Opener => {
                assert(plan.builder_plugins@[2] == p);
            },
            Plugin::Updater => {
                assert(plan.setup_plugins@[0] == p);
            },
        }
    }
}

} // verus!
