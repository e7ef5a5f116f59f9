use vstd::prelude::*;
use std::any::TypeId;
use crate::error::Error;
use crate::error::Res;
use crate::error::R;
use crate::framework::Framework;
use crate::plugins::Plugin;
use crate::state::Erased;
use crate::state::sets_one;

verus! {

/// The hooks that run one after the other, before and after the main hooks.
#[derive(Clone, Copy, PartialEq, Eq, Structural)]
pub enum Hook {
    /// Builds the message bundles of every locale from the collected resources.
    BuildFluentBundles,
    /// Localizes the bot commands from the message bundles.
    LocalizeCommands,
}

/// The hooks that run side by side.
#[derive(Clone, Copy, PartialEq, Eq, Structural)]
pub enum MainHook {
    /// Runs the Discord bot.
    RunPoise,
    /// Serves HTTP.
    ServeHyper,
}

/// The hooks registered by the plugins, in the order of registration.
pub struct LifecycleHooks {
    pub pre: Vec<Hook>,
    pub main: Vec<MainHook>,
    pub post: Vec<Hook>,
}

impl Default for LifecycleHooks {
    fn default() -> (r: Self)
        ensures r.pre@.len() == 0, r.main@.len() == 0, r.post@.len() == 0,
    {
        LifecycleHooks { pre: Vec::new(), main: Vec::new(), post: Vec::new() }
    }
}

/// Registration of lifecycle hooks on a framework.
pub trait LifecycleFramework {
    fn pre_hook(&mut self, hook: Hook) -> Res<&mut Framework>;

    fn main_hook(&mut self, hook: MainHook) -> Res<&mut Framework>;

    fn post_hook(&mut self, hook: Hook) -> Res<&mut Framework>;
}

impl LifecycleFramework for Framework {
    /// Adds `hook` after the hooks that run before the main ones; fails when the lifecycle
    /// plugin is not initialized.
    fn pre_hook(&mut self, hook: Hook) -> (r: Res<&mut Framework>)
        ensures
            r matches Ok(fw) ==> *final(self) == *final(fw),
            r matches Ok(fw) ==> fw.state@.dom() == old(self).state@.dom(),
            r is Err ==> final(self).state@.dom() == old(self).state@.dom(),
            r is Err ==> r == Err::<&mut Framework, Error>(Error::NotPresent),
    {
        self.state.borrow_mut::<LifecycleHooks>()?.pre.push(hook);
        Ok(self)
    }

    /// Adds `hook` to the hooks that run side by side; fails when the lifecycle plugin is not
    /// initialized.
    fn main_hook(&mut self, hook: MainHook) -> (r: Res<&mut Framework>)
        ensures
            r matches Ok(fw) ==> *final(self) == *final(fw),
            r matches Ok(fw) ==> fw.state@.dom() == old(self).state@.dom(),
            r is Err ==> final(self).state@.dom() == old(self).state@.dom(),
            r is Err ==> r == Err::<&mut Framework, Error>(Error::NotPresent),
    {
        self.state.borrow_mut::<LifecycleHooks>()?.main.push(hook);
        Ok(self)
    }

    /// Adds `hook` after the hooks that run after the main ones; fails when the lifecycle
    /// plugin is not initialized.
    fn post_hook(&mut self, hook: Hook) -> (r: Res<&mut Framework>)
        ensures
            r matches Ok(fw) ==> *final(self) == *final(fw),
            r matches Ok(fw) ==> fw.state@.dom() == old(self).state@.dom(),
            r is Err ==> final(self).state@.dom() == old(self).state@.dom(),
            r is Err ==> r == Err::<&mut Framework, Error>(Error::NotPresent),
    {
        self.state.borrow_mut::<LifecycleHooks>()?.post.push(hook);
        Ok(self)
    }
}

/// The plugin that keeps the lifecycle hooks.
pub struct LifecyclePlugin;

impl Default for LifecyclePlugin {
    fn default() -> (r: Self) {
        LifecyclePlugin
    }
}

impl Plugin for LifecyclePlugin {
    /// Stores an empty set of hooks.
    fn init(self, fw: &mut Framework) -> (r: R)
        ensures sets_one(old(fw).state@, final(fw).state@), r is Ok,
    {
        fw.state.put(LifecycleHooks::default());
        Ok(())
    }
}

/// What a run of the lifecycle does next.
#[derive(Clone, Copy, PartialEq, Eq, Structural)]
pub enum RunStep {
    /// Run the pre hook of this index, and wait for it.
    Pre(usize),
    /// Run all main hooks side by side, and wait for all of them.
    Main,
    /// Run the post hook of this index, and wait for it.
    Post(usize),
    /// The run is over.
    Done,
}

/// The step at position `k` of a run with `pre` pre hooks and `post` post hooks: the pre hooks
/// in order, then the main hooks together, then the post hooks in order. A run stops at the
/// first step that fails.
pub open spec fn run_step_spec(pre: nat, post: nat, k: nat) -> RunStep {
    if k < pre {
        RunStep::Pre(k as usize)
    } else if k == pre {
        RunStep::Main
    } else if k < pre + 1 + post {
        RunStep::Post((k - pre - 1) as usize)
    } else {
        RunStep::Done
    }
}

/// The step at position `k` of a run of `hooks`.
pub fn run_step(hooks: &LifecycleHooks, k: usize) -> (r: RunStep)
    ensures r == run_step_spec(hooks.pre@.len(), hooks.post@.len(), k as nat),
{
    let pre = hooks.pre.len();
    let post = hooks.post.len();
    if k < pre {
        RunStep::Pre(k)
    } else if k == pre {
        RunStep::Main
    } else if k - pre - 1 < post {
        RunStep::Post(k - pre - 1)
    } else {
        RunStep::Done
    }
}

/// The index of the first main hook that failed, given whether each succeeded.
pub fn first_failure(succeeded: &Vec<bool>) -> (r: Option<usize>)
    ensures
        match r {
            Some(i) => i < succeeded.len() && !succeeded@[i as int]
                && forall|j: int| 0 <= j < i ==> succeeded@[j],
            None => forall|j: int| 0 <= j < succeeded.len() ==> succeeded@[j],
        },
{
    let mut i: usize = 0;
    while i < succeeded.len()
        invariant
            i <= succeeded.len(),
            forall|j: int| 0 <= j < i ==> succeeded@[j],
        decreases succeeded.len() - i,
    {
        if !succeeded[i] {
            return Some(i);
        }
        i += 1;
    }
    None
}

} // verus!
