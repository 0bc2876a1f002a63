use vstd::prelude::*;

use crate::error::ErrorKind;
use crate::mount::Mount;

verus! {

/// A kind of namespace to unshare, each standing for one kernel unshare flag.
#[derive(Clone, Copy, Debug, PartialEq, Eq, Structural)]
pub enum Namespace {
    Mount,
    Uts,
    Ipc,
    User,
    Pid,
    Net,
    Cgroup,
}

/// A contiguous range of `count` ids starting at `inside` in the new user
/// namespace, mapped to the range starting at `outside` on the host.
#[derive(Clone, Copy, Debug, PartialEq, Eq, Structural)]
pub struct IdMap {
    pub inside: u32,
    pub outside: u32,
    pub count: u32,
}

/// Configuration for the container.
pub struct Config {
    /// Namespaces to unshare; order is irrelevant and duplicates are harmless.
    pub namespaces: Vec<Namespace>,
    /// The user the command runs as.
    pub uid: Option<u32>,
    /// The group the command runs as.
    pub gid: Option<u32>,
    /// User id ranges of a user namespace.
    pub uid_map: Vec<IdMap>,
    /// Group id ranges of a user namespace.
    pub gid_map: Vec<IdMap>,
    /// Mounts, applied in order.
    pub mounts: Vec<Mount>,
    /// Host name set inside the namespaces.
    pub hostname: Option<String>,
    /// Directory that becomes the root of the command.
    pub chroot_dir: Option<String>,
    /// Directory the command starts in.
    pub working_dir: Option<String>,
}

/// What the process launched into the new namespaces is started with.
pub struct LaunchPlan {
    pub namespaces: Vec<Namespace>,
    pub uid_map: Vec<IdMap>,
    pub gid_map: Vec<IdMap>,
    /// The helpers (new uid map, new gid map) that write the id maps; without
    /// them the maps are written directly.
    pub id_map_commands: Option<(String, String)>,
    pub uid: Option<u32>,
    pub gid: Option<u32>,
}

impl Config {
    /// The launched process must stay root until the privileged setup inside
    /// the namespaces is done.
    pub open spec fn spec_uses_root(&self) -> bool {
        self.hostname is Some || self.chroot_dir is Some || self.mounts@.len() > 0
    }

    /// The user the launched process starts as.
    pub open spec fn launch_uid(&self) -> Option<u32> {
        if self.spec_uses_root() {
            Some(0u32)
        } else {
            self.uid
        }
    }

    /// The group the launched process starts as.
    pub open spec fn launch_gid(&self) -> Option<u32> {
        if self.spec_uses_root() {
            Some(0u32)
        } else {
            self.gid
        }
    }

    /// The inner program needs to start as root.
    pub fn uses_root(&self) -> (r: bool)
        ensures
            r == self.spec_uses_root(),
    {
        self.hostname.is_some() || self.chroot_dir.is_some() || self.mounts.len() > 0
    }

    /// Configure the launch into the new namespaces: the namespaces and id
    /// maps, the id-map helpers when both were found, and the identity to
    /// start as (root when privileged setup follows, else the configured one).
    pub fn unshare(self, newuidmap: Option<String>, newgidmap: Option<String>) -> (r: LaunchPlan)
        ensures
            r.namespaces@ == self.namespaces@,
            r.uid_map@ == self.uid_map@,
            r.gid_map@ == self.gid_map@,
            r.id_map_commands is Some <==> (newuidmap is Some && newgidmap is Some),
            r.id_map_commands is Some ==> r.id_map_commands->0 == (newuidmap->0, newgidmap->0),
            r.uid == self.launch_uid(),
            r.gid == self.launch_gid(),
    {
        let uses_root = self.uses_root();
        let id_map_commands = match (newuidmap, newgidmap) {
            (Some(u), Some(g)) => Some((u, g)),
            _ => None,
        };
        let (uid, gid) = if uses_root {
            (Some(0u32), Some(0u32))
        } else {
            (self.uid, self.gid)
        };
        LaunchPlan {
            namespaces: self.namespaces,
            uid_map: self.uid_map,
            gid_map: self.gid_map,
            id_map_commands,
            uid,
            gid,
        }
    }
}


/// One privileged step of the setup inside the new namespaces.
pub enum Step {
    SetHostName(String),
    ApplyMount(Mount),
    /// Canonicalize the directory, change into it, then make it the root.
    EnterChroot(String),
    EnterWorkingDir(String),
    SetGroup(u32),
    SetUser(u32),
}

/// The error that a failure of the step is reported as.
pub open spec fn step_error(s: Step) -> ErrorKind {
    match s {
        Step::SetHostName(_) => ErrorKind::SetHostName,
        Step::ApplyMount(_) => ErrorKind::SetMount,
        Step::EnterChroot(_) => ErrorKind::EnterChroot,
        Step::EnterWorkingDir(_) => ErrorKind::EnterWorkingDir,
        Step::SetGroup(_) => ErrorKind::SetUser,
        Step::SetUser(_) => ErrorKind::SetUser,
    }
}

impl Step {
    /// The error that a failure of this step is reported as.
    pub fn error(&self) -> (r: ErrorKind)
        ensures
            r == step_error(*self),
    {
        match self {
            Step::SetHostName(_) => ErrorKind::SetHostName,
            Step::ApplyMount(_) => ErrorKind::SetMount,
            Step::EnterChroot(_) => ErrorKind::EnterChroot,
            Step::EnterWorkingDir(_) => ErrorKind::EnterWorkingDir,
            Step::SetGroup(_) => ErrorKind::SetUser,
            Step::SetUser(_) => ErrorKind::SetUser,
        }
    }
}

/// A path is absolute when it starts at the root.
pub open spec fn is_absolute(p: Seq<char>) -> bool {
    p.len() > 0 && p[0] == '/'
}

/// Whether the path starts at the root.
pub fn is_absolute_path(p: &String) -> (r: bool)
    ensures
        r == is_absolute(p@),
{
    let s = p.as_str();
    s.unicode_len() > 0 && s.get_char(0) == '/'
}

impl Config {
    /// A relative working directory together with a chroot is refused.
    pub open spec fn workdir_rejected(&self) -> bool {
        &&& self.working_dir is Some
        &&& !is_absolute(self.working_dir->0@)
        &&& self.chroot_dir is Some
    }

    /// The steps that set the host name.
    pub open spec fn hostname_steps(&self) -> Seq<Step> {
        match self.hostname {
            Some(h) => seq![Step::SetHostName(h)],
            None => seq![],
        }
    }

    /// The steps that apply the mounts, in order.
    pub open spec fn mount_steps(&self) -> Seq<Step> {
        self.mounts@.map_values(|m: Mount| Step::ApplyMount(m))
    }

    /// The steps that enter the chroot.
    pub open spec fn chroot_steps(&self) -> Seq<Step> {
        match self.chroot_dir {
            Some(c) => seq![Step::EnterChroot(c)],
            None => seq![],
        }
    }

    /// The steps that change into the working directory.
    pub open spec fn workdir_steps(&self) -> Seq<Step> {
        match self.working_dir {
            Some(w) => seq![Step::EnterWorkingDir(w)],
            None => seq![],
        }
    }

    /// The privilege drop: group before user, and only when the process was
    /// launched as root.
    pub open spec fn drop_steps(&self) -> Seq<Step> {
        if self.spec_uses_root() {
            (match self.gid {
                Some(g) => seq![Step::SetGroup(g)],
                None => seq![],
            }) + (match self.uid {
                Some(u) => seq![Step::SetUser(u)],
                None => seq![],
            })
        } else {
            seq![]
        }
    }

    /// Every step that runs inside the namespaces, in order: host name,
    /// mounts, chroot, then (unless the working directory is refused) the
    /// working directory and the privilege drop.
    pub open spec fn child_steps(&self) -> Seq<Step> {
        self.hostname_steps() + self.mount_steps() + self.chroot_steps() + if self.workdir_rejected() {
            seq![]
        } else {
            self.workdir_steps() + self.drop_steps()
        }
    }

    /// The error that ends the setup once its steps have run, if any.
    pub open spec fn child_rejection(&self) -> Option<ErrorKind> {
        if self.workdir_rejected() {
            Some(ErrorKind::RelativeWorkingDir)
        } else {
            None
        }
    }

    /// Configure the container after having entered it: the steps to run in
    /// order, and the error to fail with after them, if any.
    pub fn configure(self) -> (r: ChildPlan)
        ensures
            r.steps@ == self.child_steps(),
            r.rejection == self.child_rejection(),
    {
        let ghost spec_self = self;
        let uses_root = self.uses_root();
        let Config { uid, gid, mut mounts, hostname, chroot_dir, working_dir, .. } = self;
        let mut steps: Vec<Step> = Vec::new();
        if let Some(h) = hostname {
            steps.push(Step::SetHostName(h));
        }
        assert(steps@ =~= spec_self.hostname_steps());
        let ghost head = steps@;
        let ghost all = mounts@;
        let total = mounts.len();
        let mut k: usize = 0;
        while mounts.len() > 0
            invariant
                k + mounts@.len() == all.len(),
                all.len() == total,
                mounts@ == all.subrange(k as int, all.len() as int),
                steps@ == head + all.subrange(0, k as int).map_values(|m: Mount| Step::ApplyMount(m)),
            decreases mounts@.len(),
        {
            let m = mounts.remove(0);
            steps.push(Step::ApplyMount(m));
            k = k + 1;
            assert(steps@ =~= head + all.subrange(0, k as int).map_values(|m: Mount| Step::ApplyMount(m)));
            assert(mounts@ =~= all.subrange(k as int, all.len() as int));
        }
        assert(all.subrange(0, k as int) =~= all);
        assert(steps@ =~= spec_self.hostname_steps() + spec_self.mount_steps());
        let rejected = match (&working_dir, &chroot_dir) {
            (Some(w), Some(_)) => !is_absolute_path(w),
            _ => false,
        };
        if let Some(c) = chroot_dir {
            steps.push(Step::EnterChroot(c));
        }
        if rejected {
            assert(steps@ =~= spec_self.child_steps());
            return ChildPlan { steps, rejection: Some(ErrorKind::RelativeWorkingDir) };
        }
        if let Some(w) = working_dir {
            steps.push(Step::EnterWorkingDir(w));
        }
        if uses_root {
            if let Some(g) = gid {
                steps.push(Step::SetGroup(g));
            }
            if let Some(u) = uid {
                steps.push(Step::SetUser(u));
            }
        }
        assert(steps@ =~= spec_self.child_steps());
        ChildPlan { steps, rejection: None }
    }
}

/// The setup inside the namespaces: steps run in order, failing fast, then
/// the rejection if there is one.
pub struct ChildPlan {
    pub steps: Vec<Step>,
    pub rejection: Option<ErrorKind>,
}

/// How far a run of a plan has come: the number of steps that succeeded,
/// and the error of the step that failed, if one did.
#[derive(Clone, Copy, Debug, PartialEq, Eq, Structural)]
pub struct Progress {
    pub done: usize,
    pub failure: Option<ErrorKind>,
}

/// What to do next in a run of a plan.
#[derive(Clone, Copy, Debug, PartialEq, Eq, Structural)]
pub enum Action {
    /// Perform the step at this index.
    Perform(usize),
    /// Stop the run with this error.
    Fail(ErrorKind),
    /// Every step succeeded: run the command.
    Finish,
}

impl Progress {
    /// A run that has not started.
    pub fn start() -> (r: Progress)
        ensures
            r.done == 0,
            r.failure is None,
    {
        Progress { done: 0, failure: None }
    }
}

impl ChildPlan {
    /// The next action at the given progress.
    pub open spec fn next_of(&self, p: Progress) -> Action {
        match p.failure {
            Some(k) => Action::Fail(k),
            None => if p.done < self.steps@.len() {
                Action::Perform(p.done)
            } else {
                match self.rejection {
                    Some(k) => Action::Fail(k),
                    None => Action::Finish,
                }
            },
        }
    }

    /// The progress once the step due has succeeded or failed.
    pub open spec fn after(&self, p: Progress, succeeded: bool) -> Progress {
        if succeeded {
            Progress { done: (p.done + 1) as usize, failure: None }
        } else {
            Progress { done: p.done, failure: Some(step_error(self.steps@[p.done as int])) }
        }
    }

    /// The next action at the given progress.
    pub fn next_action(&self, p: &Progress) -> (r: Action)
        ensures
            r == self.next_of(*p),
    {
        match p.failure {
            Some(k) => Action::Fail(k),
            None => if p.done < self.steps.len() {
                Action::Perform(p.done)
            } else {
                match self.rejection {
                    Some(k) => Action::Fail(k),
                    None => Action::Finish,
                }
            },
        }
    }

    /// Record the outcome of the step due.
    pub fn record(&self, p: &mut Progress, succeeded: bool)
        requires
            old(p).failure is None,
            old(p).done < self.steps@.len(),
        ensures
            *final(p) == self.after(*old(p), succeeded),
    {
        let n = self.steps.len();
        if succeeded {
            assert(p.done < n);
            p.done = p.done + 1;
        } else {
            p.failure = Some(self.steps[p.done].error());
        }
    }
}


/// Without a host name, mounts or a chroot, the launched process starts with
/// the configured user and group, and the setup inside drops no privilege.
pub proof fn lemma_unprivileged_launch(c: Config)
    requires
        c.hostname is None,
        c.chroot_dir is None,
        c.mounts@.len() == 0,
    ensures
        c.launch_uid() == c.uid,
        c.launch_gid() == c.gid,
        forall|i: int|
            0 <= i < c.child_steps().len() ==> !(#[trigger] c.child_steps()[i] is SetGroup)
                && !(c.child_steps()[i] is SetUser),
{
    assert(c.child_steps() =~= c.workdir_steps());
}

/// With a host name, two mounts, a chroot, an absolute working directory, a
/// group and a user, the setup inside runs exactly: set the host name, apply
/// the first mount, then the second, enter the chroot, change into the
/// working directory, set the group, set the user.
pub proof fn lemma_setup_order(
    c: Config,
    h: String,
    m1: Mount,
    m2: Mount,
    root: String,
    w: String,
    g: u32,
    u: u32,
)
    requires
        c.hostname == Some(h),
        c.mounts@ == seq![m1, m2],
        c.chroot_dir == Some(root),
        c.working_dir == Some(w),
        is_absolute(w@),
        c.gid == Some(g),
        c.uid == Some(u),
    ensures
        c.child_steps() == seq![
            Step::SetHostName(h),
            Step::ApplyMount(m1),
            Step::ApplyMount(m2),
            Step::EnterChroot(root),
            Step::EnterWorkingDir(w),
            Step::SetGroup(g),
            Step::SetUser(u),
        ],
        c.child_rejection() is None,
{
    assert(c.mount_steps() =~= seq![Step::ApplyMount(m1), Step::ApplyMount(m2)]);
    assert(c.child_steps() =~= seq![
        Step::SetHostName(h),
        Step::ApplyMount(m1),
        Step::ApplyMount(m2),
        Step::EnterChroot(root),
        Step::EnterWorkingDir(w),
        Step::SetGroup(g),
        Step::SetUser(u),
    ]);
}

/// A relative working directory with a chroot fails with
/// `RelativeWorkingDir` once the earlier steps have run: no step changes
/// into the working directory or drops a privilege.
pub proof fn lemma_relative_workdir_rejected(c: Config, p: Progress)
    requires
        c.working_dir is Some,
        !is_absolute(c.working_dir->0@),
        c.chroot_dir is Some,
        p.failure is None,
        p.done >= c.child_steps().len(),
    ensures
        c.child_rejection() == Some(ErrorKind::RelativeWorkingDir),
        forall|i: int|
            0 <= i < c.child_steps().len() ==> !(#[trigger] c.child_steps()[i] is EnterWorkingDir)
                && !(c.child_steps()[i] is SetGroup) && !(c.child_steps()[i] is SetUser),
        forall|plan: ChildPlan|
            plan.steps@ == c.child_steps() && plan.rejection == c.child_rejection()
                ==> #[trigger] plan.next_of(p) == Action::Fail(ErrorKind::RelativeWorkingDir),
{
    assert forall|i: int| 0 <= i < c.child_steps().len() implies !(#[trigger] c.child_steps()[i] is EnterWorkingDir)
        && !(c.child_steps()[i] is SetGroup) && !(c.child_steps()[i] is SetUser) by {
        let pre = c.hostname_steps() + c.mount_steps();
        assert(c.child_steps() =~= pre + c.chroot_steps());
        if i < c.hostname_steps().len() {
            assert(c.child_steps()[i] == c.hostname_steps()[i]);
        } else if i < pre.len() {
            assert(c.child_steps()[i] == c.mount_steps()[i - c.hostname_steps().len()]);
        } else {
            assert(c.child_steps()[i] == c.chroot_steps()[i - pre.len()]);
        }
    }
}

/// A run stops at the first step that fails, with that step's error: the
/// next action is to fail, so no later step is ever performed.
pub proof fn lemma_fail_fast(plan: ChildPlan, p: Progress)
    requires
        p.failure is None,
        p.done < plan.steps@.len(),
    ensures
        plan.next_of(plan.after(p, false)) == Action::Fail(step_error(plan.steps@[p.done as int])),
        forall|j: usize| plan.next_of(plan.after(p, false)) != Action::Perform(j),
{
}

} // verus!
