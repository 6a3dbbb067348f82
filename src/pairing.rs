//! The run of one pairing (a test case in an environment) as a state
//! machine. The caller performs each action that the machine returns (a
//! daemon call or a command in the container) and hands back the daemon's
//! reply; the machine decides what comes next. Whatever the replies, a
//! container that was created is stopped and deleted exactly once, and the
//! verdict is settled before the cleanup starts.
use vstd::prelude::*;
use crate::classify::TestResult;
use crate::environment::Environment;
use crate::exec::{finished, ExecFault, ExecStatus};
use crate::image::{find_image_by_label, first_tagged, repo_tag_of, ImageSummary};
use crate::pipeline::{
    after_stage, located_binary, next_stage, spec_next_stage, stage_command, stage_verdict,
    stage_words, Stage,
};
use crate::environment::cargo_home_path;
use crate::test_case::{merged_flags, volume_specs, TestCrate};
use crate::text::{copy_strings, trim_of, views};

verus! {

/// How the container of a pairing is created.
#[derive(Clone, Debug)]
pub struct ContainerConfig {
    pub image_id: String,
    pub env: Vec<String>,
    pub volumes: Vec<String>,
    pub tty: bool,
    pub attach_stdout: bool,
    pub attach_stderr: bool,
    pub working_dir: String,
    pub auto_remove: bool,
}

/// The in-container directory where the project is mounted and built.
pub open spec fn build_root() -> Seq<char> {
    "/build"@
}

/// `cfg` creates a container from `image` with environment entries `env`
/// and mounts `vols`: no terminal, both output streams attached, working in
/// the build root, and kept after it stops so that it can be inspected.
pub open spec fn configures(
    cfg: ContainerConfig,
    image: Seq<char>,
    env: Seq<Seq<char>>,
    vols: Seq<Seq<char>>,
) -> bool {
    &&& cfg.image_id@ == image
    &&& views(cfg.env@) == env
    &&& views(cfg.volumes@) == vols
    &&& !cfg.tty
    &&& cfg.attach_stdout
    &&& cfg.attach_stderr
    &&& cfg.working_dir@ == build_root()
    &&& !cfg.auto_remove
}

/// The creation settings for a pairing's container.
pub fn container_config(image_id: &str, env: &Vec<String>, volumes: &Vec<String>) -> (r:
    ContainerConfig)
    ensures
        configures(r, image_id@, views(env@), views(volumes@)),
{
    ContainerConfig {
        image_id: String::from_str(image_id),
        env: copy_strings(env),
        volumes: copy_strings(volumes),
        tty: false,
        attach_stdout: true,
        attach_stderr: true,
        working_dir: String::from_str("/build"),
        auto_remove: false,
    }
}

/// Why a pairing could not be carried out.
#[derive(Clone, Debug, PartialEq, Eq)]
pub enum PairingError {
    /// No image carries the environment's repository tag; the images have
    /// to be built first.
    ImageNotFound { label: String },
    /// The container could not be created or started from the image.
    Launch { image_id: String, message: String },
    /// A call to the daemon failed.
    Daemon { message: String },
    /// A command's status broke the execution channel's protocol.
    Protocol { fault: ExecFault },
}

/// What an operator can do about a missing image.
pub open spec fn image_hint() -> Seq<char> {
    "build the environment images first, with `build-docker-images.sh`"@
}

impl PairingError {
    /// The remedy an operator can apply, where one is known: a missing
    /// image has to be built.
    pub fn hint(&self) -> (r: Option<&'static str>)
        ensures
            self is ImageNotFound ==> (r matches Some(h) && h@ == image_hint()),
            !(self is ImageNotFound) ==> r is None,
    {
        match self {
            PairingError::ImageNotFound { .. } => Some(
                "build the environment images first, with `build-docker-images.sh`",
            ),
            _ => None,
        }
    }
}

/// What the caller is to do next.
#[derive(Clone, Debug)]
pub enum Action {
    /// List the daemon's images.
    ListImages,
    /// Create a container.
    Create { config: ContainerConfig },
    /// Start the created container.
    Start,
    /// Run a command, given by its words, in the container.
    Exec { command: Vec<String> },
    /// Stop the container.
    Stop,
    /// Delete the container.
    Delete,
    /// Nothing: the pairing is over.
    Finish,
}

/// The daemon's answer to the last action.
#[derive(Clone, Debug)]
pub enum Reply {
    /// The image list.
    Images { images: Vec<ImageSummary> },
    /// The container was created.
    Created,
    /// The container was started.
    Started,
    /// The command's output stream ended with this status.
    Exited { status: ExecStatus },
    /// The container was stopped.
    Stopped,
    /// The container was deleted.
    Deleted,
    /// The call failed with this message.
    Failed { message: String },
}

/// The kind of an action, for the record of what a pairing asked for.
#[derive(PartialEq, Eq, Structural)]
pub enum ActionKind {
    ListImages,
    Create,
    Start,
    Exec,
    Stop,
    Delete,
    Finish,
}

/// Where a pairing stands: the action it waits on the reply of.
#[derive(Clone, Copy, Debug, PartialEq, Eq, Structural)]
pub enum Phase {
    FindImage,
    Create,
    Start,
    Exec { stage: Stage },
    Stop,
    Delete,
    Done,
}

/// The kind of an action.
pub open spec fn kind_of(a: Action) -> ActionKind {
    match a {
        Action::ListImages => ActionKind::ListImages,
        Action::Create { .. } => ActionKind::Create,
        Action::Start => ActionKind::Start,
        Action::Exec { .. } => ActionKind::Exec,
        Action::Stop => ActionKind::Stop,
        Action::Delete => ActionKind::Delete,
        Action::Finish => ActionKind::Finish,
    }
}

/// The kind of action that leads into phase `p`.
pub open spec fn phase_action(p: Phase) -> ActionKind {
    match p {
        Phase::FindImage => ActionKind::ListImages,
        Phase::Create => ActionKind::Create,
        Phase::Start => ActionKind::Start,
        Phase::Exec { .. } => ActionKind::Exec,
        Phase::Stop => ActionKind::Stop,
        Phase::Delete => ActionKind::Delete,
        Phase::Done => ActionKind::Finish,
    }
}

/// How many replies a pairing in phase `p` takes at most to be over.
pub open spec fn steps_left(p: Phase) -> nat {
    match p {
        Phase::FindImage => 10,
        Phase::Create => 9,
        Phase::Start => 8,
        Phase::Exec { stage } => match stage {
            Stage::Clean => 7,
            Stage::Build => 6,
            Stage::Run => 5,
            Stage::Locate => 4,
            Stage::Inspect => 3,
        },
        Phase::Stop => 2,
        Phase::Delete => 1,
        Phase::Done => 0,
    }
}

/// How many actions of kind `k` the record `h` holds.
pub open spec fn count(h: Seq<ActionKind>, k: ActionKind) -> nat
    decreases h.len(),
{
    if h.len() == 0 {
        0
    } else {
        count(h.drop_last(), k) + if h.last() == k { 1nat } else { 0nat }
    }
}

proof fn lemma_count_push(h: Seq<ActionKind>, x: ActionKind, k: ActionKind)
    ensures
        count(h.push(x), k) == count(h, k) + if x == k { 1nat } else { 0nat },
{
    assert(h.push(x).drop_last() =~= h);
}

/// The run of one test case in one environment.
pub struct Pairing {
    phase: Phase,
    test_name: String,
    target: String,
    label: String,
    env_vars: Vec<String>,
    volumes: Vec<String>,
    image_id: String,
    binary: String,
    outcome: Option<Result<TestResult, PairingError>>,
    created: Ghost<bool>,
    actions: Ghost<Seq<ActionKind>>,
}

impl Pairing {
    /// The phase the pairing is in.
    pub closed spec fn phase(&self) -> Phase {
        self.phase
    }

    /// The verdict, once it is settled.
    pub closed spec fn outcome(&self) -> Option<Result<TestResult, PairingError>> {
        self.outcome
    }

    /// The test's name.
    pub closed spec fn test_name(&self) -> Seq<char> {
        self.test_name@
    }

    /// The environment's target.
    pub closed spec fn target(&self) -> Seq<char> {
        self.target@
    }

    /// The environment's image label.
    pub closed spec fn label(&self) -> Seq<char> {
        self.label@
    }

    /// The container's environment entries.
    pub closed spec fn env_vars(&self) -> Seq<Seq<char>> {
        views(self.env_vars@)
    }

    /// The container's mounts.
    pub closed spec fn volumes(&self) -> Seq<Seq<char>> {
        views(self.volumes@)
    }

    /// The id of the resolved image.
    pub closed spec fn image(&self) -> Seq<char> {
        self.image_id@
    }

    /// The path of the located binary.
    pub closed spec fn binary(&self) -> Seq<char> {
        self.binary@
    }

    /// Whether the daemon reported the container created.
    pub closed spec fn container_made(&self) -> bool {
        self.created@
    }

    /// The kinds of every action returned so far, in order.
    pub closed spec fn history(&self) -> Seq<ActionKind> {
        self.actions@
    }

    /// The settings that stay fixed for the whole run.
    pub open spec fn same_setup(&self, o: &Pairing) -> bool {
        &&& self.test_name() == o.test_name()
        &&& self.target() == o.target()
        &&& self.label() == o.label()
        &&& self.env_vars() == o.env_vars()
        &&& self.volumes() == o.volumes()
    }

    /// The record of actions agrees with the phase: a container is created
    /// at most once, and stopped and deleted once only after it was created.
    pub closed spec fn wf(&self) -> bool {
        let h = self.actions@;
        let made = self.created@;
        &&& h.len() > 0
        &&& h.last() == phase_action(self.phase)
        &&& match self.phase {
            Phase::FindImage => count(h, ActionKind::Create) == 0 && !made && count(
                h,
                ActionKind::Stop,
            ) == 0 && count(h, ActionKind::Delete) == 0 && self.outcome is None,
            Phase::Create => count(h, ActionKind::Create) == 1 && !made && count(
                h,
                ActionKind::Stop,
            ) == 0 && count(h, ActionKind::Delete) == 0 && self.outcome is None,
            Phase::Start | Phase::Exec { .. } => count(h, ActionKind::Create) == 1 && made
                && count(h, ActionKind::Stop) == 0 && count(h, ActionKind::Delete) == 0
                && self.outcome is None,
            Phase::Stop => count(h, ActionKind::Create) == 1 && made && count(h, ActionKind::Stop)
                == 1 && count(h, ActionKind::Delete) == 0 && self.outcome is Some,
            Phase::Delete => count(h, ActionKind::Create) == 1 && made && count(
                h,
                ActionKind::Stop,
            ) == 1 && count(h, ActionKind::Delete) == 1 && self.outcome is Some,
            Phase::Done => self.outcome is Some && count(h, ActionKind::Create) <= 1 && (made
                ==> count(h, ActionKind::Create) == 1 && count(h, ActionKind::Stop) == 1 && count(
                h,
                ActionKind::Delete,
            ) == 1) && (!made ==> count(h, ActionKind::Stop) == 0 && count(h, ActionKind::Delete)
                == 0),
        }
    }

    /// The error for a reply that is not the one the phase waits for.
    pub open spec fn daemon_error(reply: Reply, e: Option<Result<TestResult, PairingError>>) -> bool {
        e matches Some(Err(PairingError::Daemon { message })) && (reply matches Reply::Failed {
            message: m,
        } ==> message@ == m@)
    }

    /// One step of the run: what `reply` does to pairing `pre`, giving
    /// `post` and the next action `a`.
    pub open spec fn step(pre: Pairing, reply: Reply, post: Pairing, a: Action) -> bool {
        match pre.phase() {
            Phase::FindImage => match reply {
                Reply::Images { images } => match first_tagged(images@, repo_tag_of(pre.label())) {
                    Some(i) => post.phase() == Phase::Create && post.image() == images@[i].id@
                        && post.outcome() is None && (a matches Action::Create { config }
                        && configures(config, post.image(), pre.env_vars(), pre.volumes())),
                    None => post.phase() == Phase::Done && (post.outcome() matches Some(
                        Err(PairingError::ImageNotFound { label }),
                    ) && label@ == pre.label()),
                },
                _ => post.phase() == Phase::Done && Pairing::daemon_error(reply, post.outcome()),
            },
            Phase::Create => match reply {
                Reply::Created => post.phase() == Phase::Start && post.outcome() is None,
                _ => post.phase() == Phase::Done && (post.outcome() matches Some(
                    Err(PairingError::Launch { image_id, message }),
                ) && image_id@ == pre.image() && (reply matches Reply::Failed { message: m }
                    ==> message@ == m@)),
            },
            Phase::Start => match reply {
                Reply::Started => post.phase() == (Phase::Exec { stage: Stage::Clean })
                    && post.outcome() is None && (a matches Action::Exec { command } && views(
                    command@,
                ) == stage_words(Stage::Clean, pre.test_name(), pre.target(), pre.binary())),
                _ => post.phase() == Phase::Stop && (post.outcome() matches Some(
                    Err(PairingError::Launch { image_id, message }),
                ) && image_id@ == pre.image() && (reply matches Reply::Failed { message: m }
                    ==> message@ == m@)),
            },
            Phase::Exec { stage } => match reply {
                Reply::Exited { status } => if status.running {
                    post.phase() == Phase::Stop && post.outcome() == Some(
                        Err::<TestResult, PairingError>(
                            PairingError::Protocol { fault: ExecFault::StillRunning },
                        ),
                    )
                } else {
                    match status.exit_code {
                        None => post.phase() == Phase::Stop && post.outcome() == Some(
                            Err::<TestResult, PairingError>(
                                PairingError::Protocol { fault: ExecFault::NoExitCode },
                            ),
                        ),
                        Some(code) => if code != 0 || stage == Stage::Inspect {
                            post.phase() == Phase::Stop && (post.outcome() matches Some(Ok(t))
                                && stage_verdict(stage, code as nat, status.output@, Some(t)))
                        } else {
                            spec_next_stage(stage) matches Some(n) && post.phase() == (
                            Phase::Exec { stage: n }) && post.outcome() is None && (
                            stage == Stage::Locate ==> post.binary() == trim_of(
                                status.output@,
                            )) && (stage != Stage::Locate ==> post.binary() == pre.binary())
                                && (a matches Action::Exec { command } && views(command@)
                                == stage_words(n, pre.test_name(), pre.target(), post.binary()))
                        },
                    }
                },
                _ => post.phase() == Phase::Stop && Pairing::daemon_error(reply, post.outcome()),
            },
            Phase::Stop => post.phase() == Phase::Delete && post.outcome() == pre.outcome(),
            Phase::Delete => post.phase() == Phase::Done && post.outcome() == pre.outcome(),
            Phase::Done => post.phase() == Phase::Done && post.outcome() == pre.outcome(),
        }
    }

    /// Starts the pairing of `test` with `env`, toolchain caches kept under
    /// `cache_dir`; the first action lists the images.
    pub fn begin(test: &TestCrate, env: &Environment, cache_dir: &str) -> (r: (Pairing, Action))
        ensures
            r.0.wf(),
            r.0.phase() == Phase::FindImage,
            r.0.history() == seq![ActionKind::ListImages],
            r.1 is ListImages,
            r.0.test_name() == test@.name,
            r.0.target() == env@.target,
            r.0.label() == env@.name,
            r.0.env_vars() == merged_flags(test@.env),
            r.0.volumes() == volume_specs(cache_dir@, cargo_home_path(), test@.path),
    {
        let ghost first = seq![ActionKind::ListImages];
        let p = Pairing {
            phase: Phase::FindImage,
            test_name: String::from_str(test.name()),
            target: String::from_str(env.musl_target()),
            label: String::from_str(env.name()),
            env_vars: test.env_vars(),
            volumes: test.volumes(cache_dir, env),
            image_id: String::new(),
            binary: String::new(),
            outcome: None,
            created: Ghost(false),
            actions: Ghost(first),
        };
        proof {
            assert(count(p.actions@, ActionKind::Create) == 0) by {
                assert(p.actions@.drop_last() =~= Seq::<ActionKind>::empty());
                assert(count(Seq::<ActionKind>::empty(), ActionKind::Create) == 0);
            }
            assert(count(p.actions@, ActionKind::Stop) == 0) by {
                assert(p.actions@.drop_last() =~= Seq::<ActionKind>::empty());
                assert(count(Seq::<ActionKind>::empty(), ActionKind::Stop) == 0);
            }
            assert(count(p.actions@, ActionKind::Delete) == 0) by {
                assert(p.actions@.drop_last() =~= Seq::<ActionKind>::empty());
                assert(count(Seq::<ActionKind>::empty(), ActionKind::Delete) == 0);
            }
        }
        (p, Action::ListImages)
    }

    /// Whether the pairing is over.
    pub fn is_done(&self) -> (r: bool)
        ensures
            r == (self.phase() == Phase::Done),
    {
        match self.phase {
            Phase::Done => true,
            _ => false,
        }
    }

    /// The phase the pairing is in.
    pub fn current_phase(&self) -> (r: Phase)
        ensures
            r == self.phase(),
    {
        self.phase
    }

    /// The verdict, once it is settled.
    pub fn result(&self) -> (r: &Option<Result<TestResult, PairingError>>)
        ensures
            *r == self.outcome(),
    {
        &self.outcome
    }

    /// Hands the verdict out, once it is settled.
    pub fn into_result(self) -> (r: Option<Result<TestResult, PairingError>>)
        ensures
            r == self.outcome(),
    {
        self.outcome
    }

    fn exec_action(&self, s: Stage) -> (a: Action)
        ensures
            a matches Action::Exec { command } && views(command@) == stage_words(
                s,
                self.test_name(),
                self.target(),
                self.binary(),
            ),
    {
        Action::Exec {
            command: stage_command(
                s,
                self.test_name.as_str(),
                self.target.as_str(),
                self.binary.as_str(),
            ),
        }
    }

    fn fail_daemon(reply: Reply) -> (e: Option<Result<TestResult, PairingError>>)
        ensures
            Pairing::daemon_error(reply, e),
    {
        let message = match reply {
            Reply::Failed { message } => message,
            _ => String::from_str("unexpected reply from the daemon"),
        };
        Some(Err(PairingError::Daemon { message }))
    }

    fn launch_error(&self, reply: Reply) -> (e: Option<Result<TestResult, PairingError>>)
        ensures
            e matches Some(Err(PairingError::Launch { image_id, message })) && image_id@
                == self.image() && (reply matches Reply::Failed { message: m } ==> message@
                == m@),
    {
        let message = match reply {
            Reply::Failed { message } => message,
            _ => String::from_str("unexpected reply from the daemon"),
        };
        Some(Err(PairingError::Launch { image_id: String::from_str(self.image_id.as_str()), message }))
    }

    /// Takes the daemon's reply to the last action and returns the next
    /// action.
    pub fn advance(&mut self, reply: Reply) -> (a: Action)
        requires
            old(self).wf(),
        ensures
            final(self).wf(),
            final(self).same_setup(old(self)),
            final(self).history() == old(self).history().push(kind_of(a)),
            kind_of(a) == phase_action(final(self).phase()),
            final(self).container_made() == (old(self).container_made() || (old(self).phase()
                == Phase::Create && reply is Created)),
            old(self).phase() != Phase::Done ==> steps_left(final(self).phase()) < steps_left(
                old(self).phase(),
            ),
            Pairing::step(*old(self), reply, *final(self), a),
    {
        let ghost pre = *self;
        let a = match self.phase {
            Phase::FindImage => match reply {
                Reply::Images { images } => match find_image_by_label(&images, self.label.as_str()) {
                    Some(id) => {
                        self.image_id = id;
                        self.phase = Phase::Create;
                        Action::Create {
                            config: container_config(
                                self.image_id.as_str(),
                                &self.env_vars,
                                &self.volumes,
                            ),
                        }
                    },
                    None => {
                        self.outcome = Some(
                            Err(
                                PairingError::ImageNotFound {
                                    label: String::from_str(self.label.as_str()),
                                },
                            ),
                        );
                        self.phase = Phase::Done;
                        Action::Finish
                    },
                },
                _ => {
                    self.outcome = Pairing::fail_daemon(reply);
                    self.phase = Phase::Done;
                    Action::Finish
                },
            },
            Phase::Create => match reply {
                Reply::Created => {
                    self.created = Ghost(true);
                    self.phase = Phase::Start;
                    Action::Start
                },
                _ => {
                    self.outcome = self.launch_error(reply);
                    self.phase = Phase::Done;
                    Action::Finish
                },
            },
            Phase::Start => match reply {
                Reply::Started => {
                    self.phase = Phase::Exec { stage: Stage::Clean };
                    self.exec_action(Stage::Clean)
                },
                _ => {
                    self.outcome = self.launch_error(reply);
                    self.phase = Phase::Stop;
                    Action::Stop
                },
            },
            Phase::Exec { stage } => match reply {
                Reply::Exited { status } => match finished(status) {
                    Err(fault) => {
                        self.outcome = Some(Err(PairingError::Protocol { fault }));
                        self.phase = Phase::Stop;
                        Action::Stop
                    },
                    Ok(done) => match after_stage(stage, done.exit_code, done.output.as_str()) {
                        Some(t) => {
                            self.outcome = Some(Ok(t));
                            self.phase = Phase::Stop;
                            Action::Stop
                        },
                        None => {
                            // A stage that passes on is never the last one.
                            let n = next_stage(stage).unwrap();
                            if stage == Stage::Locate {
                                self.binary = located_binary(done.output.as_str());
                            }
                            self.phase = Phase::Exec { stage: n };
                            self.exec_action(n)
                        },
                    },
                },
                _ => {
                    self.outcome = Pairing::fail_daemon(reply);
                    self.phase = Phase::Stop;
                    Action::Stop
                },
            },
            Phase::Stop => {
                self.phase = Phase::Delete;
                Action::Delete
            },
            Phase::Delete => {
                self.phase = Phase::Done;
                Action::Finish
            },
            Phase::Done => Action::Finish,
        };
        self.actions = Ghost(self.actions@.push(kind_of(a)));
        proof {
            lemma_count_push(pre.actions@, kind_of(a), ActionKind::Create);
            lemma_count_push(pre.actions@, kind_of(a), ActionKind::Stop);
            lemma_count_push(pre.actions@, kind_of(a), ActionKind::Delete);
        }
        a
    }
}

/// However the daemon replies, a pairing that is over has asked for at
/// most one container; if the daemon created it, the pairing asked exactly
/// once to stop it and exactly once to delete it, and if not, it asked for
/// neither.
pub proof fn lemma_cleanup_once(p: Pairing)
    requires
        p.wf(),
        p.phase() == Phase::Done,
    ensures
        count(p.history(), ActionKind::Create) <= 1,
        p.container_made() ==> count(p.history(), ActionKind::Create) == 1 && count(
            p.history(),
            ActionKind::Stop,
        ) == 1 && count(p.history(), ActionKind::Delete) == 1,
        !p.container_made() ==> count(p.history(), ActionKind::Stop) == 0 && count(
            p.history(),
            ActionKind::Delete,
        ) == 0,
        p.outcome() is Some,
{
}

/// Once the verdict is settled, stopping and deleting the container leave
/// it as it is, whether or not the daemon manages either.
pub proof fn lemma_cleanup_keeps_verdict(pre: Pairing, reply: Reply, post: Pairing, a: Action)
    requires
        pre.wf(),
        pre.phase() == Phase::Stop || pre.phase() == Phase::Delete,
        Pairing::step(pre, reply, post, a),
    ensures
        post.outcome() == pre.outcome(),
        pre.outcome() is Some,
{
}

} // verus!
