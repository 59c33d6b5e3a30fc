use vstd::prelude::*;
use vstd::string::StringExecFns;

use crate::bootstrap::{lemma_temporary_render, render_bootstrap, temporary_json, BootstrapConfig};
use crate::detect::{line_is_marker, ReadinessLatch};
use crate::error::ErrorKind;
use crate::seed::{parse_descriptor, spec_parse_descriptor, SeedDescriptor};
use crate::stage::{apply_plan, confirm_proceeds, is_staging_plan, spec_confirm, staged_files,
    staging_plan, StageAction};
use crate::json::string_views;

verus! {

/// Where the orchestration stands. The phases advance strictly forward;
/// destructive staging is reachable only after the operator has confirmed
/// and the descriptor and the identity credential have both loaded.
pub enum Phase {
    /// Waiting for the operator's answer to the destructive prompt.
    AwaitingConfirmation,
    /// The operator declined; the run ends with no side effect.
    Declined,
    /// Confirmed; waiting for the descriptor file's text.
    AwaitingDescriptor,
    /// Descriptor parsed; waiting for the identity credential's text.
    AwaitingIdentity,
    /// Identity in hand; the staging plan may now be executed.
    ReadyToStage,
    /// Staging done; waiting for the foundational bundle's source text.
    AwaitingBundle,
    /// Bundle in hand; the bootstrap config may now be written out.
    ReadyToWriteBootstrap,
    /// Bootstrap written; the initialize step may now run.
    ReadyToInit,
    /// Initialize succeeded; the serve child may now be spawned.
    ReadyToServe,
    /// Consuming the child's log channel until it closes.
    Draining,
    /// The channel closed; the run is over.
    Finished,
    /// A fatal error ended the run.
    Aborted,
}

/// The orchestration's state: its phase, the operator inputs gathered so
/// far, the readiness latch, and the error that ended the run, if one did.
pub struct Orchestrator {
    pub phase: Phase,
    pub passphrase: String,
    pub descriptor: Option<SeedDescriptor>,
    pub identity: Option<String>,
    pub bundle: Option<String>,
    pub latch: ReadinessLatch,
    pub error: Option<ErrorKind>,
}

impl Orchestrator {
    /// Each phase holds the inputs it needs.
    pub open spec fn wf(self) -> bool {
        &&& (self.phase is AwaitingIdentity ==> self.descriptor is Some)
        &&& (self.phase is ReadyToStage ==> self.descriptor is Some && self.identity is Some)
        &&& (self.phase is AwaitingBundle ==> self.descriptor is Some)
        &&& (self.phase is ReadyToWriteBootstrap || self.phase is ReadyToInit || self.phase
            is ReadyToServe || self.phase is Draining ==> self.descriptor is Some && self.bundle
            is Some)
    }

    /// The operator inputs are the same in both states.
    pub open spec fn same_inputs(self, other: Orchestrator) -> bool {
        &&& self.passphrase == other.passphrase
        &&& self.descriptor == other.descriptor
        &&& self.identity == other.identity
        &&& self.bundle == other.bundle
    }

    /// A fresh orchestration holding the operator's passphrase, at the
    /// confirmation prompt, nothing loaded, latch unfired, no error.
    pub fn new(passphrase: String) -> (o: Orchestrator)
        ensures
            o.wf(),
            o.phase is AwaitingConfirmation,
            o.passphrase@ == passphrase@,
            o.descriptor is None,
            o.identity is None,
            o.bundle is None,
            !o.latch.fired,
            o.error is None,
    {
        Orchestrator {
            phase: Phase::AwaitingConfirmation,
            passphrase,
            descriptor: None,
            identity: None,
            bundle: None,
            latch: ReadinessLatch::new(),
            error: None,
        }
    }

    /// Takes the operator's answer to the destructive prompt. Exactly
    /// `n` and `N` decline: the run then ends at once, before anything
    /// was read or touched. Any other answer proceeds to loading the
    /// descriptor — still before any destructive step.
    pub fn on_confirm(&mut self, answer: &str) -> (proceed: bool)
        requires
            old(self).wf(),
            old(self).phase is AwaitingConfirmation,
        ensures
            final(self).wf(),
            proceed == spec_confirm(answer@),
            proceed ==> final(self).phase is AwaitingDescriptor,
            !proceed ==> final(self).phase is Declined,
            final(self).same_inputs(*old(self)),
            final(self).latch == old(self).latch,
            final(self).error == old(self).error,
    {
        let proceed = confirm_proceeds(answer);
        if proceed {
            self.phase = Phase::AwaitingDescriptor;
        } else {
            self.phase = Phase::Declined;
        }
        proceed
    }

    /// Records an outside failure: a file that could not be read, a
    /// staging step that failed on disk, a bootstrap file that could not
    /// be written. The run aborts with that error.
    pub fn on_outside_failure(&mut self, kind: ErrorKind)
        requires
            old(self).wf(),
        ensures
            final(self).wf(),
            final(self).phase is Aborted,
            final(self).error == Some(kind),
            final(self).same_inputs(*old(self)),
    {
        self.phase = Phase::Aborted;
        self.error = Some(kind);
    }

    /// Takes the descriptor file's text and parses it. A text of the
    /// expected shape loads the descriptor and moves on to the identity
    /// credential; any other text is a validation error that aborts the
    /// run — no staging step has been issued at this point, so whatever
    /// directory exists stays as it was.
    pub fn on_descriptor_text(&mut self, text: &str) -> (r: Result<(), ErrorKind>)
        requires
            old(self).wf(),
            old(self).phase is AwaitingDescriptor,
        ensures
            final(self).wf(),
            r is Ok <==> spec_parse_descriptor(text@) is Some,
            r is Ok ==> final(self).phase is AwaitingIdentity,
            r is Ok ==> (final(self).descriptor matches Some(d)
                && spec_parse_descriptor(text@) matches Some(p) && d.language_language_ref@ == p.0
                && string_views(d.additional_language_refs@) == p.1),
            r matches Err(e) ==> e == ErrorKind::Validation && final(self).phase is Aborted
                && final(self).error == Some(ErrorKind::Validation) && final(self).descriptor
                == old(self).descriptor,
            final(self).passphrase == old(self).passphrase,
            final(self).identity == old(self).identity,
            final(self).bundle == old(self).bundle,
    {
        match parse_descriptor(text) {
            Ok(d) => {
                self.descriptor = Some(d);
                self.phase = Phase::AwaitingIdentity;
                Ok(())
            },
            Err(e) => {
                self.phase = Phase::Aborted;
                self.error = Some(ErrorKind::Validation);
                Err(e)
            },
        }
    }

    /// Takes the identity credential's text. The run is now ready for
    /// the destructive staging step.
    pub fn on_identity_text(&mut self, identity: String)
        requires
            old(self).wf(),
            old(self).phase is AwaitingIdentity,
        ensures
            final(self).wf(),
            final(self).phase is ReadyToStage,
            final(self).identity matches Some(t) && t@ == identity@,
            final(self).passphrase == old(self).passphrase,
            final(self).descriptor == old(self).descriptor,
            final(self).bundle == old(self).bundle,
    {
        self.identity = Some(identity);
        self.phase = Phase::ReadyToStage;
    }

    /// The staging plan for the loaded identity credential. Only a run
    /// that was confirmed and has both operator files loaded can reach
    /// this phase, so no destructive action exists before then.
    pub fn staging_actions(&self) -> (plan: Vec<StageAction>)
        requires
            self.wf(),
            self.phase is ReadyToStage,
        ensures
            is_staging_plan(plan@, self.identity->Some_0@),
            forall|prior: Map<Seq<char>, Seq<char>>| apply_plan(prior, plan@) == staged_files(
                self.identity->Some_0@,
            ),
    {
        let identity = match &self.identity {
            Some(t) => t,
            None => {
                proof {
                    assert(false);
                }
                unreached()
            },
        };
        staging_plan(identity.as_str())
    }

    /// The staging plan has been executed on disk.
    pub fn on_staged(&mut self)
        requires
            old(self).wf(),
            old(self).phase is ReadyToStage,
        ensures
            final(self).wf(),
            final(self).phase is AwaitingBundle,
            final(self).same_inputs(*old(self)),
    {
        self.phase = Phase::AwaitingBundle;
    }

    /// The path of the foundational-language source bundle, as the
    /// descriptor referenced it: the next file the run needs.
    pub fn bundle_ref(&self) -> (r: &String)
        requires
            self.wf(),
            self.phase is AwaitingBundle,
        ensures
            r@ == self.descriptor->Some_0.language_language_ref@,
    {
        match &self.descriptor {
            Some(d) => &d.language_language_ref,
            None => {
                proof {
                    assert(false);
                }
                unreached()
            },
        }
    }

    /// Takes the bundle's source text. The temporary bootstrap config
    /// can now be written.
    pub fn on_bundle_text(&mut self, bundle: String)
        requires
            old(self).wf(),
            old(self).phase is AwaitingBundle,
        ensures
            final(self).wf(),
            final(self).phase is ReadyToWriteBootstrap,
            final(self).bundle matches Some(b) && b@ == bundle@,
            final(self).passphrase == old(self).passphrase,
            final(self).descriptor == old(self).descriptor,
            final(self).identity == old(self).identity,
    {
        self.bundle = Some(bundle);
        self.phase = Phase::ReadyToWriteBootstrap;
    }

    /// The serialized temporary bootstrap config to write to disk: the
    /// loaded bundle surrounded by empty lists and empty placeholder
    /// addresses, in its exact JSON form.
    pub fn bootstrap_contents(&self) -> (r: String)
        requires
            self.wf(),
            self.phase is ReadyToWriteBootstrap,
        ensures
            r@ == temporary_json(self.bundle->Some_0@),
    {
        let bundle = match &self.bundle {
            Some(b) => b,
            None => {
                proof {
                    assert(false);
                }
                unreached()
            },
        };
        let config = BootstrapConfig::temporary(bundle.clone());
        let rendered = render_bootstrap(&config);
        proof {
            lemma_temporary_render(config);
        }
        rendered
    }

    /// The bootstrap config file is on disk; the initialize step is next.
    pub fn on_bootstrap_written(&mut self)
        requires
            old(self).wf(),
            old(self).phase is ReadyToWriteBootstrap,
        ensures
            final(self).wf(),
            final(self).phase is ReadyToInit,
            final(self).same_inputs(*old(self)),
    {
        self.phase = Phase::ReadyToInit;
    }

    /// The initialize run of the child executable has finished. A spawn
    /// failure or a non-zero exit is fatal; success readies the serve
    /// spawn.
    pub fn on_init_exit(&mut self, ok: bool)
        requires
            old(self).wf(),
            old(self).phase is ReadyToInit,
        ensures
            final(self).wf(),
            ok ==> final(self).phase is ReadyToServe,
            !ok ==> final(self).phase is Aborted && final(self).error == Some(ErrorKind::Process),
            final(self).same_inputs(*old(self)),
    {
        if ok {
            self.phase = Phase::ReadyToServe;
        } else {
            self.phase = Phase::Aborted;
            self.error = Some(ErrorKind::Process);
        }
    }

    /// The serve child is running and its log channel is wired up; the
    /// consumer loop starts with the latch unfired.
    pub fn on_serve_spawned(&mut self)
        requires
            old(self).wf(),
            old(self).phase is ReadyToServe,
        ensures
            final(self).wf(),
            final(self).phase is Draining,
            !final(self).latch.fired,
            final(self).same_inputs(*old(self)),
    {
        self.latch = ReadinessLatch::new();
        self.phase = Phase::Draining;
    }

    /// Observes one log line from the channel. The caller prints the
    /// line unconditionally, whatever the result; the result says
    /// whether to dispatch publishing now, which is true exactly when
    /// this line is the first to carry the readiness marker.
    pub fn on_line(&mut self, line: &str) -> (dispatch: bool)
        requires
            old(self).wf(),
            old(self).phase is Draining,
        ensures
            final(self).wf(),
            final(self).phase is Draining,
            dispatch == (!old(self).latch.fired && line_is_marker(line@)),
            final(self).latch.fired == (old(self).latch.fired || line_is_marker(line@)),
            final(self).same_inputs(*old(self)),
    {
        self.latch.observe(line)
    }

    /// The three inputs of the publishing handoff: the operator's
    /// passphrase, the loaded descriptor, and the bundle source.
    pub fn publish_inputs(&self) -> (r: (&String, &SeedDescriptor, &String))
        requires
            self.wf(),
            self.phase is Draining,
        ensures
            r.0@ == self.passphrase@,
            *r.1 == self.descriptor->Some_0,
            r.2@ == self.bundle->Some_0@,
    {
        let d = match &self.descriptor {
            Some(d) => d,
            None => {
                proof {
                    assert(false);
                }
                unreached()
            },
        };
        let b = match &self.bundle {
            Some(b) => b,
            None => {
                proof {
                    assert(false);
                }
                unreached()
            },
        };
        (&self.passphrase, d, b)
    }

    /// The log channel closed: the child's output ended. The run ends
    /// normally whether or not the marker was ever seen; the result says
    /// whether publishing was dispatched at some point. No marker, no
    /// dispatch — and that is not an error.
    pub fn on_channel_closed(&mut self) -> (dispatched: bool)
        requires
            old(self).wf(),
            old(self).phase is Draining,
        ensures
            final(self).wf(),
            final(self).phase is Finished,
            dispatched == old(self).latch.fired,
            final(self).error == old(self).error,
            final(self).same_inputs(*old(self)),
    {
        self.phase = Phase::Finished;
        self.latch.fired
    }
}

/// The fixed base-relative path of the serialized temporary bootstrap
/// config, handed verbatim to the child process as a startup argument.
pub fn bootstrap_file_name() -> (r: &'static str)
    ensures
        r@ == "publishing_bootstrap.json"@,
{
    "publishing_bootstrap.json"
}

/// The argument list of the child's first invocation: initialize from
/// the given bootstrap config path, overriding any existing config.
pub fn init_args(bootstrap_path: &str) -> (args: Vec<String>)
    ensures
        args@.len() == 4,
        args@[0]@ == "init"@,
        args@[1]@ == "--networkBootstrapSeed"@,
        args@[2]@ == bootstrap_path@,
        args@[3]@ == "--overrideConfig"@,
{
    let mut args: Vec<String> = Vec::new();
    args.push(String::from_str("init"));
    args.push(String::from_str("--networkBootstrapSeed"));
    args.push(bootstrap_path.to_owned());
    args.push(String::from_str("--overrideConfig"));
    args
}

} // verus!
