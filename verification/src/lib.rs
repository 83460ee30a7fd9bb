//! Verified core of bindings to [`libpostal`][libpostal].
//!
//! The native library keeps process-wide state and hands out buffers that
//! its caller must give back. This crate holds every decision of the
//! bindings: which native call comes next, with which arguments, what is
//! made of its result, and when a buffer is released. It performs no native
//! call itself. The embedding code owns one [`Lifecycle`] for the process,
//! performs each [`ffi::NativeCall`] that it is asked for, and reports what
//! came back.
//!
//! [libpostal]: https://github.com/openvenues/libpostal
use vstd::prelude::*;

pub mod address;
pub mod error;
pub mod expand;
pub mod ffi;
pub mod parsed_address;
pub mod session;

use error::SetupError;
use ffi::NativeCall;

verus! {

/// Library modules to setup and teardown, at the start
/// and at the end of our program.
#[derive(Clone, Debug, Hash, Ord, PartialOrd, Eq, PartialEq, Structural)]
pub enum LibModules {
    Address,
    Expand,
    All,
}

/// Status of one part of the native library's global state.
#[derive(Clone, Copy, Debug, Hash, Eq, PartialEq, Structural)]
pub enum LifecycleState {
    Uninitialized,
    Ready,
    Failed,
}

/// What to do next during setup or teardown.
#[derive(Clone, Copy, Debug, Eq, PartialEq)]
pub enum Step {
    /// Perform this native call and record its outcome in the [`Lifecycle`].
    Call(NativeCall),
    /// No native call is left to make.
    Done(Result<(), SetupError>),
}

/// The state of the native library's global resources: the base, the
/// address parser and the language classifier.
///
/// A subsystem is never `Ready` unless the base is.
#[derive(Clone, Copy, Debug, Eq, PartialEq)]
pub struct Lifecycle {
    base: LifecycleState,
    parser: LifecycleState,
    classifier: LifecycleState,
}

impl LibModules {
    /// Whether the module uses the address parser.
    pub open spec fn needs_parser(self) -> bool {
        self is Address || self is All
    }

    /// Whether the module uses the language classifier.
    pub open spec fn needs_classifier(self) -> bool {
        self is Expand || self is All
    }

    /// The step that setup of this module takes in the state `lifecycle`:
    /// the base comes first, then the parser, then the classifier, and a
    /// failure of any part that the module needs ends the setup.
    pub open spec fn next_setup(self, lifecycle: Lifecycle) -> Step {
        if lifecycle.base() is Failed {
            Step::Done(Err(SetupError))
        } else if lifecycle.base() is Uninitialized {
            Step::Call(NativeCall::Setup)
        } else if self.needs_parser() && lifecycle.parser() is Failed {
            Step::Done(Err(SetupError))
        } else if self.needs_parser() && lifecycle.parser() is Uninitialized {
            Step::Call(NativeCall::SetupParser)
        } else if self.needs_classifier() && lifecycle.classifier() is Failed {
            Step::Done(Err(SetupError))
        } else if self.needs_classifier() && lifecycle.classifier() is Uninitialized {
            Step::Call(NativeCall::SetupLanguageClassifier)
        } else {
            Step::Done(Ok(()))
        }
    }

    /// The step that teardown of this module takes in the state
    /// `lifecycle`: only a part that is `Ready` is torn down, and the base
    /// goes last, once no subsystem is `Ready`.
    pub open spec fn next_teardown(self, lifecycle: Lifecycle) -> Step {
        if self.needs_parser() && lifecycle.parser() is Ready {
            Step::Call(NativeCall::TeardownParser)
        } else if self.needs_classifier() && lifecycle.classifier() is Ready {
            Step::Call(NativeCall::TeardownLanguageClassifier)
        } else if lifecycle.base() is Ready && !(lifecycle.parser() is Ready) && !(
        lifecycle.classifier() is Ready) {
            Step::Call(NativeCall::Teardown)
        } else {
            Step::Done(Ok(()))
        }
    }

    /// How many of the parts that the module needs, the base among them,
    /// are not `Ready` in `lifecycle`.
    pub open spec fn missing(self, lifecycle: Lifecycle) -> nat {
        let base: nat = if lifecycle.base() is Ready {
            0
        } else {
            1
        };
        let parser: nat = if self.needs_parser() && !(lifecycle.parser() is Ready) {
            1
        } else {
            0
        };
        let classifier: nat = if self.needs_classifier() && !(lifecycle.classifier() is Ready) {
            1
        } else {
            0
        };
        base + parser + classifier
    }

    fn uses_parser(&self) -> (uses: bool)
        ensures
            uses == self.needs_parser(),
    {
        match self {
            LibModules::Address => true,
            LibModules::Expand => false,
            LibModules::All => true,
        }
    }

    fn uses_classifier(&self) -> (uses: bool)
        ensures
            uses == self.needs_classifier(),
    {
        match self {
            LibModules::Address => false,
            LibModules::Expand => true,
            LibModules::All => true,
        }
    }

    /// Setup the necessary `libpostal` resources.
    ///
    /// Returns the next native call that setup of this module needs in the
    /// state `lifecycle`, or how the setup ended. The caller performs the
    /// call, records its outcome with [`Lifecycle::record`], and asks again.
    /// `Done(Ok(()))` comes exactly when every part that the module needs
    /// is `Ready`, and a subsystem is set up only on a base that is `Ready`.
    pub fn setup(&self, lifecycle: &Lifecycle) -> (step: Step)
        ensures
            step == self.next_setup(*lifecycle),
            step == Step::Done(Ok(())) <==> lifecycle.ready_for(*self),
            step is Done && !lifecycle.ready_for(*self) ==> step == Step::Done(Err(SetupError)),
            step matches Step::Call(call) ==> lifecycle.awaits(call),
    {
        proof {
            use_type_invariant(lifecycle);
        }
        match lifecycle.base {
            LifecycleState::Failed => { return Step::Done(Err(SetupError)); },
            LifecycleState::Uninitialized => { return Step::Call(NativeCall::Setup); },
            LifecycleState::Ready => {},
        }
        if self.uses_parser() {
            match lifecycle.parser {
                LifecycleState::Failed => { return Step::Done(Err(SetupError)); },
                LifecycleState::Uninitialized => { return Step::Call(NativeCall::SetupParser); },
                LifecycleState::Ready => {},
            }
        }
        if self.uses_classifier() {
            match lifecycle.classifier {
                LifecycleState::Failed => { return Step::Done(Err(SetupError)); },
                LifecycleState::Uninitialized => {
                    return Step::Call(NativeCall::SetupLanguageClassifier);
                },
                LifecycleState::Ready => {},
            }
        }
        Step::Done(Ok(()))
    }
}

impl Lifecycle {
    #[verifier::type_invariant]
    spec fn well_formed(&self) -> bool {
        &&& self.parser is Ready ==> self.base is Ready
        &&& self.classifier is Ready ==> self.base is Ready
    }

    /// Status of the base of the native library.
    pub closed spec fn base(&self) -> LifecycleState {
        self.base
    }

    /// Status of the address parser.
    pub closed spec fn parser(&self) -> LifecycleState {
        self.parser
    }

    /// Status of the language classifier.
    pub closed spec fn classifier(&self) -> LifecycleState {
        self.classifier
    }

    /// Whether every part that `module` needs is `Ready`.
    pub open spec fn ready_for(&self, module: LibModules) -> bool {
        &&& self.base() is Ready
        &&& module.needs_parser() ==> self.parser() is Ready
        &&& module.needs_classifier() ==> self.classifier() is Ready
    }

    /// Whether some part that `module` needs, or the base, has failed.
    pub open spec fn failed_for(&self, module: LibModules) -> bool {
        ||| self.base() is Failed
        ||| module.needs_parser() && self.parser() is Failed
        ||| module.needs_classifier() && self.classifier() is Failed
    }

    /// Whether the state lets `call` be made: a setup call for a part that
    /// is not `Ready`, a subsystem only on a `Ready` base; a teardown call
    /// for a part that is `Ready`, the base only once no subsystem is.
    /// No other native call changes this state.
    pub open spec fn awaits(&self, call: NativeCall) -> bool {
        match call {
            NativeCall::Setup => !(self.base() is Ready),
            NativeCall::SetupParser => self.base() is Ready && !(self.parser() is Ready),
            NativeCall::SetupLanguageClassifier => self.base() is Ready && !(self.classifier()
                is Ready),
            NativeCall::TeardownParser => self.parser() is Ready,
            NativeCall::TeardownLanguageClassifier => self.classifier() is Ready,
            NativeCall::Teardown => self.base() is Ready && !(self.parser() is Ready) && !(
            self.classifier() is Ready),
            _ => false,
        }
    }

    /// The status that a part takes once a call on it has returned `ok`.
    pub open spec fn outcome(call: NativeCall, ok: bool) -> LifecycleState {
        match call {
            NativeCall::Setup | NativeCall::SetupParser | NativeCall::SetupLanguageClassifier => {
                if ok {
                    LifecycleState::Ready
                } else {
                    LifecycleState::Failed
                }
            },
            _ => LifecycleState::Uninitialized,
        }
    }

    /// Whether this state is the one that `before` becomes once `call` has
    /// returned `ok`: a call that `before` awaits moves its part to its
    /// outcome, and nothing else changes.
    pub open spec fn follows(&self, before: Lifecycle, call: NativeCall, ok: bool) -> bool {
        &&& self.base() == if before.awaits(call) && (call is Setup || call is Teardown) {
            Self::outcome(call, ok)
        } else {
            before.base()
        }
        &&& self.parser() == if before.awaits(call) && (call is SetupParser || call
            is TeardownParser) {
            Self::outcome(call, ok)
        } else {
            before.parser()
        }
        &&& self.classifier() == if before.awaits(call) && (call is SetupLanguageClassifier
            || call is TeardownLanguageClassifier) {
            Self::outcome(call, ok)
        } else {
            before.classifier()
        }
    }

    /// How many parts of the native library are `Ready`.
    pub open spec fn ready_parts(&self) -> nat {
        let base: nat = if self.base() is Ready {
            1
        } else {
            0
        };
        let parser: nat = if self.parser() is Ready {
            1
        } else {
            0
        };
        let classifier: nat = if self.classifier() is Ready {
            1
        } else {
            0
        };
        base + parser + classifier
    }

    /// The state before any setup: every part `Uninitialized`.
    pub fn new() -> (lifecycle: Lifecycle)
        ensures
            lifecycle.base() is Uninitialized,
            lifecycle.parser() is Uninitialized,
            lifecycle.classifier() is Uninitialized,
    {
        Lifecycle {
            base: LifecycleState::Uninitialized,
            parser: LifecycleState::Uninitialized,
            classifier: LifecycleState::Uninitialized,
        }
    }

    /// The status of `module`: `Ready` where every part that it needs is,
    /// `Failed` where one of them has failed, else `Uninitialized`.
    pub fn state(&self, module: &LibModules) -> (state: LifecycleState)
        ensures
            state is Ready <==> self.ready_for(*module),
            state is Failed <==> self.failed_for(*module),
    {
        proof {
            use_type_invariant(self);
        }
        let parser = if module.uses_parser() {
            self.parser
        } else {
            LifecycleState::Ready
        };
        let classifier = if module.uses_classifier() {
            self.classifier
        } else {
            LifecycleState::Ready
        };
        match (self.base, parser, classifier) {
            (LifecycleState::Failed, _, _) => LifecycleState::Failed,
            (_, LifecycleState::Failed, _) => LifecycleState::Failed,
            (_, _, LifecycleState::Failed) => LifecycleState::Failed,
            (LifecycleState::Ready, LifecycleState::Ready, LifecycleState::Ready) => {
                LifecycleState::Ready
            },
            _ => LifecycleState::Uninitialized,
        }
    }

    /// Records that the native `call` was made and returned `ok`.
    ///
    /// A call that the state awaits moves its part: a setup call to `Ready`
    /// or `Failed`, a teardown call to `Uninitialized`, whatever the native
    /// teardown returned. Any other report leaves the state as it was.
    pub fn record(&mut self, call: NativeCall, ok: bool)
        ensures
            final(self).follows(*old(self), call, ok),
    {
        proof {
            use_type_invariant(&*self);
        }
        let base_ready = self.base == LifecycleState::Ready;
        let parser_ready = self.parser == LifecycleState::Ready;
        let classifier_ready = self.classifier == LifecycleState::Ready;
        let reached = match call {
            NativeCall::Setup | NativeCall::SetupParser | NativeCall::SetupLanguageClassifier => {
                if ok {
                    LifecycleState::Ready
                } else {
                    LifecycleState::Failed
                }
            },
            _ => LifecycleState::Uninitialized,
        };
        match call {
            NativeCall::Setup => {
                if !base_ready {
                    self.base = reached;
                }
            },
            NativeCall::SetupParser => {
                if base_ready && !parser_ready {
                    self.parser = reached;
                }
            },
            NativeCall::SetupLanguageClassifier => {
                if base_ready && !classifier_ready {
                    self.classifier = reached;
                }
            },
            NativeCall::TeardownParser => {
                if parser_ready {
                    self.parser = reached;
                }
            },
            NativeCall::TeardownLanguageClassifier => {
                if classifier_ready {
                    self.classifier = reached;
                }
            },
            NativeCall::Teardown => {
                if base_ready && !parser_ready && !classifier_ready {
                    self.base = reached;
                }
            },
            _ => {},
        }
    }

    /// Forgets the failures of the base and of the parts that `module`
    /// needs: each of them that is `Failed` becomes `Uninitialized`. A
    /// failed part holds no native resource, so no native call is due.
    fn forget_failures(&mut self, module: &LibModules)
        ensures
            final(self).base() == Self::forgotten(old(self).base(), true),
            final(self).parser() == Self::forgotten(old(self).parser(), module.needs_parser()),
            final(self).classifier() == Self::forgotten(
                old(self).classifier(),
                module.needs_classifier(),
            ),
    {
        proof {
            use_type_invariant(&*self);
        }
        if self.base == LifecycleState::Failed {
            self.base = LifecycleState::Uninitialized;
        }
        if module.uses_parser() && self.parser == LifecycleState::Failed {
            self.parser = LifecycleState::Uninitialized;
        }
        if module.uses_classifier() && self.classifier == LifecycleState::Failed {
            self.classifier = LifecycleState::Uninitialized;
        }
    }

    /// The status of a part once teardown has looked at it: a failure of a
    /// part that the teardown covers is forgotten.
    pub open spec fn forgotten(state: LifecycleState, covered: bool) -> LifecycleState {
        if covered && state is Failed {
            LifecycleState::Uninitialized
        } else {
            state
        }
    }
}

impl Default for Lifecycle {
    fn default() -> (lifecycle: Lifecycle)
        ensures
            lifecycle.base() is Uninitialized,
            lifecycle.parser() is Uninitialized,
            lifecycle.classifier() is Uninitialized,
    {
        Lifecycle::new()
    }
}

/// Setup the necessary `libpostal` components.
///
/// The step that setup of `component` takes in the state `lifecycle`, as
/// [`LibModules::setup`] gives it. A failure is reported as a value: what to
/// do about it is the caller's choice.
pub fn setup(component: LibModules, lifecycle: &Lifecycle) -> (step: Step)
    ensures
        step == component.next_setup(*lifecycle),
        step == Step::Done(Ok(())) <==> lifecycle.ready_for(component),
        step matches Step::Call(call) ==> lifecycle.awaits(call),
{
    component.setup(lifecycle)
}

/// Teardown initialized `libpostal` components.
///
/// Forgets the failures of the base and of the parts of `component`, then
/// returns the next native call that the teardown needs, or `Done(Ok(()))`
/// when none is left. The caller performs the call, records it with
/// [`Lifecycle::record`], and asks again. Only a part that is `Ready` is
/// torn down, so no teardown is asked for without a setup that succeeded,
/// and the base is torn down last, once no subsystem is `Ready`.
pub fn teardown(component: LibModules, lifecycle: &mut Lifecycle) -> (step: Step)
    ensures
        final(lifecycle).base() == Lifecycle::forgotten(old(lifecycle).base(), true),
        final(lifecycle).parser() == Lifecycle::forgotten(
            old(lifecycle).parser(),
            component.needs_parser(),
        ),
        final(lifecycle).classifier() == Lifecycle::forgotten(
            old(lifecycle).classifier(),
            component.needs_classifier(),
        ),
        step == component.next_teardown(*final(lifecycle)),
        step matches Step::Call(call) ==> final(lifecycle).awaits(call),
        step is Done ==> step == Step::Done(Ok(())) && !final(lifecycle).failed_for(component),
{
    lifecycle.forget_failures(&component);
    proof {
        use_type_invariant(&*lifecycle);
    }
    if component.uses_parser() && lifecycle.parser == LifecycleState::Ready {
        Step::Call(NativeCall::TeardownParser)
    } else if component.uses_classifier() && lifecycle.classifier == LifecycleState::Ready {
        Step::Call(NativeCall::TeardownLanguageClassifier)
    } else if lifecycle.base == LifecycleState::Ready && lifecycle.parser
        != LifecycleState::Ready && lifecycle.classifier != LifecycleState::Ready {
        Step::Call(NativeCall::Teardown)
    } else {
        Step::Done(Ok(()))
    }
}

/// Setup ends: each native call that setup asks for either brings one
/// more of the parts that the module needs to `Ready`, or fails, and then
/// the setup is over with an error. A setup takes three native calls at
/// most.
pub proof fn lemma_setup_advances(
    module: LibModules,
    before: Lifecycle,
    after: Lifecycle,
    call: NativeCall,
    ok: bool,
)
    requires
        module.next_setup(before) == Step::Call(call),
        after.follows(before, call, ok),
    ensures
        before.awaits(call),
        module.missing(before) <= 3,
        ok ==> module.missing(after) + 1 == module.missing(before),
        !ok ==> module.next_setup(after) == Step::Done(Err(SetupError)),
        module.missing(after) == 0 <==> module.next_setup(after) == Step::Done(Ok(())),
{
}

/// Teardown ends, and tears nothing down twice: each native call that
/// teardown asks for is for a part that is `Ready`, however the call
/// returns the part is `Uninitialized` afterwards, and no other part
/// changes. The base is asked for only once no subsystem is `Ready`.
pub proof fn lemma_teardown_advances(
    module: LibModules,
    before: Lifecycle,
    after: Lifecycle,
    call: NativeCall,
    ok: bool,
)
    requires
        module.next_teardown(before) == Step::Call(call),
        after.follows(before, call, ok),
    ensures
        before.awaits(call),
        after.ready_parts() + 1 == before.ready_parts(),
        !after.awaits(call),
        call is Teardown ==> after.ready_parts() == 0,
{
}

} // verus!
