//! The bridge instance: its reserved identity, and how one evaluation is
//! opened on it.

use vstd::prelude::*;
use tokio::runtime::{Builder, Runtime};
use crate::flavor::{media_type_of, Flavor};
use crate::sequencer::{Evaluation, Progress, Step};
use crate::source::{SourceFile, SourceFileView};

verus! {

/// The number of helper threads that the bridge's scheduler may use for
/// blocking work.
pub const HELPER_THREADS: usize = 32;

/// tokio's `Runtime`, the scheduler on which a bridge runs its evaluations.
/// Nothing is known of what is inside one.
#[verifier::external_type_specification]
#[verifier::external_body]
pub struct ExRuntime(Runtime);

/// One bridge instance: the scheduler it owns, and the reserved identity under
/// which every call's source is staged.
#[derive(Debug)]
pub struct Runner {
    runtime: Runtime,
    specifier: String,
    local: String,
}

/// A [`Runner`] with its texts as sequences of characters.
pub struct RunnerView {
    /// The reserved identity, resolved.
    pub specifier: Seq<char>,
    /// The reserved identity's path in the file system.
    pub local: Seq<char>,
}

impl View for Runner {
    type V = RunnerView;

    closed spec fn view(&self) -> RunnerView {
        RunnerView { specifier: self.specifier@, local: self.local@ }
    }
}

/// The descriptor staged on a bridge for one call: the reserved identity and
/// its path, the caller's text, the media type of the dialect, and no
/// companion of type declarations.
pub open spec fn staged(runner: RunnerView, source: Seq<char>, flavor: Flavor) -> SourceFileView {
    SourceFileView {
        local: runner.local,
        maybe_types: None,
        media_type: media_type_of(flavor),
        source,
        specifier: runner.specifier,
    }
}

/// Builds a scheduler with tokio's `Builder`: `new_current_thread`, then
/// `enable_io`, `enable_time`, `max_blocking_threads` with the number given,
/// and `build`. tokio refuses a pool of no threads by a panic, so the number
/// must not be zero. Whether the scheduler can be built is up to the machine,
/// so nothing is claimed of the result. A failure carries the text of tokio's
/// error.
#[verifier::external_body]
fn build_scheduler(helper_threads: usize) -> (built: Result<Runtime, String>)
    requires
        helper_threads > 0,
{
    let built = Builder::new_current_thread()
        .enable_io()
        .enable_time()
        .max_blocking_threads(helper_threads)
        .build();
    match built {
        Ok(runtime) => Ok(runtime),
        Err(error) => Err(error.to_string()),
    }
}

impl Runner {
    /// The scheduler that this bridge owns.
    pub closed spec fn scheduler(&self) -> Runtime {
        self.runtime
    }

    /// Makes a bridge instance of a scheduler, if there is one: it owns the
    /// scheduler and has `specifier` as its reserved identity, with `local` as
    /// that identity's path in the file system. Where the scheduler could not
    /// be built, the failure's text is handed on.
    pub fn assemble(built: Result<Runtime, String>, specifier: String, local: String) -> (assembled:
        Result<Runner, String>)
        ensures
            match built {
                Ok(runtime) => assembled matches Ok(runner) && runner.scheduler() == runtime
                    && runner@ == (RunnerView { specifier: specifier@, local: local@ }),
                Err(text) => assembled matches Err(failure) && failure@ == text@,
            },
    {
        match built {
            Ok(runtime) => Ok(Runner { runtime, specifier, local }),
            Err(text) => Err(text),
        }
    }

    /// A bridge instance with a scheduler of its own, which runs on the
    /// calling thread and keeps at most [`HELPER_THREADS`] helper threads for
    /// blocking work. Its reserved identity is `specifier`, with `local` as
    /// that identity's path in the file system. It fails only where the
    /// machine does not let the scheduler be built.
    pub fn new(specifier: String, local: String) -> (made: Result<Runner, String>)
        ensures
            made matches Ok(runner) ==> runner@ == (RunnerView {
                specifier: specifier@,
                local: local@,
            }),
    {
        Runner::assemble(build_scheduler(HELPER_THREADS), specifier, local)
    }

    /// The scheduler that this bridge owns.
    pub fn runtime(&self) -> (runtime: &Runtime)
        ensures
            *runtime == self.scheduler(),
    {
        &self.runtime
    }

    /// The reserved identity.
    pub fn specifier(&self) -> (specifier: &String)
        ensures
            specifier@ == self@.specifier,
    {
        &self.specifier
    }

    /// The reserved identity's path in the file system.
    pub fn local(&self) -> (local: &String)
        ensures
            local@ == self@.local,
    {
        &self.local
    }

    /// The descriptor that stands for `source` in the given dialect.
    pub fn stage(&self, source: String, flavor: Flavor) -> (file: SourceFile)
        ensures
            file@ == staged(self@, source@, flavor),
    {
        SourceFile {
            local: self.local.clone(),
            maybe_types: None,
            media_type: flavor.media_type(),
            source,
            specifier: self.specifier.clone(),
        }
    }

    /// Opens one evaluation of `source`: gives the descriptor to stage under
    /// the reserved identity, and a fresh evaluation whose first step is the
    /// module's execution. The bridge itself is left as it was, so every call
    /// is independent of the calls before it.
    ///
    /// The timeout is taken and bounds nothing: neither the descriptor nor the
    /// steps depend on it.
    pub fn run(&self, source: String, flavor: Flavor, timeout: u64) -> (opened: (
        SourceFile,
        Evaluation,
    ))
        ensures
            opened.0@ == staged(self@, source@, flavor),
            opened.1@ == Progress::Pending(Step::ExecuteModule),
    {
        let _ = timeout;
        (self.stage(source, flavor), Evaluation::start())
    }
}

} // verus!
