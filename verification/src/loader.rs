//! The chunk loader's decision procedure, as a state machine.
//!
//! The loader decides; an unverified driver performs the external calls.
//! `Loader::begin` classifies the buffer and enforces the load mode, and
//! each later transition consumes the outcome of one external call and hands
//! back the next [`Step`]. On the text path the loader owns the compiled
//! buffer from the moment the compiler reports it until the single
//! [`Step::Release`] it emits after the raw load returns, so the buffer is
//! released exactly once on every run, success or failure.

use vstd::prelude::*;
use crate::chunk::{
    ChunkClass, classified, classify, format_reject_message, mode_allows, mode_permits, mode_view,
    reject_message,
};

verus! {

/// The outcome of a load call: the closed set a caller can observe.
#[derive(Clone, Copy, Debug, PartialEq, Eq, Structural)]
pub enum LoadStatus {
    /// The chunk was loaded; a callable value is left for the runtime.
    Success,
    /// The mode rejected the chunk, or the compiler or loader rejected the
    /// input.
    SyntaxError,
}

/// The status reported when the raw-load primitive signals `failed`.
pub open spec fn status_of(failed: bool) -> LoadStatus {
    if failed {
        LoadStatus::SyntaxError
    } else {
        LoadStatus::Success
    }
}

/// What the loader asks the driver to do next.
#[derive(Debug, PartialEq, Eq)]
pub enum Step {
    /// Leave this diagnostic where the runtime's error convention expects
    /// it, then report the final status.
    PushDiagnostic { message: String },
    /// Run the ahead-of-time compiler on the source buffer, with no extra
    /// compile options, and report the compiled size back.
    Compile,
    /// Hand the original buffer to the raw-load primitive and report
    /// whether it failed.
    LoadDirect,
    /// Hand the compiled buffer, `size` bytes long, to the raw-load
    /// primitive and report whether it failed.
    LoadCompiled { size: usize },
    /// Release the compiled buffer with exactly this size, matching the
    /// allocation discipline the compiler used.
    Release { size: usize },
}

/// The mathematical image of a [`Step`], with the diagnostic text as a
/// sequence of characters.
pub enum StepView {
    PushDiagnostic { message: Seq<char> },
    Compile,
    LoadDirect,
    LoadCompiled { size: usize },
    Release { size: usize },
}

impl View for Step {
    type V = StepView;

    open spec fn view(&self) -> StepView {
        match self {
            Step::PushDiagnostic { message } => StepView::PushDiagnostic { message: message@ },
            Step::Compile => StepView::Compile,
            Step::LoadDirect => StepView::LoadDirect,
            Step::LoadCompiled { size } => StepView::LoadCompiled { size: *size },
            Step::Release { size } => StepView::Release { size: *size },
        }
    }
}

/// The view of an optional step.
pub open spec fn step_view(s: Option<Step>) -> Option<StepView> {
    match s {
        Option::None => Option::None,
        Option::Some(st) => Option::Some(st@),
    }
}

/// The loader's position between external calls.
#[derive(Clone, Copy, Debug, PartialEq, Eq)]
pub enum Loader {
    /// Text path: the compiler has been asked for a compiled chunk.
    Compiling,
    /// The raw-load primitive has been asked to load. On the text path
    /// `compiled` holds the compiled buffer's size, still to be released;
    /// on the binary path it is absent.
    Loading { compiled: Option<usize> },
    /// The load call is over with this status.
    Done { status: LoadStatus },
}

/// The first decision: classify the first byte, enforce the mode, and pick
/// the path. A rejected mode ends the run at once with a diagnostic; a text
/// chunk goes to the compiler; a binary chunk goes straight to the raw load.
pub open spec fn spec_begin(first: u8, mode: Option<Seq<char>>) -> (Loader, StepView) {
    let c = classified(first);
    if !mode_permits(mode, c) {
        (
            Loader::Done { status: LoadStatus::SyntaxError },
            StepView::PushDiagnostic { message: reject_message(c, mode.unwrap()) },
        )
    } else if c is Text {
        (Loader::Compiling, StepView::Compile)
    } else {
        (Loader::Loading { compiled: Option::None }, StepView::LoadDirect)
    }
}

/// The compiler returned a compiled chunk of `size` bytes: the loader now
/// owns that buffer and asks the driver to hand it to the raw load.
pub open spec fn spec_on_compiled(l: Loader, size: usize) -> (Loader, StepView) {
    (Loader::Loading { compiled: Option::Some(size) }, StepView::LoadCompiled { size })
}

/// The raw-load primitive returned, failing if `failed`. The run is over;
/// on the text path the compiled buffer must be released first, with the
/// exact size the compiler reported.
pub open spec fn spec_on_load_result(l: Loader, failed: bool) -> (Loader, Option<StepView>) {
    match l {
        Loader::Loading { compiled } => (
            Loader::Done { status: status_of(failed) },
            match compiled {
                Option::Some(size) => Option::Some(StepView::Release { size }),
                Option::None => Option::None,
            },
        ),
        _ => (l, Option::None),
    }
}

/// The final status, once the run is over.
pub open spec fn spec_status(l: Loader) -> Option<LoadStatus> {
    match l {
        Loader::Done { status } => Option::Some(status),
        _ => Option::None,
    }
}

impl Loader {
    /// Start a load: classify the buffer by its first byte, enforce the
    /// optional mode, and return the initial state with the first step.
    pub fn begin(data: &[u8], mode: Option<&str>) -> (r: (Loader, Step))
        requires
            data@.len() >= 1,
        ensures
            r.0 == spec_begin(data@[0], mode_view(mode)).0,
            r.1@ == spec_begin(data@[0], mode_view(mode)).1,
    {
        let c = classify(data);
        match mode {
            Option::Some(m) => {
                if !mode_allows(mode, c) {
                    let message = format_reject_message(c, m);
                    return (
                        Loader::Done { status: LoadStatus::SyntaxError },
                        Step::PushDiagnostic { message },
                    );
                }
            },
            Option::None => {},
        }
        match c {
            ChunkClass::Text => (Loader::Compiling, Step::Compile),
            ChunkClass::Binary => (Loader::Loading { compiled: Option::None }, Step::LoadDirect),
        }
    }

    /// Start a load with no mode restriction: the same result as [`Loader::begin`]
    /// with an absent mode, for every input.
    pub fn begin_unrestricted(data: &[u8]) -> (r: (Loader, Step))
        requires
            data@.len() >= 1,
        ensures
            r.0 == spec_begin(data@[0], Option::None).0,
            r.1@ == spec_begin(data@[0], Option::None).1,
    {
        Loader::begin(data, Option::None)
    }

    /// The compiler returned a compiled chunk of `size` bytes. Ownership of
    /// that buffer passes to the loader; the next step hands it to the raw
    /// load.
    pub fn on_compiled(&mut self, size: usize) -> (s: Step)
        requires
            *old(self) is Compiling,
        ensures
            *final(self) == spec_on_compiled(*old(self), size).0,
            s@ == spec_on_compiled(*old(self), size).1,
    {
        *self = Loader::Loading { compiled: Option::Some(size) };
        Step::LoadCompiled { size }
    }

    /// The raw-load primitive returned; `failed` says whether it signaled
    /// failure. The run ends with the matching status, and on the text path
    /// the returned step releases the compiled buffer — whatever the
    /// outcome was.
    pub fn on_load_result(&mut self, failed: bool) -> (s: Option<Step>)
        requires
            *old(self) is Loading,
        ensures
            *final(self) == spec_on_load_result(*old(self), failed).0,
            step_view(s) == spec_on_load_result(*old(self), failed).1,
    {
        let compiled = match *self {
            Loader::Loading { compiled } => compiled,
            _ => Option::None,
        };
        *self = Loader::Done {
            status: if failed {
                LoadStatus::SyntaxError
            } else {
                LoadStatus::Success
            },
        };
        match compiled {
            Option::Some(size) => Option::Some(Step::Release { size }),
            Option::None => Option::None,
        }
    }

    /// The final status: present exactly when the run is over.
    pub fn status(&self) -> (r: Option<LoadStatus>)
        ensures
            r == spec_status(*self),
    {
        match self {
            Loader::Done { status } => Option::Some(*status),
            _ => Option::None,
        }
    }
}

/// Every step a complete run asks of the driver, in order, as a function of
/// the buffer's first byte, the mode, the size the compiler reports, and
/// whether the raw load fails. `compiled_size` and `load_failed` matter only
/// on the runs that reach those external calls.
pub open spec fn run_steps(
    first: u8,
    mode: Option<Seq<char>>,
    compiled_size: usize,
    load_failed: bool,
) -> Seq<StepView> {
    let (s1, a1) = spec_begin(first, mode);
    match s1 {
        Loader::Done { .. } => seq![a1],
        Loader::Compiling => {
            let (s2, a2) = spec_on_compiled(s1, compiled_size);
            let (s3, a3) = spec_on_load_result(s2, load_failed);
            match a3 {
                Option::Some(a) => seq![a1, a2, a],
                Option::None => seq![a1, a2],
            }
        },
        Loader::Loading { .. } => {
            let (s3, a3) = spec_on_load_result(s1, load_failed);
            match a3 {
                Option::Some(a) => seq![a1, a],
                Option::None => seq![a1],
            }
        },
    }
}

/// The status a complete run reports, under the same arguments as
/// [`run_steps`].
pub open spec fn run_status(
    first: u8,
    mode: Option<Seq<char>>,
    compiled_size: usize,
    load_failed: bool,
) -> LoadStatus {
    let (s1, a1) = spec_begin(first, mode);
    match s1 {
        Loader::Done { status } => status,
        _ => status_of(load_failed),
    }
}

/// How many steps of a run release the compiled buffer.
pub open spec fn release_count(steps: Seq<StepView>) -> nat
    decreases steps.len(),
{
    if steps.len() == 0 {
        0
    } else {
        release_count(steps.drop_last()) + (if steps.last() is Release {
            1nat
        } else {
            0nat
        })
    }
}

/// A binary chunk under a mode without the `'b'` marker is rejected at
/// once: the run reports a syntax error, asks only for the binary-chunk
/// diagnostic naming the mode, and never invokes the compiler, the raw
/// load, or a release.
pub proof fn lemma_binary_chunk_rejected(
    first: u8,
    mode: Seq<char>,
    compiled_size: usize,
    load_failed: bool,
)
    requires
        classified(first) is Binary,
        !mode.contains('b'),
    ensures
        run_status(first, Option::Some(mode), compiled_size, load_failed)
            == LoadStatus::SyntaxError,
        run_steps(first, Option::Some(mode), compiled_size, load_failed) =~= seq![
            StepView::PushDiagnostic {
                message: crate::chunk::binary_reject_message(mode),
            },
        ],
        !run_steps(first, Option::Some(mode), compiled_size, load_failed).contains(
            StepView::Compile,
        ),
{
}

/// A text chunk under a mode without the `'t'` marker is rejected at once:
/// the run reports a syntax error, asks only for the text-chunk diagnostic
/// naming the mode, and never invokes the raw-load primitive — neither on
/// the original buffer nor on a compiled one.
pub proof fn lemma_text_chunk_rejected(
    first: u8,
    mode: Seq<char>,
    compiled_size: usize,
    load_failed: bool,
)
    requires
        classified(first) is Text,
        !mode.contains('t'),
    ensures
        run_status(first, Option::Some(mode), compiled_size, load_failed)
            == LoadStatus::SyntaxError,
        run_steps(first, Option::Some(mode), compiled_size, load_failed) =~= seq![
            StepView::PushDiagnostic {
                message: crate::chunk::text_reject_message(mode),
            },
        ],
        !run_steps(first, Option::Some(mode), compiled_size, load_failed).contains(
            StepView::LoadDirect,
        ),
        forall|n: usize|
            !run_steps(first, Option::Some(mode), compiled_size, load_failed).contains(
                StepView::LoadCompiled { size: n },
            ),
{
}

/// With the mode absent, enforcement is bypassed for both chunk classes: no
/// run ever asks for a diagnostic, and the status follows the raw load's
/// outcome alone.
pub proof fn lemma_absent_mode_bypasses_enforcement(
    first: u8,
    compiled_size: usize,
    load_failed: bool,
)
    ensures
        forall|m: Seq<char>|
            !run_steps(first, Option::None, compiled_size, load_failed).contains(
                StepView::PushDiagnostic { message: m },
            ),
        run_status(first, Option::None, compiled_size, load_failed) == status_of(load_failed),
{
}

/// On the text path the compiled buffer is released exactly once — with the
/// exact size the compiler reported — whether or not the raw load succeeds,
/// and the status follows the raw load's outcome alone.
pub proof fn lemma_text_path_releases_once(
    first: u8,
    mode: Option<Seq<char>>,
    compiled_size: usize,
    load_failed: bool,
)
    requires
        classified(first) is Text,
        mode_permits(mode, ChunkClass::Text),
    ensures
        release_count(run_steps(first, mode, compiled_size, load_failed)) == 1,
        run_steps(first, mode, compiled_size, load_failed).contains(
            StepView::Release { size: compiled_size },
        ),
        forall|n: usize|
            run_steps(first, mode, compiled_size, load_failed).contains(
                StepView::Release { size: n },
            ) ==> n == compiled_size,
        run_status(first, mode, compiled_size, load_failed) == status_of(load_failed),
{
    let steps = run_steps(first, mode, compiled_size, load_failed);
    assert(steps =~= seq![
        StepView::Compile,
        StepView::LoadCompiled { size: compiled_size },
        StepView::Release { size: compiled_size },
    ]);
    let two = steps.drop_last();
    let one = two.drop_last();
    let zero = one.drop_last();
    assert(two =~= seq![StepView::Compile, StepView::LoadCompiled { size: compiled_size }]);
    assert(one =~= seq![StepView::Compile]);
    assert(zero =~= Seq::<StepView>::empty());
    assert(release_count(zero) == 0);
    assert(release_count(one) == 0);
    assert(release_count(two) == 0);
    assert(release_count(steps) == 1);
    assert(steps.contains(StepView::Release { size: compiled_size })) by {
        assert(steps[2] == StepView::Release { size: compiled_size });
    }
}

} // verus!
