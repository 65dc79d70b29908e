//! Pipeline Orchestrator: a verified state machine that sequences path
//! resolution, character-set resolution, the two Conversion Services and the
//! intermediate-file lifecycle. The machine decides; an unverified driver
//! performs each returned `Action` (a path check, a subprocess run, a file
//! write or removal) and hands the outcome back as the next `Event`.

use vstd::prelude::*;
use crate::charset::{CharacterSet, selection_points, strictly_ascending, specs_to_unicode_code_points};
use crate::format::{dec_rep, joined_points, range_rep, dec_string, join_dec, range_string};
use crate::paths::{joined_path, with_bdf_extension, path_join, intermediate_path};

verus! {

/// Which Conversion Service a failure belongs to.
#[derive(Clone, Copy, Debug, PartialEq, Eq)]
pub enum Stage {
    Rasterizer,
    Packer,
}

/// The error taxonomy of the pipeline. Every failure of any component maps
/// to exactly one of these kinds.
#[derive(Debug, PartialEq, Eq)]
pub enum FontError {
    /// The resolved font path does not exist; carries the path attempted.
    FontNotFound(String),
    /// A character selection was supplied but resolved to no code points.
    EmptySelection,
    /// A Conversion Service executable could not be started; carries the
    /// stage and the executable path attempted.
    ConversionServiceUnavailable(Stage, String),
    /// A Conversion Service ran and exited non-zero; carries the exit code
    /// and the captured standard-error text, verbatim.
    ConversionServiceFailed(i32, String),
    /// The intermediate file could not be written; carries its path.
    IntermediateWriteFailed(String),
    /// The intermediate file could not be removed; carries its path.
    IntermediateCleanupFailed(String),
}

/// The outcome of one attempt to run a Conversion Service: the spawn failed,
/// or the process exited with a code, its standard output (the artifact
/// bytes) and its standard error (diagnostic text).
#[derive(Debug, PartialEq, Eq)]
pub enum ServiceOutcome {
    SpawnFailed,
    Exited(i32, Vec<u8>, String),
}

/// What the driver reports back after performing an `Action`.
#[derive(Debug, PartialEq, Eq)]
pub enum Event {
    /// Whether the resolved font path exists.
    PathChecked(bool),
    /// The outcome of the rasterizer run.
    RasterizerDone(ServiceOutcome),
    /// Whether writing the intermediate file succeeded.
    WriteDone(bool),
    /// The outcome of the packer run.
    PackerDone(ServiceOutcome),
    /// Whether removing the intermediate file succeeded.
    CleanupDone(bool),
}

/// What the driver must do next.
#[derive(Debug, PartialEq, Eq)]
pub enum Action {
    /// Check whether this path exists on the filesystem.
    CheckPath(String),
    /// Run the rasterizer executable with these arguments and capture its
    /// output.
    RunRasterizer(String, Vec<String>),
    /// Write these bytes to the intermediate path.
    WriteIntermediate(String, Vec<u8>),
    /// Run the packer executable with these arguments and capture its
    /// output.
    RunPacker(String, Vec<String>),
    /// Remove the intermediate file.
    RemoveIntermediate(String),
    /// Terminal success: bind these bytes to the artifact name and hand the
    /// pair to the Emitter.
    Emit(String, Vec<u8>),
    /// Terminal failure: report this error to the Caller.
    Report(FontError),
}

/// The result pending while the intermediate file is being removed.
#[derive(Debug, PartialEq, Eq)]
pub enum Pending {
    Produced(Vec<u8>),
    Aborted(FontError),
}

/// The state of one compilation, named by the event it waits for.
#[derive(Debug, PartialEq, Eq)]
pub enum PipelineState {
    AwaitPath { font_path: String },
    AwaitRasterizer { font_path: String },
    AwaitWrite { bdf_path: String },
    AwaitPacker { bdf_path: String, exe: String },
    AwaitCleanup { bdf_path: String, pending: Pending },
    Emitted,
    Failed(FontError),
}

/// The fixed configuration of one build: the project root the font reference
/// is resolved against, and the directory the packer executable lives in.
#[derive(Debug, PartialEq, Eq)]
pub struct Config {
    pub root: String,
    pub tool_dir: String,
}

/// One request: a caller-relative font path, the artifact name to bind the
/// produced bytes to, the pixel size, and the character selection (an empty
/// selection list is the legacy form and selects the default ranges).
#[derive(Debug)]
pub struct FontRequest {
    pub source_path: String,
    pub artifact_name: String,
    pub pixel_size: u32,
    pub selection: Vec<CharacterSet>,
}

/// One compilation in flight: the data every stage needs, plus the state.
#[derive(Debug)]
pub struct Compilation {
    pub artifact_name: String,
    pub pixel_size: u32,
    pub tool_dir: String,
    /// The resolved code points, ascending and deduplicated; `None` is the
    /// legacy form (no selection supplied), which selects the default ranges.
    pub selection: Option<Vec<u32>>,
    pub state: PipelineState,
}

/// Mathematical model of an error.
#[verifier::ext_equal]
pub enum ErrorModel {
    FontNotFound(Seq<char>),
    EmptySelection,
    ConversionServiceUnavailable(Stage, Seq<char>),
    ConversionServiceFailed(i32, Seq<char>),
    IntermediateWriteFailed(Seq<char>),
    IntermediateCleanupFailed(Seq<char>),
}

/// Mathematical model of a pending result.
#[verifier::ext_equal]
pub enum PendingModel {
    Produced(Seq<u8>),
    Aborted(ErrorModel),
}

/// Mathematical model of a pipeline state.
#[verifier::ext_equal]
pub enum StateModel {
    AwaitPath { font_path: Seq<char> },
    AwaitRasterizer { font_path: Seq<char> },
    AwaitWrite { bdf_path: Seq<char> },
    AwaitPacker { bdf_path: Seq<char>, exe: Seq<char> },
    AwaitCleanup { bdf_path: Seq<char>, pending: PendingModel },
    Emitted,
    Failed(ErrorModel),
}

/// Mathematical model of an action.
#[verifier::ext_equal]
pub enum ActionModel {
    CheckPath(Seq<char>),
    RunRasterizer(Seq<char>, Seq<Seq<char>>),
    WriteIntermediate(Seq<char>, Seq<u8>),
    RunPacker(Seq<char>, Seq<Seq<char>>),
    RemoveIntermediate(Seq<char>),
    Emit(Seq<char>, Seq<u8>),
    Report(ErrorModel),
}

/// Mathematical model of a compilation.
#[verifier::ext_equal]
pub struct CompilationModel {
    pub artifact_name: Seq<char>,
    pub pixel_size: u32,
    pub tool_dir: Seq<char>,
    pub selection: Option<Seq<u32>>,
    pub state: StateModel,
}

impl View for FontError {
    type V = ErrorModel;

    open spec fn view(&self) -> ErrorModel {
        match self {
            FontError::FontNotFound(p) => ErrorModel::FontNotFound(p@),
            FontError::EmptySelection => ErrorModel::EmptySelection,
            FontError::ConversionServiceUnavailable(st, exe) => ErrorModel::ConversionServiceUnavailable(*st, exe@),
            FontError::ConversionServiceFailed(code, err) => ErrorModel::ConversionServiceFailed(*code, err@),
            FontError::IntermediateWriteFailed(p) => ErrorModel::IntermediateWriteFailed(p@),
            FontError::IntermediateCleanupFailed(p) => ErrorModel::IntermediateCleanupFailed(p@),
        }
    }
}

impl View for Pending {
    type V = PendingModel;

    open spec fn view(&self) -> PendingModel {
        match self {
            Pending::Produced(bytes) => PendingModel::Produced(bytes@),
            Pending::Aborted(e) => PendingModel::Aborted(e@),
        }
    }
}

impl View for PipelineState {
    type V = StateModel;

    open spec fn view(&self) -> StateModel {
        match self {
            PipelineState::AwaitPath { font_path } => StateModel::AwaitPath { font_path: font_path@ },
            PipelineState::AwaitRasterizer { font_path } => StateModel::AwaitRasterizer { font_path: font_path@ },
            PipelineState::AwaitWrite { bdf_path } => StateModel::AwaitWrite { bdf_path: bdf_path@ },
            PipelineState::AwaitPacker { bdf_path, exe } => StateModel::AwaitPacker { bdf_path: bdf_path@, exe: exe@ },
            PipelineState::AwaitCleanup { bdf_path, pending } => StateModel::AwaitCleanup { bdf_path: bdf_path@, pending: pending@ },
            PipelineState::Emitted => StateModel::Emitted,
            PipelineState::Failed(e) => StateModel::Failed(e@),
        }
    }
}

impl View for Action {
    type V = ActionModel;

    open spec fn view(&self) -> ActionModel {
        match self {
            Action::CheckPath(p) => ActionModel::CheckPath(p@),
            Action::RunRasterizer(prog, args) => ActionModel::RunRasterizer(prog@, views_of(args@)),
            Action::WriteIntermediate(p, bytes) => ActionModel::WriteIntermediate(p@, bytes@),
            Action::RunPacker(prog, args) => ActionModel::RunPacker(prog@, views_of(args@)),
            Action::RemoveIntermediate(p) => ActionModel::RemoveIntermediate(p@),
            Action::Emit(name, bytes) => ActionModel::Emit(name@, bytes@),
            Action::Report(e) => ActionModel::Report(e@),
        }
    }
}

impl View for Compilation {
    type V = CompilationModel;

    open spec fn view(&self) -> CompilationModel {
        CompilationModel {
            artifact_name: self.artifact_name@,
            pixel_size: self.pixel_size,
            tool_dir: self.tool_dir@,
            selection: selection_model(self.selection),
            state: self.state@,
        }
    }
}

/// The views of a sequence of argument strings.
pub open spec fn views_of(args: Seq<String>) -> Seq<Seq<char>> {
    args.map_values(|s: String| s@)
}

/// The model of an optional resolved code-point list.
pub open spec fn selection_model(sel: Option<Vec<u32>>) -> Option<Seq<u32>> {
    match sel {
        Option::None => Option::None,
        Option::Some(v) => Option::Some(v@),
    }
}

/// The name of the rasterizer executable, `otf2bdf`, looked up on the PATH.
pub open spec fn rasterizer_program() -> Seq<char> {
    seq!['o', 't', 'f', '2', 'b', 'd', 'f']
}

/// The name of the packer executable, `bdfconv`.
pub open spec fn packer_tool() -> Seq<char> {
    seq!['b', 'd', 'f', 'c', 'o', 'n', 'v']
}

/// The packer executable's full path: `bdfconv` inside the fixed tool
/// directory.
pub open spec fn packer_exe(tool_dir: Seq<char>) -> Seq<char> {
    joined_path(tool_dir, packer_tool())
}

/// The rasterizer's `-l` selector: the resolved code points space-joined, or
/// the legacy default range 32-255 when no selection was supplied.
pub open spec fn rasterizer_selector(sel: Option<Seq<u32>>) -> Seq<char> {
    match sel {
        Option::None => range_rep(32, 255),
        Option::Some(points) => joined_points(points, ' '),
    }
}

/// The packer's `-m` selector: the resolved code points comma-joined, or the
/// legacy default range 32-127 (printable ASCII) when no selection was
/// supplied.
pub open spec fn packer_selector(sel: Option<Seq<u32>>) -> Seq<char> {
    match sel {
        Option::None => range_rep(32, 127),
        Option::Some(points) => joined_points(points, ','),
    }
}

/// The rasterizer's argument list: `-p <pixelSize> -l <selector> <fontPath>`.
pub open spec fn rasterizer_args(font_path: Seq<char>, pixel_size: u32, sel: Option<Seq<u32>>) -> Seq<Seq<char>> {
    seq![
        seq!['-', 'p'],
        dec_rep(pixel_size as nat),
        seq!['-', 'l'],
        rasterizer_selector(sel),
        font_path,
    ]
}

/// The packer's argument list:
/// `-f 1 -m <selector> -binary <intermediatePath>`.
pub open spec fn packer_args(bdf_path: Seq<char>, sel: Option<Seq<u32>>) -> Seq<Seq<char>> {
    seq![
        seq!['-', 'f'],
        seq!['1'],
        seq!['-', 'm'],
        packer_selector(sel),
        seq!['-', 'b', 'i', 'n', 'a', 'r', 'y'],
        bdf_path,
    ]
}

/// Whether `e` is the kind of event the state `s` waits for.
pub open spec fn expects(s: StateModel, e: Event) -> bool {
    match (s, e) {
        (StateModel::AwaitPath { .. }, Event::PathChecked(_)) => true,
        (StateModel::AwaitRasterizer { .. }, Event::RasterizerDone(_)) => true,
        (StateModel::AwaitWrite { .. }, Event::WriteDone(_)) => true,
        (StateModel::AwaitPacker { .. }, Event::PackerDone(_)) => true,
        (StateModel::AwaitCleanup { .. }, Event::CleanupDone(_)) => true,
        _ => false,
    }
}

/// `c` with its state replaced by a terminal failure.
pub open spec fn failed(c: CompilationModel, e: ErrorModel) -> CompilationModel {
    CompilationModel { state: StateModel::Failed(e), ..c }
}

/// The transition function of the pipeline: from a compilation and the event
/// the driver reports, to the next compilation and the action the driver
/// must perform.
pub open spec fn spec_step(c: CompilationModel, e: Event) -> (CompilationModel, ActionModel)
    recommends
        expects(c.state, e),
{
    match (c.state, e) {
        (StateModel::AwaitPath { font_path }, Event::PathChecked(found)) => {
            if !found {
                (failed(c, ErrorModel::FontNotFound(font_path)), ActionModel::Report(ErrorModel::FontNotFound(font_path)))
            } else if c.selection matches Option::Some(points) && points.len() == 0 {
                (failed(c, ErrorModel::EmptySelection), ActionModel::Report(ErrorModel::EmptySelection))
            } else {
                (
                    CompilationModel { state: StateModel::AwaitRasterizer { font_path }, ..c },
                    ActionModel::RunRasterizer(
                        rasterizer_program(),
                        rasterizer_args(font_path, c.pixel_size, c.selection),
                    ),
                )
            }
        },
        (StateModel::AwaitRasterizer { font_path }, Event::RasterizerDone(outcome)) => {
            match outcome {
                ServiceOutcome::SpawnFailed => {
                    let err = ErrorModel::ConversionServiceUnavailable(Stage::Rasterizer, rasterizer_program());
                    (failed(c, err), ActionModel::Report(err))
                },
                ServiceOutcome::Exited(code, stdout, stderr) => {
                    if code != 0 {
                        let err = ErrorModel::ConversionServiceFailed(code, stderr@);
                        (failed(c, err), ActionModel::Report(err))
                    } else {
                        (
                            CompilationModel { state: StateModel::AwaitWrite { bdf_path: with_bdf_extension(font_path) }, ..c },
                            ActionModel::WriteIntermediate(with_bdf_extension(font_path), stdout@),
                        )
                    }
                },
            }
        },
        (StateModel::AwaitWrite { bdf_path }, Event::WriteDone(ok)) => {
            if !ok {
                (
                    CompilationModel {
                        state: StateModel::AwaitCleanup {
                            bdf_path,
                            pending: PendingModel::Aborted(ErrorModel::IntermediateWriteFailed(bdf_path)),
                        },
                        ..c
                    },
                    ActionModel::RemoveIntermediate(bdf_path),
                )
            } else {
                (
                    CompilationModel { state: StateModel::AwaitPacker { bdf_path, exe: packer_exe(c.tool_dir) }, ..c },
                    ActionModel::RunPacker(packer_exe(c.tool_dir), packer_args(bdf_path, c.selection)),
                )
            }
        },
        (StateModel::AwaitPacker { bdf_path, exe }, Event::PackerDone(outcome)) => {
            let pending = match outcome {
                ServiceOutcome::SpawnFailed => PendingModel::Aborted(
                    ErrorModel::ConversionServiceUnavailable(Stage::Packer, exe),
                ),
                ServiceOutcome::Exited(code, stdout, stderr) => {
                    if code != 0 {
                        PendingModel::Aborted(ErrorModel::ConversionServiceFailed(code, stderr@))
                    } else {
                        PendingModel::Produced(stdout@)
                    }
                },
            };
            (
                CompilationModel { state: StateModel::AwaitCleanup { bdf_path, pending }, ..c },
                ActionModel::RemoveIntermediate(bdf_path),
            )
        },
        (StateModel::AwaitCleanup { bdf_path, pending }, Event::CleanupDone(ok)) => {
            match pending {
                PendingModel::Aborted(err) => {
                    // The earlier error takes precedence over a cleanup
                    // failure, which is reported but does not mask it.
                    (failed(c, err), ActionModel::Report(err))
                },
                PendingModel::Produced(bytes) => {
                    if ok {
                        (
                            CompilationModel { state: StateModel::Emitted, ..c },
                            ActionModel::Emit(c.artifact_name, bytes),
                        )
                    } else {
                        let err = ErrorModel::IntermediateCleanupFailed(bdf_path);
                        (failed(c, err), ActionModel::Report(err))
                    }
                },
            }
        },
        _ => (c, arbitrary()),
    }
}

/// A state from which no further event is expected.
pub open spec fn terminal(s: StateModel) -> bool {
    s is Emitted || s is Failed
}

/// Whether a sequence of events is a well-formed protocol run from `c`: each
/// event is of the kind the state at that point waits for.
pub open spec fn valid_run(c: CompilationModel, evs: Seq<Event>) -> bool
    decreases evs.len(),
{
    evs.len() == 0 || {
        &&& expects(c.state, evs[0])
        &&& valid_run(spec_step(c, evs[0]).0, evs.drop_first())
    }
}

/// The compilation after a run of events.
pub open spec fn run_state(c: CompilationModel, evs: Seq<Event>) -> CompilationModel
    decreases evs.len(),
{
    if evs.len() == 0 {
        c
    } else {
        run_state(spec_step(c, evs[0]).0, evs.drop_first())
    }
}

/// The actions issued along a run of events.
pub open spec fn run_actions(c: CompilationModel, evs: Seq<Event>) -> Seq<ActionModel>
    decreases evs.len(),
{
    if evs.len() == 0 {
        Seq::<ActionModel>::empty()
    } else {
        seq![spec_step(c, evs[0]).1] + run_actions(spec_step(c, evs[0]).0, evs.drop_first())
    }
}

/// Whether the intermediate file may exist after the driver performed the
/// work that `e` reports the outcome of: a write attempt creates the file, a
/// successful removal deletes it.
pub open spec fn file_after(live: bool, e: Event) -> bool {
    match e {
        Event::WriteDone(_) => true,
        Event::CleanupDone(ok) => if ok {
            false
        } else {
            live
        },
        _ => live,
    }
}

/// Whether the intermediate file may exist after a run of events.
pub open spec fn run_file(live: bool, evs: Seq<Event>) -> bool
    decreases evs.len(),
{
    if evs.len() == 0 {
        live
    } else {
        run_file(file_after(live, evs[0]), evs.drop_first())
    }
}

/// Every removal reported along the run succeeded.
pub open spec fn cleanups_succeed(evs: Seq<Event>) -> bool {
    forall|i: int| 0 <= i < evs.len() ==> #[trigger] evs[i] != Event::CleanupDone(false)
}

/// While the intermediate file may exist, the pipeline stands between the
/// write that created it and the removal that ends its life.
pub open spec fn file_inv(s: StateModel, live: bool) -> bool {
    live ==> (s is AwaitWrite || s is AwaitPacker || s is AwaitCleanup)
}

/// One step preserves the file-tracking invariant, as long as a reported
/// removal succeeded.
proof fn lemma_step_preserves_file_inv(c: CompilationModel, live: bool, e: Event)
    requires
        expects(c.state, e),
        file_inv(c.state, live),
        e != Event::CleanupDone(false),
    ensures
        file_inv(spec_step(c, e).0.state, file_after(live, e)),
{
}

/// The file-tracking invariant holds along any well-formed run in which
/// every reported removal succeeded.
pub proof fn lemma_cleanup_invariant(c: CompilationModel, live: bool, evs: Seq<Event>)
    requires
        valid_run(c, evs),
        cleanups_succeed(evs),
        file_inv(c.state, live),
    ensures
        file_inv(run_state(c, evs).state, run_file(live, evs)),
    decreases evs.len(),
{
    if evs.len() > 0 {
        lemma_step_preserves_file_inv(c, live, evs[0]);
        assert(cleanups_succeed(evs.drop_first())) by {
            assert forall|i: int|
                0 <= i < evs.drop_first().len() implies #[trigger] evs.drop_first()[i]
                != Event::CleanupDone(false) by {
                assert(evs.drop_first()[i] == evs[i + 1]);
            }
        }
        lemma_cleanup_invariant(
            spec_step(c, evs[0]).0,
            file_after(live, evs[0]),
            evs.drop_first(),
        );
    }
}

/// Cleanup invariant: after any complete run — success or failure, with or
/// without the intermediate file having been created — the transient
/// intermediate file does not exist, as long as every reported removal
/// succeeded (a removal that fails is itself reported, as
/// `IntermediateCleanupFailed` or superseded by the pending error).
pub proof fn lemma_no_intermediate_left(c: CompilationModel, evs: Seq<Event>)
    requires
        valid_run(c, evs),
        cleanups_succeed(evs),
        c.state is AwaitPath,
        terminal(run_state(c, evs).state),
    ensures
        !run_file(false, evs),
{
    lemma_cleanup_invariant(c, false, evs);
}

/// While the intermediate file may exist, the pipeline has not emitted: the
/// file lives only between its write and a removal, and a removal that fails
/// forces the failure exit.
pub open spec fn file_success_inv(s: StateModel, live: bool) -> bool {
    live ==> (s is AwaitWrite || s is AwaitPacker || s is AwaitCleanup || s is Failed)
}

proof fn lemma_step_preserves_file_success_inv(c: CompilationModel, live: bool, e: Event)
    requires
        expects(c.state, e),
        file_success_inv(c.state, live),
    ensures
        file_success_inv(spec_step(c, e).0.state, file_after(live, e)),
{
}

proof fn lemma_file_success_inv_run(c: CompilationModel, live: bool, evs: Seq<Event>)
    requires
        valid_run(c, evs),
        file_success_inv(c.state, live),
    ensures
        file_success_inv(run_state(c, evs).state, run_file(live, evs)),
    decreases evs.len(),
{
    if evs.len() > 0 {
        lemma_step_preserves_file_success_inv(c, live, evs[0]);
        lemma_file_success_inv_run(
            spec_step(c, evs[0]).0,
            file_after(live, evs[0]),
            evs.drop_first(),
        );
    }
}

/// A compilation that ends in `Emitted` leaks no intermediate file, whatever
/// outcomes the driver reported along the way: a removal that fails cannot
/// be followed by emission.
pub proof fn lemma_emitted_leaves_no_intermediate(c: CompilationModel, evs: Seq<Event>)
    requires
        valid_run(c, evs),
        c.state is AwaitPath,
        run_state(c, evs).state is Emitted,
    ensures
        !run_file(false, evs),
{
    lemma_file_success_inv_run(c, false, evs);
}

/// Whether an action invokes a Conversion Service.
pub open spec fn is_spawn(a: ActionModel) -> bool {
    a is RunRasterizer || a is RunPacker
}

/// Path validation: when the driver reports that the resolved font path does
/// not exist, the run ends at `FontNotFound` carrying that path, and no
/// Conversion Service is ever invoked.
pub proof fn lemma_font_not_found_spawns_nothing(
    c: CompilationModel,
    font_path: Seq<char>,
    evs: Seq<Event>,
)
    requires
        valid_run(c, evs),
        c.state == (StateModel::AwaitPath { font_path }),
        evs.len() > 0,
        evs[0] == Event::PathChecked(false),
    ensures
        run_state(c, evs).state == StateModel::Failed(ErrorModel::FontNotFound(font_path)),
        forall|i: int|
            0 <= i < run_actions(c, evs).len() ==> !is_spawn(#[trigger] run_actions(c, evs)[i]),
{
    let c1 = spec_step(c, evs[0]).0;
    let ds = evs.drop_first();
    assert(c1.state == StateModel::Failed(ErrorModel::FontNotFound(font_path)));
    assert(valid_run(c1, ds));
    if ds.len() > 0 {
        assert(expects(c1.state, ds[0]));
        assert(false);
    }
    assert(run_state(c, evs) == run_state(c1, ds));
    assert(run_state(c1, ds) == c1);
    assert(run_actions(c1, ds) =~= Seq::<ActionModel>::empty());
    assert(run_actions(c, evs) =~= seq![spec_step(c, evs[0]).1]);
    assert(!is_spawn(spec_step(c, evs[0]).1));
}

/// Determinism: the pipeline is a pure function of the compilation data and
/// of the Conversion Services' reported outcomes. Equal compilations fed
/// equal events traverse equal states and issue identical actions, so two
/// runs of one request with fixed service binaries produce byte-identical
/// artifacts.
pub proof fn lemma_run_deterministic(
    c1: CompilationModel,
    c2: CompilationModel,
    evs1: Seq<Event>,
    evs2: Seq<Event>,
)
    requires
        c1 == c2,
        evs1 == evs2,
    ensures
        run_state(c1, evs1) == run_state(c2, evs2),
        run_actions(c1, evs1) == run_actions(c2, evs2),
{
}

/// Two resolutions of one character selection yield the same canonical
/// code-point list: the canonical form is unique, not an accident of
/// resolution order.
pub proof fn lemma_resolution_unique(a: Seq<u32>, b: Seq<u32>, specs: Seq<CharacterSet>)
    requires
        strictly_ascending(a),
        a.to_set() == selection_points(specs),
        strictly_ascending(b),
        b.to_set() == selection_points(specs),
    ensures
        a == b,
{
    crate::charset::lemma_ascending_unique(a, b);
}

/// The rasterizer program name handed to the driver.
fn rasterizer_program_string() -> (s: String)
    ensures
        s@ == rasterizer_program(),
{
    proof {
        reveal_strlit("otf2bdf");
    }
    let s = "otf2bdf".to_owned();
    proof {
        assert(s@ =~= rasterizer_program());
    }
    s
}

/// Builds the rasterizer's argument vector:
/// `-p <pixelSize> -l <selector> <fontPath>`.
fn build_rasterizer_args(font_path: &String, pixel_size: u32, selection: &Option<Vec<u32>>) -> (r:
    Vec<String>)
    ensures
        views_of(r@) == rasterizer_args(font_path@, pixel_size, selection_model(*selection)),
{
    proof {
        reveal_strlit("-p");
        reveal_strlit("-l");
        reveal_strlit(" ");
    }
    let mut args: Vec<String> = Vec::new();
    args.push("-p".to_owned());
    args.push(dec_string(pixel_size));
    args.push("-l".to_owned());
    let sel = match selection {
        Option::Some(points) => join_dec(points, " "),
        Option::None => range_string(32, 255),
    };
    args.push(sel);
    args.push(font_path.clone());
    proof {
        assert("-p"@ =~= seq!['-', 'p']);
        assert("-l"@ =~= seq!['-', 'l']);
        assert(" "@ =~= seq![' ']);
        assert(views_of(args@) =~~= rasterizer_args(
            font_path@,
            pixel_size,
            selection_model(*selection),
        ));
    }
    args
}

/// Builds the packer's argument vector:
/// `-f 1 -m <selector> -binary <intermediatePath>`.
fn build_packer_args(bdf_path: &String, selection: &Option<Vec<u32>>) -> (r: Vec<String>)
    ensures
        views_of(r@) == packer_args(bdf_path@, selection_model(*selection)),
{
    proof {
        reveal_strlit("-f");
        reveal_strlit("1");
        reveal_strlit("-m");
        reveal_strlit(",");
        reveal_strlit("-binary");
    }
    let mut args: Vec<String> = Vec::new();
    args.push("-f".to_owned());
    args.push("1".to_owned());
    args.push("-m".to_owned());
    let sel = match selection {
        Option::Some(points) => join_dec(points, ","),
        Option::None => range_string(32, 127),
    };
    args.push(sel);
    args.push("-binary".to_owned());
    args.push(bdf_path.clone());
    proof {
        assert("-f"@ =~= seq!['-', 'f']);
        assert("1"@ =~= seq!['1']);
        assert("-m"@ =~= seq!['-', 'm']);
        assert(","@ =~= seq![',']);
        assert("-binary"@ =~= seq!['-', 'b', 'i', 'n', 'a', 'r', 'y']);
        assert(views_of(args@) =~~= packer_args(bdf_path@, selection_model(*selection)));
    }
    args
}

/// Duplicates an error value.
fn clone_error(e: &FontError) -> (r: FontError)
    ensures
        r@ == e@,
{
    match e {
        FontError::FontNotFound(p) => FontError::FontNotFound(p.clone()),
        FontError::EmptySelection => FontError::EmptySelection,
        FontError::ConversionServiceUnavailable(st, exe) => FontError::ConversionServiceUnavailable(
            *st,
            exe.clone(),
        ),
        FontError::ConversionServiceFailed(code, err) => FontError::ConversionServiceFailed(
            *code,
            err.clone(),
        ),
        FontError::IntermediateWriteFailed(p) => FontError::IntermediateWriteFailed(p.clone()),
        FontError::IntermediateCleanupFailed(p) => FontError::IntermediateCleanupFailed(p.clone()),
    }
}

impl Compilation {
    /// Starts one compilation: resolves the font path against the project
    /// root, resolves the character selection to its canonical code-point
    /// list, and asks the driver to check that the font path exists.
    pub fn new(config: &Config, request: &FontRequest) -> (r: (Compilation, Action))
        ensures
            r.0@.artifact_name == request.artifact_name@,
            r.0@.pixel_size == request.pixel_size,
            r.0@.tool_dir == config.tool_dir@,
            r.0@.state == (StateModel::AwaitPath {
                font_path: joined_path(config.root@, request.source_path@),
            }),
            r.1@ == ActionModel::CheckPath(joined_path(config.root@, request.source_path@)),
            request.selection@.len() == 0 ==> r.0@.selection is None,
            request.selection@.len() > 0 ==> (r.0@.selection matches Option::Some(points)
                && strictly_ascending(points) && points.to_set() == selection_points(
                request.selection@,
            )),
    {
        let font_path = path_join(config.root.as_str(), request.source_path.as_str());
        let selection: Option<Vec<u32>> = if request.selection.len() == 0 {
            Option::None
        } else {
            Option::Some(specs_to_unicode_code_points(request.selection.as_slice()))
        };
        let c = Compilation {
            artifact_name: request.artifact_name.clone(),
            pixel_size: request.pixel_size,
            tool_dir: config.tool_dir.clone(),
            selection,
            state: PipelineState::AwaitPath { font_path: font_path.clone() },
        };
        (c, Action::CheckPath(font_path))
    }

    /// Whether the compilation has ended, in `Emitted` or `Failed`; a
    /// finished compilation expects no further event.
    pub fn is_finished(&self) -> (r: bool)
        ensures
            r == terminal(self@.state),
    {
        match &self.state {
            PipelineState::Emitted => true,
            PipelineState::Failed(_) => true,
            _ => false,
        }
    }

    /// Advances the compilation by one event: returns the next compilation
    /// and the action the driver must perform. Terminal states expect no
    /// further event.
    pub fn step(self, event: Event) -> (r: (Compilation, Action))
        requires
            expects(self@.state, event),
        ensures
            r.0@ == spec_step(self@, event).0,
            r.1@ == spec_step(self@, event).1,
    {
        let ghost m = self@;
        let Compilation { artifact_name, pixel_size, tool_dir, selection, state } = self;
        match (state, event) {
            (PipelineState::AwaitPath { font_path }, Event::PathChecked(found)) => {
                if !found {
                    let a = Action::Report(FontError::FontNotFound(font_path.clone()));
                    let c = Compilation {
                        artifact_name,
                        pixel_size,
                        tool_dir,
                        selection,
                        state: PipelineState::Failed(FontError::FontNotFound(font_path)),
                    };
                    proof {
                        assert(c@ =~~= spec_step(m, event).0);
                        assert(a@ =~~= spec_step(m, event).1);
                    }
                    (c, a)
                } else {
                    let selection_is_empty = match &selection {
                        Option::Some(points) => points.len() == 0,
                        Option::None => false,
                    };
                    if selection_is_empty {
                        let a = Action::Report(FontError::EmptySelection);
                        let c = Compilation {
                            artifact_name,
                            pixel_size,
                            tool_dir,
                            selection,
                            state: PipelineState::Failed(FontError::EmptySelection),
                        };
                        proof {
                            assert(c@ =~~= spec_step(m, event).0);
                            assert(a@ =~~= spec_step(m, event).1);
                        }
                        (c, a)
                    } else {
                        let prog = rasterizer_program_string();
                        let args = build_rasterizer_args(&font_path, pixel_size, &selection);
                        let a = Action::RunRasterizer(prog, args);
                        let c = Compilation {
                            artifact_name,
                            pixel_size,
                            tool_dir,
                            selection,
                            state: PipelineState::AwaitRasterizer { font_path },
                        };
                        proof {
                            assert(c@ =~~= spec_step(m, event).0);
                            assert(a@ =~~= spec_step(m, event).1);
                        }
                        (c, a)
                    }
                }
            },
            (PipelineState::AwaitRasterizer { font_path }, Event::RasterizerDone(outcome)) => {
                match outcome {
                    ServiceOutcome::SpawnFailed => {
                        let err = FontError::ConversionServiceUnavailable(
                            Stage::Rasterizer,
                            rasterizer_program_string(),
                        );
                        let a = Action::Report(clone_error(&err));
                        let c = Compilation {
                            artifact_name,
                            pixel_size,
                            tool_dir,
                            selection,
                            state: PipelineState::Failed(err),
                        };
                        proof {
                            assert(c@ =~~= spec_step(m, event).0);
                            assert(a@ =~~= spec_step(m, event).1);
                        }
                        (c, a)
                    },
                    ServiceOutcome::Exited(code, stdout, stderr) => {
                        if code != 0 {
                            let err = FontError::ConversionServiceFailed(code, stderr);
                            let a = Action::Report(clone_error(&err));
                            let c = Compilation {
                                artifact_name,
                                pixel_size,
                                tool_dir,
                                selection,
                                state: PipelineState::Failed(err),
                            };
                            proof {
                                assert(c@ =~~= spec_step(m, event).0);
                                assert(a@ =~~= spec_step(m, event).1);
                            }
                            (c, a)
                        } else {
                            let bdf_path = intermediate_path(font_path.as_str());
                            let a = Action::WriteIntermediate(bdf_path.clone(), stdout);
                            let c = Compilation {
                                artifact_name,
                                pixel_size,
                                tool_dir,
                                selection,
                                state: PipelineState::AwaitWrite { bdf_path },
                            };
                            proof {
                                assert(c@ =~~= spec_step(m, event).0);
                                assert(a@ =~~= spec_step(m, event).1);
                            }
                            (c, a)
                        }
                    },
                }
            },
            (PipelineState::AwaitWrite { bdf_path }, Event::WriteDone(ok)) => {
                if !ok {
                    let a = Action::RemoveIntermediate(bdf_path.clone());
                    let c = Compilation {
                        artifact_name,
                        pixel_size,
                        tool_dir,
                        selection,
                        state: PipelineState::AwaitCleanup {
                            bdf_path: bdf_path.clone(),
                            pending: Pending::Aborted(
                                FontError::IntermediateWriteFailed(bdf_path),
                            ),
                        },
                    };
                    proof {
                        assert(c@ =~~= spec_step(m, event).0);
                        assert(a@ =~~= spec_step(m, event).1);
                    }
                    (c, a)
                } else {
                    proof {
                        reveal_strlit("bdfconv");
                    }
                    let exe = path_join(tool_dir.as_str(), "bdfconv");
                    proof {
                        assert("bdfconv"@ =~= packer_tool());
                        assert(exe@ =~= packer_exe(tool_dir@));
                    }
                    let args = build_packer_args(&bdf_path, &selection);
                    let a = Action::RunPacker(exe.clone(), args);
                    let c = Compilation {
                        artifact_name,
                        pixel_size,
                        tool_dir,
                        selection,
                        state: PipelineState::AwaitPacker { bdf_path, exe },
                    };
                    proof {
                        assert(c@ =~~= spec_step(m, event).0);
                        assert(a@ =~~= spec_step(m, event).1);
                    }
                    (c, a)
                }
            },
            (PipelineState::AwaitPacker { bdf_path, exe }, Event::PackerDone(outcome)) => {
                let pending = match outcome {
                    ServiceOutcome::SpawnFailed => Pending::Aborted(
                        FontError::ConversionServiceUnavailable(Stage::Packer, exe),
                    ),
                    ServiceOutcome::Exited(code, stdout, stderr) => {
                        if code != 0 {
                            Pending::Aborted(FontError::ConversionServiceFailed(code, stderr))
                        } else {
                            Pending::Produced(stdout)
                        }
                    },
                };
                let a = Action::RemoveIntermediate(bdf_path.clone());
                let c = Compilation {
                    artifact_name,
                    pixel_size,
                    tool_dir,
                    selection,
                    state: PipelineState::AwaitCleanup { bdf_path, pending },
                };
                proof {
                    assert(c@ =~~= spec_step(m, event).0);
                    assert(a@ =~~= spec_step(m, event).1);
                }
                (c, a)
            },
            (PipelineState::AwaitCleanup { bdf_path, pending }, Event::CleanupDone(ok)) => {
                match pending {
                    Pending::Aborted(err) => {
                        let a = Action::Report(clone_error(&err));
                        let c = Compilation {
                            artifact_name,
                            pixel_size,
                            tool_dir,
                            selection,
                            state: PipelineState::Failed(err),
                        };
                        proof {
                            assert(c@ =~~= spec_step(m, event).0);
                            assert(a@ =~~= spec_step(m, event).1);
                        }
                        (c, a)
                    },
                    Pending::Produced(bytes) => {
                        if ok {
                            let a = Action::Emit(artifact_name.clone(), bytes);
                            let c = Compilation {
                                artifact_name,
                                pixel_size,
                                tool_dir,
                                selection,
                                state: PipelineState::Emitted,
                            };
                            proof {
                                assert(c@ =~~= spec_step(m, event).0);
                                assert(a@ =~~= spec_step(m, event).1);
                            }
                            (c, a)
                        } else {
                            let a = Action::Report(
                                FontError::IntermediateCleanupFailed(bdf_path.clone()),
                            );
                            let c = Compilation {
                                artifact_name,
                                pixel_size,
                                tool_dir,
                                selection,
                                state: PipelineState::Failed(
                                    FontError::IntermediateCleanupFailed(bdf_path),
                                ),
                            };
                            proof {
                                assert(c@ =~~= spec_step(m, event).0);
                                assert(a@ =~~= spec_step(m, event).1);
                            }
                            (c, a)
                        }
                    },
                }
            },
            _ => {
                proof {
                    assert(false);
                }
                unreached()
            },
        }
    }
}

} // verus!
