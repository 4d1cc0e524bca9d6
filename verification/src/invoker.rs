//! The driver, as a state machine.
//!
//! The driver runs one fixed sequence: resolve the path argument, load the
//! library, then for each configured symbol resolve it and call it. The
//! loading, the symbol lookup and the foreign call are the caller's to
//! perform. The machine here says which of them is due, with the trace line
//! to print before it, takes the outcome, and says what is due next. A
//! failure at any step halts it for good.

use vstd::prelude::*;
use crate::path::{anchored, is_canonical, normalizePath};

verus! {

/// The value handed to a symbol when it is called. Its variant is the
/// argument type declared for the symbol; every symbol returns nothing.
#[derive(Debug, PartialEq, Eq)]
pub enum Argument {
    /// No argument.
    Unit,
    /// One text argument.
    Text(String),
}

/// The model of an [`Argument`].
pub enum ArgumentView {
    Unit,
    Text(Seq<char>),
}

impl View for Argument {
    type V = ArgumentView;

    open spec fn view(&self) -> ArgumentView {
        match self {
            Argument::Unit => ArgumentView::Unit,
            Argument::Text(text) => ArgumentView::Text(text@),
        }
    }
}

impl Clone for Argument {
    fn clone(&self) -> (copy: Self)
        ensures
            copy == *self,
    {
        match self {
            Argument::Unit => Argument::Unit,
            Argument::Text(text) => Argument::Text(text.clone()),
        }
    }
}

/// A symbol the driver is configured to invoke: its exported name and the
/// argument to call it with.
#[derive(Debug, PartialEq, Eq)]
pub struct Symbol {
    pub name: String,
    pub argument: Argument,
}

/// The model of a [`Symbol`].
pub struct SymbolView {
    pub name: Seq<char>,
    pub argument: ArgumentView,
}

impl View for Symbol {
    type V = SymbolView;

    open spec fn view(&self) -> SymbolView {
        SymbolView { name: self.name@, argument: self.argument@ }
    }
}

/// Why the driver halted.
#[derive(Debug, PartialEq, Eq)]
pub enum InvokeError {
    /// The path argument is missing.
    Usage,
    /// The path, anchored at the working directory, could not be resolved.
    Path(String),
    /// The loader refused the library; its diagnostic is kept as it came.
    Load(String),
    /// The library does not export the named symbol.
    SymbolNotFound(String),
}

/// The model of an [`InvokeError`].
pub enum ErrorView {
    Usage,
    Path(Seq<char>),
    Load(Seq<char>),
    SymbolNotFound(Seq<char>),
}

impl View for InvokeError {
    type V = ErrorView;

    open spec fn view(&self) -> ErrorView {
        match self {
            InvokeError::Usage => ErrorView::Usage,
            InvokeError::Path(path) => ErrorView::Path(path@),
            InvokeError::Load(diagnostic) => ErrorView::Load(diagnostic@),
            InvokeError::SymbolNotFound(name) => ErrorView::SymbolNotFound(name@),
        }
    }
}

impl Clone for InvokeError {
    fn clone(&self) -> (copy: Self)
        ensures
            copy == *self,
    {
        match self {
            InvokeError::Usage => InvokeError::Usage,
            InvokeError::Path(path) => InvokeError::Path(path.clone()),
            InvokeError::Load(diagnostic) => InvokeError::Load(diagnostic.clone()),
            InvokeError::SymbolNotFound(name) => InvokeError::SymbolNotFound(name.clone()),
        }
    }
}

/// The exit code for a run that completed.
pub const EXIT_SUCCESS: u8 = 0;

/// The exit code that goes with each failure: one per kind, none of them
/// zero.
pub open spec fn exit_code_of(error: ErrorView) -> u8 {
    match error {
        ErrorView::Usage => 2,
        ErrorView::Path(_) => 3,
        ErrorView::Load(_) => 4,
        ErrorView::SymbolNotFound(_) => 5,
    }
}

/// The text shown to the operator for each failure. The loader's own
/// diagnostic is passed on unchanged.
pub open spec fn diagnostic_of(error: ErrorView) -> Seq<char> {
    match error {
        ErrorView::Usage => "Missing <libPath> positional argument!"@,
        ErrorView::Path(path) => "Cannot resolve path "@ + path,
        ErrorView::Load(diagnostic) => diagnostic,
        ErrorView::SymbolNotFound(name) => "Symbol not found: "@ + name,
    }
}

impl InvokeError {
    /// The process exit code for this failure.
    pub fn exit_code(&self) -> (code: u8)
        ensures
            code == exit_code_of(self@),
            code != EXIT_SUCCESS,
    {
        match self {
            InvokeError::Usage => 2,
            InvokeError::Path(_) => 3,
            InvokeError::Load(_) => 4,
            InvokeError::SymbolNotFound(_) => 5,
        }
    }

    /// The diagnostic text for this failure.
    pub fn diagnostic(&self) -> (text: String)
        ensures
            text@ == diagnostic_of(self@),
    {
        match self {
            InvokeError::Usage => "Missing <libPath> positional argument!".to_owned(),
            InvokeError::Path(path) => "Cannot resolve path ".to_owned().concat(path.as_str()),
            InvokeError::Load(diagnostic) => diagnostic.clone(),
            InvokeError::SymbolNotFound(name) => "Symbol not found: ".to_owned().concat(
                name.as_str(),
            ),
        }
    }
}

/// What the caller is to do next. `Load`, `Resolve` and `Call` come with the
/// trace line to print before the work is attempted; the outcome of the work
/// is what the next [`Invoker::step`] takes.
#[derive(Debug, PartialEq, Eq)]
pub enum Action {
    /// Load the library at `path`.
    Load { trace: String, path: String },
    /// Look up the export `name`, to be called with an argument of the type
    /// of `argument`.
    Resolve { trace: String, name: String, argument: Argument },
    /// Call the export just resolved with `argument`.
    Call { trace: String, name: String, argument: Argument },
    /// All calls returned: release the library and exit with
    /// [`EXIT_SUCCESS`].
    Finish,
    /// The run failed: release what is held and exit with the error's code
    /// and diagnostic.
    Abort(InvokeError),
}

impl Action {
    /// The exit code that this action ends the process with: that of
    /// success for `Finish`, that of the error for `Abort`, and none while
    /// there is work to do.
    pub fn exit_code(&self) -> (code: Option<u8>)
        ensures
            code == match self@ {
                ActionView::Finish => Some(EXIT_SUCCESS),
                ActionView::Abort(error) => Some(exit_code_of(error)),
                _ => None,
            },
    {
        match self {
            Action::Finish => Some(EXIT_SUCCESS),
            Action::Abort(error) => Some(error.exit_code()),
            _ => None,
        }
    }
}

/// The model of an [`Action`].
pub enum ActionView {
    Load { trace: Seq<char>, path: Seq<char> },
    Resolve { trace: Seq<char>, name: Seq<char>, argument: ArgumentView },
    Call { trace: Seq<char>, name: Seq<char>, argument: ArgumentView },
    Finish,
    Abort(ErrorView),
}

impl View for Action {
    type V = ActionView;

    open spec fn view(&self) -> ActionView {
        match self {
            Action::Load { trace, path } => ActionView::Load { trace: trace@, path: path@ },
            Action::Resolve { trace, name, argument } => ActionView::Resolve {
                trace: trace@,
                name: name@,
                argument: argument@,
            },
            Action::Call { trace, name, argument } => ActionView::Call {
                trace: trace@,
                name: name@,
                argument: argument@,
            },
            Action::Finish => ActionView::Finish,
            Action::Abort(error) => ActionView::Abort(error@),
        }
    }
}

/// Where a run stands: which outcome the machine is waiting for, or how the
/// run ended.
pub enum StageView {
    /// The library is being loaded.
    Loading,
    /// The library is loaded and the symbol at this position is being looked
    /// up.
    Resolving(int),
    /// The symbol at this position is resolved and is being called.
    Calling(int),
    /// Every symbol was called.
    Finished,
    /// The run halted with this error.
    Failed(ErrorView),
}

/// The model of an [`Invoker`]: the configured symbols and the stage.
pub struct InvokerView {
    pub symbols: Seq<SymbolView>,
    pub stage: StageView,
}

impl InvokerView {
    /// A position in `Resolving` or `Calling` names one of the symbols.
    pub open spec fn wf(self) -> bool {
        match self.stage {
            StageView::Resolving(i) => 0 <= i < self.symbols.len(),
            StageView::Calling(i) => 0 <= i < self.symbols.len(),
            _ => true,
        }
    }

    /// The run is over.
    pub open spec fn halted(self) -> bool {
        self.stage is Finished || self.stage is Failed
    }

    /// The library is mapped: loading succeeded and the run is not over.
    pub open spec fn library_held(self) -> bool {
        self.stage is Resolving || self.stage is Calling
    }
}

/// The trace line before a load.
pub open spec fn load_trace(path: Seq<char>) -> Seq<char> {
    "Loading lib "@ + path
}

/// The trace line before a symbol lookup.
pub open spec fn resolve_trace(name: Seq<char>) -> Seq<char> {
    "Resolving symbol "@ + name
}

/// The trace line before a call; `descriptor` is the caller's rendering of
/// the resolved symbol.
pub open spec fn call_trace(descriptor: Seq<char>) -> Seq<char> {
    "Calling method "@ + descriptor
}

/// The first move, once the path argument has been located: load the
/// library at the resolved path, or halt with the error.
pub open spec fn begun(symbols: Seq<SymbolView>, located: Result<Seq<char>, ErrorView>) -> (
    InvokerView,
    ActionView,
) {
    match located {
        Ok(path) => (
            InvokerView { symbols, stage: StageView::Loading },
            ActionView::Load { trace: load_trace(path), path },
        ),
        Err(error) => (
            InvokerView { symbols, stage: StageView::Failed(error) },
            ActionView::Abort(error),
        ),
    }
}

/// The move that takes up the symbol at position `i`, or finishes the run
/// when there is none left.
pub open spec fn taken_up(symbols: Seq<SymbolView>, i: int) -> (InvokerView, ActionView) {
    if 0 <= i < symbols.len() {
        (
            InvokerView { symbols, stage: StageView::Resolving(i) },
            ActionView::Resolve {
                trace: resolve_trace(symbols[i].name),
                name: symbols[i].name,
                argument: symbols[i].argument,
            },
        )
    } else {
        (InvokerView { symbols, stage: StageView::Finished }, ActionView::Finish)
    }
}

/// The move that halts the run with `error`.
pub open spec fn halted_with(symbols: Seq<SymbolView>, error: ErrorView) -> (
    InvokerView,
    ActionView,
) {
    (InvokerView { symbols, stage: StageView::Failed(error) }, ActionView::Abort(error))
}

/// The transition function: from a state and the outcome of the work last
/// asked for, to the next state and the next action.
///
/// A successful load takes up the first symbol; a failed one halts with the
/// loader's diagnostic. A successful lookup asks for the call, traced with the
/// descriptor that the outcome carries; a failed one halts, naming the
/// symbol. A call has nothing to report: when it has returned, the next symbol
/// is taken up, whatever the outcome holds. A run that is over stays as it
/// is and repeats its last answer.
pub open spec fn next(m: InvokerView, outcome: Result<Seq<char>, Seq<char>>) -> (
    InvokerView,
    ActionView,
) {
    match m.stage {
        StageView::Loading => match outcome {
            Ok(_) => taken_up(m.symbols, 0),
            Err(diagnostic) => halted_with(m.symbols, ErrorView::Load(diagnostic)),
        },
        StageView::Resolving(i) => match outcome {
            Ok(descriptor) => (
                InvokerView { symbols: m.symbols, stage: StageView::Calling(i) },
                ActionView::Call {
                    trace: call_trace(descriptor),
                    name: m.symbols[i].name,
                    argument: m.symbols[i].argument,
                },
            ),
            Err(_) => halted_with(m.symbols, ErrorView::SymbolNotFound(m.symbols[i].name)),
        },
        StageView::Calling(i) => taken_up(m.symbols, i + 1),
        StageView::Finished => (m, ActionView::Finish),
        StageView::Failed(error) => (m, ActionView::Abort(error)),
    }
}

/// The state of the machine after the first `k` of `outcomes`, from `m`.
pub open spec fn state_after(
    m: InvokerView,
    outcomes: Seq<Result<Seq<char>, Seq<char>>>,
    k: int,
) -> InvokerView
    decreases k,
{
    if k <= 0 {
        m
    } else {
        next(state_after(m, outcomes, k - 1), outcomes[k - 1]).0
    }
}

/// The action that the machine, started in `m`, gives in answer to the
/// outcome at position `k` of `outcomes`.
pub open spec fn action_at(
    m: InvokerView,
    outcomes: Seq<Result<Seq<char>, Seq<char>>>,
    k: int,
) -> ActionView {
    next(state_after(m, outcomes, k), outcomes[k]).1
}

/// The model of an outcome as the caller reports it.
pub open spec fn outcome_view(outcome: Result<String, String>) -> Result<Seq<char>, Seq<char>> {
    match outcome {
        Ok(detail) => Ok(detail@),
        Err(diagnostic) => Err(diagnostic@),
    }
}

/// The model of a located path argument.
pub open spec fn located_view(located: Result<String, InvokeError>) -> Result<
    Seq<char>,
    ErrorView,
> {
    match located {
        Ok(path) => Ok(path@),
        Err(error) => Err(error@),
    }
}

/// The models of a list of symbols.
pub open spec fn symbols_view(symbols: Seq<Symbol>) -> Seq<SymbolView> {
    symbols.map_values(|symbol: Symbol| symbol@)
}

/// Where the machine stands, in machine integers.
enum Stage {
    Loading,
    Resolving(usize),
    Calling(usize),
    Finished,
    Failed(InvokeError),
}

impl View for Stage {
    type V = StageView;

    closed spec fn view(&self) -> StageView {
        match self {
            Stage::Loading => StageView::Loading,
            Stage::Resolving(i) => StageView::Resolving(*i as int),
            Stage::Calling(i) => StageView::Calling(*i as int),
            Stage::Finished => StageView::Finished,
            Stage::Failed(error) => StageView::Failed(error@),
        }
    }
}

/// The driver's state machine. It is made by [`Invoker::start`] or
/// [`Invoker::begin`], which give the first action, and moved by
/// [`Invoker::step`], which takes the outcome of the last action and gives
/// the next.
pub struct Invoker {
    symbols: Vec<Symbol>,
    stage: Stage,
}

impl View for Invoker {
    type V = InvokerView;

    closed spec fn view(&self) -> InvokerView {
        InvokerView { symbols: symbols_view(self.symbols@), stage: self.stage@ }
    }
}

/// Locates the library: the path argument must be there, and must resolve
/// from `cwd`, where `separator` is the separator of the platform's paths.
///
/// A missing argument is a usage error, whatever is on disk. With an
/// argument, the filesystem decides: a path that comes back is canonical, a
/// failure names the anchored path that was looked up.
pub fn locate(argument: Option<&str>, cwd: &str, separator: char) -> (located: Result<
    String,
    InvokeError,
>)
    ensures
        argument is None ==> located_view(located) == Err::<Seq<char>, ErrorView>(
            ErrorView::Usage,
        ),
        argument is Some ==> match located {
            Ok(path) => is_canonical(path@, separator),
            Err(error) => error@ == ErrorView::Path(anchored(argument->0@, cwd@, separator)),
        },
{
    match argument {
        None => Err(InvokeError::Usage),
        Some(path) => match normalizePath(path, cwd, separator) {
            Ok(resolved) => Ok(resolved),
            Err(error) => Err(InvokeError::Path(error.path)),
        },
    }
}

impl Invoker {
    #[verifier::type_invariant]
    spec fn inv(self) -> bool {
        self@.wf()
    }

    /// Starts a run over `symbols` from a located path argument.
    pub fn begin(symbols: Vec<Symbol>, located: Result<String, InvokeError>) -> (started: (
        Invoker,
        Action,
    ))
        ensures
            (started.0@, started.1@) == begun(symbols_view(symbols@), located_view(located)),
            started.0@.wf(),
    {
        match located {
            Ok(path) => {
                let trace: String = "Loading lib ".to_owned().concat(path.as_str());
                (Invoker { symbols, stage: Stage::Loading }, Action::Load { trace, path })
            },
            Err(error) => {
                let reported: InvokeError = error.clone();
                (Invoker { symbols, stage: Stage::Failed(error) }, Action::Abort(reported))
            },
        }
    }

    /// Starts a run over `symbols` from the command line's path argument,
    /// the working directory and the separator of the platform's paths.
    ///
    /// Without an argument the run halts with a usage error. With one, it
    /// either halts with a path error that names the anchored path, or asks
    /// for the load of a canonical path.
    pub fn start(
        symbols: Vec<Symbol>,
        argument: Option<&str>,
        cwd: &str,
        separator: char,
    ) -> (started: (Invoker, Action))
        ensures
            argument is None ==> (started.0@, started.1@) == halted_with(
                symbols_view(symbols@),
                ErrorView::Usage,
            ),
            argument is Some ==> {
                ||| (started.0@, started.1@) == halted_with(
                    symbols_view(symbols@),
                    ErrorView::Path(anchored(argument->0@, cwd@, separator)),
                )
                ||| exists|path: Seq<char>|
                    is_canonical(path, separator) && (started.0@, started.1@) == #[trigger] begun(
                        symbols_view(symbols@),
                        Ok(path),
                    )
            },
    {
        Invoker::begin(symbols, locate(argument, cwd, separator))
    }

    /// The action that takes up the symbol at `position`, or finishes.
    fn take_up(&mut self, position: usize) -> (action: Action)
        requires
            position <= old(self)@.symbols.len(),
        ensures
            (final(self)@, action@) == taken_up(old(self)@.symbols, position as int),
    {
        proof {
            use_type_invariant(&*self);
        }
        if position < self.symbols.len() {
            let name: String = self.symbols[position].name.clone();
            let argument: Argument = self.symbols[position].argument.clone();
            let trace: String = "Resolving symbol ".to_owned().concat(name.as_str());
            self.stage = Stage::Resolving(position);
            Action::Resolve { trace, name, argument }
        } else {
            self.stage = Stage::Finished;
            Action::Finish
        }
    }

    /// Halts the run with `error`.
    fn halt(&mut self, error: InvokeError) -> (action: Action)
        ensures
            (final(self)@, action@) == halted_with(old(self)@.symbols, error@),
    {
        let reported: InvokeError = error.clone();
        self.stage = Stage::Failed(error);
        Action::Abort(reported)
    }

    /// Takes the outcome of the action last given, `Ok` with a detail or
    /// `Err` with a diagnostic, and gives the next action.
    ///
    /// The detail of a successful lookup is the descriptor of the resolved
    /// symbol, which the call's trace line shows; the diagnostic of a failed
    /// load is kept in the error. Other details are not read.
    pub fn step(&mut self, outcome: Result<String, String>) -> (action: Action)
        ensures
            (final(self)@, action@) == next(old(self)@, outcome_view(outcome)),
            final(self)@.wf(),
    {
        proof {
            use_type_invariant(&*self);
        }
        match &self.stage {
            Stage::Loading => match outcome {
                Ok(_) => self.take_up(0),
                Err(diagnostic) => self.halt(InvokeError::Load(diagnostic)),
            },
            Stage::Resolving(position) => {
                let i: usize = *position;
                let name: String = self.symbols[i].name.clone();
                match outcome {
                    Ok(descriptor) => {
                        let argument: Argument = self.symbols[i].argument.clone();
                        let trace: String = "Calling method ".to_owned().concat(
                            descriptor.as_str(),
                        );
                        self.stage = Stage::Calling(i);
                        Action::Call { trace, name, argument }
                    },
                    Err(_) => self.halt(InvokeError::SymbolNotFound(name)),
                }
            },
            Stage::Calling(position) => {
                let count: usize = self.symbols.len();
                assert(*position < count);
                let following: usize = *position + 1;
                self.take_up(following)
            },
            Stage::Finished => Action::Finish,
            Stage::Failed(error) => Action::Abort(error.clone()),
        }
    }

    /// Whether the run is over.
    pub fn halted(&self) -> (over: bool)
        ensures
            over == self@.halted(),
    {
        match &self.stage {
            Stage::Finished => true,
            Stage::Failed(_) => true,
            _ => false,
        }
    }
}

/// The exit code tells success from failure, and the kinds of failure from
/// each other.
pub proof fn lemma_exit_codes_tell_apart(a: ErrorView, b: ErrorView)
    ensures
        exit_code_of(a) != EXIT_SUCCESS,
        exit_code_of(a) == exit_code_of(b) ==> {
            ||| a is Usage && b is Usage
            ||| a is Path && b is Path
            ||| a is Load && b is Load
            ||| a is SymbolNotFound && b is SymbolNotFound
        },
{
}

/// Every move keeps the state well formed and the configured symbols as
/// they are.
pub proof fn lemma_next_preserves_wf(m: InvokerView, outcome: Result<Seq<char>, Seq<char>>)
    requires
        m.wf(),
    ensures
        next(m, outcome).0.wf(),
        next(m, outcome).0.symbols == m.symbols,
{
}

/// The machine never asks for a load: the only load of a run is the one
/// that [`begun`] asks for. It asks for a lookup or a call only while the
/// library is held, and for a call only in answer to the successful lookup of
/// the very symbol that is called, with the argument configured for it.
pub proof fn lemma_work_needs_library(m: InvokerView, outcome: Result<Seq<char>, Seq<char>>)
    requires
        m.wf(),
    ensures
        !(next(m, outcome).1 is Load),
        next(m, outcome).1 is Resolve || next(m, outcome).1 is Call ==> next(
            m,
            outcome,
        ).0.library_held(),
        next(m, outcome).1 matches ActionView::Call { trace, name, argument } ==> {
            &&& m.stage matches StageView::Resolving(i)
            &&& outcome matches Ok(descriptor)
            &&& trace == call_trace(descriptor)
            &&& name == m.symbols[i].name
            &&& argument == m.symbols[i].argument
            &&& next(m, outcome).0.stage == StageView::Calling(i)
        },
{
}

/// A failed lookup halts the run with the error that names the symbol, and
/// no call, lookup or load is asked for afterwards, whatever is reported.
pub proof fn lemma_missing_symbol_halts(
    m: InvokerView,
    diagnostic: Seq<char>,
    later: Seq<Result<Seq<char>, Seq<char>>>,
    k: int,
)
    requires
        m.wf(),
        m.stage is Resolving,
        0 <= k < later.len(),
    ensures
        next(m, Err(diagnostic)) == halted_with(
            m.symbols,
            ErrorView::SymbolNotFound(m.symbols[m.stage->Resolving_0].name),
        ),
        action_at(next(m, Err(diagnostic)).0, later, k) == ActionView::Abort(
            ErrorView::SymbolNotFound(m.symbols[m.stage->Resolving_0].name),
        ),
{
    lemma_halted_stays(next(m, Err(diagnostic)).0, later, k);
}

/// A call that has returned is never an error: the run goes on to the next
/// symbol, or finishes.
pub proof fn lemma_return_goes_on(m: InvokerView, outcome: Result<Seq<char>, Seq<char>>)
    requires
        m.wf(),
        m.stage is Calling,
    ensures
        next(m, outcome) == taken_up(m.symbols, m.stage->Calling_0 + 1),
        !(next(m, outcome).0.stage is Failed),
{
}

/// A run that is over stays where it is: the state no longer changes, and
/// every further answer is the last one again.
pub proof fn lemma_halted_stays(
    m: InvokerView,
    outcomes: Seq<Result<Seq<char>, Seq<char>>>,
    k: int,
)
    requires
        m.halted(),
    ensures
        state_after(m, outcomes, k) == m,
        m.stage is Finished ==> action_at(m, outcomes, k) == ActionView::Finish,
        m.stage matches StageView::Failed(error) ==> action_at(m, outcomes, k)
            == ActionView::Abort(error),
    decreases k,
{
    if k > 0 {
        lemma_halted_stays(m, outcomes, k - 1);
    }
}

/// A run whose library was not located never asks for a load, a lookup or
/// a call: its first answer and every later one is the same abort.
pub proof fn lemma_unlocated_never_loads(
    symbols: Seq<SymbolView>,
    error: ErrorView,
    outcomes: Seq<Result<Seq<char>, Seq<char>>>,
    k: int,
)
    ensures
        begun(symbols, Err(error)).1 == ActionView::Abort(error),
        action_at(begun(symbols, Err(error)).0, outcomes, k) == ActionView::Abort(error),
        exit_code_of(error) != EXIT_SUCCESS,
{
    lemma_halted_stays(begun(symbols, Err(error)).0, outcomes, k);
}

/// The number of outcomes that a run has taken when it is through with the
/// symbols before position `i` and, if there is a symbol at `i`, has looked
/// it up as well.
pub open spec fn outcomes_through(symbols: Seq<SymbolView>, i: int) -> int {
    if i < symbols.len() {
        2 * i + 2
    } else {
        2 * i + 1
    }
}

/// When everything succeeds, the run takes the symbols in the order in
/// which they are configured, each looked up and then called, and finishes
/// after the last. After the load, the answer to the outcome at position
/// `2 * i` is the move that takes up symbol `i`: its lookup, or the end of
/// the run when `i` is past the last symbol. The answer to the outcome at
/// position `2 * i + 1`, the descriptor of symbol `i`, is its call.
pub proof fn lemma_complete_run(
    symbols: Seq<SymbolView>,
    outcomes: Seq<Result<Seq<char>, Seq<char>>>,
    i: int,
)
    requires
        0 <= i <= symbols.len(),
        outcomes.len() >= outcomes_through(symbols, i),
        forall|k: int| 0 <= k < outcomes_through(symbols, i) ==> (#[trigger] outcomes[k]) is Ok,
    ensures
        ({
            let m = InvokerView { symbols, stage: StageView::Loading };
            &&& state_after(m, outcomes, 2 * i + 1) == taken_up(symbols, i).0
            &&& action_at(m, outcomes, 2 * i) == taken_up(symbols, i).1
            &&& i < symbols.len() ==> action_at(m, outcomes, 2 * i + 1) == ActionView::Call {
                trace: call_trace(outcomes[2 * i + 1]->Ok_0),
                name: symbols[i].name,
                argument: symbols[i].argument,
            }
            &&& i == symbols.len() ==> state_after(m, outcomes, 2 * i + 1).stage is Finished
        }),
    decreases i,
{
    if i > 0 {
        lemma_complete_run(symbols, outcomes, i - 1);
    }
}

} // verus!
