use crate::config_type_descriptor::ConfigTypeDescriptor;
use crate::decode::decode;
use crate::error::{
    DecodeFailure, LoadLabeledConfigTypeError, StoreLabeledConfigTypeError, TransferError,
};
use crate::filesystem::{asked, Action, ActionView, Event};
use crate::paths::{parent_of, parent_path, push_path, pushed_path, texts};
use crate::utils::{
    advance_ensure, ancestors_of, ancestors_of_path, ensure_advanced, ensure_pending,
    pending_ensure, EnsureCursor,
};
use crate::variable_resolver::VariableResolver;
use vstd::prelude::*;

verus! {

/// The way in which the files of a snapshot are copied.
#[derive(Clone, Copy, Debug, PartialEq, Eq, Structural)]
pub enum Direction {
    /// From the live filesystem into the snapshot directory.
    Capture,
    /// From the snapshot directory onto the live filesystem.
    Restore,
}

/// One file to copy, with the directories that must be there before it is copied.
#[derive(Debug)]
pub struct FileTransfer {
    /// The file that is read.
    pub source: String,
    /// The file that is written.
    pub dest: String,
    /// The ancestors of the parent directory of `dest`, from the outermost on.
    pub parent_ancestors: Vec<String>,
}

/// The mathematical value of a [`FileTransfer`].
pub struct FileTransferView {
    pub source: Seq<char>,
    pub dest: Seq<char>,
    pub parent_ancestors: Seq<Seq<char>>,
}

impl View for FileTransfer {
    type V = FileTransferView;

    open spec fn view(&self) -> FileTransferView {
        FileTransferView {
            source: self.source@,
            dest: self.dest@,
            parent_ancestors: texts(self.parent_ancestors@),
        }
    }
}

/// The values of a sequence of transfers.
pub open spec fn transfer_views(transfers: Seq<FileTransfer>) -> Seq<FileTransferView> {
    transfers.map_values(|t: FileTransfer| t@)
}

/// Why no transfer can be made for a template.
pub enum PlanFailure {
    /// The template cannot be decoded.
    Undecodable(DecodeFailure),
    /// The path that the file would be copied to has no parent.
    NoParent(Seq<char>),
}

/// What a failure says of a template for which no transfer can be made; nothing where
/// the failure is of another kind.
pub open spec fn plan_failure_of(failure: Option<TransferError>) -> Option<PlanFailure> {
    match failure {
        Some(TransferError::CouldNotDecodeFileLocationInConfigTypeDescriptor(error)) => Some(
            PlanFailure::Undecodable(error@),
        ),
        Some(TransferError::InvalidParentOfFileLocationInConfigTypeDescriptor(path)) => Some(
            PlanFailure::NoParent(path@),
        ),
        _ => None,
    }
}

/// The transfer for one template.
///
/// The live file is where the decoded template points. The file of the snapshot is the
/// template as it is written, variables and all, pushed onto the snapshot directory.
/// The direction says which of the two is read and which is written.
pub open spec fn planned_transfer(
    template: Seq<char>,
    directory: Seq<char>,
    variables: Map<Seq<char>, Seq<char>>,
    direction: Direction,
) -> Result<FileTransferView, PlanFailure> {
    match decode(template, variables) {
        Err(failure) => Err(PlanFailure::Undecodable(failure)),
        Ok(live) => {
            let snapshot = pushed_path(directory, template);
            let source = if direction == Direction::Capture {
                live
            } else {
                snapshot
            };
            let dest = if direction == Direction::Capture {
                snapshot
            } else {
                live
            };
            match parent_path(dest) {
                None => Err(PlanFailure::NoParent(dest)),
                Some(parent) => Ok(
                    FileTransferView {
                        source,
                        dest,
                        parent_ancestors: ancestors_of_path(parent),
                    },
                ),
            }
        },
    }
}

/// The transfers for the templates in their order, up to the first template for which
/// none can be made, and what is wrong with that template.
pub open spec fn planned_transfers(
    templates: Seq<Seq<char>>,
    directory: Seq<char>,
    variables: Map<Seq<char>, Seq<char>>,
    direction: Direction,
) -> (Seq<FileTransferView>, Option<PlanFailure>)
    decreases templates.len(),
{
    if templates.len() == 0 {
        (Seq::empty(), None)
    } else {
        let (before, failure) = planned_transfers(
            templates.drop_last(),
            directory,
            variables,
            direction,
        );
        if failure is Some {
            (before, failure)
        } else {
            match planned_transfer(templates.last(), directory, variables, direction) {
                Ok(transfer) => (before.push(transfer), None),
                Err(failure) => (before, Some(failure)),
            }
        }
    }
}

/// What a snapshot transaction is going to do: the transfers that it makes, in order,
/// and the failure with which it ends after them, if it is bound to fail.
#[derive(Debug)]
pub struct TransferPlan {
    pub transfers: Vec<FileTransfer>,
    pub failure: Option<TransferError>,
}

/// The files of one snapshot directory, with the descriptor that says which files they
/// are and the variables that say where the live files are.
#[derive(Debug)]
pub struct LabeledConfigTypeStorage<'a> {
    pub variable_resolver: &'a VariableResolver,
    pub descriptor: &'a ConfigTypeDescriptor,
    pub directory_path: String,
}

impl<'a> LabeledConfigTypeStorage<'a> {
    /// The files of the snapshot directory `directory_path`.
    pub fn new(
        variable_resolver: &'a VariableResolver,
        descriptor: &'a ConfigTypeDescriptor,
        directory_path: String,
    ) -> (storage: Self)
        ensures
            storage.variable_resolver == variable_resolver,
            storage.descriptor == descriptor,
            storage.directory_path == directory_path,
    {
        LabeledConfigTypeStorage { variable_resolver, descriptor, directory_path }
    }

    /// The transfers of a transaction in the given direction, as `plan` finds them.
    pub open spec fn planned(&self, direction: Direction) -> (
        Seq<FileTransferView>,
        Option<PlanFailure>,
    ) {
        planned_transfers(
            self.descriptor@,
            self.directory_path@,
            self.variable_resolver@,
            direction,
        )
    }

    /// The transfer for one template.
    pub fn plan_transfer(&self, template: &str, direction: Direction) -> (result: Result<
        FileTransfer,
        TransferError,
    >)
        ensures
            (match result {
                Ok(transfer) => planned_transfer(
                    template@,
                    self.directory_path@,
                    self.variable_resolver@,
                    direction,
                ) == Ok::<FileTransferView, PlanFailure>(transfer@),
                Err(error) => plan_failure_of(Some(error)) is Some && planned_transfer(
                    template@,
                    self.directory_path@,
                    self.variable_resolver@,
                    direction,
                ) == Err::<FileTransferView, PlanFailure>(plan_failure_of(Some(error))->0),
            }),
    {
        let live = match self.variable_resolver.decode_string(template) {
            Ok(live) => live,
            Err(error) => {
                return Err(
                    TransferError::CouldNotDecodeFileLocationInConfigTypeDescriptor(error),
                );
            },
        };
        let snapshot = push_path(self.directory_path.as_str(), template);
        let (source, dest) = match direction {
            Direction::Capture => (live, snapshot),
            Direction::Restore => (snapshot, live),
        };
        match parent_of(dest.as_str()) {
            None => Err(TransferError::InvalidParentOfFileLocationInConfigTypeDescriptor(dest)),
            Some(parent) => {
                let parent_ancestors = ancestors_of(parent.as_str());
                Ok(FileTransfer { source, dest, parent_ancestors })
            },
        }
    }

    /// Plans a transaction in the given direction: one transfer for each template of the
    /// descriptor, in the descriptor's order, up to the first template that cannot be
    /// decoded or that leads to a path without a parent.
    pub fn plan(&self, direction: Direction) -> (plan: TransferPlan)
        ensures
            transfer_views(plan.transfers@) == self.planned(direction).0,
            plan.transfers@.len() == self.planned(direction).0.len(),
            plan_failure_of(plan.failure) == self.planned(direction).1,
            plan.failure is Some <==> self.planned(direction).1 is Some,
    {
        let mut transfers: Vec<FileTransfer> = Vec::new();
        let count = self.descriptor.len();
        let mut i: usize = 0;
        while i < count
            invariant
                count == self.descriptor@.len(),
                i <= count,
                (transfer_views(transfers@), None::<PlanFailure>) == planned_transfers(
                    self.descriptor@.take(i as int),
                    self.directory_path@,
                    self.variable_resolver@,
                    direction,
                ),
            decreases count - i,
        {
            assert(self.descriptor@.take(i + 1).drop_last() =~= self.descriptor@.take(i as int));
            match self.plan_transfer(self.descriptor.paths()[i].as_str(), direction) {
                Ok(transfer) => {
                    transfers.push(transfer);
                },
                Err(error) => {
                    proof {
                        lemma_planned_transfers_stop(
                            self.descriptor@,
                            i + 1,
                            self.directory_path@,
                            self.variable_resolver@,
                            direction,
                        );
                    }
                    return TransferPlan { transfers, failure: Some(error) };
                },
            }
            i = i + 1;
        }
        assert(self.descriptor@.take(count as int) =~= self.descriptor@);
        TransferPlan { transfers, failure: None }
    }

    /// Starts the work of capturing the live files into this snapshot directory.
    pub fn store(&self) -> (work: CaptureOperation)
        ensures
            work.transaction.carries_out(self.planned(Direction::Capture)),
            work.well_formed(),
    {
        CaptureOperation { transaction: Transaction::new(self.plan(Direction::Capture)) }
    }

    /// Starts the work of restoring the live files from this snapshot directory.
    pub fn load(&self) -> (work: LoadOperation)
        ensures
            work.transaction.carries_out(self.planned(Direction::Restore)),
            work.well_formed(),
    {
        LoadOperation { transaction: Transaction::new(self.plan(Direction::Restore)) }
    }
}

/// Once the templates up to `upto` have a failure, all the templates have the same
/// transfers and the same failure.
pub proof fn lemma_planned_transfers_stop(
    templates: Seq<Seq<char>>,
    upto: int,
    directory: Seq<char>,
    variables: Map<Seq<char>, Seq<char>>,
    direction: Direction,
)
    requires
        0 <= upto <= templates.len(),
        planned_transfers(templates.take(upto), directory, variables, direction).1 is Some,
    ensures
        planned_transfers(templates, directory, variables, direction) == planned_transfers(
            templates.take(upto),
            directory,
            variables,
            direction,
        ),
    decreases templates.len() - upto,
{
    if upto == templates.len() {
        assert(templates.take(upto) =~= templates);
    } else {
        assert(templates.take(upto + 1).drop_last() =~= templates.take(upto));
        lemma_planned_transfers_stop(templates, upto + 1, directory, variables, direction);
    }
}

/// Restoring mirrors capturing. For one template and one snapshot directory, the file
/// that a restore reads is the file that a capture writes, and the file that it writes
/// is the file that the capture reads. A template that cannot be decoded fails both in
/// the same way.
pub proof fn lemma_restore_mirrors_capture(
    template: Seq<char>,
    directory: Seq<char>,
    variables: Map<Seq<char>, Seq<char>>,
)
    ensures
        (match (
            planned_transfer(template, directory, variables, Direction::Capture),
            planned_transfer(template, directory, variables, Direction::Restore),
        ) {
            (Ok(capture), Ok(restore)) => restore.source == capture.dest && restore.dest
                == capture.source,
            (Err(PlanFailure::Undecodable(capture)), restore) => restore == Err::<
                FileTransferView,
                PlanFailure,
            >(PlanFailure::Undecodable(capture)),
            _ => true,
        }),
{
}

/// Whether `capture` copies the live file of `template` into the snapshot directory and
/// `restore` copies the same file back.
pub open spec fn mirrored(
    template: Seq<char>,
    directory: Seq<char>,
    variables: Map<Seq<char>, Seq<char>>,
    capture: FileTransferView,
    restore: FileTransferView,
) -> bool {
    &&& decode(template, variables) == Ok::<Seq<char>, DecodeFailure>(capture.source)
    &&& capture.dest == pushed_path(directory, template)
    &&& restore.source == capture.dest
    &&& restore.dest == capture.source
}

/// Restoring mirrors capturing, for a whole descriptor. Where every template has a
/// transfer in both directions, there is one transfer for each template in each
/// direction, and the restore of a template copies back what its capture has copied.
pub proof fn lemma_restores_mirror_captures(
    templates: Seq<Seq<char>>,
    directory: Seq<char>,
    variables: Map<Seq<char>, Seq<char>>,
)
    requires
        planned_transfers(templates, directory, variables, Direction::Capture).1 is None,
        planned_transfers(templates, directory, variables, Direction::Restore).1 is None,
    ensures
        planned_transfers(templates, directory, variables, Direction::Capture).0.len()
            == templates.len(),
        planned_transfers(templates, directory, variables, Direction::Restore).0.len()
            == templates.len(),
        forall|i: int|
            #![trigger planned_transfers(templates, directory, variables, Direction::Capture).0[i]]
            #![trigger planned_transfers(templates, directory, variables, Direction::Restore).0[i]]
            0 <= i < templates.len() ==> mirrored(
                templates[i],
                directory,
                variables,
                planned_transfers(templates, directory, variables, Direction::Capture).0[i],
                planned_transfers(templates, directory, variables, Direction::Restore).0[i],
            ),
    decreases templates.len(),
{
    if templates.len() > 0 {
        lemma_restores_mirror_captures(templates.drop_last(), directory, variables);
    }
}

/// A descriptor without a template gives a transaction that has nothing to do: it waits
/// for no step and has succeeded, whichever way it copies.
pub proof fn lemma_empty_descriptor_succeeds(
    transaction: Transaction,
    directory: Seq<char>,
    variables: Map<Seq<char>, Seq<char>>,
    direction: Direction,
)
    requires
        transaction.carries_out(planned_transfers(Seq::empty(), directory, variables, direction)),
    ensures
        transaction.pending_action() is None,
        transaction.outcome() == Some(Ok::<(), TransferError>(())),
{
}

/// Where a snapshot transaction stands.
#[derive(Debug)]
pub enum TransactionPhase {
    /// The parent directory of the transfer at `index` is being ensured.
    Ensuring { index: usize, cursor: EnsureCursor },
    /// The file of the transfer at `index` is being copied.
    Copying { index: usize },
    /// A step failed, and the transaction ended there.
    Failed(TransferError),
    /// Every planned transfer was made.
    Completed,
}

/// The phase that turns to the transfer at `index`: its parent directory is ensured
/// first, unless there is nothing to ensure. Behind the last transfer the transaction is
/// completed.
pub open spec fn transfer_phase_at(transfers: Seq<FileTransfer>, index: int) -> TransactionPhase {
    if 0 <= index < transfers.len() && index <= usize::MAX {
        if transfers[index].parent_ancestors@.len() == 0 {
            TransactionPhase::Copying { index: index as usize }
        } else {
            TransactionPhase::Ensuring { index: index as usize, cursor: EnsureCursor::Probing(0) }
        }
    } else {
        TransactionPhase::Completed
    }
}

/// The phase of the transfer at `index` once ensuring its parent directory stands at
/// `cursor`: the file is copied when the directory is ensured.
pub open spec fn transfer_phase_after_ensure(
    index: usize,
    cursor: EnsureCursor,
) -> TransactionPhase {
    match cursor {
        EnsureCursor::Ensured => TransactionPhase::Copying { index },
        EnsureCursor::Failed(error) => TransactionPhase::Failed(
            TransferError::CouldNotCreateDirectory(error),
        ),
        _ => TransactionPhase::Ensuring { index, cursor },
    }
}

/// A snapshot transaction: the files of a descriptor are copied one by one, each after
/// its parent directory has been ensured. The first step that fails ends it.
#[derive(Debug)]
pub struct Transaction {
    pub plan: TransferPlan,
    pub phase: TransactionPhase,
}

impl Transaction {
    /// Whether the phase points at a transfer, and at an ancestor of its parent, where
    /// it points at one at all. This holds from the start and is kept by every event.
    pub open spec fn well_formed(&self) -> bool {
        match self.phase {
            TransactionPhase::Ensuring { index, cursor } => {
                &&& index < self.plan.transfers@.len()
                &&& match cursor {
                    EnsureCursor::Probing(i) => i < self.plan.transfers@[
                        index as int
                    ].parent_ancestors@.len(),
                    EnsureCursor::Creating(i) => i < self.plan.transfers@[
                        index as int
                    ].parent_ancestors@.len(),
                    _ => false,
                }
            },
            TransactionPhase::Copying { index } => index < self.plan.transfers@.len(),
            _ => true,
        }
    }

    /// Whether the transaction stands before its first step and is going to make exactly
    /// the planned transfers, and to end with the planned failure if there is one.
    pub open spec fn carries_out(
        &self,
        planned: (Seq<FileTransferView>, Option<PlanFailure>),
    ) -> bool {
        &&& transfer_views(self.plan.transfers@) == planned.0
        &&& self.plan.transfers@.len() == planned.0.len()
        &&& plan_failure_of(self.plan.failure) == planned.1
        &&& (self.plan.failure is Some <==> planned.1 is Some)
        &&& self.phase == transfer_phase_at(self.plan.transfers@, 0)
    }

    /// The step that the transaction waits for; none once it has ended.
    pub open spec fn pending_action(&self) -> Option<ActionView> {
        match self.phase {
            TransactionPhase::Ensuring { index, cursor } => if index
                < self.plan.transfers@.len() {
                ensure_pending(self.plan.transfers@[index as int].parent_ancestors@, cursor)
            } else {
                None
            },
            TransactionPhase::Copying { index } => if index < self.plan.transfers@.len() {
                Some(
                    ActionView::CopyFile {
                        source: self.plan.transfers@[index as int].source@,
                        dest: self.plan.transfers@[index as int].dest@,
                    },
                )
            } else {
                None
            },
            _ => None,
        }
    }

    /// The phase after `event`.
    ///
    /// A missing ancestor of a parent directory is created. When the parent directory is
    /// ensured the file is copied, and when the file is copied the next transfer has its
    /// turn. A step that fails ends the transaction. An event that does not answer the
    /// pending step changes nothing.
    pub open spec fn next_phase(self, event: Event) -> TransactionPhase {
        match self.phase {
            TransactionPhase::Ensuring { index, cursor } => if index
                < self.plan.transfers@.len() {
                transfer_phase_after_ensure(
                    index,
                    ensure_advanced(
                        self.plan.transfers@[index as int].parent_ancestors@,
                        true,
                        cursor,
                        event,
                    ),
                )
            } else {
                self.phase
            },
            TransactionPhase::Copying { index } => if index < self.plan.transfers@.len() {
                match event {
                    Event::Completed => transfer_phase_at(self.plan.transfers@, index + 1),
                    Event::Failed(io_error) => TransactionPhase::Failed(
                        TransferError::CouldNotCopyFile {
                            io_error,
                            source_path: self.plan.transfers@[index as int].source,
                            dest_path: self.plan.transfers@[index as int].dest,
                        },
                    ),
                    _ => self.phase,
                }
            } else {
                self.phase
            },
            _ => self.phase,
        }
    }

    /// The transaction after `event`.
    pub open spec fn advanced(self, event: Event) -> Self {
        Transaction { plan: self.plan, phase: self.next_phase(event) }
    }

    /// How the transaction ended, once it has: with the failure of the step that failed,
    /// or, when every planned transfer was made, with the failure of the plan if it has
    /// one.
    pub open spec fn outcome(self) -> Option<Result<(), TransferError>> {
        match self.phase {
            TransactionPhase::Failed(error) => Some(Err(error)),
            TransactionPhase::Completed => match self.plan.failure {
                Some(error) => Some(Err(error)),
                None => Some(Ok(())),
            },
            _ => None,
        }
    }

    /// How the transaction ended, once it has, as storing reports it: each failure of a
    /// transfer is the failure of the same name of storing.
    pub open spec fn store_outcome(self) -> Option<Result<(), StoreLabeledConfigTypeError>> {
        match self.outcome() {
            Some(Ok(())) => Some(Ok(())),
            Some(Err(error)) => Some(Err(StoreLabeledConfigTypeError::of_transfer(error))),
            None => None,
        }
    }

    /// How the transaction ended, once it has, as loading reports it: each failure of a
    /// transfer is the failure of the same name of loading.
    pub open spec fn load_outcome(self) -> Option<Result<(), LoadLabeledConfigTypeError>> {
        match self.outcome() {
            Some(Ok(())) => Some(Ok(())),
            Some(Err(error)) => Some(Err(LoadLabeledConfigTypeError::of_transfer(error))),
            None => None,
        }
    }

    /// The transaction that carries out `plan`, before its first step.
    pub fn new(plan: TransferPlan) -> (transaction: Self)
        ensures
            transaction.plan == plan,
            transaction.phase == transfer_phase_at(plan.transfers@, 0),
            transaction.well_formed(),
    {
        let phase = Self::phase_at(&plan.transfers, 0);
        Transaction { plan, phase }
    }

    fn phase_at(transfers: &Vec<FileTransfer>, index: usize) -> (phase: TransactionPhase)
        ensures
            phase == transfer_phase_at(transfers@, index as int),
    {
        if index < transfers.len() {
            if transfers[index].parent_ancestors.len() == 0 {
                TransactionPhase::Copying { index }
            } else {
                TransactionPhase::Ensuring { index, cursor: EnsureCursor::Probing(0) }
            }
        } else {
            TransactionPhase::Completed
        }
    }

    /// The step that the transaction waits for; none once it has ended.
    pub fn pending(&self) -> (action: Option<Action>)
        ensures
            asked(action) == self.pending_action(),
    {
        match &self.phase {
            TransactionPhase::Ensuring { index, cursor } => if *index
                < self.plan.transfers.len() {
                pending_ensure(&self.plan.transfers[*index].parent_ancestors, cursor)
            } else {
                None
            },
            TransactionPhase::Copying { index } => if *index < self.plan.transfers.len() {
                Some(
                    Action::CopyFile {
                        source: self.plan.transfers[*index].source.clone(),
                        dest: self.plan.transfers[*index].dest.clone(),
                    },
                )
            } else {
                None
            },
            _ => None,
        }
    }

    /// Takes the transaction one event further.
    pub fn advance(self, event: Event) -> (next: Self)
        ensures
            next == self.advanced(event),
            self.well_formed() ==> next.well_formed(),
    {
        let Transaction { plan, phase } = self;
        let phase = match phase {
            TransactionPhase::Ensuring { index, cursor } => if index < plan.transfers.len() {
                let cursor = advance_ensure(
                    &plan.transfers[index].parent_ancestors,
                    true,
                    cursor,
                    event,
                );
                match cursor {
                    EnsureCursor::Ensured => TransactionPhase::Copying { index },
                    EnsureCursor::Failed(error) => TransactionPhase::Failed(
                        TransferError::CouldNotCreateDirectory(error),
                    ),
                    cursor => TransactionPhase::Ensuring { index, cursor },
                }
            } else {
                TransactionPhase::Ensuring { index, cursor }
            },
            TransactionPhase::Copying { index } => if index < plan.transfers.len() {
                match event {
                    Event::Completed => Self::phase_at(&plan.transfers, index + 1),
                    Event::Failed(io_error) => TransactionPhase::Failed(
                        TransferError::CouldNotCopyFile {
                            io_error,
                            source_path: plan.transfers[index].source.clone(),
                            dest_path: plan.transfers[index].dest.clone(),
                        },
                    ),
                    _ => TransactionPhase::Copying { index },
                }
            } else {
                TransactionPhase::Copying { index }
            },
            TransactionPhase::Failed(error) => TransactionPhase::Failed(error),
            TransactionPhase::Completed => TransactionPhase::Completed,
        };
        Transaction { plan, phase }
    }

    /// How the transaction ended, once it has.
    pub fn result(self) -> (result: Option<Result<(), TransferError>>)
        ensures
            result == self.outcome(),
    {
        match self.phase {
            TransactionPhase::Failed(error) => Some(Err(error)),
            TransactionPhase::Completed => match self.plan.failure {
                Some(error) => Some(Err(error)),
                None => Some(Ok(())),
            },
            _ => None,
        }
    }

    /// How a transaction that captures ended, once it has.
    pub fn store_result(self) -> (result: Option<Result<(), StoreLabeledConfigTypeError>>)
        ensures
            result == self.store_outcome(),
    {
        match self.result() {
            Some(Ok(())) => Some(Ok(())),
            Some(Err(error)) => Some(Err(StoreLabeledConfigTypeError::from_transfer(error))),
            None => None,
        }
    }

    /// How a transaction that restores ended, once it has.
    pub fn load_result(self) -> (result: Option<Result<(), LoadLabeledConfigTypeError>>)
        ensures
            result == self.load_outcome(),
    {
        match self.result() {
            Some(Ok(())) => Some(Ok(())),
            Some(Err(error)) => Some(Err(LoadLabeledConfigTypeError::from_transfer(error))),
            None => None,
        }
    }

    /// A transaction removes nothing and renames nothing: every step that it waits for
    /// probes a path, creates a directory or copies a file.
    pub proof fn lemma_only_probes_creates_and_copies(self)
        ensures
            self.pending_action() matches Some(action) ==> action is Probe
                || action is CreateDirectory || action is CopyFile,
    {
    }

    /// A transaction that is well formed waits for a step exactly as long as it has not
    /// ended.
    pub proof fn lemma_pending_until_ended(self)
        requires
            self.well_formed(),
        ensures
            self.pending_action() is None <==> self.outcome() is Some,
    {
    }
}

/// The work of capturing the live files into a snapshot directory: a transaction whose
/// failures are reported as those of storing.
#[derive(Debug)]
pub struct CaptureOperation {
    pub transaction: Transaction,
}

impl CaptureOperation {
    /// Whether the transaction is well formed. This holds from the start and is kept by
    /// every event.
    pub open spec fn well_formed(&self) -> bool {
        self.transaction.well_formed()
    }

    /// The step that the work waits for; none once it has ended.
    pub open spec fn pending_action(&self) -> Option<ActionView> {
        self.transaction.pending_action()
    }

    /// The work after `event`.
    pub open spec fn advanced(self, event: Event) -> Self {
        CaptureOperation { transaction: self.transaction.advanced(event) }
    }

    /// How the work ended, once it has.
    pub open spec fn outcome(self) -> Option<Result<(), StoreLabeledConfigTypeError>> {
        self.transaction.store_outcome()
    }

    /// The step that the work waits for; none once it has ended.
    pub fn pending(&self) -> (action: Option<Action>)
        ensures
            asked(action) == self.pending_action(),
    {
        self.transaction.pending()
    }

    /// Takes the work one event further.
    pub fn advance(self, event: Event) -> (next: Self)
        ensures
            next == self.advanced(event),
            self.well_formed() ==> next.well_formed(),
    {
        CaptureOperation { transaction: self.transaction.advance(event) }
    }

    /// How the work ended, once it has.
    pub fn result(self) -> (result: Option<Result<(), StoreLabeledConfigTypeError>>)
        ensures
            result == self.outcome(),
    {
        self.transaction.store_result()
    }

    /// Work that is well formed waits for a step exactly as long as it has not ended.
    pub proof fn lemma_pending_until_ended(self)
        requires
            self.well_formed(),
        ensures
            self.pending_action() is None <==> self.outcome() is Some,
    {
    }
}

/// The work of loading a label: a transaction that restores the live files from the
/// label's directory, whose failures are reported as those of loading. Nothing is
/// staged, so a step that fails leaves the files before it restored and the others as
/// they were.
#[derive(Debug)]
pub struct LoadOperation {
    pub transaction: Transaction,
}

impl LoadOperation {
    /// Whether the transaction is well formed. This holds from the start and is kept by
    /// every event.
    pub open spec fn well_formed(&self) -> bool {
        self.transaction.well_formed()
    }

    /// The step that the work waits for; none once it has ended.
    pub open spec fn pending_action(&self) -> Option<ActionView> {
        self.transaction.pending_action()
    }

    /// The work after `event`.
    pub open spec fn advanced(self, event: Event) -> Self {
        LoadOperation { transaction: self.transaction.advanced(event) }
    }

    /// How the work ended, once it has.
    pub open spec fn outcome(self) -> Option<Result<(), LoadLabeledConfigTypeError>> {
        self.transaction.load_outcome()
    }

    /// The step that the work waits for; none once it has ended.
    pub fn pending(&self) -> (action: Option<Action>)
        ensures
            asked(action) == self.pending_action(),
    {
        self.transaction.pending()
    }

    /// Takes the work one event further.
    pub fn advance(self, event: Event) -> (next: Self)
        ensures
            next == self.advanced(event),
            self.well_formed() ==> next.well_formed(),
    {
        LoadOperation { transaction: self.transaction.advance(event) }
    }

    /// How the work ended, once it has.
    pub fn result(self) -> (result: Option<Result<(), LoadLabeledConfigTypeError>>)
        ensures
            result == self.outcome(),
    {
        self.transaction.load_result()
    }

    /// Work that is well formed waits for a step exactly as long as it has not ended.
    pub proof fn lemma_pending_until_ended(self)
        requires
            self.well_formed(),
        ensures
            self.pending_action() is None <==> self.outcome() is Some,
    {
    }
}

} // verus!
