//! The sync engine: one cycle of probe, push and pull, written as a machine
//! that is handed the reply to its last command and answers with the next
//! command. Whoever drives it performs the commands; every decision is made
//! here.

use crate::models::{OfflineOperation, OperationView};
use crate::pull::{pull_server_changes, since, since_of, store_after_pull};
use crate::push::{
    ApplyChange, ApplyChangeView, Operation, OperationKind, PushErrorView, UploadTask,
    UploadTaskView, created_change, decode_operation, delete_document_on_server, envelope_text,
    error_text, target_request_text, upload_target_request,
    lemma_outcomes_keep_wf, mark_done, mark_failed, mark_uploaded, no_task, operation_of,
    payload_doc_id, pending_batch, read_upload_target, select_batch, store_after_done,
    store_after_failure, store_after_upload, target_in, upload_document, upload_notice,
    upload_task_of,
};
use crate::store::{LocalStore, StoreView, operation_views};
use crate::strings::{join2, opt_text};
use crate::AppState;
use vstd::prelude::*;

verus! {

/// Seconds that a reachability probe may take.
pub const PROBE_TIMEOUT_SECS: u64 = 8;

/// Seconds between start-up and the first cycle.
pub const STARTUP_DELAY_SECS: u64 = 3;

/// Seconds between one timed cycle and the next.
pub const SYNC_INTERVAL_SECS: u64 = 30;

/// Where a cycle stands.
#[derive(Clone, Copy, Debug, PartialEq, Eq, Structural)]
pub enum Phase {
    Idle,
    Probing,
    Pushing,
    Pulling,
}

/// Which reply the operation in hand is waiting for.
#[derive(Clone, Copy, Debug, PartialEq, Eq, Structural)]
pub enum Waiting {
    /// No operation is in hand.
    Nothing,
    /// The remote service was asked for an upload target.
    UploadTarget,
    /// The bytes of the document are on their way to the target.
    Transfer,
    /// The remote service is being told that the upload is complete.
    UploadApply,
    /// The remote service is being told of a delete.
    DeleteApply,
}

/// What the driver of the engine has to do next.
#[derive(Debug, PartialEq, Eq)]
pub enum Command {
    /// Ask `url` whether the remote service is there. No credential is sent.
    Probe { url: String },
    /// Post the document's identifier and file name to `url` and hand back
    /// the body of the reply.
    RequestUploadTarget { url: String, token: String, doc_id: String, filename: String },
    /// Put the bytes stored at `local_path` to `upload_url`.
    TransferBytes { upload_url: String, local_path: String, content_type: String },
    /// Post an envelope with this one change to `url`.
    Apply { url: String, token: String, change: ApplyChange },
    /// Get from `url` the changes after `since` and hand back the body of
    /// the reply.
    FetchChanges { url: String, token: String, since: String },
    /// Nothing: the cycle is over, or none is running.
    Rest,
}

/// What a [`Command`] holds, as plain mathematical values.
pub ghost enum CommandView {
    Probe { url: Seq<char> },
    RequestUploadTarget { url: Seq<char>, token: Seq<char>, doc_id: Seq<char>, filename: Seq<char> },
    TransferBytes { upload_url: Seq<char>, local_path: Seq<char>, content_type: Seq<char> },
    Apply { url: Seq<char>, token: Seq<char>, change: ApplyChangeView },
    FetchChanges { url: Seq<char>, token: Seq<char>, since: Seq<char> },
    Rest,
}

impl View for Command {
    type V = CommandView;

    open spec fn view(&self) -> CommandView {
        match *self {
            Command::Probe { url } => CommandView::Probe { url: url@ },
            Command::RequestUploadTarget { url, token, doc_id, filename } => {
                CommandView::RequestUploadTarget {
                    url: url@,
                    token: token@,
                    doc_id: doc_id@,
                    filename: filename@,
                }
            },
            Command::TransferBytes { upload_url, local_path, content_type } => {
                CommandView::TransferBytes {
                    upload_url: upload_url@,
                    local_path: local_path@,
                    content_type: content_type@,
                }
            },
            Command::Apply { url, token, change } => CommandView::Apply {
                url: url@,
                token: token@,
                change: change@,
            },
            Command::FetchChanges { url, token, since } => CommandView::FetchChanges {
                url: url@,
                token: token@,
                since: since@,
            },
            Command::Rest => CommandView::Rest,
        }
    }
}

/// The JSON text that a command posts: the request for an upload target,
/// or the envelope of a change. The other commands post nothing.
pub open spec fn body_of(c: CommandView) -> Option<Seq<char>> {
    match c {
        CommandView::RequestUploadTarget { doc_id, filename, .. } => Some(
            target_request_text(doc_id, filename),
        ),
        CommandView::Apply { change, .. } => Some(envelope_text(change)),
        _ => None,
    }
}

impl Command {
    /// The JSON text to post with this command, if it posts any.
    pub fn body(&self) -> (r: Option<String>)
        ensures
            opt_text(r) == body_of(self@),
    {
        match self {
            Command::RequestUploadTarget { doc_id, filename, .. } => Some(
                upload_target_request(doc_id.as_str(), filename.as_str()),
            ),
            Command::Apply { change, .. } => Some(change.envelope()),
            _ => None,
        }
    }
}

/// How the last command ended.
#[derive(Debug, PartialEq, Eq)]
pub enum Reply {
    /// It went through; `body` is what came back, empty where nothing did.
    Success { body: String },
    /// It did not: the network failed, the remote service refused, or the
    /// local content could not be read.
    Failure { message: String },
}

/// What a [`Reply`] holds, as plain mathematical values.
pub ghost enum ReplyView {
    Success { body: Seq<char> },
    Failure { message: Seq<char> },
}

impl View for Reply {
    type V = ReplyView;

    open spec fn view(&self) -> ReplyView {
        match *self {
            Reply::Success { body } => ReplyView::Success { body: body@ },
            Reply::Failure { message } => ReplyView::Failure { message: message@ },
        }
    }
}

/// The view of an optional command.
pub open spec fn opt_command(o: Option<Command>) -> Option<CommandView> {
    match o {
        Some(c) => Some(c@),
        None => None,
    }
}

/// What the engine holds, as plain mathematical values.
pub ghost struct EngineView {
    pub phase: Phase,
    pub waiting: Waiting,
    pub server_url: Seq<char>,
    pub token: Seq<char>,
    /// The operations that this cycle took up.
    pub batch: Seq<OperationView>,
    /// How many of them are settled.
    pub cursor: nat,
    pub task: UploadTaskView,
    /// Whether the last probe found the remote service.
    pub online: bool,
}

/// The state after one move of the engine.
pub ghost struct Turn {
    pub engine: EngineView,
    pub store: StoreView,
    pub command: CommandView,
}

/// How the work on a queued operation begins.
pub ghost enum Begin {
    /// The upload can start.
    Upload { task: UploadTaskView },
    /// The delete can be reported.
    Delete { doc_id: Seq<char> },
    /// The operation fails before anything is sent.
    Fail { error: PushErrorView },
    /// The operation is of an unknown type and is passed over.
    Skip,
}

/// How the work on `op` begins in the store `s`.
pub open spec fn begin_of(s: StoreView, op: OperationView) -> Begin {
    match operation_of(op.op_type, payload_doc_id(op.payload)) {
        Err(error) => Begin::Fail { error },
        Ok(OperationKind::Unknown { .. }) => Begin::Skip,
        Ok(OperationKind::DeleteDocument { doc_id }) => Begin::Delete { doc_id },
        Ok(OperationKind::UploadDocument { doc_id }) => match upload_task_of(s, doc_id) {
            Ok(task) => Begin::Upload { task },
            Err(error) => Begin::Fail { error },
        },
    }
}

/// The address of the reachability probe.
pub open spec fn health_url(server: Seq<char>) -> Seq<char> {
    server + "/api/v1/health"@
}

/// The address that grants upload targets.
pub open spec fn upload_url_of(server: Seq<char>) -> Seq<char> {
    server + "/api/v1/sync/upload-url"@
}

/// The address that takes envelopes of changes.
pub open spec fn apply_url(server: Seq<char>) -> Seq<char> {
    server + "/api/v1/sync/apply"@
}

/// The address that hands out remote changes.
pub open spec fn changes_url(server: Seq<char>) -> Seq<char> {
    server + "/api/v1/sync/changes"@
}

impl EngineView {
    /// The rules of the engine: while it pushes, an operation of the batch
    /// is in hand and waits for a reply; otherwise none is.
    pub open spec fn wf(self) -> bool {
        &&& self.cursor <= self.batch.len()
        &&& self.phase == Phase::Pushing ==> self.cursor < self.batch.len() && self.waiting
            != Waiting::Nothing
        &&& self.phase != Phase::Pushing ==> self.waiting == Waiting::Nothing
    }

    /// An engine that has not run yet.
    pub open spec fn fresh() -> EngineView {
        EngineView {
            phase: Phase::Idle,
            waiting: Waiting::Nothing,
            server_url: Seq::empty(),
            token: Seq::empty(),
            batch: Seq::empty(),
            cursor: 0,
            task: no_task(),
            online: true,
        }
    }

    /// The engine at rest after a cycle: it keeps what it learned of the
    /// remote service and drops everything else.
    pub open spec fn rested(self) -> EngineView {
        EngineView {
            phase: Phase::Idle,
            waiting: Waiting::Nothing,
            token: Seq::empty(),
            batch: Seq::empty(),
            cursor: 0,
            task: no_task(),
            ..self
        }
    }

    /// The engine with the operation in hand settled.
    pub open spec fn settled(self) -> EngineView {
        EngineView {
            waiting: Waiting::Nothing,
            cursor: self.cursor + 1,
            task: no_task(),
            ..self
        }
    }

    /// Starts a cycle, unless one is running or nobody is signed in. The
    /// first command of a cycle is the probe.
    pub open spec fn trigger(self, s: StoreView, token: Option<Seq<char>>) -> (
        EngineView,
        Option<CommandView>,
    ) {
        if self.phase != Phase::Idle {
            (self, None)
        } else {
            match token {
                None => (self, None),
                Some(t) => (
                    EngineView {
                        phase: Phase::Probing,
                        server_url: s.identity.server_url,
                        token: t,
                        ..self
                    },
                    Some(CommandView::Probe { url: health_url(s.identity.server_url) }),
                ),
            }
        }
    }

    /// Takes up the operations of the batch from the cursor on, in order,
    /// until one of them needs the remote service. Operations that fail
    /// before anything is sent are recorded as failed, operations of an
    /// unknown type are passed over. When the batch is through, the pull
    /// begins.
    pub open spec fn advance(self, s: StoreView) -> Turn
        decreases self.batch.len() - self.cursor,
    {
        if self.cursor >= self.batch.len() {
            Turn {
                engine: EngineView { phase: Phase::Pulling, waiting: Waiting::Nothing, ..self },
                store: s,
                command: CommandView::FetchChanges {
                    url: changes_url(self.server_url),
                    token: self.token,
                    since: since_of(s.identity),
                },
            }
        } else {
            let op = self.batch[self.cursor as int];
            match begin_of(s, op) {
                Begin::Upload { task } => Turn {
                    engine: EngineView { waiting: Waiting::UploadTarget, task, ..self },
                    store: s,
                    command: CommandView::RequestUploadTarget {
                        url: upload_url_of(self.server_url),
                        token: self.token,
                        doc_id: task.doc_id,
                        filename: task.filename,
                    },
                },
                Begin::Delete { doc_id } => Turn {
                    engine: EngineView { waiting: Waiting::DeleteApply, ..self },
                    store: s,
                    command: CommandView::Apply {
                        url: apply_url(self.server_url),
                        token: self.token,
                        change: ApplyChangeView::DeleteDocument { id: doc_id },
                    },
                },
                Begin::Fail { error } => self.settled().advance(
                    store_after_failure(s, op.id, error_text(error)),
                ),
                Begin::Skip => self.settled().advance(s),
            }
        }
    }

    /// The operation in hand failed: the failure is recorded on it, the
    /// document stays as it is, and the batch goes on.
    pub open spec fn fail_current(self, s: StoreView, message: Seq<char>) -> Turn {
        self.settled().advance(
            store_after_failure(s, self.batch[self.cursor as int].id, message),
        )
    }

    /// The operation in hand went through: it is marked done and the batch
    /// goes on.
    pub open spec fn finish_current(self, s: StoreView) -> Turn {
        self.settled().advance(store_after_done(s, self.batch[self.cursor as int].id))
    }

    /// What a reply does while the engine pushes.
    pub open spec fn push_reply(self, s: StoreView, reply: ReplyView, now: Seq<char>) -> Turn {
        match reply {
            ReplyView::Failure { message } => self.fail_current(s, message),
            ReplyView::Success { body } => match self.waiting {
                Waiting::UploadTarget => match target_in(body) {
                    Err(error) => self.fail_current(s, error_text(error)),
                    Ok(target) => Turn {
                        engine: EngineView {
                            waiting: Waiting::Transfer,
                            task: UploadTaskView { object_key: target.object_key, ..self.task },
                            ..self
                        },
                        store: s,
                        command: CommandView::TransferBytes {
                            upload_url: target.upload_url,
                            local_path: self.task.local_path,
                            content_type: self.task.content_type,
                        },
                    },
                },
                Waiting::Transfer => Turn {
                    engine: EngineView { waiting: Waiting::UploadApply, ..self },
                    store: s,
                    command: CommandView::Apply {
                        url: apply_url(self.server_url),
                        token: self.token,
                        change: created_change(self.task),
                    },
                },
                Waiting::UploadApply => self.finish_current(
                    store_after_upload(s, self.task.doc_id, self.task.object_key, now),
                ),
                Waiting::DeleteApply => self.finish_current(s),
                Waiting::Nothing => Turn { engine: self, store: s, command: CommandView::Rest },
            },
        }
    }

    /// What the reply to the last command does, and which command follows.
    ///
    /// A failed probe ends the cycle with the store untouched. A successful
    /// one fixes the batch and starts on it. While the engine pushes, the
    /// reply belongs to the operation in hand. The reply to the request for
    /// changes is worked through and ends the cycle; when that request
    /// failed, the cycle ends with the store untouched.
    pub open spec fn resume(self, s: StoreView, reply: ReplyView, now: Seq<char>) -> Turn {
        match self.phase {
            Phase::Idle => Turn { engine: self, store: s, command: CommandView::Rest },
            Phase::Probing => match reply {
                ReplyView::Failure { .. } => Turn {
                    engine: EngineView { online: false, ..self.rested() },
                    store: s,
                    command: CommandView::Rest,
                },
                ReplyView::Success { .. } => (EngineView {
                    phase: Phase::Pushing,
                    batch: pending_batch(s.operations),
                    cursor: 0,
                    online: true,
                    ..self
                }).advance(s),
            },
            Phase::Pushing => self.push_reply(s, reply, now),
            Phase::Pulling => match reply {
                ReplyView::Failure { .. } => Turn {
                    engine: self.rested(),
                    store: s,
                    command: CommandView::Rest,
                },
                ReplyView::Success { body } => Turn {
                    engine: self.rested(),
                    store: store_after_pull(s, body, now),
                    command: CommandView::Rest,
                },
            },
        }
    }
}

/// Going through the batch keeps the rules of the store and of the engine.
pub proof fn lemma_advance_wf(e: EngineView, s: StoreView)
    requires
        s.wf(),
        e.cursor <= e.batch.len(),
        e.phase == Phase::Pushing,
    ensures
        e.advance(s).store.wf(),
        e.advance(s).engine.wf(),
        e.advance(s).store.documents == s.documents,
        e.advance(s).store.identity == s.identity,
    decreases e.batch.len() - e.cursor,
{
    if e.cursor < e.batch.len() {
        let op = e.batch[e.cursor as int];
        lemma_outcomes_keep_wf(s);
        match begin_of(s, op) {
            Begin::Fail { error } => {
                lemma_advance_wf(e.settled(), store_after_failure(s, op.id, error_text(error)));
            },
            Begin::Skip => {
                lemma_advance_wf(e.settled(), s);
            },
            _ => {},
        }
    }
}

/// Every move of the engine keeps the rules of the store and of the engine.
pub proof fn lemma_resume_wf(e: EngineView, s: StoreView, reply: ReplyView, now: Seq<char>)
    requires
        e.wf(),
        s.wf(),
    ensures
        e.resume(s, reply, now).store.wf(),
        e.resume(s, reply, now).engine.wf(),
{
    lemma_outcomes_keep_wf(s);
    match e.phase {
        Phase::Idle => {},
        Phase::Probing => {
            if reply is Success {
                lemma_advance_wf(
                    EngineView {
                        phase: Phase::Pushing,
                        batch: pending_batch(s.operations),
                        cursor: 0,
                        online: true,
                        ..e
                    },
                    s,
                );
            }
        },
        Phase::Pushing => {
            let op = e.batch[e.cursor as int];
            match reply {
                ReplyView::Failure { message } => {
                    lemma_advance_wf(e.settled(), store_after_failure(s, op.id, message));
                },
                ReplyView::Success { body } => {
                    match e.waiting {
                        Waiting::UploadTarget => {
                            if let Err(error) = target_in(body) {
                                lemma_advance_wf(
                                    e.settled(),
                                    store_after_failure(s, op.id, error_text(error)),
                                );
                            }
                        },
                        Waiting::UploadApply => {
                            let s1 = store_after_upload(s, e.task.doc_id, e.task.object_key, now);
                            lemma_outcomes_keep_wf(s1);
                            lemma_advance_wf(e.settled(), store_after_done(s1, op.id));
                        },
                        Waiting::DeleteApply => {
                            lemma_advance_wf(e.settled(), store_after_done(s, op.id));
                        },
                        _ => {},
                    }
                },
            }
        },
        Phase::Pulling => {
            if let ReplyView::Success { body } = reply {
                crate::pull::lemma_changes_keep_wf(s, crate::pull::changes_in(body), now);
            }
        },
    }
}

/// The sync engine. It is driven from outside: [`SyncEngine::run_sync_cycle`]
/// starts a cycle, and [`SyncEngine::resume`] takes the reply to each command
/// and answers with the next.
#[derive(Debug)]
pub struct SyncEngine {
    phase: Phase,
    waiting: Waiting,
    server_url: String,
    token: String,
    batch: Vec<OfflineOperation>,
    cursor: usize,
    task: UploadTask,
    online: bool,
}

impl View for SyncEngine {
    type V = EngineView;

    closed spec fn view(&self) -> EngineView {
        EngineView {
            phase: self.phase,
            waiting: self.waiting,
            server_url: self.server_url@,
            token: self.token@,
            batch: operation_views(self.batch@),
            cursor: self.cursor as nat,
            task: self.task@,
            online: self.online,
        }
    }
}

impl SyncEngine {
    /// Whether the engine keeps its rules.
    pub open spec fn wf(&self) -> bool {
        self@.wf()
    }

    /// An engine that has not run yet.
    pub fn new() -> (e: SyncEngine)
        ensures
            e@ == EngineView::fresh(),
            e.wf(),
    {
        let e = SyncEngine {
            phase: Phase::Idle,
            waiting: Waiting::Nothing,
            server_url: String::new(),
            token: String::new(),
            batch: Vec::new(),
            cursor: 0,
            task: UploadTask::none(),
            online: true,
        };
        assert(e@.batch =~= Seq::empty());
        e
    }

    /// Where the cycle stands.
    pub fn phase(&self) -> (p: Phase)
        ensures
            p == self@.phase,
    {
        self.phase
    }

    /// Whether a cycle is running.
    pub fn is_syncing(&self) -> (b: bool)
        ensures
            b == (self@.phase != Phase::Idle),
    {
        match self.phase {
            Phase::Idle => false,
            _ => true,
        }
    }

    /// Whether the last probe found the remote service.
    pub fn is_online(&self) -> (b: bool)
        ensures
            b == self@.online,
    {
        self.online
    }

    /// Starts a cycle and returns its first command, the probe. Returns
    /// `None`, and changes nothing, while a cycle is running and when no
    /// credential is given.
    pub fn run_sync_cycle(&mut self, store: &LocalStore, token: Option<String>) -> (cmd: Option<
        Command,
    >)
        requires
            old(self).wf(),
        ensures
            final(self).wf(),
            (final(self)@, opt_command(cmd)) == old(self)@.trigger(store@, opt_text(token)),
    {
        match self.phase {
            Phase::Idle => {},
            _ => {
                return None;
            },
        }
        match token {
            None => None,
            Some(t) => {
                let server = query_server_url(store);
                let url = join2(server.as_str(), "/api/v1/health");
                self.phase = Phase::Probing;
                self.server_url = server;
                self.token = t;
                Some(Command::Probe { url })
            },
        }
    }

    /// Gives up the cycle that is running, if one is: the engine is at rest
    /// again and the store is as the last reply left it. For the driver whose
    /// own storage failed in the middle of a cycle.
    pub fn abandon(&mut self)
        ensures
            final(self)@ == old(self)@.rested(),
            final(self).wf(),
    {
        self.rest();
    }

    fn rest(&mut self)
        ensures
            final(self)@ == old(self)@.rested(),
    {
        self.phase = Phase::Idle;
        self.waiting = Waiting::Nothing;
        self.token = String::new();
        self.batch = Vec::new();
        self.cursor = 0;
        self.task = UploadTask::none();
        assert(self@.batch =~= Seq::empty());
    }

    fn settle(&mut self)
        requires
            old(self)@.cursor < old(self)@.batch.len(),
        ensures
            final(self)@ == old(self)@.settled(),
    {
        assert(self@.batch.len() == self.batch.len());
        self.waiting = Waiting::Nothing;
        self.cursor = self.cursor + 1;
        self.task = UploadTask::none();
    }

    /// Goes through the batch from the cursor on until an operation needs
    /// the remote service, and returns what it needs; when the batch is
    /// through, returns the request for remote changes.
    fn process_pending_ops(&mut self, store: &mut LocalStore) -> (cmd: Command)
        requires
            old(store).wf(),
            old(self)@.cursor <= old(self)@.batch.len(),
            old(self)@.phase == Phase::Pushing,
        ensures
            (Turn { engine: final(self)@, store: final(store)@, command: cmd@ }) == old(
                self,
            )@.advance(old(store)@),
            final(store).wf(),
            final(self).wf(),
    {
        proof {
            lemma_advance_wf(self@, store@);
        }
        while self.cursor < self.batch.len()
            invariant
                store.wf(),
                self@.cursor <= self@.batch.len(),
                self@.phase == Phase::Pushing,
                self@.advance(store@) == old(self)@.advance(old(store)@),
                old(self)@.advance(old(store)@).engine.wf(),
                old(self)@.advance(old(store)@).store.wf(),
            decreases self.batch.len() - self.cursor,
        {
            let ghost e = self@;
            let ghost s = store@;
            assert(e.batch[e.cursor as int] == self.batch@[self.cursor as int]@);
            let decoded = decode_operation(&self.batch[self.cursor]);
            match decoded {
                Err(error) => {
                    mark_failed(store, self.batch[self.cursor].id.as_str(), error.message());
                    self.settle();
                },
                Ok(Operation::Unknown { .. }) => {
                    self.settle();
                },
                Ok(Operation::DeleteDocument { doc_id }) => {
                    let cmd = Command::Apply {
                        url: join2(self.server_url.as_str(), "/api/v1/sync/apply"),
                        token: self.token.clone(),
                        change: delete_document_on_server(doc_id.as_str()),
                    };
                    self.waiting = Waiting::DeleteApply;
                    return cmd;
                },
                Ok(Operation::UploadDocument { doc_id }) => {
                    match upload_document(store, doc_id.as_str()) {
                        Err(error) => {
                            mark_failed(
                                store,
                                self.batch[self.cursor].id.as_str(),
                                error.message(),
                            );
                            self.settle();
                        },
                        Ok(task) => {
                            let cmd = Command::RequestUploadTarget {
                                url: join2(self.server_url.as_str(), "/api/v1/sync/upload-url"),
                                token: self.token.clone(),
                                doc_id: task.doc_id.clone(),
                                filename: task.filename.clone(),
                            };
                            self.task = task;
                            self.waiting = Waiting::UploadTarget;
                            return cmd;
                        },
                    }
                },
            }
        }
        let cmd = Command::FetchChanges {
            url: join2(self.server_url.as_str(), "/api/v1/sync/changes"),
            token: self.token.clone(),
            since: since(store),
        };
        self.phase = Phase::Pulling;
        self.waiting = Waiting::Nothing;
        cmd
    }

    /// Takes the reply to the last command and answers with the next one.
    /// Everything that the reply changes in the store is changed here.
    pub fn resume(&mut self, store: &mut LocalStore, reply: Reply, now: &str) -> (cmd: Command)
        requires
            old(self).wf(),
            old(store).wf(),
        ensures
            final(self).wf(),
            final(store).wf(),
            (Turn { engine: final(self)@, store: final(store)@, command: cmd@ }) == old(
                self,
            )@.resume(old(store)@, reply@, now@),
    {
        proof {
            lemma_resume_wf(self@, store@, reply@, now@);
        }
        match self.phase {
            Phase::Idle => Command::Rest,
            Phase::Probing => match reply {
                Reply::Failure { .. } => {
                    self.rest();
                    self.online = false;
                    Command::Rest
                },
                Reply::Success { .. } => {
                    self.phase = Phase::Pushing;
                    self.batch = select_batch(store);
                    self.cursor = 0;
                    self.online = true;
                    self.process_pending_ops(store)
                },
            },
            Phase::Pushing => {
                assert(self@.batch[self@.cursor as int] == self.batch@[self.cursor as int]@);
                match reply {
                    Reply::Failure { message } => {
                        mark_failed(store, self.batch[self.cursor].id.as_str(), message);
                        self.settle();
                        self.process_pending_ops(store)
                    },
                    Reply::Success { body } => match self.waiting {
                        Waiting::UploadTarget => match read_upload_target(body.as_str()) {
                            Err(error) => {
                                mark_failed(
                                    store,
                                    self.batch[self.cursor].id.as_str(),
                                    error.message(),
                                );
                                self.settle();
                                self.process_pending_ops(store)
                            },
                            Ok(target) => {
                                let cmd = Command::TransferBytes {
                                    upload_url: target.upload_url,
                                    local_path: self.task.local_path.clone(),
                                    content_type: self.task.content_type.clone(),
                                };
                                self.task.object_key = target.object_key;
                                self.waiting = Waiting::Transfer;
                                cmd
                            },
                        },
                        Waiting::Transfer => {
                            let cmd = Command::Apply {
                                url: join2(self.server_url.as_str(), "/api/v1/sync/apply"),
                                token: self.token.clone(),
                                change: upload_notice(&self.task),
                            };
                            self.waiting = Waiting::UploadApply;
                            cmd
                        },
                        Waiting::UploadApply => {
                            mark_uploaded(
                                store,
                                self.task.doc_id.as_str(),
                                self.task.object_key.as_str(),
                                now,
                            );
                            mark_done(store, self.batch[self.cursor].id.as_str());
                            self.settle();
                            self.process_pending_ops(store)
                        },
                        Waiting::DeleteApply => {
                            mark_done(store, self.batch[self.cursor].id.as_str());
                            self.settle();
                            self.process_pending_ops(store)
                        },
                        Waiting::Nothing => Command::Rest,
                    },
                }
            },
            Phase::Pulling => match reply {
                Reply::Failure { .. } => {
                    self.rest();
                    Command::Rest
                },
                Reply::Success { body } => {
                    let _ = pull_server_changes(store, body.as_str(), now);
                    self.rest();
                    Command::Rest
                },
            },
        }
    }
}

impl SyncEngine {
    /// Takes the reply to the last command as [`SyncEngine::resume`] does,
    /// at the time that the machine's clock shows.
    pub fn resume_now(&mut self, store: &mut LocalStore, reply: Reply) -> (cmd: Command)
        requires
            old(self).wf(),
            old(store).wf(),
        ensures
            final(self).wf(),
            final(store).wf(),
            exists|now: Seq<char>|
                (Turn { engine: final(self)@, store: final(store)@, command: cmd@ }) == #[trigger] old(
                    self,
                )@.resume(old(store)@, reply@, now),
    {
        let stamp = crate::system::now();
        let cmd = self.resume(store, reply, stamp.as_str());
        assert((Turn { engine: final(self)@, store: final(store)@, command: cmd@ }) == old(
            self,
        )@.resume(old(store)@, reply@, stamp@));
        cmd
    }
}

/// Starts one cycle on demand and returns its first command; `None`, with
/// nothing changed, while a cycle is running and when no credential is
/// given.
pub fn run_once(state: &mut AppState, token: Option<String>) -> (cmd: Option<Command>)
    requires
        old(state).sync.wf(),
    ensures
        final(state).sync.wf(),
        final(state).db == old(state).db,
        (final(state).sync@, opt_command(cmd)) == old(state).sync@.trigger(
            old(state).db@,
            opt_text(token),
        ),
{
    state.sync.run_sync_cycle(&state.db, token)
}

/// The address of the remote service that the store is set up for.
pub fn query_server_url(store: &LocalStore) -> (url: String)
    ensures
        url@ == store@.identity.server_url,
{
    store.identity().server_url.clone()
}

} // verus!
