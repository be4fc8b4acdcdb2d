//! Filtering projection from backend messages to the typed session stream.

use bytes::Bytes;
use std::collections::VecDeque;
use vstd::prelude::*;

use crate::codec::backend::BackendView;
use crate::codec::diagnostic::{diagnostic_fields, DiagnosticFieldView};
use crate::codec::{BackendMessage, DiagnosticField, DiagnosticResponse, TransactionStatus};
use crate::octet_map::{text_map, OctetMap};
use crate::octets::octets;

verus! {

/// Position of a command within a connection's session.
#[derive(Clone, Copy, Debug, PartialEq, Eq, PartialOrd, Ord, Structural)]
pub struct CommandIndex(pub u64);

/// A backend notice attributed to the command active when it arrived.
#[derive(Clone, Debug, PartialEq, Eq)]
pub struct TaggedNotice {
    /// Command to which the notice belongs.
    pub command: CommandIndex,
    /// Structured notice fields.
    pub fields: DiagnosticResponse,
}

/// A decoded asynchronous notification.
#[derive(Clone, Debug, PartialEq, Eq)]
pub struct Notification {
    /// Process identifier of the notifying backend.
    pub process_id: u32,
    /// Notification channel.
    pub channel: Bytes,
    /// Notification payload.
    pub payload: Bytes,
}

/// One ordered `ParameterStatus` update retained for proxy forwarding.
#[derive(Clone, Debug, PartialEq, Eq)]
pub struct ParameterStatus {
    /// Parameter name.
    pub name: Bytes,
    /// Current parameter value.
    pub value: Bytes,
}

/// A causally independent backend event retained in its original wire order.
#[derive(Clone, Debug, PartialEq, Eq)]
pub enum AsyncEvent {
    /// A positionally tagged notice.
    Notice(TaggedNotice),
    /// Octets of a notice without legible fields.
    OpaqueNotice(Bytes),
    /// A run-time parameter update.
    ParameterStatus(ParameterStatus),
    /// A `LISTEN`/`NOTIFY` notification.
    Notification(Notification),
}

/// Ordering and command attribution for an asynchronous backend event.
#[derive(Clone, Debug, PartialEq, Eq)]
pub struct OrderedAsyncEvent {
    /// Monotonic sequence number across all asynchronous event kinds.
    pub sequence: u64,
    /// Command active when the event arrived.
    pub command: CommandIndex,
    /// Decoded event.
    pub event: AsyncEvent,
}

/// Backend cancellation credentials captured during startup. They have no debug
/// representation, so that the secret cannot end up in a log.
#[derive(Clone, PartialEq, Eq, Hash)]
pub struct CancelKey {
    /// Backend process identifier.
    pub process_id: u32,
    /// Opaque cancellation secret.
    pub secret_key: Bytes,
}

/// A protocol-advancing message, optionally closing a command boundary.
#[derive(Clone, Debug, PartialEq, Eq)]
pub enum SessionItem {
    /// An ordinary protocol-advancing backend message.
    Message(BackendMessage),
    /// Readiness together with pooling-relevant state accumulated by the demux.
    ReadyForQuery {
        /// Backend transaction status.
        status: TransactionStatus,
        /// Whether run-time parameters differ from their startup baseline.
        parameters_changed: bool,
    },
    /// Command completion with notices accumulated since the previous boundary.
    CommandComplete {
        /// Backend command tag.
        tag: Bytes,
        /// Completed command's position in the session.
        command: CommandIndex,
        /// Notices attributed to this command.
        notices: Vec<TaggedNotice>,
    },
}

#[verifier::ext_equal]
pub struct NoticeView {
    pub command: CommandIndex,
    pub fields: Seq<DiagnosticFieldView>,
}

#[verifier::ext_equal]
pub struct NotificationView {
    pub process_id: u32,
    pub channel: Seq<u8>,
    pub payload: Seq<u8>,
}

#[verifier::ext_equal]
pub struct StatusView {
    pub name: Seq<u8>,
    pub value: Seq<u8>,
}

#[verifier::ext_equal]
pub enum AsyncView {
    Notice(NoticeView),
    OpaqueNotice(Seq<u8>),
    ParameterStatus(StatusView),
    Notification(NotificationView),
}

#[verifier::ext_equal]
pub struct OrderedAsyncView {
    pub sequence: u64,
    pub command: CommandIndex,
    pub event: AsyncView,
}

#[verifier::ext_equal]
pub struct CancelKeyView {
    pub process_id: u32,
    pub secret_key: Seq<u8>,
}

/// What a session item says.
#[verifier::ext_equal]
pub enum SessionView {
    Message(BackendView),
    ReadyForQuery { status: TransactionStatus, parameters_changed: bool },
    CommandComplete { tag: Seq<u8>, command: CommandIndex, notices: Seq<NoticeView> },
}

impl View for TaggedNotice {
    type V = NoticeView;

    open spec fn view(&self) -> NoticeView {
        NoticeView { command: self.command, fields: self.fields@ }
    }
}

impl View for Notification {
    type V = NotificationView;

    open spec fn view(&self) -> NotificationView {
        NotificationView {
            process_id: self.process_id,
            channel: octets(self.channel),
            payload: octets(self.payload),
        }
    }
}

impl View for ParameterStatus {
    type V = StatusView;

    open spec fn view(&self) -> StatusView {
        StatusView { name: octets(self.name), value: octets(self.value) }
    }
}

impl View for AsyncEvent {
    type V = AsyncView;

    open spec fn view(&self) -> AsyncView {
        match self {
            AsyncEvent::Notice(notice) => AsyncView::Notice(notice@),
            AsyncEvent::OpaqueNotice(body) => AsyncView::OpaqueNotice(octets(*body)),
            AsyncEvent::ParameterStatus(status) => AsyncView::ParameterStatus(status@),
            AsyncEvent::Notification(notification) => AsyncView::Notification(notification@),
        }
    }
}

impl View for OrderedAsyncEvent {
    type V = OrderedAsyncView;

    open spec fn view(&self) -> OrderedAsyncView {
        OrderedAsyncView { sequence: self.sequence, command: self.command, event: self.event@ }
    }
}

impl View for CancelKey {
    type V = CancelKeyView;

    open spec fn view(&self) -> CancelKeyView {
        CancelKeyView { process_id: self.process_id, secret_key: octets(self.secret_key) }
    }
}

/// What each notice says.
pub open spec fn notice_views(notices: Seq<TaggedNotice>) -> Seq<NoticeView> {
    Seq::new(notices.len(), |i: int| notices[i]@)
}

/// What each element says.
pub open spec fn views<T: View>(items: Seq<T>) -> Seq<T::V> {
    Seq::new(items.len(), |i: int| items[i]@)
}

impl View for SessionItem {
    type V = SessionView;

    open spec fn view(&self) -> SessionView {
        match self {
            SessionItem::Message(message) => SessionView::Message(message@),
            SessionItem::ReadyForQuery { status, parameters_changed } =>
                SessionView::ReadyForQuery {
                status: *status,
                parameters_changed: *parameters_changed,
            },
            SessionItem::CommandComplete { tag, command, notices } =>
                SessionView::CommandComplete {
                tag: octets(*tag),
                command: *command,
                notices: notice_views(notices@),
            },
        }
    }
}

impl SessionItem {
    /// The backend message that a session item stands for.
    pub open spec fn backend(item: SessionView) -> BackendView {
        match item {
            SessionView::Message(message) => message,
            SessionView::ReadyForQuery { status, .. } => BackendView::ReadyForQuery(status),
            SessionView::CommandComplete { tag, .. } => BackendView::CommandComplete(tag),
        }
    }

    /// Returns the backend message, dropping what the demux added to it.
    pub fn into_backend_message(self) -> (message: BackendMessage)
        ensures
            message@ == SessionItem::backend(self@),
    {
        match self {
            SessionItem::Message(message) => message,
            SessionItem::ReadyForQuery { status, .. } => BackendMessage::ReadyForQuery(status),
            SessionItem::CommandComplete { tag, .. } => BackendMessage::CommandComplete(tag),
        }
    }
}

impl DiagnosticResponse {
    /// Another handle on the same fields.
    pub(crate) fn duplicate(&self) -> (copy: DiagnosticResponse)
        ensures
            copy@ == self@,
    {
        let mut fields: Vec<DiagnosticField> = Vec::new();
        let mut at: usize = 0;
        while at < self.fields.len()
            invariant
                at <= self.fields@.len(),
                fields@.len() == at,
                forall|i: int| 0 <= i < at ==> (#[trigger] fields@[i])@ == self.fields@[i]@,
            decreases self.fields@.len() - at,
        {
            let field = &self.fields[at];
            fields.push(DiagnosticField { code: field.code, value: field.value.clone() });
            at = at + 1;
        }
        assert(diagnostic_fields(fields@) =~= diagnostic_fields(self.fields@));
        DiagnosticResponse { fields }
    }
}

impl TaggedNotice {
    fn duplicate(&self) -> (copy: TaggedNotice)
        ensures
            copy@ == self@,
    {
        TaggedNotice { command: self.command, fields: self.fields.duplicate() }
    }
}

impl CancelKey {
    /// Another handle on the same key.
    pub(crate) fn duplicate(&self) -> (copy: CancelKey)
        ensures
            copy@ == self@,
    {
        CancelKey { process_id: self.process_id, secret_key: self.secret_key.clone() }
    }
}

/// State owned below the typestate API for causally independent backend messages.
pub struct Demux {
    command: CommandIndex,
    pending_notices: Vec<TaggedNotice>,
    notices: VecDeque<TaggedNotice>,
    notifications: VecDeque<Notification>,
    parameter_statuses: VecDeque<ParameterStatus>,
    async_events: VecDeque<OrderedAsyncEvent>,
    next_async_sequence: u64,
    parameters: OctetMap<Bytes>,
    startup_parameters: Option<OctetMap<Bytes>>,
    parameters_changed: bool,
    cancel_key: Option<CancelKey>,
    transaction_status: Option<TransactionStatus>,
}

/// What a demux has recorded.
#[verifier::ext_equal]
pub struct DemuxView {
    /// Command now running.
    pub command: CommandIndex,
    /// Notices of the command now running.
    pub pending: Seq<NoticeView>,
    /// Notices not yet popped.
    pub notices: Seq<NoticeView>,
    /// Notifications not yet popped.
    pub notifications: Seq<NotificationView>,
    /// Parameter updates not yet popped.
    pub statuses: Seq<StatusView>,
    /// Asynchronous events not yet popped.
    pub events: Seq<OrderedAsyncView>,
    /// Sequence number of the next asynchronous event.
    pub next_sequence: u64,
    /// Latest value of each parameter.
    pub parameters: Map<Seq<u8>, Seq<u8>>,
    /// Parameters at the first readiness.
    pub baseline: Option<Map<Seq<u8>, Seq<u8>>>,
    /// Whether the parameters differed from the baseline when last updated.
    pub changed: bool,
    pub cancel_key: Option<CancelKeyView>,
    pub status: Option<TransactionStatus>,
}

impl View for Demux {
    type V = DemuxView;

    closed spec fn view(&self) -> DemuxView {
        DemuxView {
            command: self.command,
            pending: notice_views(self.pending_notices@),
            notices: notice_views(self.notices@),
            notifications: views(self.notifications@),
            statuses: views(self.parameter_statuses@),
            events: views(self.async_events@),
            next_sequence: self.next_async_sequence,
            parameters: text_map(self.parameters@),
            baseline: match self.startup_parameters {
                Some(parameters) => Some(text_map(parameters@)),
                None => None,
            },
            changed: self.parameters_changed,
            cancel_key: match self.cancel_key {
                Some(cancel_key) => Some(cancel_key@),
                None => None,
            },
            status: self.transaction_status,
        }
    }
}

/// The number after `value`, up to the largest one.
pub open spec fn next_number(value: u64) -> u64 {
    if value < u64::MAX {
        (value + 1) as u64
    } else {
        value
    }
}

impl DemuxView {
    /// An event is recorded behind the earlier ones, with its number and the
    /// command now running.
    pub open spec fn with_event(self, event: AsyncView) -> DemuxView {
        DemuxView {
            events: self.events.push(
                OrderedAsyncView { sequence: self.next_sequence, command: self.command, event },
            ),
            next_sequence: next_number(self.next_sequence),
            ..self
        }
    }

    /// What a message adds to the record.
    pub open spec fn after(self, message: BackendView) -> DemuxView {
        match message {
            BackendView::NoticeResponse(fields) => {
                let notice = NoticeView { command: self.command, fields };
                DemuxView {
                    pending: self.pending.push(notice),
                    notices: self.notices.push(notice),
                    ..self
                }.with_event(AsyncView::Notice(notice))
            },
            BackendView::OpaqueNotice(body) => self.with_event(AsyncView::OpaqueNotice(body)),
            BackendView::ParameterStatus { name, value } => {
                let status = StatusView { name, value };
                let parameters = self.parameters.insert(name, value);
                DemuxView {
                    parameters,
                    statuses: self.statuses.push(status),
                    changed: match self.baseline {
                        Some(baseline) => parameters != baseline,
                        None => self.changed,
                    },
                    ..self
                }.with_event(AsyncView::ParameterStatus(status))
            },
            BackendView::NotificationResponse { process_id, channel, payload } => {
                let notification = NotificationView { process_id, channel, payload };
                DemuxView { notifications: self.notifications.push(notification), ..self }
                    .with_event(AsyncView::Notification(notification))
            },
            BackendView::BackendKeyData { process_id, secret_key } => DemuxView {
                cancel_key: Some(CancelKeyView { process_id, secret_key }),
                ..self
            },
            BackendView::ReadyForQuery(status) => DemuxView {
                status: Some(status),
                baseline: match self.baseline {
                    Some(baseline) => Some(baseline),
                    None => Some(self.parameters),
                },
                ..self
            },
            BackendView::CommandComplete(tag) => DemuxView {
                pending: Seq::empty(),
                command: CommandIndex(next_number(self.command.0)),
                ..self
            },
            _ => self,
        }
    }

    /// The session item that a message gives rise to, if it advances the session.
    pub open spec fn item(self, message: BackendView) -> Option<SessionView> {
        match message {
            BackendView::NoticeResponse(_)
            | BackendView::OpaqueNotice(_)
            | BackendView::ParameterStatus { .. }
            | BackendView::NotificationResponse { .. } => None,
            BackendView::ReadyForQuery(status) => Some(
                SessionView::ReadyForQuery { status, parameters_changed: self.changed },
            ),
            BackendView::CommandComplete(tag) => Some(
                SessionView::CommandComplete { tag, command: self.command, notices: self.pending },
            ),
            _ => Some(SessionView::Message(message)),
        }
    }
}

/// Messages that are causally independent of session progress.
pub open spec fn asynchronous(message: BackendView) -> bool {
    match message {
        BackendView::NoticeResponse(_)
        | BackendView::OpaqueNotice(_)
        | BackendView::ParameterStatus { .. }
        | BackendView::NotificationResponse { .. }
        | BackendView::BackendKeyData { .. } => true,
        _ => false,
    }
}

/// A session item stands for the message it came from, so that nothing the
/// session sees is altered; and what the session does not see is asynchronous.
pub proof fn law_demux_keeps_session_messages(demux: DemuxView, message: BackendView)
    ensures
        match demux.item(message) {
            Some(item) => SessionItem::backend(item) == message,
            None => asynchronous(message),
        },
{
}

/// Asynchronous traffic leaves the command position, the readiness and the
/// baseline alone.
pub proof fn law_asynchronous_traffic_is_inert(demux: DemuxView, message: BackendView)
    requires
        asynchronous(message),
    ensures
        demux.after(message).command == demux.command,
        demux.after(message).status == demux.status,
        demux.after(message).baseline == demux.baseline,
{
}

/// Every notice waiting for a command boundary is tagged with that command.
pub open spec fn positional(demux: DemuxView) -> bool {
    forall|i: int| 0 <= i < demux.pending.len() ==> (#[trigger] demux.pending[i]).command == demux.command
}

/// Notices are positionally tagged: the tagging survives every message, and a
/// completed command carries exactly the notices tagged with it.
pub proof fn law_notices_are_positional(demux: DemuxView, message: BackendView)
    requires
        positional(demux),
    ensures
        positional(demux.after(message)),
        demux.item(message) matches Some(
            SessionView::CommandComplete { command, notices, .. },
        ) ==> command == demux.command && notices == demux.pending && forall|i: int|
            0 <= i < notices.len() ==> (#[trigger] notices[i]).command == command,
{
}

/// What a demux has recorded after messages, first to last.
pub open spec fn routed(demux: DemuxView, messages: Seq<BackendView>) -> DemuxView
    decreases messages.len(),
{
    if messages.len() == 0 {
        demux
    } else {
        routed(demux, messages.drop_last()).after(messages.last())
    }
}

/// Whether parameters count as changed exactly where they differ from the baseline.
pub open spec fn measured(demux: DemuxView) -> bool {
    demux.changed <==> (demux.baseline matches Some(baseline) && demux.parameters != baseline)
}

/// Parameters count as changed if and only if the latest values, taken together,
/// differ from those at the first readiness, whatever messages came.
pub proof fn law_changes_are_measured_against_the_baseline(
    demux: DemuxView,
    messages: Seq<BackendView>,
)
    requires
        measured(demux),
    ensures
        measured(routed(demux, messages)),
        routed(demux, messages).baseline matches Some(baseline) ==> (routed(demux, messages).changed
            <==> routed(demux, messages).parameters != baseline),
        routed(demux, messages).baseline is None ==> !routed(demux, messages).changed,
    decreases messages.len(),
{
    if messages.len() > 0 {
        law_changes_are_measured_against_the_baseline(demux, messages.drop_last());
    }
}

/// Readiness reports whether the parameters differ from the baseline, and command
/// completion carries every notice since the last completion.
pub proof fn law_readiness_reports_changes(demux: DemuxView, status: TransactionStatus)
    requires
        measured(demux),
    ensures
        demux.item(BackendView::ReadyForQuery(status)) matches Some(
            SessionView::ReadyForQuery { status: reported, parameters_changed },
        ) && reported == status && (parameters_changed <==> (demux.baseline matches Some(baseline)
            && demux.parameters != baseline)),
        demux.after(BackendView::ReadyForQuery(status)).status == Some(status),
{
}

/// A parameter that messages do not report keeps what was known of it.
pub proof fn law_unreported_parameters_stay(
    demux: DemuxView,
    messages: Seq<BackendView>,
    name: Seq<u8>,
)
    requires
        forall|at: int| 0 <= at < messages.len() ==> !reports(#[trigger] messages[at], name),
    ensures
        routed(demux, messages).parameters.dom().contains(name)
            <==> demux.parameters.dom().contains(name),
        routed(demux, messages).parameters[name] == demux.parameters[name],
    decreases messages.len(),
{
    if messages.len() > 0 {
        let front = messages.drop_last();
        assert forall|at: int| 0 <= at < front.len() implies !reports(#[trigger] front[at], name) by {
            assert(front[at] == messages[at]);
        }
        law_unreported_parameters_stay(demux, front, name);
        assert(!reports(messages[messages.len() - 1], name));
    }
}

/// A parameter has the value that was reported last.
pub proof fn law_last_report_counts(
    demux: DemuxView,
    messages: Seq<BackendView>,
    name: Seq<u8>,
    value: Seq<u8>,
    later: Seq<BackendView>,
)
    requires
        forall|at: int| 0 <= at < later.len() ==> !reports(#[trigger] later[at], name),
    ensures
        ({
            let parameters = routed(
                demux,
                messages.push(BackendView::ParameterStatus { name, value }) + later,
            ).parameters;
            parameters.dom().contains(name) && parameters[name] == value
        }),
    decreases later.len(),
{
    let told = messages.push(BackendView::ParameterStatus { name, value });
    if later.len() == 0 {
        assert(told + later =~= told);
        assert(told.drop_last() =~= messages);
    } else {
        let front = later.drop_last();
        assert forall|at: int| 0 <= at < front.len() implies !reports(#[trigger] front[at], name) by {
            assert(front[at] == later[at]);
        }
        law_last_report_counts(demux, messages, name, value, front);
        assert((told + later).drop_last() =~= told + front);
        assert((told + later).last() == later[later.len() - 1]);
    }
}

/// Whether a message reports a parameter.
pub open spec fn reports(message: BackendView, name: Seq<u8>) -> bool {
    message matches BackendView::ParameterStatus { name: reported, .. } && reported == name
}

/// The baseline is what was known at the first readiness, and stays that.
pub proof fn law_baseline_is_the_first_readiness(
    demux: DemuxView,
    messages: Seq<BackendView>,
    first: int,
)
    requires
        demux.baseline is None,
        0 <= first < messages.len(),
        messages[first] is ReadyForQuery,
        forall|at: int| 0 <= at < first ==> !(#[trigger] messages[at] is ReadyForQuery),
    ensures
        routed(demux, messages).baseline == Some(routed(demux, messages.take(first)).parameters),
    decreases messages.len(),
{
    let front = messages.drop_last();
    if first == messages.len() - 1 {
        assert(messages.take(first) =~= front);
        lemma_no_baseline_before_readiness(demux, front);
    } else {
        law_baseline_is_the_first_readiness(demux, front, first);
        assert(front.take(first) =~= messages.take(first));
    }
}

proof fn lemma_no_baseline_before_readiness(demux: DemuxView, messages: Seq<BackendView>)
    requires
        demux.baseline is None,
        forall|at: int| 0 <= at < messages.len() ==> !(#[trigger] messages[at] is ReadyForQuery),
    ensures
        routed(demux, messages).baseline is None,
    decreases messages.len(),
{
    if messages.len() > 0 {
        lemma_no_baseline_before_readiness(demux, messages.drop_last());
        assert(messages.last() == messages[messages.len() - 1]);
    }
}

/// Where each asynchronous message ends up: a notice with the command now running, a
/// notification and a parameter update with what they say, each in its own queue and
/// in the queue of events, and a cancellation key as the one known.
pub proof fn law_asynchronous_messages_are_recorded(
    demux: DemuxView,
    fields: Seq<DiagnosticFieldView>,
    process_id: u32,
    first: Seq<u8>,
    second: Seq<u8>,
)
    ensures
        ({
            let after = demux.after(BackendView::NoticeResponse(fields));
            &&& after.notices.len() == demux.notices.len() + 1
            &&& after.notices.drop_last() == demux.notices
            &&& after.notices.last().fields == fields
            &&& after.notices.last().command == demux.command
            &&& after.pending.len() == demux.pending.len() + 1
            &&& after.pending.drop_last() == demux.pending
            &&& after.pending.last() == after.notices.last()
            &&& after.events.last().event == AsyncView::Notice(after.notices.last())
            &&& demux.item(BackendView::NoticeResponse(fields)) is None
        }),
        ({
            let message = BackendView::NotificationResponse {
                process_id,
                channel: first,
                payload: second,
            };
            let after = demux.after(message);
            &&& after.notifications.len() == demux.notifications.len() + 1
            &&& after.notifications.drop_last() == demux.notifications
            &&& after.notifications.last().process_id == process_id
            &&& after.notifications.last().channel == first
            &&& after.notifications.last().payload == second
            &&& after.events.last().event == AsyncView::Notification(after.notifications.last())
            &&& demux.item(message) is None
        }),
        ({
            let message = BackendView::ParameterStatus { name: first, value: second };
            let after = demux.after(message);
            &&& after.statuses.len() == demux.statuses.len() + 1
            &&& after.statuses.drop_last() == demux.statuses
            &&& after.statuses.last().name == first
            &&& after.statuses.last().value == second
            &&& after.events.last().event == AsyncView::ParameterStatus(after.statuses.last())
            &&& demux.item(message) is None
        }),
        ({
            let after = demux.after(BackendView::OpaqueNotice(first));
            &&& after.events.last().event == AsyncView::OpaqueNotice(first)
            &&& after.notices == demux.notices
            &&& after.pending == demux.pending
            &&& after.parameters == demux.parameters
            &&& demux.item(BackendView::OpaqueNotice(first)) is None
        }),
        ({
            let message = BackendView::BackendKeyData { process_id, secret_key: first };
            let after = demux.after(message);
            &&& after.cancel_key matches Some(key)
            &&& key.process_id == process_id
            &&& key.secret_key == first
            &&& demux.item(message) == Some(SessionView::Message(message))
        }),
{
    let notice = demux.after(BackendView::NoticeResponse(fields));
    assert(notice.notices.drop_last() =~= demux.notices);
    assert(notice.pending.drop_last() =~= demux.pending);
    let notification = demux.after(
        BackendView::NotificationResponse { process_id, channel: first, payload: second },
    );
    assert(notification.notifications.drop_last() =~= demux.notifications);
    let status = demux.after(BackendView::ParameterStatus { name: first, value: second });
    assert(status.statuses.drop_last() =~= demux.statuses);
}

/// A command ends with its completion: the completion carries its tag, its position
/// and the notices since the last one, which then wait for nothing any more, and the
/// next command is the next position.
pub proof fn law_completion_ends_the_command(demux: DemuxView, tag: Seq<u8>)
    ensures
        demux.item(BackendView::CommandComplete(tag)) == Some(
            SessionView::CommandComplete { tag, command: demux.command, notices: demux.pending },
        ),
        demux.after(BackendView::CommandComplete(tag)).pending.len() == 0,
        demux.command.0 < u64::MAX ==> demux.after(BackendView::CommandComplete(tag)).command.0
            == demux.command.0 + 1,
        demux.command.0 == u64::MAX ==> demux.after(BackendView::CommandComplete(tag)).command
            == demux.command,
        demux.after(BackendView::CommandComplete(tag)).notices == demux.notices,
{
}

/// Messages that are neither asynchronous nor a boundary pass the demux without a
/// trace.
pub proof fn law_ordinary_messages_pass(demux: DemuxView, message: BackendView)
    requires
        !(message is NoticeResponse || message is OpaqueNotice || message is ParameterStatus
            || message is NotificationResponse || message is BackendKeyData
            || message is ReadyForQuery || message is CommandComplete),
    ensures
        demux.after(message) == demux,
        demux.item(message) == Some(SessionView::Message(message)),
        !asynchronous(message),
{
}

/// Notices, notifications, parameter updates and cancellation keys are asynchronous.
pub proof fn law_asynchronous_kinds(message: BackendView)
    ensures
        asynchronous(message) <==> (message is NoticeResponse || message is OpaqueNotice
            || message is ParameterStatus || message is NotificationResponse
            || message is BackendKeyData),
{
}

/// Asynchronous events keep their wire order: each message adds at most one
/// event, behind the earlier ones and numbered after them.
pub proof fn law_events_keep_wire_order(demux: DemuxView, message: BackendView)
    ensures
        demux.after(message).events == demux.events || (demux.after(message).events.len()
            == demux.events.len() + 1 && demux.after(message).events.drop_last()
            == demux.events && demux.after(message).events.last().sequence
            == demux.next_sequence && demux.after(message).events.last().command
            == demux.command),
{
    let after = demux.after(message);
    if after.events != demux.events {
        assert(after.events.drop_last() =~= demux.events);
    }
}

proof fn lemma_views_push<T: View>(items: Seq<T>, item: T)
    ensures
        views(items.push(item)) == views(items).push(item@),
{
    assert(views(items.push(item)) =~= views(items).push(item@));
}

proof fn lemma_notices_push(notices: Seq<TaggedNotice>, notice: TaggedNotice)
    ensures
        notice_views(notices.push(notice)) == notice_views(notices).push(notice@),
{
    assert(notice_views(notices.push(notice)) =~= notice_views(notices).push(notice@));
}

impl Demux {
    /// A demux that has recorded nothing.
    pub fn new() -> (demux: Demux)
        ensures
            demux@ == (DemuxView {
                command: CommandIndex(0),
                pending: Seq::empty(),
                notices: Seq::empty(),
                notifications: Seq::empty(),
                statuses: Seq::empty(),
                events: Seq::empty(),
                next_sequence: 0,
                parameters: Map::empty(),
                baseline: None,
                changed: false,
                cancel_key: None,
                status: None,
            }),
            measured(demux@),
    {
        let demux = Demux {
            command: CommandIndex(0),
            pending_notices: Vec::new(),
            notices: VecDeque::new(),
            notifications: VecDeque::new(),
            parameter_statuses: VecDeque::new(),
            async_events: VecDeque::new(),
            next_async_sequence: 0,
            parameters: OctetMap::new(),
            startup_parameters: None,
            parameters_changed: false,
            cancel_key: None,
            transaction_status: None,
        };
        proof {
            assert(demux@.pending =~= Seq::empty());
            assert(demux@.notices =~= Seq::empty());
            assert(demux@.notifications =~= Seq::empty());
            assert(demux@.statuses =~= Seq::empty());
            assert(demux@.events =~= Seq::empty());
            assert(demux@.parameters =~= Map::empty());
        }
        demux
    }

    /// Reports whether a backend message is causally independent of session progress.
    ///
    /// Pipeline orchestration uses this shared classifier rather than defining a
    /// second asynchronous-message taxonomy.
    pub fn is_asynchronous(message: &BackendMessage) -> (result: bool)
        ensures
            result == asynchronous(message@),
    {
        match message {
            BackendMessage::NoticeResponse(_)
            | BackendMessage::OpaqueNotice(_)
            | BackendMessage::ParameterStatus { .. }
            | BackendMessage::NotificationResponse { .. }
            | BackendMessage::BackendKeyData { .. } => true,
            _ => false,
        }
    }

    fn push_async(&mut self, event: AsyncEvent)
        ensures
            final(self)@ == old(self)@.with_event(event@),
    {
        let sequence: u64 = self.next_async_sequence;
        self.next_async_sequence = self.next_async_sequence.saturating_add(1);
        let ordered = OrderedAsyncEvent { sequence, command: self.command, event };
        proof {
            lemma_views_push(self.async_events@, ordered);
        }
        self.async_events.push_back(ordered);
    }

    fn route_notice(&mut self, fields: DiagnosticResponse)
        ensures
            final(self)@ == old(self)@.after(BackendView::NoticeResponse(fields@)),
    {
        let notice = TaggedNotice { command: self.command, fields };
        let pending = notice.duplicate();
        let queued = notice.duplicate();
        proof {
            lemma_notices_push(self.pending_notices@, pending);
            lemma_notices_push(self.notices@, queued);
        }
        self.pending_notices.push(pending);
        self.notices.push_back(queued);
        self.push_async(AsyncEvent::Notice(notice));
    }

    fn route_parameter(&mut self, name: Bytes, value: Bytes)
        ensures
            final(self)@ == old(self)@.after(
                BackendView::ParameterStatus { name: octets(name), value: octets(value) },
            ),
    {
        let ghost before = self@;
        self.parameters.insert(name.clone(), value.clone());
        assert(text_map(self.parameters@) =~= before.parameters.insert(
            octets(name),
            octets(value),
        ));
        let queued = ParameterStatus { name: name.clone(), value: value.clone() };
        proof {
            lemma_views_push(self.parameter_statuses@, queued);
        }
        self.parameter_statuses.push_back(queued);
        if let Some(startup_parameters) = &self.startup_parameters {
            let same: bool = self.parameters.same_texts(startup_parameters);
            self.parameters_changed = !same;
        }
        self.push_async(AsyncEvent::ParameterStatus(ParameterStatus { name, value }));
    }

    /// Routes one decoded backend message.
    ///
    /// Async messages are consumed and recorded; only session-advancing messages
    /// are returned. A notice without legible fields is recorded as an event only.
    pub fn route(&mut self, message: BackendMessage) -> (item: Option<SessionItem>)
        ensures
            final(self)@ == old(self)@.after(message@),
            match item {
                Some(item) => old(self)@.item(message@) == Some(item@),
                None => old(self)@.item(message@) is None,
            },
    {
        match message {
            BackendMessage::NoticeResponse(fields) => {
                self.route_notice(fields);
                None
            },
            BackendMessage::OpaqueNotice(body) => {
                self.push_async(AsyncEvent::OpaqueNotice(body));
                None
            },
            BackendMessage::ParameterStatus { name, value } => {
                self.route_parameter(name, value);
                None
            },
            BackendMessage::NotificationResponse { process_id, channel, payload } => {
                let queued = Notification {
                    process_id,
                    channel: channel.clone(),
                    payload: payload.clone(),
                };
                proof {
                    lemma_views_push(self.notifications@, queued);
                }
                self.notifications.push_back(queued);
                self.push_async(
                    AsyncEvent::Notification(Notification { process_id, channel, payload }),
                );
                None
            },
            BackendMessage::BackendKeyData { process_id, secret_key } => {
                self.cancel_key = Some(CancelKey { process_id, secret_key: secret_key.clone() });
                Some(
                    SessionItem::Message(BackendMessage::BackendKeyData { process_id, secret_key }),
                )
            },
            BackendMessage::ReadyForQuery(status) => {
                self.transaction_status = Some(status);
                if self.startup_parameters.is_none() {
                    let baseline = self.parameters.clone();
                    assert(text_map(baseline@) =~= text_map(self.parameters@));
                    self.startup_parameters = Some(baseline);
                }
                Some(
                    SessionItem::ReadyForQuery {
                        status,
                        parameters_changed: self.parameters_changed,
                    },
                )
            },
            BackendMessage::CommandComplete(tag) => {
                let command = self.command;
                let mut notices: Vec<TaggedNotice> = Vec::new();
                std::mem::swap(&mut notices, &mut self.pending_notices);
                assert(notice_views(self.pending_notices@) =~= Seq::empty());
                self.command = CommandIndex(self.command.0.saturating_add(1));
                Some(SessionItem::CommandComplete { tag, command, notices })
            },
            message => Some(SessionItem::Message(message)),
        }
    }

    /// Returns the latest value of every reported run-time parameter.
    pub fn parameters(&self) -> (parameters: &OctetMap<Bytes>)
        ensures
            text_map(parameters@) == self@.parameters,
    {
        &self.parameters
    }

    /// Reports whether parameters differ from the startup baseline.
    pub fn parameters_changed(&self) -> (changed: bool)
        ensures
            changed == self@.changed,
    {
        self.parameters_changed
    }

    /// Returns the most recently received cancellation key, if any.
    pub fn cancel_key(&self) -> (cancel_key: Option<&CancelKey>)
        ensures
            match cancel_key {
                Some(cancel_key) => self@.cancel_key == Some(cancel_key@),
                None => self@.cancel_key is None,
            },
    {
        match &self.cancel_key {
            Some(cancel_key) => Some(cancel_key),
            None => None,
        }
    }

    /// Returns the latest backend transaction status, if readiness was observed.
    pub fn transaction_status(&self) -> (status: Option<TransactionStatus>)
        ensures
            status == self@.status,
    {
        self.transaction_status
    }

    /// Removes the next queued asynchronous notification.
    pub fn pop_notification(&mut self) -> (notification: Option<Notification>)
        ensures
            match notification {
                Some(notification) => old(self)@.notifications.len() > 0 && notification@ == old(
                    self,
                )@.notifications[0] && final(self)@ == (DemuxView {
                    notifications: old(self)@.notifications.skip(1),
                    ..old(self)@
                }),
                None => old(self)@.notifications.len() == 0 && final(self)@ == old(self)@,
            },
    {
        let notification = self.notifications.pop_front();
        proof {
            if notification is Some {
                assert(self@.notifications =~= old(self)@.notifications.skip(1));
            }
        }
        notification
    }

    /// Removes the next positionally tagged notice for prompt client forwarding.
    pub fn pop_notice(&mut self) -> (notice: Option<TaggedNotice>)
        ensures
            match notice {
                Some(notice) => old(self)@.notices.len() > 0 && notice@ == old(self)@.notices[0]
                    && final(self)@ == (DemuxView {
                    notices: old(self)@.notices.skip(1),
                    ..old(self)@
                }),
                None => old(self)@.notices.len() == 0 && final(self)@ == old(self)@,
            },
    {
        let notice = self.notices.pop_front();
        proof {
            if notice is Some {
                assert(self@.notices =~= old(self)@.notices.skip(1));
            }
        }
        notice
    }

    /// Removes the next ordered status update for forwarding to a client.
    pub fn pop_parameter_status(&mut self) -> (status: Option<ParameterStatus>)
        ensures
            match status {
                Some(status) => old(self)@.statuses.len() > 0 && status@ == old(self)@.statuses[0]
                    && final(self)@ == (DemuxView {
                    statuses: old(self)@.statuses.skip(1),
                    ..old(self)@
                }),
                None => old(self)@.statuses.len() == 0 && final(self)@ == old(self)@,
            },
    {
        let status = self.parameter_statuses.pop_front();
        proof {
            if status is Some {
                assert(self@.statuses =~= old(self)@.statuses.skip(1));
            }
        }
        status
    }

    /// Removes the next asynchronous event in original backend wire order.
    pub fn pop_async_event(&mut self) -> (event: Option<OrderedAsyncEvent>)
        ensures
            match event {
                Some(event) => old(self)@.events.len() > 0 && event@ == old(self)@.events[0]
                    && final(self)@ == (DemuxView {
                    events: old(self)@.events.skip(1),
                    ..old(self)@
                }),
                None => old(self)@.events.len() == 0 && final(self)@ == old(self)@,
            },
    {
        let event = self.async_events.pop_front();
        proof {
            if event is Some {
                assert(self@.events =~= old(self)@.events.skip(1));
            }
        }
        event
    }
}

impl Default for Demux {
    fn default() -> (demux: Demux)
        ensures
            demux@.command == CommandIndex(0),
            demux@.pending.len() == 0,
            demux@.notices.len() == 0,
            demux@.notifications.len() == 0,
            demux@.statuses.len() == 0,
            demux@.events.len() == 0,
            demux@.next_sequence == 0,
            demux@.parameters == Map::<Seq<u8>, Seq<u8>>::empty(),
            demux@.baseline is None,
            !demux@.changed,
            demux@.cancel_key is None,
            demux@.status is None,
    {
        Demux::new()
    }
}

/// Routing a message keeps the measure. A reported parameter is recorded and passes no
/// further, and readiness tells whether the parameters differ from the baseline.
pub proof fn law_routing_keeps_the_measure(
    demux: &mut Demux,
    message: BackendMessage,
    item: Option<SessionItem>,
)
    requires
        measured(demux@),
        call_ensures(Demux::route, (demux, message), item),
    ensures
        measured(final(demux)@),
        message matches BackendMessage::ParameterStatus { name, value } ==> {
            &&& item is None
            &&& final(demux)@.parameters == old(demux)@.parameters.insert(
                octets(name),
                octets(value),
            )
            &&& final(demux)@.baseline == old(demux)@.baseline
        },
        message matches BackendMessage::ReadyForQuery(status) ==> {
            &&& item matches Some(SessionItem::ReadyForQuery { status: told, parameters_changed })
            &&& told == status
            &&& parameters_changed <==> (old(demux)@.baseline matches Some(baseline)
                && old(demux)@.parameters != baseline)
            &&& final(demux)@.baseline is Some
            &&& final(demux)@.parameters == old(demux)@.parameters
        },
{
    law_changes_are_measured_against_the_baseline(demux@, seq![message@]);
    assert(routed(demux@, seq![message@]) == demux@.after(message@)) by {
        reveal_with_fuel(routed, 2);
        assert(seq![message@].drop_last() =~= Seq::<BackendView>::empty());
    }
}

} // verus!
