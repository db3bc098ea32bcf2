//! Reporting the writes of an execution after the response has gone out.

use crate::consistency::{FollowupRequest, FollowupRequestView};
use crate::ids::{id_parsed, id_text, uuid_to_string};
use crate::json::{
    add_field, json_from_fields, json_from_text, json_from_values, json_view, json_views, no_fields,
    JsonView,
};
use serde_json::Value;
use vstd::prelude::*;
use vstd::string::StringExecFns;

verus! {

/// The writes of one execution.
#[derive(Debug, PartialEq)]
pub struct FollowupContent {
    pub updates: Vec<Value>,
    pub id: u128,
}

/// What a follow-up holds.
pub struct FollowupView {
    pub updates: Seq<JsonView>,
    pub id: u128,
}

impl View for FollowupContent {
    type V = FollowupView;

    open spec fn view(&self) -> FollowupView {
        FollowupView { updates: json_views(self.updates@), id: self.id }
    }
}

/// The body that reports a follow-up.
pub open spec fn content_json(content: FollowupView) -> JsonView {
    JsonView::Object(
        map![
            "updates"@ => JsonView::Array(content.updates),
            "id"@ => JsonView::Text(id_text(content.id)),
        ],
    )
}

/// The request that reports a follow-up to an endpoint.
pub open spec fn report(endpoint: Seq<char>, content: FollowupView) -> FollowupRequestView {
    FollowupRequestView { url: endpoint + "/update"@, body: content_json(content) }
}

/// The request that reports a follow-up. The identifier in it is one that the
/// receiver reads back.
pub fn send_followups(endpoint: &str, followup_content: FollowupContent) -> (request:
    FollowupRequest)
    ensures
        request@ == report(endpoint@, followup_content@),
        id_parsed(id_text(followup_content.id)) == Some(followup_content.id),
{
    let mut fields: serde_json::Map<String, Value> = no_fields();
    add_field(&mut fields, "updates", json_from_values(followup_content.updates));
    add_field(&mut fields, "id", json_from_text(uuid_to_string(followup_content.id)));
    FollowupRequest {
        url: endpoint.to_owned().concat("/update"),
        body: json_from_fields(fields),
    }
}

/// What happens to the background task.
#[derive(Debug)]
pub enum TaskEvent {
    /// A follow-up came in, or the channel was closed.
    Received(Option<FollowupContent>),
    /// A report went out, or failed with a message.
    Sent(Result<(), String>),
}

/// What a [`TaskEvent`] holds.
pub enum TaskEventView {
    Received(Option<FollowupView>),
    Sent(Result<(), Seq<char>>),
}

impl View for TaskEvent {
    type V = TaskEventView;

    open spec fn view(&self) -> TaskEventView {
        match *self {
            TaskEvent::Received(Some(content)) => TaskEventView::Received(Some(content@)),
            TaskEvent::Received(None) => TaskEventView::Received(None),
            TaskEvent::Sent(Ok(_)) => TaskEventView::Sent(Ok(())),
            TaskEvent::Sent(Err(message)) => TaskEventView::Sent(Err(message@)),
        }
    }
}

/// What the background task does next.
#[derive(Debug, PartialEq)]
pub enum TaskStep {
    Receive,
    Send(FollowupRequest),
    Stop,
}

/// What a [`TaskStep`] holds.
pub enum TaskStepView {
    Receive,
    Send(FollowupRequestView),
    Stop,
}

impl View for TaskStep {
    type V = TaskStepView;

    open spec fn view(&self) -> TaskStepView {
        match self {
            TaskStep::Receive => TaskStepView::Receive,
            TaskStep::Send(request) => TaskStepView::Send(request@),
            TaskStep::Stop => TaskStepView::Stop,
        }
    }
}

/// One step of the background task.
pub open spec fn task_next(endpoint: Seq<char>, event: TaskEventView) -> TaskStepView {
    match event {
        TaskEventView::Received(Some(content)) => if content.updates.len() == 0 {
            TaskStepView::Receive
        } else {
            TaskStepView::Send(report(endpoint, content))
        },
        TaskEventView::Received(None) => TaskStepView::Stop,
        TaskEventView::Sent(_) => TaskStepView::Receive,
    }
}

/// The background task: it reports every follow-up that holds writes, goes on
/// after a failed report, and ends when the channel is closed.
pub fn run_followup_task(endpoint: &str, event: TaskEvent) -> (step: TaskStep)
    ensures
        step@ == task_next(endpoint@, event@),
{
    match event {
        TaskEvent::Received(Some(content)) => {
            if content.updates.is_empty() {
                TaskStep::Receive
            } else {
                TaskStep::Send(send_followups(endpoint, content))
            }
        },
        TaskEvent::Received(None) => TaskStep::Stop,
        TaskEvent::Sent(_) => TaskStep::Receive,
    }
}

/// How many messages were received.
pub open spec fn received(events: Seq<TaskEventView>) -> nat
    decreases events.len(),
{
    if events.len() == 0 {
        0
    } else {
        received(events.drop_last()) + if events.last() matches TaskEventView::Received(Some(_)) {
            1nat
        } else {
            0nat
        }
    }
}

/// The reports that were tried, in order.
pub open spec fn tried(endpoint: Seq<char>, events: Seq<TaskEventView>) -> Seq<FollowupRequestView>
    decreases events.len(),
{
    if events.len() == 0 {
        Seq::empty()
    } else {
        let before = tried(endpoint, events.drop_last());
        match task_next(endpoint, events.last()) {
            TaskStepView::Send(request) => before.push(request),
            _ => before,
        }
    }
}

/// The reports that are due for messages: one for each message that holds
/// writes, in order.
pub open spec fn due(endpoint: Seq<char>, messages: Seq<FollowupView>) -> Seq<FollowupRequestView>
    decreases messages.len(),
{
    if messages.len() == 0 {
        Seq::empty()
    } else {
        let before = due(endpoint, messages.drop_last());
        if messages.last().updates.len() == 0 {
            before
        } else {
            before.push(report(endpoint, messages.last()))
        }
    }
}

/// What the channel gives next when some of its messages were received: the
/// next message, or the end where there is none left.
pub open spec fn channel_next(messages: Seq<FollowupView>, taken: nat) -> Option<FollowupView> {
    if taken < messages.len() {
        Some(messages[taken as int])
    } else {
        None
    }
}

/// What the task does after some events: at first it receives.
pub open spec fn task_step(endpoint: Seq<char>, events: Seq<TaskEventView>) -> TaskStepView {
    if events.len() == 0 {
        TaskStepView::Receive
    } else {
        task_next(endpoint, events.last())
    }
}

/// Whether events can happen, in this order, to a task whose channel delivers
/// messages and is then closed: each event answers the step before it, and
/// behind the end there is none.
pub open spec fn can_happen(
    endpoint: Seq<char>,
    messages: Seq<FollowupView>,
    events: Seq<TaskEventView>,
) -> bool
    decreases events.len(),
{
    events.len() > 0 ==> {
        let before = events.drop_last();
        &&& can_happen(endpoint, messages, before)
        &&& match task_step(endpoint, before) {
            TaskStepView::Receive => events.last() == TaskEventView::Received(
                channel_next(messages, received(before)),
            ),
            TaskStepView::Send(_) => events.last() is Sent,
            TaskStepView::Stop => false,
        }
    }
}

/// The background task reports what its channel delivers. At every moment the
/// reports that were tried are those due for the messages received so far, in
/// their order, whether they went out or not. The task ends only when the
/// channel is closed, and then every message was received and every report
/// that is due was tried. It does end: no more happens than the receipt of each
/// message, the outcome of each report and the end of the channel.
pub proof fn law_task_reports_every_message(
    endpoint: Seq<char>,
    messages: Seq<FollowupView>,
    events: Seq<TaskEventView>,
)
    requires
        can_happen(endpoint, messages, events),
    ensures
        received(events) <= messages.len(),
        tried(endpoint, events) == due(endpoint, messages.take(received(events) as int)),
        task_step(endpoint, events) is Stop ==> {
            &&& events.last() == TaskEventView::Received(None)
            &&& received(events) == messages.len()
            &&& tried(endpoint, events) == due(endpoint, messages)
        },
        events.len() == received(events) + tried(endpoint, events).len() + match task_step(
            endpoint,
            events,
        ) {
            TaskStepView::Receive => 0int,
            TaskStepView::Send(_) => -1int,
            TaskStepView::Stop => 1int,
        },
    decreases events.len(),
{
    if events.len() == 0 {
        assert(messages.take(0) =~= Seq::empty());
    } else {
        let before = events.drop_last();
        law_task_reports_every_message(endpoint, messages, before);
        let taken = received(before) as int;
        if task_step(endpoint, before) is Receive && taken < messages.len() {
            assert(messages.take(taken + 1).drop_last() =~= messages.take(taken));
            assert(messages.take(taken + 1).last() == messages[taken]);
        }
        assert(messages.take(messages.len() as int) =~= messages);
    }
}

/// What happens to the extension while it handles one invocation.
#[derive(Debug)]
pub enum ExtensionEvent {
    /// The runtime asked for a shutdown, with this description of it.
    Shutdown(String),
    /// The function was invoked.
    Invoke,
    /// A follow-up came in, or the channel was closed.
    Received(Option<FollowupContent>),
    /// The report went out, or failed with a message.
    Sent(Result<(), String>),
}

/// What the extension does next.
#[derive(Debug, PartialEq)]
pub enum ExtensionStep {
    Receive,
    Send(FollowupRequest),
    Done,
    Fail(String),
}

/// The extension that reports the follow-up of each invocation, without its
/// connection.
#[derive(Debug)]
pub struct FollowupExtension {
    pub endpoint: String,
}

impl FollowupExtension {
    /// An extension that reports to an endpoint.
    pub fn new(endpoint: String) -> (extension: Self)
        ensures
            extension.endpoint == endpoint,
    {
        FollowupExtension { endpoint }
    }

    /// The request that reports a follow-up.
    pub fn send_followups(&self, followup_content: FollowupContent) -> (request: FollowupRequest)
        ensures
            request@ == report(self.endpoint@, followup_content@),
            id_parsed(id_text(followup_content.id)) == Some(followup_content.id),
    {
        send_followups(self.endpoint.as_str(), followup_content)
    }

    /// The handling of one invocation: wait for the follow-up, and report it if
    /// it holds writes. A shutdown, a closed channel and a failed report end it
    /// with an error.
    pub fn invoke(&self, event: ExtensionEvent) -> (step: ExtensionStep)
        ensures
            match event {
                ExtensionEvent::Shutdown(description) => step matches ExtensionStep::Fail(message)
                    && message@ == "followup received unexpected shutdown evvent: "@
                    + description@,
                ExtensionEvent::Invoke => step is Receive,
                ExtensionEvent::Received(Some(content)) => if content.updates@.len() == 0 {
                    step is Done
                } else {
                    step matches ExtensionStep::Send(request) && request@ == report(
                        self.endpoint@,
                        content@,
                    )
                },
                ExtensionEvent::Received(None) => step matches ExtensionStep::Fail(message)
                    && message@ == "channel is closed"@,
                ExtensionEvent::Sent(Ok(_)) => step is Done,
                ExtensionEvent::Sent(Err(error)) => step matches ExtensionStep::Fail(message)
                    && message@ == error@,
            },
    {
        match event {
            ExtensionEvent::Shutdown(description) => ExtensionStep::Fail(
                "followup received unexpected shutdown evvent: ".to_owned().concat(
                    description.as_str(),
                ),
            ),
            ExtensionEvent::Invoke => ExtensionStep::Receive,
            ExtensionEvent::Received(Some(content)) => {
                if content.updates.len() == 0 {
                    ExtensionStep::Done
                } else {
                    ExtensionStep::Send(self.send_followups(content))
                }
            },
            ExtensionEvent::Received(None) => ExtensionStep::Fail("channel is closed".to_owned()),
            ExtensionEvent::Sent(Ok(_)) => ExtensionStep::Done,
            ExtensionEvent::Sent(Err(error)) => ExtensionStep::Fail(error),
        }
    }
}

} // verus!
