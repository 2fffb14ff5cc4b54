use vstd::prelude::*;

use crate::error::Error;
use crate::kafka::{Event, EventRecord};
use crate::rabbit::{HarvestReport, HarvestReportChange};
use crate::time::{spec_start_time_millis, start_time_millis};
use crate::utils::{http_get, spec_http_get, HttpResponse, NotFoundPolicy};
use crate::{ApiUrls, ChangeType, Resource};

verus! {

/// One resource of a message to resolve: its id, how it changed, and the
/// start time of its harvest report in epoch milliseconds.
#[derive(Debug)]
pub struct WorkItem {
    pub fdk_id: String,
    pub change: ChangeType,
    pub timestamp: i64,
}

pub struct ItemView {
    pub fdk_id: Seq<char>,
    pub change: ChangeType,
    pub timestamp: i64,
}

impl View for WorkItem {
    type V = ItemView;

    open spec fn view(&self) -> ItemView {
        ItemView { fdk_id: self.fdk_id@, change: self.change, timestamp: self.timestamp }
    }
}

pub open spec fn items_view(items: Seq<WorkItem>) -> Seq<ItemView> {
    items.map_values(|w: WorkItem| w@)
}

/// The work items of a list of resources that changed in the same way.
pub open spec fn changes_view(changes: Seq<HarvestReportChange>, change: ChangeType, timestamp: i64) -> Seq<ItemView> {
    changes.map_values(|c: HarvestReportChange| ItemView { fdk_id: c.fdk_id@, change, timestamp })
}

pub open spec fn removed_of(report: HarvestReport) -> Seq<HarvestReportChange> {
    match report.removed_resources {
        Some(removed) => removed@,
        None => Seq::empty(),
    }
}

/// The work items of one report: its changed resources, then its removed ones.
pub open spec fn report_items(report: HarvestReport, timestamp: i64) -> Seq<ItemView> {
    changes_view(report.changed_resources@, ChangeType::CreateOrUpdate, timestamp)
        + changes_view(removed_of(report), ChangeType::Remove, timestamp)
}

/// The work items of a message, report after report; an invalid start time
/// in any report fails the whole message.
pub open spec fn message_items(reports: Seq<HarvestReport>) -> Result<Seq<ItemView>, Error>
    decreases reports.len(),
{
    if reports.len() == 0 {
        Ok(Seq::empty())
    } else {
        match message_items(reports.drop_last()) {
            Err(e) => Err(e),
            Ok(items) => match spec_start_time_millis(reports.last().start_time@) {
                Err(e) => Err(e),
                Ok(timestamp) => Ok(items + report_items(reports.last(), timestamp)),
            },
        }
    }
}

proof fn lemma_failure_persists(reports: Seq<HarvestReport>, k: int)
    requires
        0 <= k <= reports.len(),
        message_items(reports.take(k)) is Err,
    ensures
        message_items(reports) == message_items(reports.take(k)),
    decreases reports.len() - k,
{
    if k < reports.len() {
        assert(reports.take(k + 1).drop_last() =~= reports.take(k));
        lemma_failure_persists(reports, k + 1);
    } else {
        assert(reports.take(k) =~= reports);
    }
}

fn push_changes(out: &mut Vec<WorkItem>, changes: &Vec<HarvestReportChange>, change: ChangeType, timestamp: i64)
    ensures
        items_view(final(out)@) == items_view(old(out)@) + changes_view(changes@, change, timestamp),
{
    let ghost start = items_view(out@);
    let mut j: usize = 0;
    while j < changes.len()
        invariant
            j <= changes.len(),
            items_view(out@) == start + changes_view(changes@, change, timestamp).take(j as int),
        decreases changes.len() - j,
    {
        let ghost before = out@;
        out.push(WorkItem { fdk_id: changes[j].fdk_id.clone(), change, timestamp });
        proof {
            assert(items_view(out@) =~= items_view(before).push(out@.last()@));
            assert(changes_view(changes@, change, timestamp).take(j + 1) =~= changes_view(changes@, change, timestamp).take(
                j as int,
            ).push(out@.last()@));
        }
        j += 1;
    }
    assert(changes_view(changes@, change, timestamp).take(j as int) =~= changes_view(changes@, change, timestamp));
}

/// Lists the resources of a message in the order they are handled.
pub fn work_items(reports: &Vec<HarvestReport>) -> (r: Result<Vec<WorkItem>, Error>)
    ensures
        match message_items(reports@) {
            Ok(items) => r is Ok && items_view(r->Ok_0@) == items,
            Err(e) => r == Err::<Vec<WorkItem>, Error>(e),
        },
{
    let mut out: Vec<WorkItem> = Vec::new();
    let mut i: usize = 0;
    assert(reports@.take(0) =~= Seq::<HarvestReport>::empty());
    assert(items_view(out@) =~= Seq::<ItemView>::empty());
    while i < reports.len()
        invariant
            i <= reports.len(),
            message_items(reports@.take(i as int)) == Ok::<Seq<ItemView>, Error>(items_view(out@)),
        decreases reports.len() - i,
    {
        let report = &reports[i];
        assert(reports@.take(i + 1).drop_last() =~= reports@.take(i as int));
        assert(reports@.take(i + 1).last() == reports@[i as int]);
        let timestamp = match start_time_millis(report.start_time.as_str()) {
            Ok(timestamp) => timestamp,
            Err(e) => {
                proof {
                    lemma_failure_persists(reports@, i + 1);
                }
                return Err(e);
            },
        };
        push_changes(&mut out, &report.changed_resources, ChangeType::CreateOrUpdate, timestamp);
        match &report.removed_resources {
            Some(removed) => {
                push_changes(&mut out, removed, ChangeType::Remove, timestamp);
            },
            None => {},
        }
        assert(items_view(out@) =~= message_items(reports@.take(i + 1))->Ok_0);
        i += 1;
    }
    assert(reports@.take(i as int) =~= reports@);
    Ok(out)
}

/// What the handler of a message does next.
#[derive(Debug)]
pub enum Action<E> {
    /// Fetch the content of the resource at hand from this URL, and hand the
    /// answer to `fetched`.
    Fetch(String),
    /// Publish this event, and hand the outcome to `published`.
    Publish(E),
    /// The message is handled, with this result; it is acknowledged either way.
    Finish(Result<(), Error>),
}

/// The view of an action.
pub enum Step {
    Fetch(Seq<char>),
    Publish(EventRecord),
    Finish(Result<(), Error>),
}

impl<E: Event> Action<E> {
    pub open spec fn step(&self) -> Step {
        match self {
            Action::Fetch(url) => Step::Fetch(url@),
            Action::Publish(event) => Step::Publish(event.record()),
            Action::Finish(result) => Step::Finish(*result),
        }
    }
}

/// What taking up a work item of a message yields: a fetch of its content,
/// the event itself when it needs no content, or the error that ends the
/// message.
pub open spec fn start_step<R: Resource>(routing_key: Seq<char>, apis: ApiUrls, item: ItemView) -> Step {
    match R::spec_event_type(routing_key, item.change) {
        Err(e) => Step::Finish(Err(e)),
        Ok(event_type) => match R::spec_source(event_type, apis, item.fdk_id) {
            Err(e) => Step::Finish(Err(e)),
            Ok(Some(url)) => Step::Fetch(url),
            Ok(None) => Step::Publish(R::spec_event(event_type, item.fdk_id, Seq::empty(), item.timestamp)),
        },
    }
}

/// The handling of one message by a resource kind `R`.
///
/// The work items are taken up in order. Each is resolved into at most one
/// event, which is published before the next item is taken up; the first
/// error ends the message.
pub struct Run<R: Resource> {
    /// The routing key that the message was delivered with.
    pub routing_key: String,
    pub apis: ApiUrls,
    pub not_found: NotFoundPolicy,
    pub items: Vec<WorkItem>,
    /// The index of the next item to take up.
    pub next: usize,
    /// The event type of the item before `next`, while its content is fetched.
    pub pending: Option<R::EventType>,
    /// The error that the message failed with before any item was taken up.
    pub failure: Option<Error>,
    /// Whether the message is handled.
    pub done: bool,
}

impl<R: Resource> Run<R> {
    pub open spec fn wf(&self) -> bool {
        &&& self.next <= self.items.len()
        &&& self.pending is Some ==> self.next >= 1 && self.failure is None
    }

    /// Whether two states handle the same message in the same setting.
    pub open spec fn same_message(&self, other: &Self) -> bool {
        &&& self.routing_key == other.routing_key
        &&& self.apis == other.apis
        &&& self.not_found == other.not_found
        &&& self.items == other.items
    }

    /// What taking up the next work item yields.
    pub open spec fn next_step(&self) -> Step {
        match self.failure {
            Some(e) => Step::Finish(Err(e)),
            None => if self.next >= self.items.len() {
                Step::Finish(Ok(()))
            } else {
                start_step::<R>(self.routing_key@, self.apis, self.items@[self.next as int]@)
            },
        }
    }

    /// `after` is the state once the next work item is taken up, with `step`
    /// the action that came of it.
    pub open spec fn took_up(&self, after: &Self, step: Step) -> bool {
        &&& after.wf()
        &&& after.same_message(self)
        &&& step == self.next_step()
        &&& after.done == step is Finish
        &&& !(step is Finish) ==> after.failure is None
        &&& step is Fetch ==> after.next == self.next + 1 && after.pending == Some(
            R::spec_event_type(self.routing_key@, self.items@[self.next as int].change)->Ok_0,
        )
        &&& step is Publish ==> after.next == self.next + 1 && after.pending is None
    }

    /// Sets up the handling of a message whose payload decoded to `decoded`;
    /// a payload that did not decode fails the message.
    pub fn start(routing_key: String, apis: ApiUrls, not_found: NotFoundPolicy, decoded: Result<Vec<HarvestReport>, String>) -> (r: Self)
        ensures
            r.wf(),
            r.routing_key == routing_key,
            r.apis == apis,
            r.not_found == not_found,
            r.next == 0,
            r.pending is None,
            !r.done,
            match decoded {
                Err(msg) => r.failure == Some(Error::MalformedPayload(msg)),
                Ok(reports) => match message_items(reports@) {
                    Ok(items) => r.failure is None && items_view(r.items@) == items,
                    Err(e) => r.failure == Some(e),
                },
            },
    {
        let (items, failure) = match decoded {
            Err(msg) => (Vec::new(), Some(Error::MalformedPayload(msg))),
            Ok(reports) => match work_items(&reports) {
                Ok(items) => (items, None),
                Err(e) => (Vec::new(), Some(e)),
            },
        };
        Run { routing_key, apis, not_found, items, next: 0, pending: None, failure, done: false }
    }

    /// Takes up the next work item, or finishes the message.
    pub fn next(&mut self) -> (r: Action<R::Event>)
        requires
            old(self).wf(),
            old(self).pending is None,
            !old(self).done,
        ensures
            old(self).took_up(final(self), r.step()),
    {
        if let Some(e) = self.failure.take() {
            self.done = true;
            return Action::Finish(Err(e));
        }
        if self.next >= self.items.len() {
            self.done = true;
            return Action::Finish(Ok(()));
        }
        let change = self.items[self.next].change;
        let timestamp = self.items[self.next].timestamp;
        let event_type = match R::event_type(self.routing_key.as_str(), change) {
            Ok(event_type) => event_type,
            Err(e) => {
                self.done = true;
                return Action::Finish(Err(e));
            },
        };
        match R::source(event_type, &self.apis, self.items[self.next].fdk_id.as_str()) {
            Err(e) => {
                self.done = true;
                Action::Finish(Err(e))
            },
            Ok(Some(url)) => {
                self.pending = Some(event_type);
                self.next = self.next + 1;
                Action::Fetch(url)
            },
            Ok(None) => {
                let id = self.items[self.next].fdk_id.clone();
                let event = R::event(event_type, id, String::new(), timestamp);
                self.next = self.next + 1;
                Action::Publish(event)
            },
        }
    }

    /// Takes the answer to the fetch of the content of the item at hand: its
    /// event is published, or the item is skipped, or the message fails.
    pub fn fetched(&mut self, response: Result<HttpResponse, String>) -> (r: Action<R::Event>)
        requires
            old(self).wf(),
            old(self).pending is Some,
            !old(self).done,
        ensures
            match spec_http_get(response, old(self).not_found) {
                Err(e) => r.step() == Step::Finish(Err(e)) && final(self).done,
                Ok(Some(graph)) => {
                    &&& r.step() == Step::Publish(
                        R::spec_event(
                            old(self).pending->Some_0,
                            old(self).items@[old(self).next - 1].fdk_id@,
                            graph@,
                            old(self).items@[old(self).next - 1].timestamp,
                        ),
                    )
                    &&& final(self).wf()
                    &&& final(self).same_message(old(self))
                    &&& final(self).next == old(self).next
                    &&& final(self).pending is None
                    &&& final(self).failure is None
                    &&& !final(self).done
                },
                Ok(None) => old(self).took_up(final(self), r.step()),
            },
    {
        let event_type = self.pending.take().unwrap();
        match http_get(response, self.not_found) {
            Err(e) => {
                self.done = true;
                Action::Finish(Err(e))
            },
            Ok(Some(graph)) => {
                let item = &self.items[self.next - 1];
                Action::Publish(R::event(event_type, item.fdk_id.clone(), graph, item.timestamp))
            },
            Ok(None) => self.next(),
        }
    }

    /// Takes the outcome of publishing the event at hand: the next work item
    /// is taken up, or the message fails.
    pub fn published(&mut self, outcome: Result<(), Error>) -> (r: Action<R::Event>)
        requires
            old(self).wf(),
            old(self).pending is None,
            !old(self).done,
        ensures
            match outcome {
                Err(e) => r.step() == Step::Finish(Err(e)) && final(self).done,
                Ok(()) => old(self).took_up(final(self), r.step()),
            },
    {
        match outcome {
            Err(e) => {
                self.done = true;
                Action::Finish(Err(e))
            },
            Ok(()) => self.next(),
        }
    }
}

/// A removed resource never causes a fetch: taking it up yields its event
/// at once, with its id, its timestamp and an empty graph.
pub proof fn lemma_remove_never_fetches<R: Resource>(routing_key: Seq<char>, apis: ApiUrls, item: ItemView)
    requires
        item.change == ChangeType::Remove,
    ensures
        start_step::<R>(routing_key, apis, item) is Publish,
        start_step::<R>(routing_key, apis, item)->Publish_0.graph == Seq::<char>::empty(),
        start_step::<R>(routing_key, apis, item)->Publish_0.fdk_id == item.fdk_id,
        start_step::<R>(routing_key, apis, item)->Publish_0.timestamp == item.timestamp,
{
    R::lemma_remove_needs_no_content(routing_key, apis, item.fdk_id);
    let event_type = R::spec_event_type(routing_key, ChangeType::Remove)->Ok_0;
    R::lemma_event_fields(event_type, item.fdk_id, Seq::empty(), item.timestamp);
}

/// The label that the outcome of a message is counted under.
pub open spec fn spec_outcome_label(result: Result<(), Error>) -> Seq<char> {
    if result is Ok {
        "success"@
    } else {
        "error"@
    }
}

pub fn outcome_label(result: &Result<(), Error>) -> (r: &'static str)
    ensures
        r@ == spec_outcome_label(*result),
{
    match result {
        Ok(()) => "success",
        Err(_) => "error",
    }
}

} // verus!
