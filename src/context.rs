//! The current workflow of a process: at most one, replaced by each start and
//! cleared by an end.

use crate::error::UntraceResult;
use crate::platform::random_uuid;
use crate::string_map::{map_of, StringMap};
use crate::types::{opt_view, Workflow, WorkflowModel, WorkflowOptions};
use vstd::prelude::*;

verus! {

/// What can happen to the current workflow.
pub enum ContextEvent {
    /// A workflow starts and becomes the current one.
    Start(WorkflowModel),
    /// The current workflow ends.
    End,
    /// A metadata entry is set on the current workflow.
    SetAttribute(Seq<char>, Seq<char>),
}

/// The current workflow after an event: a start replaces whatever was current,
/// an end leaves none, and metadata is set on the current workflow if there is
/// one.
pub open spec fn next_workflow(current: Option<WorkflowModel>, event: ContextEvent) -> Option<
    WorkflowModel,
> {
    match event {
        ContextEvent::Start(w) => Some(w),
        ContextEvent::End => None,
        ContextEvent::SetAttribute(k, v) => match current {
            Some(w) => Some(WorkflowModel { metadata: w.metadata.insert(k, v), ..w }),
            None => None,
        },
    }
}

/// The current workflow after a run of events.
pub open spec fn after_events(current: Option<WorkflowModel>, events: Seq<ContextEvent>) -> Option<
    WorkflowModel,
>
    decreases events.len(),
{
    if events.len() == 0 {
        current
    } else {
        next_workflow(after_events(current, events.drop_last()), events.last())
    }
}

/// Holds the current workflow, if any.
#[derive(Debug)]
pub struct UntraceContext {
    current_workflow: Option<Workflow>,
}

impl View for UntraceContext {
    type V = Option<WorkflowModel>;

    closed spec fn view(&self) -> Option<WorkflowModel> {
        match self.current_workflow {
            Some(w) => Some(w@),
            None => None,
        }
    }
}

impl UntraceContext {
    /// A context with no current workflow.
    pub fn new() -> (r: UntraceContext)
        ensures
            r@ is None,
    {
        UntraceContext { current_workflow: None }
    }

    /// Starts a workflow with a fresh identifier and makes it the current one,
    /// replacing any other.
    pub fn start_workflow(&mut self, name: String, run_id: String, options: WorkflowOptions) -> (r:
        UntraceResult<Workflow>)
        ensures
            r is Ok,
            final(self)@ == next_workflow(old(self)@, ContextEvent::Start(r->Ok_0@)),
            r->Ok_0@.id.len() == 36,
            r->Ok_0@.name == name@,
            r->Ok_0@.run_id == run_id@,
            r->Ok_0@.user_id == opt_view(options.user_id),
            r->Ok_0@.session_id == opt_view(options.session_id),
            r->Ok_0@.version == opt_view(options.version),
            r->Ok_0@.parent_id == opt_view(options.parent_id),
            r->Ok_0@.metadata == options.metadata@,
            r->Ok_0.metadata.spec_entries() == options.metadata.spec_entries(),
    {
        let workflow = Workflow::new(name, run_id, options);
        self.current_workflow = Some(workflow.clone());
        Ok(workflow)
    }

    /// A copy of the current workflow, if any.
    pub fn get_current_workflow(&self) -> (r: Option<Workflow>)
        ensures
            match r {
                Some(w) => self@ == Some(w@),
                None => self@ is None,
            },
    {
        match &self.current_workflow {
            Some(w) => Some(w.clone()),
            None => None,
        }
    }

    /// Ends the current workflow; with none current, nothing changes.
    pub fn end_current_workflow(&mut self) -> (r: UntraceResult<()>)
        ensures
            r is Ok,
            final(self)@ == next_workflow(old(self)@, ContextEvent::End),
    {
        self.current_workflow = None;
        Ok(())
    }

    /// Sets a metadata entry on the current workflow; with none current,
    /// nothing changes.
    pub fn set_attribute(&mut self, key: String, value: String) -> (r: UntraceResult<()>)
        ensures
            r is Ok,
            final(self)@ == next_workflow(old(self)@, ContextEvent::SetAttribute(key@, value@)),
    {
        match &mut self.current_workflow {
            Some(w) => {
                w.metadata.insert(key, value);
            },
            None => {},
        }
        Ok(())
    }

    /// Sets each entry of `attributes`, in order, on the current workflow.
    pub fn set_attributes(&mut self, attributes: StringMap) -> (r: UntraceResult<()>)
        ensures
            r is Ok,
            final(self)@ == match old(self)@ {
                Some(w) => Some(
                    WorkflowModel { metadata: w.metadata.union_prefer_right(attributes@), ..w },
                ),
                None => None,
            },
    {
        let entries = attributes.entries();
        let ghost all = attributes.spec_entries();
        let ghost start = self@;
        let mut i: usize = 0;
        proof {
            assert(all.take(0) =~= Seq::<(Seq<char>, Seq<char>)>::empty());
            if let Some(w) = start {
                assert(w.metadata.union_prefer_right(map_of(all.take(0))) =~= w.metadata);
            }
        }
        while i < entries.len()
            invariant
                i <= entries@.len(),
                entries@.len() == all.len(),
                all == attributes.spec_entries(),
                forall|j: int|
                    0 <= j < entries@.len() ==> (#[trigger] entries@[j].0@, entries@[j].1@)
                        == all[j],
                self@ == match start {
                    Some(w) => Some(
                        WorkflowModel {
                            metadata: w.metadata.union_prefer_right(map_of(all.take(i as int))),
                            ..w
                        },
                    ),
                    None => None,
                },
            decreases entries@.len() - i,
        {
            let key = entries[i].0.clone();
            let value = entries[i].1.clone();
            let _ = self.set_attribute(key, value);
            proof {
                assert(all.take(i + 1).drop_last() =~= all.take(i as int));
                if let Some(w) = start {
                    assert(w.metadata.union_prefer_right(map_of(all.take(i + 1))) =~= w.metadata.union_prefer_right(
                        map_of(all.take(i as int)),
                    ).insert(all[i as int].0, all[i as int].1));
                }
            }
            i = i + 1;
        }
        assert(all.take(entries@.len() as int) =~= all);
        Ok(())
    }

    /// A fresh run identifier.
    pub fn generate_run_id(&self) -> (r: String)
        ensures
            r@.len() == 36,
    {
        random_uuid()
    }
}

impl Clone for UntraceContext {
    fn clone(&self) -> (r: Self)
        ensures
            r@ == self@,
    {
        match &self.current_workflow {
            Some(w) => UntraceContext { current_workflow: Some(w.clone()) },
            None => UntraceContext { current_workflow: None },
        }
    }
}

/// Starting a workflow makes it the current one, whatever was current before.
pub proof fn lemma_start_then_current(before: Option<WorkflowModel>, started: WorkflowModel)
    ensures
        next_workflow(before, ContextEvent::Start(started)) == Some(started),
{
}

/// Two starts in a row leave only the second workflow current: workflows do not
/// stack.
pub proof fn lemma_second_start_replaces_first(
    before: Option<WorkflowModel>,
    first: WorkflowModel,
    second: WorkflowModel,
)
    ensures
        after_events(before, seq![ContextEvent::Start(first), ContextEvent::Start(second)])
            == Some(second),
{
    let events = seq![ContextEvent::Start(first), ContextEvent::Start(second)];
    assert(events.drop_last().drop_last() =~= Seq::<ContextEvent>::empty());
}

/// After an end no workflow is current, and a second end changes nothing.
pub proof fn lemma_end_is_idempotent(before: Option<WorkflowModel>)
    ensures
        next_workflow(before, ContextEvent::End) is None,
        next_workflow(next_workflow(before, ContextEvent::End), ContextEvent::End)
            == next_workflow(before, ContextEvent::End),
{
}

} // verus!
