//! The worker's own state: its graph, its registration with the server, its
//! working directory and the requests it makes of the scheduler.
use vstd::prelude::*;
use crate::endpoint::{NetworkEndpoint, WireEndpoint, WorkerId, encode_wire};
use crate::graph::{
    DataObject, DataObjectId, DataObjectState, DataObjectType, Graph, GraphError, KeepPolicy,
    Subworker, SubworkerId, TaskId, TaskInput, TaskStatus, became_ready, has_object,
    object_finished, object_unfinished, task_ok, same_task, add_task_outcome, inputs_finished, has_subworker,
};
use crate::paths::{decimal, decimal_string, join, join_path};
use vstd::string::StringExecFns;
use crate::WORKER_PROTOCOL_VERSION;

verus! {

/// What the worker offers for computation.
#[derive(Clone, Copy, Debug, PartialEq, Eq, Structural)]
pub struct Resources {
    pub n_cpus: u32,
}

/// The worker's registration request to the server.
pub struct RegisterAsWorker {
    pub version: u32,
    pub address: WireEndpoint,
}

pub struct State {
    pub graph: Graph,
    /// Whether the server's upstream capability has been received.
    pub has_upstream: bool,
    /// The id the server assigned; the empty endpoint until then.
    pub worker_id: WorkerId,
    pub work_dir: String,
    pub resources: Resources,
    /// Set when a change may have widened the set of ready tasks; cleared by
    /// the scheduler when it takes the request.
    pub scheduling_requested: bool,
}

/// The working directory's subdirectories, in the order of their creation.
pub open spec fn work_dir_layout_spec() -> Seq<Seq<char>> {
    seq!["data"@, "tasks"@, "subworkers"@, "subworkers/logs"@]
}

pub open spec fn log_path_spec(dir: Seq<char>, id: nat, ext: Seq<char>) -> Seq<char> {
    join_path(dir, "subworkers/logs/subworker-"@ + decimal(id) + ext)
}

impl State {
    pub open spec fn wf(&self) -> bool {
        &&& self.graph.wf()
    }

    /// Registered: the upstream and the worker id have both been stored.
    pub open spec fn registered_spec(&self) -> bool {
        self.has_upstream && !self.worker_id.is_empty_spec()
    }

    /// A fresh state with an empty graph and no registration.
    pub fn new(work_dir: String, n_cpus: u32) -> (r: State)
        ensures
            r.wf(),
            r.work_dir@ == work_dir@,
            r.resources.n_cpus == n_cpus,
            !r.has_upstream,
            r.worker_id.is_empty_spec(),
            r.graph.tasks@.len() == 0,
            r.graph.objects@.len() == 0,
            r.graph.subworkers@.len() == 0,
            !r.scheduling_requested,
    {
        State {
            graph: Graph::new(),
            has_upstream: false,
            worker_id: NetworkEndpoint::empty(),
            work_dir,
            resources: Resources { n_cpus },
            scheduling_requested: false,
        }
    }

    /// A fresh subworker id: the graph's counter, which then moves on by one.
    pub fn make_subworker_id(&mut self) -> (r: SubworkerId)
        requires
            old(self).graph.id_counter < u64::MAX,
        ensures
            issues_id(old(self).graph.id_counter, r, final(self).graph.id_counter),
            final(self).graph.tasks == old(self).graph.tasks,
            final(self).graph.objects == old(self).graph.objects,
            final(self).graph.subworkers == old(self).graph.subworkers,
            final(self).has_upstream == old(self).has_upstream,
            final(self).worker_id == old(self).worker_id,
            final(self).work_dir == old(self).work_dir,
            final(self).scheduling_requested == old(self).scheduling_requested,
    {
        self.graph.make_id()
    }

    /// The id `make_subworker_id` would hand out next.
    pub fn next_subworker_id(&self) -> (r: u64)
        ensures
            r == self.graph.id_counter,
    {
        self.graph.id_counter
    }

    /// `path` taken relative to the working directory.
    pub fn path_in_work_dir(&self, path: &str) -> (r: String)
        ensures
            r@ == join_path(self.work_dir@, path@),
    {
        join(self.work_dir.as_str(), path)
    }

    /// The subdirectories that `start` creates, in order.
    pub fn work_dir_layout(&self) -> (r: Vec<String>)
        ensures
            r@.len() == 4,
            forall|i: int| 0 <= i < 4 ==> #[trigger] r@[i]@ == work_dir_layout_spec()[i],
    {
        let mut r: Vec<String> = Vec::new();
        r.push("data".to_owned());
        r.push("tasks".to_owned());
        r.push("subworkers".to_owned());
        r.push("subworkers/logs".to_owned());
        proof {
            reveal_strlit("data");
            reveal_strlit("tasks");
            reveal_strlit("subworkers");
            reveal_strlit("subworkers/logs");
        }
        r
    }

    /// Where the subworkers' Unix socket listens.
    pub fn subworker_listen_path(&self) -> (r: String)
        ensures
            r@ == join_path(self.work_dir@, "subworkers/listen"@),
    {
        self.path_in_work_dir("subworkers/listen")
    }

    /// The files that take the standard output and error of subworker `id`.
    pub fn subworker_log_paths(&self, id: u64) -> (r: (String, String))
        ensures
            r.0@ == log_path_spec(self.work_dir@, id as nat, ".out"@),
            r.1@ == log_path_spec(self.work_dir@, id as nat, ".err"@),
    {
        let n = decimal_string(id);
        let mut out = String::new();
        out.append("subworkers/logs/subworker-");
        out.append(n.as_str());
        out.append(".out");
        let mut err = String::new();
        err.append("subworkers/logs/subworker-");
        err.append(n.as_str());
        err.append(".err");
        (self.path_in_work_dir(out.as_str()), self.path_in_work_dir(err.as_str()))
    }

    /// Asks the scheduler for a round: the ready set may have grown.
    pub fn plan_scheduling(&mut self)
        ensures
            final(self).scheduling_requested,
            final(self).graph == old(self).graph,
            final(self).has_upstream == old(self).has_upstream,
            final(self).worker_id == old(self).worker_id,
            final(self).work_dir == old(self).work_dir,
            final(self).resources == old(self).resources,
    {
        self.scheduling_requested = true;
    }

    /// Takes the pending scheduling request, if any.
    pub fn take_scheduling_request(&mut self) -> (r: bool)
        ensures
            r == old(self).scheduling_requested,
            !final(self).scheduling_requested,
            final(self).graph == old(self).graph,
            final(self).has_upstream == old(self).has_upstream,
            final(self).worker_id == old(self).worker_id,
            final(self).work_dir == old(self).work_dir,
            final(self).resources == old(self).resources,
    {
        let r = self.scheduling_requested;
        self.scheduling_requested = false;
        r
    }

    /// Marks a task Ready and asks for scheduling, where the task is in the
    /// graph with nothing left to wait for; otherwise nothing changes.
    pub fn set_task_as_ready(&mut self, task: TaskId) -> (r: bool)
        requires
            old(self).wf(),
        ensures
            final(self).wf(),
            r == exists|j: int|
                0 <= j < old(self).graph.tasks@.len() && #[trigger] old(self).graph.tasks@[j].id
                    == task && old(self).graph.tasks@[j].wait_set@.len() == 0,
            r ==> exists|j: int|
                0 <= j < final(self).graph.tasks@.len() && #[trigger] final(self).graph.tasks@[j].id
                    == task && final(self).graph.tasks@[j].status == TaskStatus::Ready,
            r ==> final(self).scheduling_requested,
            !r ==> *final(self) == *old(self),
            final(self).graph.id_counter == old(self).graph.id_counter,
    {
        let r = self.graph.set_task_ready(task);
        if r {
            self.plan_scheduling();
        }
        r
    }

    pub fn get_resources(&self) -> (r: &Resources)
        ensures
            *r == self.resources,
    {
        &self.resources
    }

    /// Admits a task. Its wait set is its unfinished inputs; where that is
    /// empty the task is Ready on return and scheduling has been asked for.
    pub fn add_task(
        &mut self,
        id: TaskId,
        inputs: Vec<TaskInput>,
        procedure_key: String,
        procedure_config: Vec<u8>,
    ) -> (r: Result<TaskId, GraphError>)
        requires
            old(self).wf(),
            old(self).graph.tasks@.len() < usize::MAX,
        ensures
            final(self).wf(),
            r == add_task_outcome(old(self).graph.tasks@, old(self).graph.objects@, id, inputs@),
            r is Err ==> *final(self) == *old(self),
            r is Ok ==> {
                let t = final(self).graph.tasks@.last();
                &&& final(self).graph.tasks@.len() == old(self).graph.tasks@.len() + 1
                &&& final(self).graph.tasks@.drop_last() == old(self).graph.tasks@
                &&& t.id == id
                &&& t.inputs@ == inputs@
                &&& t.procedure_key@ == procedure_key@
                &&& t.procedure_config@ == procedure_config@
                &&& task_ok(old(self).graph.objects@, t)
                &&& t.status == if inputs_finished(old(self).graph.objects@, t) {
                    TaskStatus::Ready
                } else {
                    TaskStatus::Waiting
                }
                &&& (t.status == TaskStatus::Ready ==> final(self).scheduling_requested)
                &&& (t.status == TaskStatus::Waiting ==> final(self).scheduling_requested
                    == old(self).scheduling_requested)
            },
            final(self).graph.objects == old(self).graph.objects,
            final(self).graph.subworkers == old(self).graph.subworkers,
            final(self).graph.id_counter == old(self).graph.id_counter,
            final(self).has_upstream == old(self).has_upstream,
            final(self).worker_id == old(self).worker_id,
            final(self).work_dir == old(self).work_dir,
            final(self).resources == old(self).resources,
    {
        let r = self.graph.add_task(id, inputs, procedure_key, procedure_config);
        proof {
            if r is Ok {
                let last = self.graph.tasks@.len() - 1;
                assert(task_ok(self.graph.objects@, self.graph.tasks@[last]));
            }
        }
        if r.is_ok() {
            let last = self.graph.tasks.len() - 1;
            if self.graph.tasks[last].status == TaskStatus::Ready {
                self.plan_scheduling();
            }
        }
        r
    }

    /// Registers a subworker that has completed its handshake.
    pub fn add_subworker(&mut self, subworker: Subworker) -> (r: Result<(), GraphError>)
        requires
            old(self).wf(),
        ensures
            final(self).wf(),
            r is Err <==> has_subworker(old(self).graph.subworkers@, subworker.id),
            r is Err ==> r == Err::<(), GraphError>(GraphError::DuplicateId) && *final(self)
                == *old(self),
            r is Ok ==> final(self).graph.subworkers@ == old(self).graph.subworkers@.push(
                subworker,
            ),
            final(self).graph.tasks == old(self).graph.tasks,
            final(self).graph.objects == old(self).graph.objects,
            final(self).graph.id_counter == old(self).graph.id_counter,
            final(self).scheduling_requested == old(self).scheduling_requested,
    {
        self.graph.add_subworker(subworker)
    }

    /// Adds a data object; its id must be new to the graph.
    pub fn add_dataobject(
        &mut self,
        id: DataObjectId,
        state: DataObjectState,
        obj_type: DataObjectType,
        keep: KeepPolicy,
        size: Option<usize>,
        label: String,
    ) -> (r: Result<DataObjectId, GraphError>)
        requires
            old(self).wf(),
            old(self).graph.objects@.len() < usize::MAX,
        ensures
            final(self).wf(),
            r is Err <==> has_object(old(self).graph.objects@, id),
            r is Err ==> r == Err::<DataObjectId, GraphError>(GraphError::DuplicateId)
                && *final(self) == *old(self),
            r is Ok ==> {
                let o = final(self).graph.objects@.last();
                &&& r == Ok::<DataObjectId, GraphError>(id)
                &&& final(self).graph.objects@.len() == old(self).graph.objects@.len() + 1
                &&& final(self).graph.objects@.drop_last() == old(self).graph.objects@
                &&& o.id == id && o.state == state && o.obj_type == obj_type && o.keep == keep
                &&& o.size == size && o.label@ == label@
            },
            final(self).graph.tasks == old(self).graph.tasks,
            final(self).graph.subworkers == old(self).graph.subworkers,
            final(self).graph.id_counter == old(self).graph.id_counter,
            final(self).has_upstream == old(self).has_upstream,
            final(self).worker_id == old(self).worker_id,
            final(self).work_dir == old(self).work_dir,
            final(self).resources == old(self).resources,
            final(self).scheduling_requested == old(self).scheduling_requested,
    {
        let obj = DataObject { id, state, obj_type, keep, size, label };
        let r = self.graph.add_object(obj);
        proof {
            if r is Ok {
                assert(self.graph.objects@.drop_last() =~= old(self).graph.objects@);
            }
        }
        r
    }

    /// Marks a data object Finished; the tasks that waited only for it
    /// become Ready, and scheduling is asked for where any did.
    pub fn finish_dataobject(&mut self, id: DataObjectId) -> (r: Result<Vec<TaskId>, GraphError>)
        requires
            old(self).wf(),
        ensures
            final(self).wf(),
            !has_object(old(self).graph.objects@, id) ==> r matches Err(GraphError::UnknownObject),
            has_object(old(self).graph.objects@, id) ==> (r matches Err(GraphError::ObjectRemoved)
                <==> !object_finished(old(self).graph.objects@, id) && !object_unfinished(
                old(self).graph.objects@,
                id,
            )),
            object_unfinished(old(self).graph.objects@, id) ==> r is Ok,
            object_finished(old(self).graph.objects@, id) ==> (r matches Ok(v) && v@.len() == 0),
            r is Err ==> *final(self) == *old(self),
            r is Ok ==> object_finished(final(self).graph.objects@, id),
            r is Ok ==> forall|o: DataObjectId|
                o != id ==> object_finished(final(self).graph.objects@, o) == object_finished(
                    old(self).graph.objects@,
                    o,
                ),
            forall|j: int|
                0 <= j < final(self).graph.tasks@.len() ==> same_task(
                    old(self).graph.tasks@[j],
                    #[trigger] final(self).graph.tasks@[j],
                ),
            final(self).graph.tasks@.len() == old(self).graph.tasks@.len(),
            r matches Ok(ready) ==> forall|x: TaskId|
                #[trigger] ready@.contains(x) <==> exists|j: int|
                    0 <= j < final(self).graph.tasks@.len() && final(self).graph.tasks@[j].id == x
                        && #[trigger] became_ready(
                        old(self).graph.tasks@[j],
                        final(self).graph.tasks@[j],
                    ),
            r matches Ok(ready) ==> (ready@.len() > 0 ==> final(self).scheduling_requested),
            final(self).graph.id_counter == old(self).graph.id_counter,
    {
        let r = self.graph.finish_object(id);
        match r {
            Ok(ready) => {
                if ready.len() > 0 {
                    self.plan_scheduling();
                }
                Ok(ready)
            },
            Err(e) => Err(e),
        }
    }

    /// The request that registers this worker with the server, advertising
    /// `listen_address`.
    pub fn registration_request(&self, listen_address: &NetworkEndpoint) -> (r: RegisterAsWorker)
        ensures
            r.version == WORKER_PROTOCOL_VERSION,
            r.address@ == encode_wire(listen_address@),
    {
        RegisterAsWorker { version: WORKER_PROTOCOL_VERSION, address: listen_address.to_wire() }
    }

    /// Stores what the server's answer to the registration carried: its
    /// upstream capability is now held, and `worker_id`, which is not the
    /// empty id, is this worker's id.
    /// Returns the ready file to create now, if one was asked for: it comes
    /// only after both have been stored.
    pub fn on_registered(&mut self, worker_id: WorkerId, ready_file: Option<String>) -> (r:
        Option<String>)
        requires
            old(self).wf(),
            !worker_id.is_empty_spec(),
        ensures
            final(self).wf(),
            final(self).has_upstream,
            final(self).worker_id@ == worker_id@,
            final(self).registered_spec(),
            r == ready_file,
            final(self).graph == old(self).graph,
            final(self).work_dir == old(self).work_dir,
            final(self).scheduling_requested == old(self).scheduling_requested,
    {
        self.has_upstream = true;
        self.worker_id = worker_id;
        ready_file
    }

    /// The data object with this id, if it is in the graph.
    pub fn get_dataobject(&self, id: DataObjectId) -> (r: Option<&DataObject>)
        requires
            self.wf(),
        ensures
            r is None <==> !has_object(self.graph.objects@, id),
            r matches Some(o) ==> exists|i: int|
                0 <= i < self.graph.objects@.len() && #[trigger] self.graph.objects@[i] == *o
                    && o.id == id,
    {
        match self.graph.find_object(id) {
            Some(i) => {
                Some(&self.graph.objects[i])
            },
            None => None,
        }
    }

    /// Whether the registration with the server has completed.
    pub fn is_registered(&self) -> (r: bool)
        ensures
            r == self.registered_spec(),
    {
        self.has_upstream && !self.worker_id.is_empty()
    }

    pub fn worker_id(&self) -> (r: &WorkerId)
        ensures
            *r == self.worker_id,
    {
        &self.worker_id
    }

    /// One tick of the event loop; nothing is due on it yet.
    pub fn turn(&self) {
    }
}

/// What one call of `make_subworker_id` does to the graph's counter: it
/// hands out `id`, which was the counter, and moves the counter on by one.
pub open spec fn issues_id(before: u64, id: u64, after: u64) -> bool {
    id == before && after == before + 1
}

/// Ids handed out one after the other strictly increase, whatever calls
/// stand between them that leave the counter alone or move it on; so no id
/// is handed out twice.
pub proof fn lemma_subworker_ids_increase(c0: u64, id1: u64, c1: u64, c2: u64, id2: u64, c3: u64)
    requires
        issues_id(c0, id1, c1),
        c1 <= c2,
        issues_id(c2, id2, c3),
    ensures
        id1 < id2,
        id2 < c3,
{
}

/// Over any run of `make_subworker_id` calls, where whatever stands between
/// two of them leaves the counter alone or moves it on, the ids handed out
/// strictly increase: none is handed out twice.
pub proof fn lemma_subworker_ids_unique(befores: Seq<u64>, ids: Seq<u64>, afters: Seq<u64>)
    requires
        befores.len() == ids.len(),
        afters.len() == ids.len(),
        forall|k: int| 0 <= k < ids.len() ==> issues_id(befores[k], #[trigger] ids[k], afters[k]),
        forall|k: int| 0 <= k < ids.len() - 1 ==> #[trigger] afters[k] <= befores[k + 1],
    ensures
        forall|i: int, j: int| 0 <= i < j < ids.len() ==> ids[i] < ids[j],
    decreases ids.len(),
{
    if ids.len() > 1 {
        let n = ids.len() - 1;
        lemma_subworker_ids_unique(befores.drop_last(), ids.drop_last(), afters.drop_last());
        assert(issues_id(befores[n - 1], ids[n - 1], afters[n - 1]));
        assert(issues_id(befores[n], ids[n], afters[n]));
        assert(afters[n - 1] <= befores[n]);
        assert forall|i: int, j: int| 0 <= i < j < ids.len() implies ids[i] < ids[j] by {
            if j < n {
                assert(ids.drop_last()[i] == ids[i]);
                assert(ids.drop_last()[j] == ids[j]);
            } else if i < n - 1 {
                assert(ids.drop_last()[i] == ids[i]);
                assert(ids.drop_last()[n - 1] == ids[n - 1]);
            }
        }
    }
}

} // verus!
