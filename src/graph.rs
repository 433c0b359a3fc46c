//! The worker's in-memory graph: data objects, tasks and subworkers, all
//! referred to by id.
use vstd::prelude::*;

verus! {

pub type TaskId = u64;

pub type DataObjectId = u64;

pub type SubworkerId = u64;

#[derive(Clone, Copy, Debug, PartialEq, Eq, Structural)]
pub enum DataObjectState {
    Unfinished,
    Finished,
    Removed,
}

#[derive(Clone, Copy, Debug, PartialEq, Eq, Structural)]
pub enum DataObjectType {
    Blob,
    Stream,
    Directory,
}

/// Retention hint attached to a data object.
#[derive(Clone, Copy, Debug, PartialEq, Eq, Structural)]
pub enum KeepPolicy {
    Never,
    Client,
    Always,
}

#[derive(Clone, Copy, Debug, PartialEq, Eq, Structural)]
pub enum TaskStatus {
    Waiting,
    Ready,
    Running,
    Finished,
    Failed,
}

/// Why the graph refused a change; the graph is then unchanged.
#[derive(Clone, Copy, Debug, PartialEq, Eq, Structural)]
pub enum GraphError {
    /// An entity with this id is already in the graph.
    DuplicateId,
    /// A data object that the change names is not in the graph.
    UnknownObject,
    /// The data object has been removed and cannot change state any more.
    ObjectRemoved,
}

pub struct DataObject {
    pub id: DataObjectId,
    pub state: DataObjectState,
    pub obj_type: DataObjectType,
    pub keep: KeepPolicy,
    pub size: Option<usize>,
    pub label: String,
}

/// One input of a task: a data object and the role it plays.
pub struct TaskInput {
    pub object: DataObjectId,
    pub label: String,
}

pub struct Task {
    pub id: TaskId,
    pub inputs: Vec<TaskInput>,
    /// The inputs that are not finished yet.
    pub wait_set: Vec<DataObjectId>,
    pub procedure_key: String,
    pub procedure_config: Vec<u8>,
    pub status: TaskStatus,
}

pub struct Subworker {
    pub id: SubworkerId,
}

pub struct Graph {
    pub tasks: Vec<Task>,
    pub objects: Vec<DataObject>,
    pub subworkers: Vec<Subworker>,
    /// The next id that `make_id` hands out.
    pub id_counter: u64,
}

/// The ids of a task's inputs, in order.
pub open spec fn input_ids(t: Task) -> Seq<DataObjectId> {
    t.inputs@.map_values(|i: TaskInput| i.object)
}

pub open spec fn has_object(objs: Seq<DataObject>, id: DataObjectId) -> bool {
    exists|i: int| 0 <= i < objs.len() && #[trigger] objs[i].id == id
}

/// Whether the object with this id is in the graph and finished.
pub open spec fn object_finished(objs: Seq<DataObject>, id: DataObjectId) -> bool {
    exists|i: int|
        0 <= i < objs.len() && #[trigger] objs[i].id == id && objs[i].state
            == DataObjectState::Finished
}

/// Whether every input of `t` is finished.
pub open spec fn inputs_finished(objs: Seq<DataObject>, t: Task) -> bool {
    forall|k: int| 0 <= k < t.inputs@.len() ==> object_finished(objs, #[trigger] t.inputs@[k].object)
}

/// A task agrees with the objects: its inputs exist, its wait set holds
/// exactly its unfinished inputs, and it is Ready exactly when nothing is
/// left to wait for.
pub open spec fn task_ok(objs: Seq<DataObject>, t: Task) -> bool {
    &&& forall|k: int| 0 <= k < t.inputs@.len() ==> has_object(objs, #[trigger] t.inputs@[k].object)
    &&& forall|o: DataObjectId|
        #[trigger] t.wait_set@.contains(o) <==> (input_ids(t).contains(o) && !object_finished(
            objs,
            o,
        ))
    &&& t.wait_set@.no_duplicates()
    &&& (t.status == TaskStatus::Waiting || t.status == TaskStatus::Ready)
    &&& (t.status == TaskStatus::Ready <==> t.wait_set@.len() == 0)
}

pub open spec fn objects_unique(objs: Seq<DataObject>) -> bool {
    forall|i: int, j: int| 0 <= i < j < objs.len() ==> objs[i].id != objs[j].id
}

pub open spec fn has_task(tasks: Seq<Task>, id: TaskId) -> bool {
    exists|i: int| 0 <= i < tasks.len() && #[trigger] tasks[i].id == id
}

pub open spec fn has_subworker(sws: Seq<Subworker>, id: SubworkerId) -> bool {
    exists|i: int| 0 <= i < sws.len() && #[trigger] sws[i].id == id
}

/// The ids of the registered subworkers, in order of registration.
pub open spec fn subworker_ids(sws: Seq<Subworker>) -> Seq<SubworkerId> {
    sws.map_values(|s: Subworker| s.id)
}

/// What adding a task with this id and these inputs gives: `DuplicateId`
/// where the id is taken, `UnknownObject` where an input is missing, else the
/// task's id.
pub open spec fn add_task_outcome(
    tasks: Seq<Task>,
    objs: Seq<DataObject>,
    id: TaskId,
    inputs: Seq<TaskInput>,
) -> Result<TaskId, GraphError> {
    if has_task(tasks, id) {
        Err(GraphError::DuplicateId)
    } else if exists|k: int| 0 <= k < inputs.len() && !has_object(objs, #[trigger] inputs[k].object) {
        Err(GraphError::UnknownObject)
    } else {
        Ok(id)
    }
}

/// Whether the object with this id is in the graph and unfinished.
pub open spec fn object_unfinished(objs: Seq<DataObject>, id: DataObjectId) -> bool {
    exists|i: int|
        0 <= i < objs.len() && #[trigger] objs[i].id == id && objs[i].state
            == DataObjectState::Unfinished
}

/// Two states of one task: same id, inputs and procedure.
pub open spec fn same_task(a: Task, b: Task) -> bool {
    &&& a.id == b.id
    &&& a.inputs@ == b.inputs@
    &&& a.procedure_key@ == b.procedure_key@
    &&& a.procedure_config@ == b.procedure_config@
}

/// A task that went from Waiting to Ready.
pub open spec fn became_ready(a: Task, b: Task) -> bool {
    a.status == TaskStatus::Waiting && b.status == TaskStatus::Ready
}

/// Pushing `x` onto `s` adds exactly `x` to what it contains.
proof fn lemma_push_contains<T>(s: Seq<T>, x: T)
    ensures
        forall|y: T| #[trigger] s.push(x).contains(y) <==> (s.contains(y) || y == x),
{
    assert forall|y: T| #[trigger] s.push(x).contains(y) <==> (s.contains(y) || y == x) by {
        if s.push(x).contains(y) {
            let m = choose|m: int| 0 <= m < s.len() + 1 && s.push(x)[m] == y;
            if m < s.len() {
                assert(s[m] == y);
            }
        }
        if s.contains(y) {
            let m = choose|m: int| 0 <= m < s.len() && s[m] == y;
            assert(s.push(x)[m] == y);
        }
        if y == x {
            assert(s.push(x)[s.len() as int] == x);
        }
    }
}

/// Whether `x` is among the ids of `v`.
fn contains_id(v: &Vec<DataObjectId>, x: DataObjectId) -> (r: bool)
    ensures
        r == v@.contains(x),
{
    let mut i: usize = 0;
    while i < v.len()
        invariant
            i <= v@.len(),
            forall|j: int| 0 <= j < i ==> v@[j] != x,
        decreases v@.len() - i,
    {
        if v[i] == x {
            return true;
        }
        i = i + 1;
    }
    false
}

/// The ids of `v` other than `x`, in order.
fn without(v: &Vec<DataObjectId>, x: DataObjectId) -> (r: Vec<DataObjectId>)
    ensures
        forall|o: DataObjectId| #[trigger] r@.contains(o) <==> (v@.contains(o) && o != x),
        v@.no_duplicates() ==> r@.no_duplicates(),
{
    let mut r: Vec<DataObjectId> = Vec::new();
    let mut i: usize = 0;
    while i < v.len()
        invariant
            i <= v@.len(),
            forall|o: DataObjectId|
                #[trigger] r@.contains(o) <==> (v@.subrange(0, i as int).contains(o) && o != x),
            v@.no_duplicates() ==> r@.no_duplicates(),
        decreases v@.len() - i,
    {
        let ghost r0 = r@;
        assert(forall|o: DataObjectId|
            #[trigger] r0.contains(o) <==> (v@.subrange(0, i as int).contains(o) && o != x));
        let o = v[i];
        proof {
            if v@.no_duplicates() && r0.contains(o) {
                let j = choose|j: int| 0 <= j < i && v@.subrange(0, i as int)[j] == o;
                assert(v@[j] == v@[i as int]);
            }
        }
        if o != x {
            r.push(o);
        }
        proof {
            let s0 = v@.subrange(0, i as int);
            assert(v@.subrange(0, i + 1) =~= s0.push(o));
            lemma_push_contains(s0, o);
            lemma_push_contains(r0, o);
        }
        i = i + 1;
    }
    assert(v@.subrange(0, v@.len() as int) =~= v@);
    r
}

impl Graph {
    pub open spec fn wf(&self) -> bool {
        &&& objects_unique(self.objects@)
        &&& forall|i: int, j: int|
            0 <= i < j < self.tasks@.len() ==> self.tasks@[i].id != self.tasks@[j].id
        &&& forall|i: int, j: int|
            0 <= i < j < self.subworkers@.len() ==> self.subworkers@[i].id
                != self.subworkers@[j].id
        &&& forall|i: int| 0 <= i < self.tasks@.len() ==> task_ok(self.objects@, #[trigger] self.tasks@[i])
    }

    pub fn new() -> (r: Graph)
        ensures
            r.wf(),
            r.tasks@.len() == 0,
            r.objects@.len() == 0,
            r.subworkers@.len() == 0,
            r.id_counter == 1,
    {
        Graph { tasks: Vec::new(), objects: Vec::new(), subworkers: Vec::new(), id_counter: 1 }
    }

    /// Hands out the next id of the graph's counter.
    pub fn make_id(&mut self) -> (r: u64)
        requires
            old(self).id_counter < u64::MAX,
        ensures
            r == old(self).id_counter,
            final(self).id_counter == old(self).id_counter + 1,
            final(self).tasks == old(self).tasks,
            final(self).objects == old(self).objects,
            final(self).subworkers == old(self).subworkers,
    {
        let id = self.id_counter;
        self.id_counter = self.id_counter + 1;
        id
    }

    /// The position of the object with this id.
    pub fn find_object(&self, id: DataObjectId) -> (r: Option<usize>)
        ensures
            r matches Some(i) ==> i < self.objects@.len() && self.objects@[i as int].id == id,
            r is None ==> !has_object(self.objects@, id),
    {
        let mut i: usize = 0;
        while i < self.objects.len()
            invariant
                i <= self.objects@.len(),
                forall|j: int| 0 <= j < i ==> self.objects@[j].id != id,
            decreases self.objects@.len() - i,
        {
            if self.objects[i].id == id {
                return Some(i);
            }
            i = i + 1;
        }
        None
    }

    /// The position of the task with this id.
    pub fn find_task(&self, id: TaskId) -> (r: Option<usize>)
        ensures
            r matches Some(i) ==> i < self.tasks@.len() && self.tasks@[i as int].id == id,
            r is None ==> !has_task(self.tasks@, id),
    {
        let mut i: usize = 0;
        while i < self.tasks.len()
            invariant
                i <= self.tasks@.len(),
                forall|j: int| 0 <= j < i ==> self.tasks@[j].id != id,
            decreases self.tasks@.len() - i,
        {
            if self.tasks[i].id == id {
                return Some(i);
            }
            i = i + 1;
        }
        None
    }

    pub fn has_subworker(&self, id: SubworkerId) -> (r: bool)
        ensures
            r == has_subworker(self.subworkers@, id),
    {
        let mut i: usize = 0;
        while i < self.subworkers.len()
            invariant
                i <= self.subworkers@.len(),
                forall|j: int| 0 <= j < i ==> self.subworkers@[j].id != id,
            decreases self.subworkers@.len() - i,
        {
            if self.subworkers[i].id == id {
                return true;
            }
            i = i + 1;
        }
        false
    }

    /// Whether the object with this id is in the graph and finished.
    pub fn is_finished(&self, id: DataObjectId) -> (r: bool)
        requires
            self.wf(),
        ensures
            r == object_finished(self.objects@, id),
    {
        match self.find_object(id) {
            Some(i) => self.objects[i].state == DataObjectState::Finished,
            None => false,
        }
    }

    /// Adds a data object; refused with `DuplicateId` where its id is
    /// already in the graph.
    pub fn add_object(&mut self, obj: DataObject) -> (r: Result<DataObjectId, GraphError>)
        requires
            old(self).wf(),
            old(self).objects@.len() < usize::MAX,
        ensures
            final(self).wf(),
            r is Err <==> has_object(old(self).objects@, obj.id),
            r is Err ==> r == Err::<DataObjectId, GraphError>(GraphError::DuplicateId) && *final(self)
                == *old(self),
            r is Ok ==> r == Ok::<DataObjectId, GraphError>(obj.id) && final(self).objects@
                == old(self).objects@.push(obj),
            final(self).tasks == old(self).tasks,
            final(self).subworkers == old(self).subworkers,
            final(self).id_counter == old(self).id_counter,
    {
        if self.find_object(obj.id).is_some() {
            return Err(GraphError::DuplicateId);
        }
        let id = obj.id;
        let ghost objs0 = self.objects@;
        self.objects.push(obj);
        proof {
            let objs1 = self.objects@;
            assert forall|o: DataObjectId| has_object(objs0, o) implies has_object(objs1, o) by {
                let i = choose|i: int| 0 <= i < objs0.len() && #[trigger] objs0[i].id == o;
                assert(objs1[i].id == o);
            }
            assert forall|o: DataObjectId| o != id implies (object_finished(objs1, o)
                == object_finished(objs0, o)) by {
                if object_finished(objs0, o) {
                    let i = choose|i: int|
                        0 <= i < objs0.len() && #[trigger] objs0[i].id == o && objs0[i].state
                            == DataObjectState::Finished;
                    assert(objs1[i] == objs0[i]);
                }
                if object_finished(objs1, o) {
                    let i = choose|i: int|
                        0 <= i < objs1.len() && #[trigger] objs1[i].id == o && objs1[i].state
                            == DataObjectState::Finished;
                    assert(i < objs0.len());
                    assert(objs0[i] == objs1[i]);
                }
            }
            assert forall|i: int| 0 <= i < self.tasks@.len() implies task_ok(
                objs1,
                #[trigger] self.tasks@[i],
            ) by {
                let t = self.tasks@[i];
                assert(task_ok(objs0, t));
                assert forall|o: DataObjectId| input_ids(t).contains(o) implies o != id by {
                    let k = choose|k: int| 0 <= k < input_ids(t).len() && input_ids(t)[k] == o;
                    assert(has_object(objs0, t.inputs@[k].object));
                }
                assert forall|o: DataObjectId|
                    #[trigger] t.wait_set@.contains(o) <==> (input_ids(t).contains(o)
                        && !object_finished(objs1, o)) by {
                    if input_ids(t).contains(o) {
                        assert(o != id);
                    }
                }
            }
        }
        Ok(id)
    }

    /// Registers a subworker; refused with `DuplicateId` where its id is
    /// already registered.
    pub fn add_subworker(&mut self, sw: Subworker) -> (r: Result<(), GraphError>)
        requires
            old(self).wf(),
        ensures
            final(self).wf(),
            r is Err <==> has_subworker(old(self).subworkers@, sw.id),
            r is Err ==> r == Err::<(), GraphError>(GraphError::DuplicateId) && *final(self)
                == *old(self),
            r is Ok ==> final(self).subworkers@ == old(self).subworkers@.push(sw),
            final(self).tasks == old(self).tasks,
            final(self).objects == old(self).objects,
            final(self).id_counter == old(self).id_counter,
    {
        if self.has_subworker(sw.id) {
            return Err(GraphError::DuplicateId);
        }
        self.subworkers.push(sw);
        Ok(())
    }

    /// Adds a task whose wait set is its unfinished inputs; it is Ready at
    /// once where every input is finished. Refused with `DuplicateId` where
    /// the task id is taken, and with `UnknownObject` where an input is not
    /// in the graph.
    pub fn add_task(
        &mut self,
        id: TaskId,
        inputs: Vec<TaskInput>,
        procedure_key: String,
        procedure_config: Vec<u8>,
    ) -> (r: Result<TaskId, GraphError>)
        requires
            old(self).wf(),
            old(self).tasks@.len() < usize::MAX,
        ensures
            final(self).wf(),
            r == add_task_outcome(old(self).tasks@, old(self).objects@, id, inputs@),
            r is Err ==> *final(self) == *old(self),
            r is Ok ==> {
                &&& final(self).tasks@.len() == old(self).tasks@.len() + 1
                &&& final(self).tasks@.drop_last() == old(self).tasks@
                &&& final(self).tasks@.last().id == id
                &&& final(self).tasks@.last().inputs@ == inputs@
                &&& final(self).tasks@.last().procedure_key@ == procedure_key@
                &&& final(self).tasks@.last().procedure_config@ == procedure_config@
                &&& final(self).tasks@.last().status == if inputs_finished(
                    old(self).objects@,
                    final(self).tasks@.last(),
                ) {
                    TaskStatus::Ready
                } else {
                    TaskStatus::Waiting
                }
            },
            final(self).objects == old(self).objects,
            final(self).subworkers == old(self).subworkers,
            final(self).id_counter == old(self).id_counter,
    {
        if self.find_task(id).is_some() {
            return Err(GraphError::DuplicateId);
        }
        let ghost ids = inputs@.map_values(|i: TaskInput| i.object);
        let mut wait_set: Vec<DataObjectId> = Vec::new();
        let mut k: usize = 0;
        while k < inputs.len()
            invariant
                self.wf(),
                *self == *old(self),
                !has_task(self.tasks@, id),
                k <= inputs@.len(),
                ids == inputs@.map_values(|i: TaskInput| i.object),
                forall|j: int| 0 <= j < k ==> has_object(self.objects@, #[trigger] inputs@[j].object),
                forall|o: DataObjectId|
                    #[trigger] wait_set@.contains(o) <==> (ids.subrange(0, k as int).contains(o)
                        && !object_finished(self.objects@, o)),
                wait_set@.no_duplicates(),
            decreases inputs@.len() - k,
        {
            let o = inputs[k].object;
            if self.find_object(o).is_none() {
                proof {
                    assert(!has_object(self.objects@, inputs@[k as int].object));
                }
                return Err(GraphError::UnknownObject);
            }
            let ghost w0 = wait_set@;
            if !self.is_finished(o) && !contains_id(&wait_set, o) {
                wait_set.push(o);
            }
            proof {
                let s0 = ids.subrange(0, k as int);
                assert(ids.subrange(0, k + 1) =~= s0.push(o));
                lemma_push_contains(s0, o);
                lemma_push_contains(w0, o);
            }
            k = k + 1;
        }
        proof {
            assert(ids.subrange(0, inputs@.len() as int) =~= ids);
            assert(forall|j: int| 0 <= j < inputs@.len() ==> has_object(self.objects@, #[trigger] inputs@[j].object));
        }
        let status = if wait_set.len() == 0 {
            TaskStatus::Ready
        } else {
            TaskStatus::Waiting
        };
        let task = Task { id, inputs, wait_set, procedure_key, procedure_config, status };
        let ghost t = task;
        proof {
            assert(input_ids(t) == ids);
            if t.wait_set@.len() == 0 {
                assert forall|j: int| 0 <= j < t.inputs@.len() implies object_finished(
                    self.objects@,
                    #[trigger] t.inputs@[j].object,
                ) by {
                    assert(ids[j] == t.inputs@[j].object);
                    assert(ids.contains(ids[j]));
                    if !object_finished(self.objects@, ids[j]) {
                        assert(t.wait_set@.contains(ids[j]));
                    }
                }
            } else {
                let o = t.wait_set@[0];
                assert(t.wait_set@.contains(o));
                let j = choose|j: int| 0 <= j < ids.len() && ids[j] == o;
                assert(t.inputs@[j].object == o);
            }
            assert(task_ok(self.objects@, t));
        }
        let ghost tasks0 = self.tasks@;
        self.tasks.push(task);
        proof {
            assert(self.tasks@.drop_last() =~= tasks0);
            assert forall|i: int| 0 <= i < self.tasks@.len() implies task_ok(
                self.objects@,
                #[trigger] self.tasks@[i],
            ) by {
                if i < tasks0.len() {
                    assert(self.tasks@[i] == tasks0[i]);
                }
            }
            assert forall|i: int, j: int|
                0 <= i < j < self.tasks@.len() implies self.tasks@[i].id != self.tasks@[j].id by {
                if j == tasks0.len() {
                    assert(tasks0[i].id == self.tasks@[i].id);
                }
            }
        }
        Ok(id)
    }

    /// Marks a data object Finished and takes it out of every task's wait
    /// set, in task order. Returns the ids of the tasks that became Ready.
    /// Finishing a finished object changes nothing; a removed object is
    /// refused with `ObjectRemoved` and a missing one with `UnknownObject`.
    pub fn finish_object(&mut self, id: DataObjectId) -> (r: Result<Vec<TaskId>, GraphError>)
        requires
            old(self).wf(),
        ensures
            final(self).wf(),
            !has_object(old(self).objects@, id) ==> r matches Err(GraphError::UnknownObject),
            has_object(old(self).objects@, id) ==> (r matches Err(GraphError::ObjectRemoved)
                <==> !object_finished(old(self).objects@, id) && !object_unfinished(
                old(self).objects@,
                id,
            )),
            object_unfinished(old(self).objects@, id) ==> r is Ok,
            object_finished(old(self).objects@, id) ==> (r matches Ok(v) && v@.len() == 0),
            r is Err ==> *final(self) == *old(self),
            r is Ok ==> object_finished(final(self).objects@, id),
            r is Ok ==> forall|o: DataObjectId|
                o != id ==> object_finished(final(self).objects@, o) == object_finished(
                    old(self).objects@,
                    o,
                ),
            final(self).tasks@.len() == old(self).tasks@.len(),
            forall|j: int|
                0 <= j < final(self).tasks@.len() ==> same_task(
                    old(self).tasks@[j],
                    #[trigger] final(self).tasks@[j],
                ),
            r matches Ok(ready) ==> forall|x: TaskId|
                #[trigger] ready@.contains(x) <==> exists|j: int|
                    0 <= j < final(self).tasks@.len() && final(self).tasks@[j].id == x
                        && #[trigger] became_ready(old(self).tasks@[j], final(self).tasks@[j]),
            final(self).subworkers == old(self).subworkers,
            final(self).id_counter == old(self).id_counter,
    {
        let idx = match self.find_object(id) {
            Some(i) => i,
            None => {
                return Err(GraphError::UnknownObject);
            },
        };
        proof {
            let objs = self.objects@;
            assert(objs[idx as int].id == id);
            assert(objects_unique(objs));
            if object_finished(objs, id) {
                let i = choose|i: int|
                    0 <= i < objs.len() && #[trigger] objs[i].id == id && objs[i].state
                        == DataObjectState::Finished;
                assert(i == idx);
            }
            if object_unfinished(objs, id) {
                let i = choose|i: int|
                    0 <= i < objs.len() && #[trigger] objs[i].id == id && objs[i].state
                        == DataObjectState::Unfinished;
                assert(i == idx);
            }
        }
        if self.objects[idx].state == DataObjectState::Removed {
            return Err(GraphError::ObjectRemoved);
        }
        if self.objects[idx].state == DataObjectState::Finished {
            return Ok(Vec::new());
        }
        let ghost objs0 = self.objects@;
        let ghost tasks0 = self.tasks@;
        self.objects[idx].state = DataObjectState::Finished;
        let ghost objs1 = self.objects@;
        proof {
            assert(objs1[idx as int].id == id);
            assert forall|o: DataObjectId| #[trigger] has_object(objs1, o) == has_object(objs0, o) by {
                if has_object(objs0, o) {
                    let i = choose|i: int| 0 <= i < objs0.len() && #[trigger] objs0[i].id == o;
                    assert(objs1[i].id == o);
                }
                if has_object(objs1, o) {
                    let i = choose|i: int| 0 <= i < objs1.len() && #[trigger] objs1[i].id == o;
                    assert(objs0[i].id == o);
                }
            }
            assert forall|o: DataObjectId|
                #[trigger] object_finished(objs1, o) == (object_finished(objs0, o) || o == id) by {
                if object_finished(objs0, o) {
                    let i = choose|i: int|
                        0 <= i < objs0.len() && #[trigger] objs0[i].id == o && objs0[i].state
                            == DataObjectState::Finished;
                    assert(i != idx);
                    assert(objs1[i] == objs0[i]);
                }
                if object_finished(objs1, o) && o != id {
                    let i = choose|i: int|
                        0 <= i < objs1.len() && #[trigger] objs1[i].id == o && objs1[i].state
                            == DataObjectState::Finished;
                    assert(objs0[i] == objs1[i]);
                }
            }
            assert(objects_unique(objs1));
        }
        let mut ready: Vec<TaskId> = Vec::new();
        let mut i: usize = 0;
        while i < self.tasks.len()
            invariant
                self.objects@ == objs1,
                self.subworkers == old(self).subworkers,
                self.id_counter == old(self).id_counter,
                objects_unique(objs1),
                forall|o: DataObjectId| #[trigger] has_object(objs1, o) == has_object(objs0, o),
                forall|o: DataObjectId|
                    #[trigger] object_finished(objs1, o) == (object_finished(objs0, o) || o == id),
                forall|a: int, b: int| 0 <= a < b < tasks0.len() ==> tasks0[a].id != tasks0[b].id,
                forall|j: int| 0 <= j < tasks0.len() ==> task_ok(objs0, #[trigger] tasks0[j]),
                self.tasks@.len() == tasks0.len(),
                i <= tasks0.len(),
                forall|j: int| 0 <= j < tasks0.len() ==> same_task(tasks0[j], #[trigger] self.tasks@[j]),
                forall|j: int| 0 <= j < i ==> task_ok(objs1, #[trigger] self.tasks@[j]),
                forall|j: int| i <= j < tasks0.len() ==> #[trigger] self.tasks@[j] == tasks0[j],
                forall|x: TaskId|
                    #[trigger] ready@.contains(x) <==> exists|j: int|
                        0 <= j < i && self.tasks@[j].id == x && #[trigger] became_ready(
                            tasks0[j],
                            self.tasks@[j],
                        ),
            decreases tasks0.len() - i,
        {
            let ghost r0 = ready@;
            let ghost tasks_before = self.tasks@;
            assert(forall|x: TaskId|
                #[trigger] r0.contains(x) <==> exists|j: int|
                    0 <= j < i && tasks_before[j].id == x && #[trigger] became_ready(
                        tasks0[j],
                        tasks_before[j],
                    ));
            let w = without(&self.tasks[i].wait_set, id);
            let empty = w.len() == 0;
            let was_waiting = self.tasks[i].status == TaskStatus::Waiting;
            let tid = self.tasks[i].id;
            self.tasks[i].wait_set = w;
            if empty {
                self.tasks[i].status = TaskStatus::Ready;
            }
            if empty && was_waiting {
                ready.push(tid);
            }
            assert(forall|j: int| 0 <= j < i ==> #[trigger] self.tasks@[j] == tasks_before[j]);
            proof {
                let t0 = tasks0[i as int];
                let t1 = self.tasks@[i as int];
                assert(task_ok(objs0, t0));
                assert(input_ids(t1) == input_ids(t0));
                assert forall|k: int| 0 <= k < t1.inputs@.len() implies has_object(
                    objs1,
                    #[trigger] t1.inputs@[k].object,
                ) by {
                    assert(has_object(objs0, t0.inputs@[k].object));
                }
                assert forall|o: DataObjectId|
                    #[trigger] t1.wait_set@.contains(o) <==> (input_ids(t1).contains(o)
                        && !object_finished(objs1, o)) by {
                    assert(t0.wait_set@.contains(o) <==> (input_ids(t0).contains(o)
                        && !object_finished(objs0, o)));
                }
                if t0.status == TaskStatus::Ready {
                    assert(t0.wait_set@.len() == 0);
                    if t1.wait_set@.len() > 0 {
                        assert(t1.wait_set@.contains(t1.wait_set@[0]));
                        assert(t0.wait_set@.contains(t1.wait_set@[0]));
                    }
                }
                assert(task_ok(objs1, t1));
                lemma_push_contains(r0, tid);
                assert forall|x: TaskId|
                    #[trigger] ready@.contains(x) <==> exists|j: int|
                        0 <= j < i + 1 && self.tasks@[j].id == x && #[trigger] became_ready(
                            tasks0[j],
                            self.tasks@[j],
                        ) by {
                    if ready@.contains(x) {
                        if r0.contains(x) {
                            let j = choose|j: int|
                                0 <= j < i && tasks_before[j].id == x && #[trigger] became_ready(
                                    tasks0[j],
                                    tasks_before[j],
                                );
                            assert(self.tasks@[j] == tasks_before[j]);
                            assert(became_ready(tasks0[j], self.tasks@[j]));
                        } else {
                            assert(became_ready(tasks0[i as int], self.tasks@[i as int]));
                        }
                    }
                    if exists|j: int|
                        0 <= j < i + 1 && self.tasks@[j].id == x && #[trigger] became_ready(
                            tasks0[j],
                            self.tasks@[j],
                        ) {
                        let j = choose|j: int|
                            0 <= j < i + 1 && self.tasks@[j].id == x && #[trigger] became_ready(
                                tasks0[j],
                                self.tasks@[j],
                            );
                        if j < i {
                            assert(self.tasks@[j] == tasks_before[j]);
                            assert(became_ready(tasks0[j], tasks_before[j]));
                            assert(r0.contains(x));
                        }
                    }
                }
            }
            i = i + 1;
        }
        Ok(ready)
    }

    /// Marks the task with this id Ready where it has nothing left to wait
    /// for; returns whether it did (a missing task, or one still waiting,
    /// is left as it is).
    pub fn set_task_ready(&mut self, id: TaskId) -> (r: bool)
        requires
            old(self).wf(),
        ensures
            final(self).wf(),
            r == exists|j: int|
                0 <= j < old(self).tasks@.len() && #[trigger] old(self).tasks@[j].id == id
                    && old(self).tasks@[j].wait_set@.len() == 0,
            r ==> exists|j: int|
                0 <= j < final(self).tasks@.len() && #[trigger] final(self).tasks@[j].id == id
                    && final(self).tasks@[j].status == TaskStatus::Ready,
            !r ==> *final(self) == *old(self),
            final(self).tasks@.len() == old(self).tasks@.len(),
            forall|j: int|
                0 <= j < final(self).tasks@.len() ==> same_task(
                    old(self).tasks@[j],
                    #[trigger] final(self).tasks@[j],
                ),
            final(self).objects == old(self).objects,
            final(self).subworkers == old(self).subworkers,
            final(self).id_counter == old(self).id_counter,
    {
        match self.find_task(id) {
            None => false,
            Some(i) => {
                proof {
                    assert forall|j: int|
                        0 <= j < self.tasks@.len() && #[trigger] self.tasks@[j].id == id implies j
                        == i by {
                        if j != i {
                            if j < i {
                                assert(self.tasks@[j].id != self.tasks@[i as int].id);
                            } else {
                                assert(self.tasks@[i as int].id != self.tasks@[j].id);
                            }
                        }
                    }
                }
                if self.tasks[i].wait_set.len() == 0 {
                    let ghost tasks0 = self.tasks@;
                    assert(task_ok(self.objects@, tasks0[i as int]));
                    self.tasks[i].status = TaskStatus::Ready;
                    proof {
                        assert forall|j: int| 0 <= j < self.tasks@.len() implies task_ok(
                            self.objects@,
                            #[trigger] self.tasks@[j],
                        ) by {
                            if j != i {
                                assert(self.tasks@[j] == tasks0[j]);
                            }
                        }
                        assert(self.tasks@[i as int].id == id);
                    }
                    true
                } else {
                    false
                }
            },
        }
    }
}

/// In a well-formed graph a task is Ready exactly when every one of its
/// inputs is finished.
pub proof fn lemma_ready_iff_inputs_finished(g: Graph, i: int)
    requires
        g.wf(),
        0 <= i < g.tasks@.len(),
    ensures
        g.tasks@[i].status == TaskStatus::Ready <==> inputs_finished(g.objects@, g.tasks@[i]),
{
    let t = g.tasks@[i];
    assert(task_ok(g.objects@, t));
    if t.status == TaskStatus::Ready {
        assert forall|k: int| 0 <= k < t.inputs@.len() implies object_finished(
            g.objects@,
            #[trigger] t.inputs@[k].object,
        ) by {
            assert(input_ids(t)[k] == t.inputs@[k].object);
            assert(input_ids(t).contains(t.inputs@[k].object));
            if !object_finished(g.objects@, t.inputs@[k].object) {
                assert(t.wait_set@.contains(t.inputs@[k].object));
            }
        }
    }
    if inputs_finished(g.objects@, t) && t.wait_set@.len() > 0 {
        let o = t.wait_set@[0];
        assert(t.wait_set@.contains(o));
        let k = choose|k: int| 0 <= k < input_ids(t).len() && input_ids(t)[k] == o;
        assert(t.inputs@[k].object == o);
    }
}

/// After an object is added, it is the one object in the graph with its id:
/// a lookup by that id finds it, and adding another with the same id is
/// refused.
pub proof fn lemma_added_object_found(objs0: Seq<DataObject>, obj: DataObject)
    requires
        objects_unique(objs0.push(obj)),
    ensures
        has_object(objs0.push(obj), obj.id),
        forall|i: int|
            0 <= i < objs0.len() + 1 && #[trigger] objs0.push(obj)[i].id == obj.id ==> i
                == objs0.len(),
{
    let objs1 = objs0.push(obj);
    assert(objs1[objs0.len() as int].id == obj.id);
}

} // verus!
