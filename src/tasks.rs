use vstd::prelude::*;

use crate::model::{Message, Task, TaskStatus, Wedding};
use crate::planner::{Planner, replaced_wedding, wedding_wf};

verus! {

/// Some task on the list has identifier `id`.
pub open spec fn has_task(tasks: Seq<Task>, id: u64) -> bool {
    exists|i: int| 0 <= i < tasks.len() && #[trigger] tasks[i].id == id
}

/// Position of the first task with identifier `id`.
pub fn find_task(tasks: &Vec<Task>, id: u64) -> (r: Option<usize>)
    ensures
        match r {
            Some(i) => i < tasks@.len() && tasks@[i as int].id == id,
            None => !has_task(tasks@, id),
        },
{
    let mut i: usize = 0;
    while i < tasks.len()
        invariant
            0 <= i <= tasks@.len(),
            forall|j: int| 0 <= j < i ==> #[trigger] tasks@[j].id != id,
        decreases tasks@.len() - i,
    {
        if tasks[i].id == id {
            return Some(i);
        }
        i = i + 1;
    }
    None
}

impl Planner {
    /// Adds a pending task to a wedding under a newly issued identifier.
    pub fn add_task(
        &mut self,
        wedding_id: u64,
        title: String,
        description: String,
        deadline: String,
        assigned_to: String,
        budget: u64,
    ) -> (r: Result<Task, Message>)
        requires
            old(self).wf(),
            old(self).ids.can_issue(),
        ensures
            final(self).wf(),
            ({
                let ws = old(self).weddings@;
                &&& r is Err <==> !ws.contains_key(wedding_id)
                &&& r is Err ==> r->Err_0 is WeddingNotFound && *final(self) == *old(self)
                &&& r is Ok ==> {
                    let w = final(self).weddings@[wedding_id];
                    let t = r->Ok_0;
                    &&& t == (Task {
                        id: old(self).ids.peek(),
                        title,
                        description,
                        deadline,
                        assigned_to,
                        status: TaskStatus::Pending,
                        budget,
                    })
                    &&& final(self).ids.peek() == t.id + 1
                    &&& !has_task(ws[wedding_id].tasks@, t.id)
                    &&& final(self).weddings@ == ws.insert(wedding_id, w)
                    &&& final(self).weddings.ids() == old(self).weddings.ids()
                    &&& final(self).vendors == old(self).vendors
                    &&& w == (Wedding { tasks: w.tasks, ..ws[wedding_id] })
                    &&& w.tasks@ == ws[wedding_id].tasks@.push(t)
                }
            }),
    {
        if !self.weddings.contains(wedding_id) {
            return Err(Message::WeddingNotFound("Wedding not found".to_string()));
        }
        proof {
            assert(wedding_wf(old(self).weddings@[wedding_id], old(self).ids.peek()));
        }
        let id = self.generate_uuid();
        let (pos, mut wedding) = self.weddings.checkout(wedding_id).unwrap();
        let task = Task {
            id,
            title,
            description,
            deadline,
            assigned_to,
            status: TaskStatus::Pending,
            budget,
        };
        let result = task.duplicate();
        wedding.tasks.push(task);
        let ghost w = wedding;
        self.weddings.put_back(pos, wedding_id, wedding);
        assert(self.weddings.ids() =~= old(self).weddings.ids());
        proof {
            let old_ts = old(self).weddings@[wedding_id].tasks@;
            assert(self.weddings@ =~= old(self).weddings@.insert(wedding_id, w));
            assert(wedding_wf(old(self).weddings@[wedding_id], self.ids.peek()));
            assert(!has_task(old_ts, id)) by {
                assert forall|j: int| 0 <= j < old_ts.len() implies #[trigger] old_ts[j].id != id by {
                    assert(old_ts[j].id < old(self).ids.peek());
                }
            }
            assert forall|a: int, b: int|
                0 <= a < w.tasks@.len() && 0 <= b < w.tasks@.len() && a != b implies
                #[trigger] w.tasks@[a].id != #[trigger] w.tasks@[b].id by {
                if a == old_ts.len() {
                    assert(old_ts[b].id < old(self).ids.peek());
                } else if b == old_ts.len() {
                    assert(old_ts[a].id < old(self).ids.peek());
                }
            }
            assert forall|a: int| 0 <= a < w.tasks@.len() implies #[trigger] w.tasks@[a].id < self.ids.peek() by {
                if a < old_ts.len() {
                    assert(old_ts[a].id < old(self).ids.peek());
                }
            }
        }
        Ok(result)
    }

    /// Sets the status of a task and leaves the rest of it as it was.
    pub fn update_task_status(&mut self, wedding_id: u64, task_id: u64, status: TaskStatus) -> (r: Result<
        Task,
        Message,
    >)
        requires
            old(self).wf(),
        ensures
            final(self).wf(),
            ({
                let ws = old(self).weddings@;
                &&& r is Err <==> (!ws.contains_key(wedding_id) || !has_task(ws[wedding_id].tasks@, task_id))
                &&& !ws.contains_key(wedding_id) ==> r is Err && r->Err_0 is WeddingNotFound
                &&& ws.contains_key(wedding_id) && !has_task(ws[wedding_id].tasks@, task_id) ==> r is Err
                    && r->Err_0 is Error
                &&& r is Err ==> *final(self) == *old(self)
                &&& r is Ok ==> {
                    let old_ts = ws[wedding_id].tasks@;
                    let w = final(self).weddings@[wedding_id];
                    let t = r->Ok_0;
                    &&& exists|i: int| #![trigger old_ts[i]]
                        0 <= i < old_ts.len() && old_ts[i].id == task_id && t == (Task {
                            status,
                            ..old_ts[i]
                        }) && w.tasks@ == old_ts.update(i, t)
                    &&& replaced_wedding(*old(self), *final(self), wedding_id, w)
                    &&& w == (Wedding { tasks: w.tasks, ..ws[wedding_id] })
                }
            }),
    {
        let idx = match self.weddings.get(wedding_id) {
            None => {
                return Err(Message::WeddingNotFound("Wedding not found".to_string()));
            },
            Some(w) => match find_task(&w.tasks, task_id) {
                None => {
                    return Err(Message::Error("Task not found".to_string()));
                },
                Some(i) => i,
            },
        };
        let (pos, mut wedding) = self.weddings.checkout(wedding_id).unwrap();
        let mut task = wedding.tasks.remove(idx);
        task.status = status;
        let result = task.duplicate();
        wedding.tasks.insert(idx, task);
        let ghost w = wedding;
        self.weddings.put_back(pos, wedding_id, wedding);
        assert(self.weddings.ids() =~= old(self).weddings.ids());
        proof {
            let old_ts = old(self).weddings@[wedding_id].tasks@;
            assert(w.tasks@ =~= old_ts.update(idx as int, result));
            assert(self.weddings@ =~= old(self).weddings@.insert(wedding_id, w));
            assert(wedding_wf(old(self).weddings@[wedding_id], self.ids.peek()));
            assert forall|a: int, b: int|
                0 <= a < w.tasks@.len() && 0 <= b < w.tasks@.len() && a != b implies
                #[trigger] w.tasks@[a].id != #[trigger] w.tasks@[b].id by {
                assert(old_ts[a].id != old_ts[b].id);
            }
            assert forall|a: int| 0 <= a < w.tasks@.len() implies #[trigger] w.tasks@[a].id < self.ids.peek() by {
                assert(old_ts[a].id < self.ids.peek());
            }
        }
        Ok(result)
    }

    /// Removes a task from a wedding and hands it back.
    pub fn delete_task(&mut self, wedding_id: u64, task_id: u64) -> (r: Result<Task, Message>)
        requires
            old(self).wf(),
        ensures
            final(self).wf(),
            ({
                let ws = old(self).weddings@;
                &&& r is Err <==> (!ws.contains_key(wedding_id) || !has_task(ws[wedding_id].tasks@, task_id))
                &&& !ws.contains_key(wedding_id) ==> r is Err && r->Err_0 is WeddingNotFound
                &&& ws.contains_key(wedding_id) && !has_task(ws[wedding_id].tasks@, task_id) ==> r is Err
                    && r->Err_0 is Error
                &&& r is Err ==> *final(self) == *old(self)
                &&& r is Ok ==> {
                    let old_ts = ws[wedding_id].tasks@;
                    let w = final(self).weddings@[wedding_id];
                    let t = r->Ok_0;
                    &&& exists|i: int| #![trigger old_ts[i]]
                        0 <= i < old_ts.len() && old_ts[i].id == task_id && t == old_ts[i]
                            && w.tasks@ == old_ts.remove(i)
                    &&& !has_task(w.tasks@, task_id)
                    &&& replaced_wedding(*old(self), *final(self), wedding_id, w)
                    &&& w == (Wedding { tasks: w.tasks, ..ws[wedding_id] })
                }
            }),
    {
        let idx = match self.weddings.get(wedding_id) {
            None => {
                return Err(Message::WeddingNotFound("Wedding not found".to_string()));
            },
            Some(w) => match find_task(&w.tasks, task_id) {
                None => {
                    return Err(Message::Error("Task not found".to_string()));
                },
                Some(i) => i,
            },
        };
        let (pos, mut wedding) = self.weddings.checkout(wedding_id).unwrap();
        let task = wedding.tasks.remove(idx);
        let ghost w = wedding;
        self.weddings.put_back(pos, wedding_id, wedding);
        assert(self.weddings.ids() =~= old(self).weddings.ids());
        proof {
            let old_ts = old(self).weddings@[wedding_id].tasks@;
            let i = idx as int;
            assert(self.weddings@ =~= old(self).weddings@.insert(wedding_id, w));
            assert(wedding_wf(old(self).weddings@[wedding_id], self.ids.peek()));
            assert forall|a: int, b: int|
                0 <= a < w.tasks@.len() && 0 <= b < w.tasks@.len() && a != b implies
                #[trigger] w.tasks@[a].id != #[trigger] w.tasks@[b].id by {
                let oa = if a < i { a } else { a + 1 };
                let ob = if b < i { b } else { b + 1 };
                assert(old_ts[oa].id != old_ts[ob].id);
            }
            assert forall|a: int| 0 <= a < w.tasks@.len() implies #[trigger] w.tasks@[a].id < self.ids.peek() by {
                let oa = if a < i { a } else { a + 1 };
                assert(old_ts[oa].id < self.ids.peek());
            }
            assert forall|a: int| 0 <= a < w.tasks@.len() implies #[trigger] w.tasks@[a].id != task_id by {
                let oa = if a < i { a } else { a + 1 };
                assert(old_ts[oa].id != old_ts[i].id);
            }
        }
        Ok(task)
    }
}

} // verus!
