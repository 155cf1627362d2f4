use vstd::prelude::*;
use crate::badge::{badge_content, badge_model, badge_svg_of, render_badge, BadgeModel};
use crate::activity::{
    clone_opt_activity, opt_activity_view, is_valid_activity, Activity, ActivityError,
    ActivityModel,
};

verus! {

/// The activity cell of one user: it holds at most one current record.
pub struct User {
    activity: Option<Activity>,
}

impl View for User {
    type V = Option<ActivityModel>;

    closed spec fn view(&self) -> Option<ActivityModel> {
        opt_activity_view(self.activity)
    }
}

/// The state of a cell after a write of `a`: replaced when `a` is valid,
/// unchanged otherwise.
pub open spec fn after_update(cell: Option<ActivityModel>, a: ActivityModel) -> Option<ActivityModel> {
    if is_valid_activity(a) {
        Some(a)
    } else {
        cell
    }
}

/// The state of a cell after a delete: idle, whatever it was.
pub open spec fn after_delete(cell: Option<ActivityModel>) -> Option<ActivityModel> {
    None
}

/// A write followed by a read: after a valid record is stored the badge reads
/// "Using <name>" with that record's icon; a record with an empty name is
/// refused and the cell keeps its previous record.
pub proof fn lemma_put_then_get(prev: Option<ActivityModel>, a: ActivityModel)
    ensures
        is_valid_activity(a) ==> badge_model(after_update(prev, a)) == (BadgeModel {
            label: "Using "@ + a.name,
            icon: a.icon,
            status: "Now"@,
        }),
        !is_valid_activity(a) ==> after_update(prev, a) == prev,
{
}

/// A delete followed by a read shows the idle badge whatever the cell held,
/// and deleting an idle cell leaves it as it was.
pub proof fn lemma_delete_then_get(prev: Option<ActivityModel>)
    ensures
        badge_model(after_delete(prev)) == badge_model(None),
        after_delete(None) == None::<ActivityModel>,
{
}

/// A write and a delete on one cell, run one after the other in either order,
/// leave exactly the outcome of the one that ran last, never a mix of both.
pub proof fn lemma_put_delete_last_wins(prev: Option<ActivityModel>, a: ActivityModel)
    requires
        is_valid_activity(a),
    ensures
        after_delete(after_update(prev, a)) == after_delete(prev),
        after_update(after_delete(prev), a) == after_update(prev, a),
        after_update(after_delete(prev), a) == Some(a),
{
}

/// Writes to two different identities do not interfere: after a write to `a`
/// and then a write to `b`, each holds the outcome of its own write and every
/// other identity is as it was.
pub proof fn lemma_distinct_identities_independent(
    s0: Users,
    s1: Users,
    s2: Users,
    a: Seq<char>,
    b: Seq<char>,
    x: ActivityModel,
    y: ActivityModel,
)
    requires
        a != b,
        forall|k: Seq<char>|
            #[trigger] s1.record(k) == if k == a {
                after_update(s0.record(k), x)
            } else {
                s0.record(k)
            },
        forall|k: Seq<char>|
            #[trigger] s2.record(k) == if k == b {
                after_update(s1.record(k), y)
            } else {
                s1.record(k)
            },
    ensures
        s2.record(a) == after_update(s0.record(a), x),
        s2.record(b) == after_update(s0.record(b), y),
        forall|k: Seq<char>| k != a && k != b ==> #[trigger] s2.record(k) == s0.record(k),
{
    assert forall|k: Seq<char>| k != a && k != b implies #[trigger] s2.record(k) == s0.record(k) by {
        assert(s2.record(k) == s1.record(k));
        assert(s1.record(k) == s0.record(k));
    }
}

impl User {
    /// A cell starts idle.
    pub fn new() -> (r: User)
        ensures
            r@ is None,
    {
        User { activity: None }
    }

    /// The current record, or `None` when the user is idle.
    pub fn get_activity(&self) -> (r: Option<Activity>)
        ensures
            opt_activity_view(r) == self@,
    {
        clone_opt_activity(&self.activity)
    }

    /// Replaces the current record; a record with an empty name is refused
    /// and leaves the cell as it was.
    pub fn update_activity(&mut self, activity: Activity) -> (r: Result<(), ActivityError>)
        ensures
            r is Ok <==> is_valid_activity(activity@),
            r is Err ==> r == Err::<(), ActivityError>(ActivityError::EmptyName),
            final(self)@ == after_update(old(self)@, activity@),
    {
        match activity.validate() {
            Ok(()) => {
                self.activity = Some(activity);
                Ok(())
            },
            Err(e) => Err(e),
        }
    }

    /// Removes the current record; on an idle cell this changes nothing.
    pub fn delete_activity(&mut self)
        ensures
            final(self)@ == after_delete(old(self)@),
    {
        self.activity = None;
    }

    /// The badge markup of this cell; reading never changes the cell.
    pub fn get_activity_badge(&self) -> (r: String)
        ensures
            r@ == badge_svg_of(badge_model(self@).label, badge_model(self@).icon, badge_model(self@).status),
    {
        let content = badge_content(&self.activity);
        render_badge(&content)
    }

    /// Serves one request addressed to this cell.
    pub fn fetch(&mut self, request: CellRequest) -> (r: CellResponse)
        ensures
            match request {
                CellRequest::Get => final(self)@ == old(self)@ && r is Badge && r->Badge_0@ == badge_svg_of(
                    badge_model(old(self)@).label,
                    badge_model(old(self)@).icon,
                    badge_model(old(self)@).status,
                ),
                CellRequest::Put(a) => final(self)@ == after_update(old(self)@, a@) && r == if is_valid_activity(a@) {
                    CellResponse::NoContent
                } else {
                    CellResponse::Invalid(ActivityError::EmptyName)
                },
                CellRequest::Delete => final(self)@ == after_delete(old(self)@) && r == CellResponse::NoContent,
                CellRequest::Other => final(self)@ == old(self)@ && r == CellResponse::NotAllowed,
            },
    {
        match request {
            CellRequest::Get => CellResponse::Badge(self.get_activity_badge()),
            CellRequest::Put(a) => match self.update_activity(a) {
                Ok(()) => CellResponse::NoContent,
                Err(e) => CellResponse::Invalid(e),
            },
            CellRequest::Delete => {
                self.delete_activity();
                CellResponse::NoContent
            },
            CellRequest::Other => CellResponse::NotAllowed,
        }
    }
}

/// A request addressed to one activity cell.
pub enum CellRequest {
    /// Read the badge.
    Get,
    /// Replace the record.
    Put(Activity),
    /// Clear the record.
    Delete,
    /// Any other method.
    Other,
}

/// How an activity cell answered a request.
pub enum CellResponse {
    /// The badge markup.
    Badge(String),
    /// The write took effect.
    NoContent,
    /// The record was refused.
    Invalid(ActivityError),
    /// The method is not served.
    NotAllowed,
}

/// All activity cells, addressed by identity. A cell comes into being on its
/// first write; an identity without a cell is idle.
pub struct Users {
    ids: Vec<String>,
    cells: Vec<User>,
    model: Ghost<Map<Seq<char>, Option<ActivityModel>>>,
}

impl Users {
    /// Each identity has at most one cell, and `model` maps it to the cell's record.
    pub closed spec fn wf(&self) -> bool {
        &&& self.ids@.len() == self.cells@.len()
        &&& forall|i: int|
            0 <= i < self.ids@.len() ==> #[trigger] self.model@.contains_key(self.ids@[i]@)
                && self.model@[self.ids@[i]@] == self.cells@[i]@
        &&& forall|k: Seq<char>|
            #[trigger] self.model@.contains_key(k) ==> exists|i: int|
                0 <= i < self.ids@.len() && #[trigger] self.ids@[i]@ == k
        &&& forall|i: int, j: int|
            0 <= i < self.ids@.len() && 0 <= j < self.ids@.len() && i != j ==> self.ids@[i]@
                != self.ids@[j]@
    }

    /// The current record of `id`; `None` when idle.
    pub closed spec fn record(&self, id: Seq<char>) -> Option<ActivityModel> {
        if self.model@.contains_key(id) {
            self.model@[id]
        } else {
            None
        }
    }

    pub fn new() -> (r: Users)
        ensures
            r.wf(),
            forall|k: Seq<char>| #[trigger] r.record(k) is None,
    {
        Users { ids: Vec::new(), cells: Vec::new(), model: Ghost(Map::empty()) }
    }

    fn find(&self, id: &String) -> (r: Option<usize>)
        requires
            self.wf(),
        ensures
            match r {
                Some(i) => i < self.ids@.len() && self.ids@[i as int]@ == id@,
                None => !self.model@.contains_key(id@),
            },
    {
        let mut i: usize = 0;
        while i < self.ids.len()
            invariant
                self.wf(),
                i <= self.ids@.len(),
                forall|j: int| 0 <= j < i ==> self.ids@[j]@ != id@,
            decreases self.ids@.len() - i,
        {
            if self.ids[i] == *id {
                return Some(i);
            }
            i = i + 1;
        }
        None
    }

    /// The current record of `id`, or `None` when that user is idle.
    pub fn get_activity(&self, id: &String) -> (r: Option<Activity>)
        requires
            self.wf(),
        ensures
            opt_activity_view(r) == self.record(id@),
    {
        match self.find(id) {
            Some(i) => self.cells[i].get_activity(),
            None => None,
        }
    }

    /// The badge markup of `id`'s cell; reading never changes any cell.
    pub fn get_activity_badge(&self, id: &String) -> (r: String)
        requires
            self.wf(),
        ensures
            r@ == badge_svg_of(
                badge_model(self.record(id@)).label,
                badge_model(self.record(id@)).icon,
                badge_model(self.record(id@)).status,
            ),
    {
        let record = self.get_activity(id);
        let content = badge_content(&record);
        render_badge(&content)
    }

    /// The index of the cell of `id`, which is created, idle, when missing.
    fn cell_index(&mut self, id: &String) -> (r: usize)
        requires
            old(self).wf(),
        ensures
            final(self).wf(),
            r < final(self).ids@.len(),
            final(self).ids@[r as int]@ == id@,
            forall|k: Seq<char>| #[trigger] final(self).record(k) == old(self).record(k),
    {
        match self.find(id) {
            Some(i) => i,
            None => {
                let ghost prev = self.ids@;
                self.ids.push(id.clone());
                self.cells.push(User::new());
                let n = self.ids.len() - 1;
                proof {
                    self.model@ = self.model@.insert(id@, None);
                    assert(self.ids@[n as int]@ == id@);
                    assert forall|k: Seq<char>| #[trigger] self.model@.contains_key(k) implies exists|i: int|
                        0 <= i < self.ids@.len() && #[trigger] self.ids@[i]@ == k by {
                        if k != id@ {
                            let j = choose|j: int| 0 <= j < prev.len() && #[trigger] prev[j]@ == k;
                            assert(self.ids@[j]@ == k);
                        }
                    }
                }
                n
            },
        }
    }

    /// Replaces the record of `id` and of no other identity. A record with an
    /// empty name is refused and changes nothing.
    pub fn update_activity(&mut self, id: &String, activity: Activity) -> (r: Result<(), ActivityError>)
        requires
            old(self).wf(),
        ensures
            final(self).wf(),
            r is Ok <==> is_valid_activity(activity@),
            r is Err ==> r == Err::<(), ActivityError>(ActivityError::EmptyName),
            forall|k: Seq<char>|
                #[trigger] final(self).record(k) == if k == id@ {
                    after_update(old(self).record(k), activity@)
                } else {
                    old(self).record(k)
                },
    {
        match activity.validate() {
            Err(e) => Err(e),
            Ok(()) => {
                let i = self.cell_index(id);
                let ghost pre = *self;
                let mut cell = User::new();
                let r = cell.update_activity(activity);
                self.cells.set(i, cell);
                proof {
                    self.model@ = self.model@.insert(id@, self.cells@[i as int]@);
                    assert forall|k: Seq<char>| #[trigger] self.model@.contains_key(k) implies exists|j: int|
                        0 <= j < self.ids@.len() && #[trigger] self.ids@[j]@ == k by {
                        if k == id@ {
                            assert(self.ids@[i as int]@ == k);
                        } else {
                            assert(pre.model@.contains_key(k));
                            let j = choose|j: int| 0 <= j < pre.ids@.len() && #[trigger] pre.ids@[j]@ == k;
                            assert(self.ids@[j]@ == k);
                        }
                    }
                    assert(self.ids@ == pre.ids@);
                    assert forall|a: int|
                        0 <= a < self.ids@.len() implies #[trigger] self.model@.contains_key(self.ids@[a]@)
                            && self.model@[self.ids@[a]@] == self.cells@[a]@ by {
                        if a != i {
                            assert(pre.model@.contains_key(pre.ids@[a]@));
                        }
                    }
                    assert(self.wf());
                    assert forall|k: Seq<char>| #[trigger] self.record(k) == if k == id@ {
                        after_update(old(self).record(k), activity@)
                    } else {
                        old(self).record(k)
                    } by {
                        assert(pre.record(k) == old(self).record(k));
                    }
                }
                r
            },
        }
    }

    /// Clears the record of `id` and of no other identity; clearing an idle
    /// identity changes nothing.
    pub fn delete_activity(&mut self, id: &String)
        requires
            old(self).wf(),
        ensures
            final(self).wf(),
            forall|k: Seq<char>|
                #[trigger] final(self).record(k) == if k == id@ {
                    after_delete(old(self).record(k))
                } else {
                    old(self).record(k)
                },
    {
        match self.find(id) {
            None => {},
            Some(i) => {
                let ghost pre = *self;
                let mut cell = User::new();
                cell.delete_activity();
                self.cells.set(i, cell);
                proof {
                    self.model@ = self.model@.insert(id@, self.cells@[i as int]@);
                    assert forall|k: Seq<char>| #[trigger] self.model@.contains_key(k) implies exists|j: int|
                        0 <= j < self.ids@.len() && #[trigger] self.ids@[j]@ == k by {
                        if k == id@ {
                            assert(self.ids@[i as int]@ == k);
                        } else {
                            assert(pre.model@.contains_key(k));
                            let j = choose|j: int| 0 <= j < pre.ids@.len() && #[trigger] pre.ids@[j]@ == k;
                            assert(self.ids@[j]@ == k);
                        }
                    }
                }
            },
        }
    }
}

} // verus!
