//! The order workflow: a state machine over the lifecycle of an order,
//! and an in-memory manager that tracks one workflow per order id.
use vstd::prelude::*;
use crate::clock::now_millis;
use crate::ident::new_order_id;
use crate::strutil::{str_eq, string_eq};

verus! {

/// States of an order's workflow.
#[derive(Clone, Copy, Debug, PartialEq, Eq, Hash, Structural)]
pub enum OrderState {
    Pending,
    Validated,
    Processing,
    Completed,
    Failed,
    Cancelled,
}

impl OrderState {
    /// The transition table: which state changes a workflow accepts.
    pub open spec fn spec_can_transition_to(self, new_state: OrderState) -> bool {
        match (self, new_state) {
            (OrderState::Pending, OrderState::Validated) => true,
            (OrderState::Pending, OrderState::Failed) => true,
            (OrderState::Pending, OrderState::Cancelled) => true,
            (OrderState::Validated, OrderState::Processing) => true,
            (OrderState::Validated, OrderState::Cancelled) => true,
            (OrderState::Processing, OrderState::Completed) => true,
            (OrderState::Processing, OrderState::Failed) => true,
            _ => false,
        }
    }

    pub fn can_transition_to(&self, new_state: OrderState) -> (r: bool)
        ensures
            r == self.spec_can_transition_to(new_state),
    {
        match (self, new_state) {
            (OrderState::Pending, OrderState::Validated) => true,
            (OrderState::Pending, OrderState::Failed) => true,
            (OrderState::Pending, OrderState::Cancelled) => true,
            (OrderState::Validated, OrderState::Processing) => true,
            (OrderState::Validated, OrderState::Cancelled) => true,
            (OrderState::Processing, OrderState::Completed) => true,
            (OrderState::Processing, OrderState::Failed) => true,
            _ => false,
        }
    }

    /// A terminal state accepts no transition at all.
    pub open spec fn spec_is_terminal(self) -> bool {
        match self {
            OrderState::Completed | OrderState::Failed | OrderState::Cancelled => true,
            _ => false,
        }
    }

    pub fn is_terminal(&self) -> (r: bool)
        ensures
            r == self.spec_is_terminal(),
    {
        match self {
            OrderState::Completed | OrderState::Failed | OrderState::Cancelled => true,
            _ => false,
        }
    }
}

/// A sequence of states is a valid observation of one workflow when it
/// starts at Pending and each step follows the transition table.
pub open spec fn is_valid_state_path(p: Seq<OrderState>) -> bool {
    &&& p.len() > 0 ==> p[0] == OrderState::Pending
    &&& forall|i: int| 0 <= i < p.len() - 1 ==> #[trigger] p[i].spec_can_transition_to(p[i + 1])
}

/// Every accepted transition extends a valid observation into a valid
/// observation, so the states observed on a workflow always form a path
/// through the transition table.
pub proof fn lemma_valid_path_extends(p: Seq<OrderState>, next: OrderState)
    requires
        is_valid_state_path(p),
        p.len() > 0,
        p[p.len() - 1].spec_can_transition_to(next),
    ensures
        is_valid_state_path(p.push(next)),
{
    let q = p.push(next);
    assert forall|i: int| 0 <= i < q.len() - 1 implies #[trigger] q[i].spec_can_transition_to(
        q[i + 1],
    ) by {
        if i < p.len() - 1 {
            assert(p[i].spec_can_transition_to(p[i + 1]));
        }
    }
}

/// A terminal state is never left: it admits no outgoing transition.
pub proof fn lemma_terminal_states_never_left(s: OrderState, t: OrderState)
    requires
        s.spec_is_terminal(),
    ensures
        !s.spec_can_transition_to(t),
{
}

/// Errors of the workflow manager.
#[derive(Debug, PartialEq)]
pub enum WorkflowError {
    InvalidTransition { from: OrderState, to: OrderState },
    OrderNotFound(String),
}

impl WorkflowError {
    /// A human-readable description of the error.
    pub fn message(&self) -> String {
        match self {
            WorkflowError::InvalidTransition { from: _, to: _ } => String::from_str(
                "invalid workflow transition",
            ),
            WorkflowError::OrderNotFound(_) => String::from_str("order not found"),
        }
    }
}

/// The mathematical content of one workflow entry.
pub struct WorkflowView {
    pub order_id: Seq<char>,
    pub state: OrderState,
    pub created_at: u64,
    pub updated_at: u64,
    pub error_message: Option<Seq<char>>,
    pub netbox_site_id: Option<i32>,
    pub tenant_id: Seq<char>,
}

/// One order's workflow entry.
pub struct OrderWorkflow {
    pub order_id: String,
    pub state: OrderState,
    pub created_at: u64,
    pub updated_at: u64,
    pub error_message: Option<String>,
    pub netbox_site_id: Option<i32>,
    pub tenant_id: String,
}

impl View for OrderWorkflow {
    type V = WorkflowView;

    open spec fn view(&self) -> WorkflowView {
        WorkflowView {
            order_id: self.order_id@,
            state: self.state,
            created_at: self.created_at,
            updated_at: self.updated_at,
            error_message: self.error_message.deep_view(),
            netbox_site_id: self.netbox_site_id,
            tenant_id: self.tenant_id@,
        }
    }
}

impl Clone for OrderWorkflow {
    fn clone(&self) -> (r: Self)
        ensures
            r@ == self@,
    {
        OrderWorkflow {
            order_id: self.order_id.clone(),
            state: self.state,
            created_at: self.created_at,
            updated_at: self.updated_at,
            error_message: match &self.error_message {
                Some(m) => Some(m.clone()),
                None => None,
            },
            netbox_site_id: self.netbox_site_id,
            tenant_id: self.tenant_id.clone(),
        }
    }
}

/// The view of a freshly created workflow entry.
pub open spec fn fresh_workflow(order_id: Seq<char>, tenant_id: Seq<char>, now: u64) -> WorkflowView {
    WorkflowView {
        order_id: order_id,
        state: OrderState::Pending,
        created_at: now,
        updated_at: now,
        error_message: None,
        netbox_site_id: None,
        tenant_id: tenant_id,
    }
}

impl OrderWorkflow {
    /// Create a workflow entry in the Pending state, stamped with `now`.
    pub fn new_at(order_id: String, tenant_id: String, now: u64) -> (r: Self)
        ensures
            r@ == fresh_workflow(order_id@, tenant_id@, now),
    {
        OrderWorkflow {
            order_id,
            state: OrderState::Pending,
            created_at: now,
            updated_at: now,
            error_message: None,
            netbox_site_id: None,
            tenant_id,
        }
    }

    /// Create a workflow entry in the Pending state, stamped with the
    /// current time.
    pub fn new(order_id: String, tenant_id: String) -> (r: Self)
        ensures
            r@.order_id == order_id@,
            r@.tenant_id == tenant_id@,
            r@.state == OrderState::Pending,
            r@.error_message is None,
            r@.netbox_site_id is None,
            r@.created_at == r@.updated_at,
    {
        let now = now_millis();
        Self::new_at(order_id, tenant_id, now)
    }

    /// Move to `new_state` if the transition table allows it, stamping
    /// `updated_at` with `now`; otherwise leave the entry untouched and
    /// report the invalid transition.
    pub fn transition_to_at(&mut self, new_state: OrderState, now: u64) -> (r: Result<
        (),
        WorkflowError,
    >)
        ensures
            r is Ok <==> old(self)@.state.spec_can_transition_to(new_state),
            r is Ok ==> final(self)@ == (WorkflowView {
                state: new_state,
                updated_at: now,
                ..old(self)@
            }),
            r is Err ==> final(self)@ == old(self)@,
            r matches Err(e) ==> e == (WorkflowError::InvalidTransition {
                from: old(self)@.state,
                to: new_state,
            }),
    {
        if !self.state.can_transition_to(new_state) {
            return Err(
                WorkflowError::InvalidTransition { from: self.state, to: new_state },
            );
        }
        self.state = new_state;
        self.updated_at = now;
        Ok(())
    }

    /// Move to `new_state` if the transition table allows it, stamping
    /// `updated_at` with the current time.
    pub fn transition_to(&mut self, new_state: OrderState) -> (r: Result<(), WorkflowError>)
        ensures
            r is Ok <==> old(self)@.state.spec_can_transition_to(new_state),
            r is Ok ==> final(self)@ == (WorkflowView {
                state: new_state,
                updated_at: final(self)@.updated_at,
                ..old(self)@
            }),
            r is Err ==> final(self)@ == old(self)@,
            r matches Err(e) ==> e == (WorkflowError::InvalidTransition {
                from: old(self)@.state,
                to: new_state,
            }),
    {
        let now = now_millis();
        self.transition_to_at(new_state, now)
    }

    /// Transition to Failed and record the error message.
    pub fn mark_failed(&mut self, error: String) -> (r: Result<(), WorkflowError>)
        ensures
            r is Ok <==> old(self)@.state.spec_can_transition_to(OrderState::Failed),
            r is Ok ==> final(self)@ == (WorkflowView {
                state: OrderState::Failed,
                updated_at: final(self)@.updated_at,
                error_message: Some(error@),
                ..old(self)@
            }),
            r is Err ==> final(self)@ == old(self)@,
            r matches Err(e) ==> e == (WorkflowError::InvalidTransition {
                from: old(self)@.state,
                to: OrderState::Failed,
            }),
    {
        let r = self.transition_to(OrderState::Failed);
        match r {
            Ok(()) => {
                self.error_message = Some(error);
                Ok(())
            },
            Err(e) => Err(e),
        }
    }

    /// Transition to Completed and record the inventory id of the site.
    pub fn mark_completed(&mut self, netbox_site_id: i32) -> (r: Result<(), WorkflowError>)
        ensures
            r is Ok <==> old(self)@.state.spec_can_transition_to(OrderState::Completed),
            r is Ok ==> final(self)@ == (WorkflowView {
                state: OrderState::Completed,
                updated_at: final(self)@.updated_at,
                netbox_site_id: Some(netbox_site_id),
                ..old(self)@
            }),
            r is Err ==> final(self)@ == old(self)@,
            r matches Err(e) ==> e == (WorkflowError::InvalidTransition {
                from: old(self)@.state,
                to: OrderState::Completed,
            }),
    {
        let r = self.transition_to(OrderState::Completed);
        match r {
            Ok(()) => {
                self.netbox_site_id = Some(netbox_site_id);
                Ok(())
            },
            Err(e) => Err(e),
        }
    }
}

/// In-memory store of workflows, one per order id.
pub struct WorkflowManager {
    orders: Vec<OrderWorkflow>,
}

impl WorkflowManager {
    /// The stored workflows, by view.
    pub closed spec fn entries(self) -> Seq<WorkflowView> {
        self.orders@.map_values(|w: OrderWorkflow| w@)
    }

    /// Order ids are unique among the stored workflows.
    pub open spec fn wf(self) -> bool {
        forall|i: int, j: int|
            0 <= i < j < self.entries().len() ==> self.entries()[i].order_id
                != self.entries()[j].order_id
    }

    /// Whether a workflow with the given order id is stored.
    pub open spec fn has_order(self, id: Seq<char>) -> bool {
        exists|i: int| 0 <= i < self.entries().len() && self.entries()[i].order_id == id
    }

    /// The index of the workflow with the given order id.
    pub open spec fn idx_of(self, id: Seq<char>) -> int {
        choose|i: int| 0 <= i < self.entries().len() && self.entries()[i].order_id == id
    }

    /// The stored workflow with the given order id.
    pub open spec fn order_view(self, id: Seq<char>) -> WorkflowView {
        self.entries()[self.idx_of(id)]
    }

    pub fn new() -> (r: Self)
        ensures
            r.wf(),
            r.entries() == Seq::<WorkflowView>::empty(),
    {
        WorkflowManager { orders: Vec::new() }
    }

    /// Store a fresh Pending workflow under the given order id, replacing
    /// any workflow already stored under it.
    pub fn create_order_with_id(&mut self, order_id: String, tenant_id: String, now: u64)
        requires
            old(self).wf(),
        ensures
            final(self).wf(),
            final(self).has_order(order_id@),
            final(self).order_view(order_id@) == fresh_workflow(order_id@, tenant_id@, now),
            forall|id: Seq<char>|
                id != order_id@ ==> #[trigger] final(self).has_order(id) == old(self).has_order(id),
            forall|id: Seq<char>|
                id != order_id@ && old(self).has_order(id) ==> #[trigger] final(self).order_view(id)
                    == old(self).order_view(id),
    {
        let ghost oid = order_id@;
        let ghost tid = tenant_id@;
        let w = OrderWorkflow::new_at(order_id.clone(), tenant_id.clone(), now);
        let ghost wv = w@;
        let ghost pre = *self;
        let mut i: usize = 0;
        while i < self.orders.len()
            invariant
                *self == pre,
                pre == *old(self),
                pre.wf(),
                i <= pre.entries().len(),
                oid == order_id@,
                tid == tenant_id@,
                wv == fresh_workflow(oid, tid, now),
                w@ == wv,
                forall|k: int| 0 <= k < i ==> pre.entries()[k].order_id != wv.order_id,
            decreases pre.entries().len() - i,
        {
            if string_eq(&self.orders[i].order_id, &w.order_id) {
                self.orders.set(i, w);
                proof {
                    assert(pre.entries()[i as int].order_id == wv.order_id);
                    assert(self.entries() =~= pre.entries().update(i as int, wv));
                    lemma_update_keeps_entries(pre, *self, i as int, wv);
                }
                return;
            }
            proof {
                assert(pre.entries()[i as int].order_id == pre.orders@[i as int]@.order_id);
            }
            i += 1;
        }
        self.orders.push(w);
        proof {
            assert(self.entries() =~= pre.entries().push(wv));
            lemma_push_keeps_entries(pre, *self, wv);
        }
    }

    /// Create a fresh workflow under a newly drawn order id and return
    /// the id. The workflow starts Pending and is stamped with the current
    /// time.
    pub fn create_order(&mut self, tenant_id: String) -> (r: String)
        requires
            old(self).wf(),
        ensures
            final(self).wf(),
            r@.len() == 36,
            final(self).has_order(r@),
            final(self).order_view(r@).state == OrderState::Pending,
            final(self).order_view(r@).tenant_id == tenant_id@,
            final(self).order_view(r@).error_message is None,
            final(self).order_view(r@).netbox_site_id is None,
            forall|id: Seq<char>|
                id != r@ ==> #[trigger] final(self).has_order(id) == old(self).has_order(id),
            forall|id: Seq<char>|
                id != r@ && old(self).has_order(id) ==> #[trigger] final(self).order_view(id) == old(
                    self,
                ).order_view(id),
    {
        let order_id = new_order_id();
        let now = now_millis();
        let id_copy = order_id.clone();
        self.create_order_with_id(order_id, tenant_id, now);
        id_copy
    }
}

/// Replacing the entry at an index whose order id equals the new entry's
/// preserves uniqueness and leaves every other order untouched.
proof fn lemma_update_keeps_entries(pre: WorkflowManager, post: WorkflowManager, i: int, w: WorkflowView)
    requires
        pre.wf(),
        0 <= i < pre.entries().len(),
        pre.entries()[i].order_id == w.order_id,
        post.entries() == pre.entries().update(i, w),
    ensures
        post.wf(),
        post.has_order(w.order_id),
        post.order_view(w.order_id) == w,
        forall|id: Seq<char>|
            id != w.order_id ==> #[trigger] post.has_order(id) == pre.has_order(id),
        forall|id: Seq<char>|
            id != w.order_id && pre.has_order(id) ==> #[trigger] post.order_view(id) == pre.order_view(
                id,
            ),
{
    assert(post.entries()[i] == w);
    assert forall|id: Seq<char>| id != w.order_id implies #[trigger] post.has_order(id)
        == pre.has_order(id) by {
        if pre.has_order(id) {
            let k = pre.idx_of(id);
            assert(post.entries()[k].order_id == id);
        }
        if post.has_order(id) {
            let k = post.idx_of(id);
            assert(pre.entries()[k].order_id == id);
        }
    }
    assert forall|id: Seq<char>| id != w.order_id && pre.has_order(id) implies #[trigger] post.order_view(
        id,
    ) == pre.order_view(id) by {
        let k = pre.idx_of(id);
        assert(post.entries()[k].order_id == id);
        let k2 = post.idx_of(id);
        assert(post.entries()[k2].order_id == id);
        if k2 != k {
            if k2 == i {
                assert(false);
            } else {
                assert(pre.entries()[k2].order_id == id);
                assert(false);
            }
        }
    }
}

/// Appending an entry with a fresh order id preserves uniqueness and
/// leaves every other order untouched.
proof fn lemma_push_keeps_entries(pre: WorkflowManager, post: WorkflowManager, w: WorkflowView)
    requires
        pre.wf(),
        forall|k: int| 0 <= k < pre.entries().len() ==> pre.entries()[k].order_id != w.order_id,
        post.entries() == pre.entries().push(w),
    ensures
        post.wf(),
        post.has_order(w.order_id),
        post.order_view(w.order_id) == w,
        forall|id: Seq<char>|
            id != w.order_id ==> #[trigger] post.has_order(id) == pre.has_order(id),
        forall|id: Seq<char>|
            id != w.order_id && pre.has_order(id) ==> #[trigger] post.order_view(id) == pre.order_view(
                id,
            ),
{
    let n = pre.entries().len() as int;
    assert(post.entries()[n] == w);
    assert forall|id: Seq<char>| id != w.order_id implies #[trigger] post.has_order(id)
        == pre.has_order(id) by {
        if pre.has_order(id) {
            let k = pre.idx_of(id);
            assert(post.entries()[k].order_id == id);
        }
        if post.has_order(id) {
            let k = post.idx_of(id);
            assert(k != n);
            assert(pre.entries()[k].order_id == id);
        }
    }
    assert forall|id: Seq<char>| id != w.order_id && pre.has_order(id) implies #[trigger] post.order_view(
        id,
    ) == pre.order_view(id) by {
        let k = pre.idx_of(id);
        let k2 = post.idx_of(id);
        assert(post.entries()[k].order_id == id);
        assert(post.entries()[k2].order_id == id);
        if k2 != k {
            assert(k2 != n);
            assert(pre.entries()[k2].order_id == id);
            assert(false);
        }
    }
}


impl WorkflowManager {
    /// With unique ids, any index holding `id` is the index `idx_of` picks.
    proof fn lemma_idx_at(self, id: Seq<char>, i: int)
        requires
            self.wf(),
            0 <= i < self.entries().len(),
            self.entries()[i].order_id == id,
        ensures
            self.has_order(id),
            self.idx_of(id) == i,
            self.order_view(id) == self.entries()[i],
    {
        assert(self.has_order(id));
        let k = self.idx_of(id);
        if k != i {
            if k < i {
                assert(self.entries()[k].order_id != self.entries()[i].order_id);
            } else {
                assert(self.entries()[i].order_id != self.entries()[k].order_id);
            }
        }
    }

    /// Find the index of the workflow stored under `order_id`.
    fn find_order_idx(&self, order_id: &str) -> (r: Option<usize>)
        requires
            self.wf(),
        ensures
            r matches Some(i) ==> i < self.entries().len() && self.has_order(order_id@)
                && self.idx_of(order_id@) == i,
            r is None ==> !self.has_order(order_id@),
    {
        let mut i: usize = 0;
        while i < self.orders.len()
            invariant
                self.wf(),
                i <= self.entries().len(),
                forall|k: int| 0 <= k < i ==> self.entries()[k].order_id != order_id@,
            decreases self.entries().len() - i,
        {
            if str_eq(self.orders[i].order_id.as_str(), order_id) {
                proof {
                    self.lemma_idx_at(order_id@, i as int);
                }
                return Some(i);
            }
            proof {
                assert(self.entries()[i as int].order_id == self.orders@[i as int]@.order_id);
            }
            i += 1;
        }
        None
    }

    /// Look up the workflow stored under `order_id`, as a copy.
    pub fn get_order(&self, order_id: &str) -> (r: Option<OrderWorkflow>)
        requires
            self.wf(),
        ensures
            r matches Some(w) ==> self.has_order(order_id@) && w@ == self.order_view(order_id@),
            r is None ==> !self.has_order(order_id@),
    {
        match self.find_order_idx(order_id) {
            Some(i) => Some(self.orders[i].clone()),
            None => None,
        }
    }

    /// Replacing the entry at `i` by one with the same order id keeps the
    /// ids unique and every other order untouched.
    proof fn lemma_set_frame(pre: Self, post: Self, i: int, w: WorkflowView)
        requires
            pre.wf(),
            0 <= i < pre.entries().len(),
            pre.entries()[i].order_id == w.order_id,
            post.entries() == pre.entries().update(i, w),
        ensures
            post.wf(),
            post.has_order(w.order_id),
            post.order_view(w.order_id) == w,
            forall|id: Seq<char>|
                id != w.order_id ==> #[trigger] post.has_order(id) == pre.has_order(id),
            forall|id: Seq<char>|
                id != w.order_id && pre.has_order(id) ==> #[trigger] post.order_view(id)
                    == pre.order_view(id),
    {
        lemma_update_keeps_entries(pre, post, i, w);
    }

    /// Apply the transition table to the workflow stored under `order_id`.
    pub fn update_order_state(&mut self, order_id: &str, new_state: OrderState) -> (r: Result<
        (),
        WorkflowError,
    >)
        requires
            old(self).wf(),
        ensures
            final(self).wf(),
            r is Ok <==> old(self).has_order(order_id@) && old(self).order_view(
                order_id@,
            ).state.spec_can_transition_to(new_state),
            !old(self).has_order(order_id@) ==> final(self).entries() == old(self).entries() && (
            r matches Err(WorkflowError::OrderNotFound(s)) && s@ == order_id@),
            old(self).has_order(order_id@) && !old(self).order_view(
                order_id@,
            ).state.spec_can_transition_to(new_state) ==> final(self).entries() == old(
                self,
            ).entries() && r == Err::<(), WorkflowError>(
                WorkflowError::InvalidTransition {
                    from: old(self).order_view(order_id@).state,
                    to: new_state,
                },
            ),
            r is Ok ==> final(self).order_view(order_id@) == (WorkflowView {
                state: new_state,
                updated_at: final(self).order_view(order_id@).updated_at,
                ..old(self).order_view(order_id@)
            }),
            forall|id: Seq<char>|
                id != order_id@ ==> #[trigger] final(self).has_order(id) == old(self).has_order(id),
            forall|id: Seq<char>|
                id != order_id@ && old(self).has_order(id) ==> #[trigger] final(self).order_view(id)
                    == old(self).order_view(id),
            final(self).has_order(order_id@) == old(self).has_order(order_id@),
    {
        let idx = match self.find_order_idx(order_id) {
            Some(i) => i,
            None => {
                return Err(WorkflowError::OrderNotFound(String::from_str(order_id)));
            },
        };
        let ghost pre = *self;
        let mut w = self.orders[idx].clone();
        let r = w.transition_to(new_state);
        match r {
            Ok(()) => {
                self.orders.set(idx, w);
                proof {
                    assert(self.entries() =~= pre.entries().update(idx as int, self.orders@[idx as int]@));
                    Self::lemma_set_frame(pre, *self, idx as int, self.orders@[idx as int]@);
                }
                Ok(())
            },
            Err(e) => {
                proof {
                    assert(self.entries() =~= pre.entries());
                }
                Err(e)
            },
        }
    }

    /// Move the workflow stored under `order_id` to Failed and record the
    /// error message.
    pub fn mark_order_failed(&mut self, order_id: &str, error: String) -> (r: Result<
        (),
        WorkflowError,
    >)
        requires
            old(self).wf(),
        ensures
            final(self).wf(),
            r is Ok <==> old(self).has_order(order_id@) && old(self).order_view(
                order_id@,
            ).state.spec_can_transition_to(OrderState::Failed),
            !old(self).has_order(order_id@) ==> final(self).entries() == old(self).entries() && (
            r matches Err(WorkflowError::OrderNotFound(s)) && s@ == order_id@),
            old(self).has_order(order_id@) && !old(self).order_view(
                order_id@,
            ).state.spec_can_transition_to(OrderState::Failed) ==> final(self).entries() == old(
                self,
            ).entries() && r == Err::<(), WorkflowError>(
                WorkflowError::InvalidTransition {
                    from: old(self).order_view(order_id@).state,
                    to: OrderState::Failed,
                },
            ),
            r is Ok ==> final(self).order_view(order_id@) == (WorkflowView {
                state: OrderState::Failed,
                updated_at: final(self).order_view(order_id@).updated_at,
                error_message: Some(error@),
                ..old(self).order_view(order_id@)
            }),
            forall|id: Seq<char>|
                id != order_id@ ==> #[trigger] final(self).has_order(id) == old(self).has_order(id),
            forall|id: Seq<char>|
                id != order_id@ && old(self).has_order(id) ==> #[trigger] final(self).order_view(id)
                    == old(self).order_view(id),
            final(self).has_order(order_id@) == old(self).has_order(order_id@),
    {
        let idx = match self.find_order_idx(order_id) {
            Some(i) => i,
            None => {
                return Err(WorkflowError::OrderNotFound(String::from_str(order_id)));
            },
        };
        let ghost pre = *self;
        let mut w = self.orders[idx].clone();
        let r = w.mark_failed(error);
        match r {
            Ok(()) => {
                self.orders.set(idx, w);
                proof {
                    assert(self.entries() =~= pre.entries().update(idx as int, self.orders@[idx as int]@));
                    Self::lemma_set_frame(pre, *self, idx as int, self.orders@[idx as int]@);
                }
                Ok(())
            },
            Err(e) => {
                proof {
                    assert(self.entries() =~= pre.entries());
                }
                Err(e)
            },
        }
    }

    /// Move the workflow stored under `order_id` to Completed and record
    /// the inventory id of the created site.
    pub fn mark_order_completed(&mut self, order_id: &str, netbox_site_id: i32) -> (r: Result<
        (),
        WorkflowError,
    >)
        requires
            old(self).wf(),
        ensures
            final(self).wf(),
            r is Ok <==> old(self).has_order(order_id@) && old(self).order_view(
                order_id@,
            ).state.spec_can_transition_to(OrderState::Completed),
            !old(self).has_order(order_id@) ==> final(self).entries() == old(self).entries() && (
            r matches Err(WorkflowError::OrderNotFound(s)) && s@ == order_id@),
            old(self).has_order(order_id@) && !old(self).order_view(
                order_id@,
            ).state.spec_can_transition_to(OrderState::Completed) ==> final(self).entries() == old(
                self,
            ).entries() && r == Err::<(), WorkflowError>(
                WorkflowError::InvalidTransition {
                    from: old(self).order_view(order_id@).state,
                    to: OrderState::Completed,
                },
            ),
            r is Ok ==> final(self).order_view(order_id@) == (WorkflowView {
                state: OrderState::Completed,
                updated_at: final(self).order_view(order_id@).updated_at,
                netbox_site_id: Some(netbox_site_id),
                ..old(self).order_view(order_id@)
            }),
            forall|id: Seq<char>|
                id != order_id@ ==> #[trigger] final(self).has_order(id) == old(self).has_order(id),
            forall|id: Seq<char>|
                id != order_id@ && old(self).has_order(id) ==> #[trigger] final(self).order_view(id)
                    == old(self).order_view(id),
            final(self).has_order(order_id@) == old(self).has_order(order_id@),
    {
        let idx = match self.find_order_idx(order_id) {
            Some(i) => i,
            None => {
                return Err(WorkflowError::OrderNotFound(String::from_str(order_id)));
            },
        };
        let ghost pre = *self;
        let mut w = self.orders[idx].clone();
        let r = w.mark_completed(netbox_site_id);
        match r {
            Ok(()) => {
                self.orders.set(idx, w);
                proof {
                    assert(self.entries() =~= pre.entries().update(idx as int, self.orders@[idx as int]@));
                    Self::lemma_set_frame(pre, *self, idx as int, self.orders@[idx as int]@);
                }
                Ok(())
            },
            Err(e) => {
                proof {
                    assert(self.entries() =~= pre.entries());
                }
                Err(e)
            },
        }
    }

    /// All workflows of one tenant, in storage order.
    pub fn get_tenant_orders(&self, tenant_id: &str) -> (r: Vec<OrderWorkflow>)
        ensures
            r@.map_values(|w: OrderWorkflow| w@) == self.entries().filter(
                |wv: WorkflowView| wv.tenant_id == tenant_id@,
            ),
    {
        let ghost pred = |wv: WorkflowView| wv.tenant_id == tenant_id@;
        let mut out: Vec<OrderWorkflow> = Vec::new();
        let mut i: usize = 0;
        proof {
            assert(self.entries().take(0) =~= Seq::<WorkflowView>::empty());
            reveal_with_fuel(Seq::filter, 1);
        }
        while i < self.orders.len()
            invariant
                i <= self.entries().len(),
                out@.map_values(|w: OrderWorkflow| w@) == self.entries().take(i as int).filter(pred),
                pred == (|wv: WorkflowView| wv.tenant_id == tenant_id@),
            decreases self.entries().len() - i,
        {
            let ghost prefix = self.entries().take(i as int);
            proof {
                assert(self.entries().take(i + 1).drop_last() =~= prefix);
                assert(self.entries().take(i + 1).last() == self.entries()[i as int]);
                reveal(Seq::filter);
            }
            if str_eq(self.orders[i].tenant_id.as_str(), tenant_id) {
                out.push(self.orders[i].clone());
                proof {
                    assert(out@.map_values(|w: OrderWorkflow| w@) =~= self.entries().take(
                        i + 1,
                    ).filter(pred));
                }
            } else {
                proof {
                    assert(out@.map_values(|w: OrderWorkflow| w@) =~= self.entries().take(
                        i + 1,
                    ).filter(pred));
                }
            }
            i += 1;
        }
        proof {
            assert(self.entries().take(self.entries().len() as int) =~= self.entries());
        }
        out
    }

    /// All workflows currently in the given state, in storage order.
    pub fn get_orders_by_state(&self, state: OrderState) -> (r: Vec<OrderWorkflow>)
        ensures
            r@.map_values(|w: OrderWorkflow| w@) == self.entries().filter(
                |wv: WorkflowView| wv.state == state,
            ),
    {
        let ghost pred = |wv: WorkflowView| wv.state == state;
        let mut out: Vec<OrderWorkflow> = Vec::new();
        let mut i: usize = 0;
        proof {
            assert(self.entries().take(0) =~= Seq::<WorkflowView>::empty());
            reveal_with_fuel(Seq::filter, 1);
        }
        while i < self.orders.len()
            invariant
                i <= self.entries().len(),
                out@.map_values(|w: OrderWorkflow| w@) == self.entries().take(i as int).filter(pred),
                pred == (|wv: WorkflowView| wv.state == state),
            decreases self.entries().len() - i,
        {
            let ghost prefix = self.entries().take(i as int);
            proof {
                assert(self.entries().take(i + 1).drop_last() =~= prefix);
                assert(self.entries().take(i + 1).last() == self.entries()[i as int]);
                reveal(Seq::filter);
            }
            if self.orders[i].state.eq_state(state) {
                out.push(self.orders[i].clone());
                proof {
                    assert(out@.map_values(|w: OrderWorkflow| w@) =~= self.entries().take(
                        i + 1,
                    ).filter(pred));
                }
            } else {
                proof {
                    assert(out@.map_values(|w: OrderWorkflow| w@) =~= self.entries().take(
                        i + 1,
                    ).filter(pred));
                }
            }
            i += 1;
        }
        proof {
            assert(self.entries().take(self.entries().len() as int) =~= self.entries());
        }
        out
    }
}

impl OrderState {
    /// Compare two states.
    pub fn eq_state(&self, other: OrderState) -> (r: bool)
        ensures
            r == (*self == other),
    {
        *self == other
    }
}

} // verus!
