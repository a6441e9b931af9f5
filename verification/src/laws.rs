use crate::application::{AppView, Dispatch};
use crate::error::SystrayError;
use crate::event::SystrayEvent;
use vstd::prelude::*;

verus! {

/// One answer of the platform as the controller records it: the arguments
/// of a call of `add_menu_item`, `add_menu_group` or `add_menu_separator`.
pub enum MenuOp<C> {
    Item { submenu: u64, outcome: Result<(), SystrayError>, f: C },
    Group { submenu: u64, answer: Result<u64, SystrayError> },
    Separator { submenu: u64, outcome: Result<(), SystrayError> },
}

impl<C> AppView<C> {
    /// The controller after `op` was recorded.
    pub open spec fn after_op(self, op: MenuOp<C>) -> Self {
        match op {
            MenuOp::Item { submenu, outcome, f } => self.after_item(submenu, outcome, f),
            MenuOp::Group { submenu, answer } => self.after_group(submenu, answer),
            MenuOp::Separator { submenu, outcome } => self.after_separator(submenu, outcome),
        }
    }

    /// The index that recording `op` issues, if it issues one: separators,
    /// failures of the platform and unknown submenus issue none.
    pub open spec fn issued_by(self, op: MenuOp<C>) -> Option<u32> {
        match op {
            MenuOp::Item { submenu, outcome, f } => if self.has_menu(submenu) && outcome is Ok {
                Some(self.next_index as u32)
            } else {
                None
            },
            MenuOp::Group { submenu, answer } => if self.has_menu(submenu) && answer is Ok {
                Some(self.next_index as u32)
            } else {
                None
            },
            MenuOp::Separator { submenu, outcome } => None,
        }
    }

    /// The controller after every answer of `ops` was recorded, in order.
    pub open spec fn after_ops(self, ops: Seq<MenuOp<C>>) -> Self
        decreases ops.len(),
    {
        if ops.len() == 0 {
            self
        } else {
            self.after_ops(ops.drop_last()).after_op(ops.last())
        }
    }

    /// The index that the answer `ops[i]` issues when `ops` is recorded.
    pub open spec fn issued_at(self, ops: Seq<MenuOp<C>>, i: int) -> Option<u32> {
        self.after_ops(ops.take(i)).issued_by(ops[i])
    }
}

/// Recording an answer never lowers the counter nor removes a submenu, and
/// leaves the loop running or stopped as it was. Where it issues an index,
/// that index is the counter's value, and the counter moves on by one.
pub proof fn lemma_op_grows<C>(v: AppView<C>, op: MenuOp<C>)
    ensures
        v.after_op(op).next_index >= v.next_index,
        v.after_op(op).running == v.running,
        forall|m: u64| v.has_menu(m) ==> #[trigger] v.after_op(op).has_menu(m),
        v.issued_by(op) is Some ==> v.after_op(op).next_index == v.next_index + 1,
        v.issued_by(op) is None ==> v.after_op(op).next_index == v.next_index,
{
}

/// The index that an answer issues is the one that the controller reports:
/// `add_menu_item` returns it, and the requests for an entry and for a group
/// carry it to the platform.
pub proof fn lemma_issued_is_reported<C>(v: AppView<C>, op: MenuOp<C>)
    requires
        v.issued_by(op) is Some,
    ensures
        v.issued_by(op)->Some_0 == v.next_index as u32,
        op is Item ==> v.item_result(op->Item_submenu, op->Item_outcome) == Ok::<u32, SystrayError>(
            v.issued_by(op)->Some_0,
        ),
        op is Group ==> v.group_result(op->Group_submenu, op->Group_answer) == op->Group_answer,
{
}

/// Recording a sequence of answers never lowers the counter nor removes a
/// submenu, and leaves the loop running or stopped as it was.
pub proof fn lemma_ops_grow<C>(v: AppView<C>, ops: Seq<MenuOp<C>>)
    ensures
        v.after_ops(ops).next_index >= v.next_index,
        v.after_ops(ops).running == v.running,
        forall|m: u64| v.has_menu(m) ==> #[trigger] v.after_ops(ops).has_menu(m),
    decreases ops.len(),
{
    if ops.len() > 0 {
        lemma_ops_grow(v, ops.drop_last());
        lemma_op_grows(v.after_ops(ops.drop_last()), ops.last());
    }
}

/// The counter after a prefix of the answers is at most the counter after
/// all of them.
pub proof fn lemma_prefix_counter<C>(v: AppView<C>, ops: Seq<MenuOp<C>>, k: int)
    requires
        0 <= k <= ops.len(),
    ensures
        v.after_ops(ops.take(k)).next_index <= v.after_ops(ops).next_index,
    decreases ops.len(),
{
    if k == ops.len() {
        assert(ops.take(k) =~= ops);
    } else {
        assert(ops.drop_last().take(k) =~= ops.take(k));
        lemma_prefix_counter(v, ops.drop_last(), k);
        lemma_op_grows(v.after_ops(ops.drop_last()), ops.last());
    }
}

/// Every issued index is unique: of two answers in one sequence that each
/// issue an index, the later one issues the greater index, as long as the
/// counter stays within the range of an index.
pub proof fn lemma_issued_indexes_unique<C>(v: AppView<C>, ops: Seq<MenuOp<C>>, i: int, j: int)
    requires
        0 <= i < j < ops.len(),
        v.after_ops(ops).within_range(),
        v.issued_at(ops, i) is Some,
        v.issued_at(ops, j) is Some,
    ensures
        v.issued_at(ops, i)->Some_0 < v.issued_at(ops, j)->Some_0,
        v.issued_at(ops, i)->Some_0 == v.after_ops(ops.take(i)).next_index,
        v.issued_at(ops, j)->Some_0 == v.after_ops(ops.take(j)).next_index,
{
    let at_i = v.after_ops(ops.take(i));
    let at_j = v.after_ops(ops.take(j));
    let past_i = ops.take(i + 1);
    let past_j = ops.take(j + 1);
    assert(past_i.drop_last() =~= ops.take(i));
    assert(past_i.last() == ops[i]);
    assert(past_j.drop_last() =~= ops.take(j));
    assert(past_j.last() == ops[j]);
    lemma_op_grows(at_i, ops[i]);
    lemma_op_grows(at_j, ops[j]);
    assert(v.after_ops(past_i).next_index == at_i.next_index + 1);
    assert(v.after_ops(past_j).next_index == at_j.next_index + 1);
    assert(ops.take(j).take(i + 1) =~= past_i);
    lemma_prefix_counter(v, ops.take(j), i + 1);
    lemma_prefix_counter(v, ops, j + 1);
}

/// Recording an answer keeps the bound indexes unique, as long as the
/// counter stays within the range of an index.
pub proof fn lemma_op_keeps_indexes_unique<C>(v: AppView<C>, op: MenuOp<C>)
    requires
        v.indexes_unique(),
        v.after_op(op).within_range(),
    ensures
        v.after_op(op).indexes_unique(),
{
    let after = v.after_op(op);
    lemma_op_grows(v, op);
    assert forall|m: u64, k: u32| #[trigger] after.binds(m, k) implies v.binds(m, k) || (k
        == v.next_index && v.issued_by(op) is Some && op is Item && m == op->Item_submenu) by {}
    assert forall|m: u64, k: u32| #[trigger] after.binds(m, k) implies k < after.next_index by {}
    assert forall|m1: u64, m2: u64, k: u32| #[trigger]
        after.binds(m1, k) && #[trigger] after.binds(m2, k) implies m1 == m2 by {
        if k == v.next_index {
            assert(!v.binds(m1, k));
            assert(!v.binds(m2, k));
        } else {
            assert(v.binds(m1, k));
            assert(v.binds(m2, k));
        }
    }
}

/// Recording an answer leaves an index vacant whose callback is being
/// invoked: no later entry is issued that index.
pub proof fn lemma_op_keeps_vacant<C>(v: AppView<C>, op: MenuOp<C>, item_id: u32)
    requires
        v.vacant(item_id),
        v.after_op(op).within_range(),
    ensures
        v.after_op(op).vacant(item_id),
{
    let after = v.after_op(op);
    lemma_op_grows(v, op);
    assert forall|m: u64| !#[trigger] after.binds(m, item_id) by {
        assert(!v.binds(m, item_id));
    }
}

/// After any sequence of answers recorded by a controller whose bound
/// indexes are unique, they are unique still: every bound index was issued
/// by the counter and is bound in one submenu of the whole tree.
pub proof fn lemma_ops_keep_indexes_unique<C>(v: AppView<C>, ops: Seq<MenuOp<C>>)
    requires
        v.indexes_unique(),
        v.after_ops(ops).within_range(),
    ensures
        v.after_ops(ops).indexes_unique(),
    decreases ops.len(),
{
    if ops.len() > 0 {
        lemma_op_grows(v.after_ops(ops.drop_last()), ops.last());
        lemma_ops_keep_indexes_unique(v, ops.drop_last());
        lemma_op_keeps_indexes_unique(v.after_ops(ops.drop_last()), ops.last());
    }
}

/// A controller that has just been set up binds no index at all.
pub proof fn lemma_initial_indexes_unique<C>()
    ensures
        AppView::<C>::initial().indexes_unique(),
        AppView::<C>::initial().has_menu(0),
        AppView::<C>::initial().running,
{
}

/// An answer for a submenu that does not exist changes nothing, issues no
/// index and is reported as 0, whatever the platform said.
pub proof fn lemma_unknown_submenu_is_no_op<C>(v: AppView<C>, op: MenuOp<C>)
    requires
        match op {
            MenuOp::Item { submenu, outcome, f } => !v.has_menu(submenu),
            MenuOp::Group { submenu, answer } => !v.has_menu(submenu),
            MenuOp::Separator { submenu, outcome } => !v.has_menu(submenu),
        },
    ensures
        v.after_op(op) == v,
        v.issued_by(op) is None,
        match op {
            MenuOp::Item { submenu, outcome, f } => v.item_result(submenu, outcome) == Ok::<
                u32,
                SystrayError,
            >(0),
            MenuOp::Group { submenu, answer } => v.group_result(submenu, answer) == Ok::<
                u64,
                SystrayError,
            >(0),
            MenuOp::Separator { submenu, outcome } => v.separator_result(submenu, outcome) == Ok::<
                u32,
                SystrayError,
            >(0),
        },
{
}

/// A failure of the platform is handed on as it is and records nothing.
pub proof fn lemma_failure_records_nothing<C>(v: AppView<C>, submenu: u64, e: SystrayError, f: C)
    requires
        v.has_menu(submenu),
    ensures
        v.after_item(submenu, Err(e), f) == v,
        v.item_result(submenu, Err(e)) == Err::<u32, SystrayError>(e),
        v.after_group(submenu, Err(e)) == v,
        v.group_result(submenu, Err(e)) == Err::<u64, SystrayError>(e),
        v.after_separator(submenu, Err(e)) == v,
        v.separator_result(submenu, Err(e)) == Err::<u32, SystrayError>(e),
{
}

/// An event that names a registered callback hands out that very callback,
/// and once the callback is restored the controller is exactly as it was
/// before the event.
pub proof fn lemma_dispatch_round_trip<C>(v: AppView<C>, event: SystrayEvent, f: C)
    requires
        v.running,
        v.callback(event) == Some(f),
    ensures
        v.decision(Some(event)) == Dispatch::Invoke(f),
        v.after_message(Some(event)).callback(event) is None,
        v.after_message(Some(event)).after_callback(event, f) == v,
{
    let back = v.after_message(Some(event)).after_callback(event, f);
    assert(back.menus[event.menu_id].callbacks =~= v.menus[event.menu_id].callbacks);
    assert(back.menus =~= v.menus);
}

/// Taking a callback out for its invocation keeps the bound indexes unique
/// and leaves the callback's index vacant.
pub proof fn lemma_dispatch_vacates<C>(v: AppView<C>, event: SystrayEvent)
    requires
        v.running,
        v.indexes_unique(),
        v.callback(event) is Some,
    ensures
        v.after_message(Some(event)).indexes_unique(),
        v.after_message(Some(event)).vacant(event.item_id),
{
    let after = v.after_message(Some(event));
    assert(v.binds(event.menu_id, event.item_id));
    assert forall|m: u64, k: u32| #[trigger] after.binds(m, k) implies v.binds(m, k) && !(m
        == event.menu_id && k == event.item_id) by {}
    assert forall|m: u64| !#[trigger] after.binds(m, event.item_id) by {
        if after.binds(m, event.item_id) {
            assert(v.binds(m, event.item_id));
        }
    }
}

/// Whatever answers a callback has recorded while it was invoked, and
/// whether or not it made the controller quit, restoring it keeps the bound
/// indexes unique; and unless the controller has quit, the callback is then
/// registered under its entry again.
pub proof fn lemma_restore_after_ops<C>(
    v: AppView<C>,
    event: SystrayEvent,
    f: C,
    ops: Seq<MenuOp<C>>,
    quit: bool,
)
    requires
        v.running,
        v.indexes_unique(),
        v.callback(event) == Some(f),
        v.after_ops(ops).within_range(),
    ensures
        ({
            let during = v.after_message(Some(event)).after_ops(ops);
            let back = (if quit {
                during.stopped()
            } else {
                during
            }).after_callback(event, f);
            &&& back.indexes_unique()
            &&& !quit ==> back.callback(event) == Some(f)
            &&& quit ==> back == during.stopped() && back.callback(event) is None
        }),
{
    let taken = v.after_message(Some(event));
    let during = taken.after_ops(ops);
    lemma_dispatch_vacates(v, event);
    lemma_ops_grow(taken, ops);
    lemma_ops_same_counter(v, event, ops);
    lemma_ops_keep_indexes_unique(taken, ops);
    lemma_ops_keep_vacant(taken, ops, event.item_id);
    lemma_quit_keeps_indexes_unique(during);
    assert(taken.has_menu(event.menu_id));
    assert(during.has_menu(event.menu_id));
    assert(!during.binds(event.menu_id, event.item_id));
    if quit {
        assert(!during.stopped().binds(event.menu_id, event.item_id));
    } else {
        lemma_restore_keeps_indexes_unique(during, event, f);
    }
}

/// Taking a callback out does not touch the counter, so the answers that
/// follow move it exactly as they would have without the dispatch.
pub proof fn lemma_ops_same_counter<C>(v: AppView<C>, event: SystrayEvent, ops: Seq<MenuOp<C>>)
    requires
        v.running,
        v.callback(event) is Some,
    ensures
        v.after_message(Some(event)).after_ops(ops).next_index == v.after_ops(ops).next_index,
        forall|m: u64|
            v.after_message(Some(event)).after_ops(ops).has_menu(m) == #[trigger] v.after_ops(
                ops,
            ).has_menu(m),
    decreases ops.len(),
{
    let taken = v.after_message(Some(event));
    if ops.len() > 0 {
        lemma_ops_same_counter(v, event, ops.drop_last());
        let a = taken.after_ops(ops.drop_last());
        let b = v.after_ops(ops.drop_last());
        let submenu = match ops.last() {
            MenuOp::Item { submenu, outcome, f } => submenu,
            MenuOp::Group { submenu, answer } => submenu,
            MenuOp::Separator { submenu, outcome } => submenu,
        };
        assert(a.has_menu(submenu) == b.has_menu(submenu));
        assert forall|m: u64| a.after_op(ops.last()).has_menu(m) == #[trigger] b.after_op(
            ops.last(),
        ).has_menu(m) by {
            assert(a.has_menu(m) == b.has_menu(m));
        }
    } else {
        assert forall|m: u64| taken.has_menu(m) == #[trigger] v.has_menu(m) by {}
    }
}

/// After any sequence of answers, an index that was vacant is vacant still.
pub proof fn lemma_ops_keep_vacant<C>(v: AppView<C>, ops: Seq<MenuOp<C>>, item_id: u32)
    requires
        v.vacant(item_id),
        v.after_ops(ops).within_range(),
    ensures
        v.after_ops(ops).vacant(item_id),
    decreases ops.len(),
{
    if ops.len() > 0 {
        lemma_op_grows(v.after_ops(ops.drop_last()), ops.last());
        lemma_ops_keep_vacant(v, ops.drop_last(), item_id);
        lemma_op_keeps_vacant(v.after_ops(ops.drop_last()), ops.last(), item_id);
    }
}

/// Neither a turn of the dispatch loop, nor restoring a callback, nor
/// quitting removes a submenu or moves the counter: the root menu, which a
/// new controller has, is there for good.
pub proof fn lemma_dispatch_keeps_menus<C>(
    v: AppView<C>,
    msg: Option<SystrayEvent>,
    event: SystrayEvent,
    f: C,
    m: u64,
)
    ensures
        v.after_message(msg).has_menu(m) == v.has_menu(m),
        v.after_callback(event, f).has_menu(m) == v.has_menu(m),
        v.stopped().has_menu(m) == v.has_menu(m),
        v.after_message(msg).next_index == v.next_index,
        v.after_callback(event, f).next_index == v.next_index,
{
}

/// Restoring a callback under an index that is vacant keeps the bound
/// indexes unique.
pub proof fn lemma_restore_keeps_indexes_unique<C>(v: AppView<C>, event: SystrayEvent, f: C)
    requires
        v.indexes_unique(),
        v.vacant(event.item_id),
    ensures
        v.after_callback(event, f).indexes_unique(),
{
    let back = v.after_callback(event, f);
    assert forall|m: u64, k: u32| #[trigger] back.binds(m, k) implies v.binds(m, k) || (m
        == event.menu_id && k == event.item_id) by {}
    assert forall|m: u64, k: u32| #[trigger] back.binds(m, k) implies k < back.next_index by {
        assert(v.binds(m, k) || k == event.item_id);
    }
    assert forall|m1: u64, m2: u64, k: u32| #[trigger]
        back.binds(m1, k) && #[trigger] back.binds(m2, k) implies m1 == m2 by {
        if k == event.item_id {
            assert(!v.binds(m1, k));
            assert(!v.binds(m2, k));
        } else {
            assert(v.binds(m1, k));
            assert(v.binds(m2, k));
        }
    }
}

/// An event that names no registered callback, be it for its submenu or for
/// its entry, is ignored: the controller stays exactly as it was and the
/// loop goes on.
pub proof fn lemma_unknown_event_is_ignored<C>(v: AppView<C>, event: SystrayEvent)
    requires
        v.running,
        !v.binds(event.menu_id, event.item_id),
    ensures
        v.decision(Some(event)) == Dispatch::<C>::Ignored,
        v.after_message(Some(event)) == v,
{
}

/// Once the controller has quit, the dispatch loop stops on whatever comes
/// next, hands out no callback and changes nothing: events that were still
/// queued are never delivered.
pub proof fn lemma_quit_ends_dispatch<C>(v: AppView<C>, msg: Option<SystrayEvent>)
    ensures
        v.stopped().decision(msg) == Dispatch::<C>::Stop,
        v.stopped().after_message(msg) == v.stopped(),
        v.stopped().menus == v.menus,
        v.stopped().next_index == v.next_index,
{
}

/// Quitting keeps the bound indexes unique, and keeps a vacant index vacant.
pub proof fn lemma_quit_keeps_indexes_unique<C>(v: AppView<C>)
    ensures
        v.indexes_unique() ==> v.stopped().indexes_unique(),
        forall|k: u32| v.vacant(k) ==> #[trigger] v.stopped().vacant(k),
{
    assert forall|m: u64, k: u32| #[trigger] v.stopped().binds(m, k) == v.binds(m, k) by {}
}

/// A closed bridge stops the loop and makes the controller quit.
pub proof fn lemma_closed_bridge_stops<C>(v: AppView<C>)
    requires
        v.running,
    ensures
        v.decision(None) == Dispatch::<C>::Stop,
        v.after_message(None) == v.stopped(),
{
}

/// A callback that makes the controller quit is not restored: the tree is
/// left without it, and the loop does not go on.
pub proof fn lemma_quit_drops_callback<C>(v: AppView<C>, event: SystrayEvent, f: C)
    ensures
        v.stopped().after_callback(event, f) == v.stopped(),
{
}

} // verus!
