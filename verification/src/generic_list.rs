//! The shared state of one list view — the items, the selected index and the
//! loading marker — together with every transition the engine performs on it:
//! wrap-around navigation, staging for deletion, and the completions of
//! background operations (load, delete, bulk delete).

use vstd::prelude::*;

use crate::action::Action;
use crate::action_bus::ActionBus;
use crate::error::error_text;
use crate::error::Error;
use crate::generic_input::GenericInputComponent;
use crate::git_types::GitRepo;
use crate::keys::KeyCode;
use crate::keys::KeyEvent;
use crate::list_traits::InputHandler;
use crate::list_traits::ListActionHandler;
use crate::list_traits::ListItemWrapper;
use crate::list_traits::ListOperation;
use crate::list_traits::ManagedItem;

verus! {

/// Whether the view routes keys to selection handling or to the input field.
#[derive(Debug, Clone, PartialEq, Eq)]
pub enum Mode {
    Selection,
    Input,
}

/// The loading marker of a list, for display only. The timestamps are
/// milliseconds of the caller's clock.
#[derive(Debug, Clone, Copy, PartialEq, Eq)]
pub enum LoadingOperation {
    Idle,
    Loading(u64),
    Processing(u64),
    ProcessingWithProgress(u64, usize, usize),
}

/// The index after `i` in a list of length `n`, wrapping at the end.
pub open spec fn next_index(i: int, n: int) -> int {
    if i + 1 >= n {
        0
    } else {
        i + 1
    }
}

/// The index before `i` in a list of length `n`, wrapping at the start.
pub open spec fn prev_index(i: int, n: int) -> int {
    if i == 0 {
        n - 1
    } else {
        i - 1
    }
}

/// `i` forced into the bounds of a list of length `n` (`0` when it is empty).
pub open spec fn clamp_index(i: int, n: int) -> int {
    if n == 0 {
        0
    } else if i >= n {
        n - 1
    } else {
        i
    }
}

/// `k` applications of `next_index` starting from `i`.
pub open spec fn iterate_next(i: int, n: int, k: nat) -> int
    decreases k,
{
    if k == 0 {
        i
    } else {
        next_index(iterate_next(i, n, (k - 1) as nat), n)
    }
}

proof fn lemma_iterate_next_value(i: int, n: int, k: nat)
    requires
        0 <= i < n,
        k <= n,
    ensures
        iterate_next(i, n, k) == if i + k < n {
            i + k
        } else {
            i + k - n
        },
    decreases k,
{
    if k > 0 {
        lemma_iterate_next_value(i, n, (k - 1) as nat);
    }
}

/// Selection wrap law: from any starting index of a non-empty list, `n`
/// `selectNext` steps return to the starting index.
pub proof fn lemma_select_next_wraps(i: int, n: int)
    requires
        0 <= i < n,
    ensures
        iterate_next(i, n, n as nat) == i,
{
    lemma_iterate_next_value(i, n, n as nat);
}

/// Selection inverse law: one step back undoes one step forward, and the
/// other way round, on any index of a non-empty list.
pub proof fn lemma_select_prev_inverts_next(i: int, n: int)
    requires
        0 <= i < n,
    ensures
        prev_index(next_index(i, n), n) == i,
        next_index(prev_index(i, n), n) == i,
{
}

/// Items dropped at the marked positions; everything else keeps its order.
pub open spec fn drop_marked<A>(s: Seq<A>, m: Seq<bool>) -> Seq<A>
    decreases s.len(),
{
    if s.len() == 0 {
        Seq::empty()
    } else {
        let rest = drop_marked(s.drop_first(), m.drop_first());
        if 0 < m.len() && m[0] {
            rest
        } else {
            seq![s[0]] + rest
        }
    }
}

proof fn lemma_drop_marked_skip<A>(s: Seq<A>, m: Seq<bool>, i: int)
    requires
        0 <= i < s.len(),
        m.len() == s.len(),
    ensures
        drop_marked(s.skip(i), m.skip(i)) == if m[i] {
            drop_marked(s.skip(i + 1), m.skip(i + 1))
        } else {
            seq![s[i]] + drop_marked(s.skip(i + 1), m.skip(i + 1))
        },
{
    let st = s.skip(i);
    let mt = m.skip(i);
    assert(st.len() > 0);
    assert(st[0] == s[i]);
    assert(mt[0] == m[i]);
    assert(st.drop_first() =~= s.skip(i + 1));
    assert(mt.drop_first() =~= m.skip(i + 1));
}

/// Every item of the reduced list stood in the original one.
pub proof fn lemma_drop_marked_subset<A>(s: Seq<A>, m: Seq<bool>)
    ensures
        forall|x: A| #[trigger] drop_marked(s, m).contains(x) ==> s.contains(x),
    decreases s.len(),
{
    if s.len() > 0 {
        lemma_drop_marked_subset(s.drop_first(), m.drop_first());
        assert forall|x: A| #[trigger] drop_marked(s, m).contains(x) implies s.contains(x) by {
            if drop_marked(s.drop_first(), m.drop_first()).contains(x) {
                assert(s.drop_first().contains(x));
                let j = choose|j: int|
                    0 <= j < s.drop_first().len() && s.drop_first()[j] == x;
                assert(s[j + 1] == x);
            } else {
                assert(drop_marked(s, m)[0] == s[0]);
                assert(s[0] == x);
            }
        }
    }
}

/// Every unmarked item is kept.
pub proof fn lemma_drop_marked_keeps_unmarked<A>(s: Seq<A>, m: Seq<bool>, j: int)
    requires
        m.len() == s.len(),
        0 <= j < s.len(),
        !m[j],
    ensures
        drop_marked(s, m).contains(s[j]),
    decreases s.len(),
{
    if j == 0 {
        assert(drop_marked(s, m)[0] == s[0]);
    } else {
        lemma_drop_marked_keeps_unmarked(s.drop_first(), m.drop_first(), j - 1);
        let t = drop_marked(s.drop_first(), m.drop_first());
        let k = choose|k: int| 0 <= k < t.len() && t[k] == s.drop_first()[j - 1];
        if m[0] {
            assert(drop_marked(s, m)[k] == s[j]);
        } else {
            assert(drop_marked(s, m)[k + 1] == s[j]);
        }
    }
}

/// The position of the first `true` in `m` (its length when there is none).
pub open spec fn first_marked(m: Seq<bool>) -> int
    decreases m.len(),
{
    if m.len() == 0 {
        0
    } else if m[0] {
        0
    } else {
        1 + first_marked(m.drop_first())
    }
}

proof fn lemma_first_marked_at(m: Seq<bool>, i: int)
    requires
        0 <= i < m.len(),
        m[i],
        forall|j: int| 0 <= j < i ==> !m[j],
    ensures
        first_marked(m) == i,
    decreases i,
{
    if i > 0 {
        lemma_first_marked_at(m.drop_first(), i - 1);
    }
}

proof fn lemma_first_marked_none(m: Seq<bool>)
    requires
        forall|j: int| 0 <= j < m.len() ==> !m[j],
    ensures
        first_marked(m) == m.len(),
    decreases m.len(),
{
    if m.len() > 0 {
        lemma_first_marked_none(m.drop_first());
    }
}

/// Freshly fetched items, each wrapped for display; nothing is staged.
pub fn wrap_items<W: ListItemWrapper<T>, T: ManagedItem>(list: Vec<T>) -> (wrapped: Vec<W>)
    ensures
        wrapped@.len() == list@.len(),
        forall|i: int|
            0 <= i < list@.len() ==> (#[trigger] wrapped@[i]).inner_view() == list@[i]@,
        forall|i: int| 0 <= i < list@.len() ==> !(#[trigger] wrapped@[i]).staged_spec(),
{
    let ghost orig = list@;
    let mut list = list;
    let mut wrapped: Vec<W> = Vec::new();
    let n = list.len();
    let mut i: usize = 0;
    while i < n
        invariant
            n == orig.len(),
            list@ == orig.skip(i as int),
            0 <= i <= n,
            wrapped@.len() == i,
            forall|k: int| 0 <= k < i ==> (#[trigger] wrapped@[k]).inner_view() == orig[k]@,
            forall|k: int| 0 <= k < i ==> !(#[trigger] wrapped@[k]).staged_spec(),
        decreases n - i,
    {
        let t = list.remove(0);
        proof {
            assert(orig.skip(i as int)[0] == orig[i as int]);
            assert(orig.skip(i as int).remove(0) =~= orig.skip(i + 1));
        }
        wrapped.push(W::new(t));
        i = i + 1;
    }
    wrapped
}

/// The items, selection and loading marker of one list view. The terminal
/// side keeps a value of this type behind its lock; every mutation goes
/// through these operations.
pub struct SharedListState<W> {
    pub items: Vec<W>,
    pub selected_index: usize,
    pub loading: LoadingOperation,
}

impl<W> SharedListState<W> {
    /// The selection is `0` on an empty list and in bounds otherwise.
    pub open spec fn inv(&self) -> bool {
        if self.items@.len() == 0 {
            self.selected_index == 0
        } else {
            (self.selected_index as int) < self.items@.len()
        }
    }

    pub fn new() -> (s: Self)
        ensures
            s.items@.len() == 0,
            s.selected_index == 0,
            s.loading is Idle,
            s.inv(),
    {
        SharedListState { items: Vec::new(), selected_index: 0, loading: LoadingOperation::Idle }
    }

    pub fn get_items(&self) -> (r: &Vec<W>)
        ensures
            r@ == self.items@,
    {
        &self.items
    }

    pub fn get_selected_index(&self) -> (i: usize)
        ensures
            i == self.selected_index,
    {
        self.selected_index
    }

    pub fn get_items_count(&self) -> (n: usize)
        ensures
            n == self.items@.len(),
    {
        self.items.len()
    }

    pub fn get_item_at_index(&self, index: usize) -> (r: Option<&W>)
        ensures
            match r {
                Some(w) => index < self.items@.len() && *w == self.items@[index as int],
                None => index >= self.items@.len(),
            },
    {
        if index < self.items.len() {
            Some(vstd::std_specs::vec::vec_index(&self.items, index))
        } else {
            None
        }
    }

    pub fn get_selected_item(&self) -> (r: Option<&W>)
        ensures
            match r {
                Some(w) => self.selected_index < self.items@.len() && *w == self.items@[
                    self.selected_index as int
                ],
                None => self.selected_index >= self.items@.len(),
            },
    {
        self.get_item_at_index(self.selected_index)
    }

    pub fn set_loading(&mut self, op: LoadingOperation)
        ensures
            final(self).loading == op,
            final(self).items@ == old(self).items@,
            final(self).selected_index == old(self).selected_index,
    {
        self.loading = op;
    }

    /// Replaces the items, forcing the selection back into bounds, as a
    /// completed load does.
    pub fn update_items(&mut self, new_items: Vec<W>)
        ensures
            final(self).items@ == new_items@,
            final(self).loading == old(self).loading,
            final(self).selected_index as int == clamp_index(
                old(self).selected_index as int,
                new_items@.len() as int,
            ),
            final(self).inv(),
    {
        self.items = new_items;
        let count = self.items.len();
        if count == 0 {
            self.selected_index = 0;
        } else if self.selected_index >= count {
            self.selected_index = count - 1;
        }
    }

    pub fn update_selected_index(&mut self, index: usize)
        requires
            old(self).items@.len() == 0 ==> index == 0,
            old(self).items@.len() > 0 ==> (index as int) < old(self).items@.len(),
        ensures
            final(self).selected_index == index,
            final(self).items@ == old(self).items@,
            final(self).loading == old(self).loading,
            final(self).inv(),
    {
        self.selected_index = index;
    }

    /// Removes the item at `index`, pulling the selection back into bounds.
    pub fn remove_item_at_index(&mut self, index: usize) -> (r: Option<W>)
        requires
            old(self).inv(),
        ensures
            final(self).inv(),
            final(self).loading == old(self).loading,
            index < old(self).items@.len() ==> {
                &&& r matches Some(w) && w == old(self).items@[index as int]
                &&& final(self).items@ == old(self).items@.remove(index as int)
                &&& final(self).selected_index as int == clamp_index(
                    old(self).selected_index as int,
                    old(self).items@.len() - 1,
                )
            },
            index >= old(self).items@.len() ==> r is None && *final(self) == *old(self),
    {
        if index < self.items.len() {
            let w = self.items.remove(index);
            let count = self.items.len();
            if count == 0 {
                self.selected_index = 0;
            } else if self.selected_index >= count {
                self.selected_index = count - 1;
            }
            Some(w)
        } else {
            None
        }
    }

    /// Moves the selection one down, wrapping; a no-op on an empty list.
    pub fn select_next(&mut self)
        requires
            old(self).inv(),
        ensures
            final(self).inv(),
            final(self).items@ == old(self).items@,
            final(self).loading == old(self).loading,
            old(self).items@.len() == 0 ==> *final(self) == *old(self),
            old(self).items@.len() > 0 ==> final(self).selected_index as int == next_index(
                old(self).selected_index as int,
                old(self).items@.len() as int,
            ),
    {
        let count = self.items.len();
        if count == 0 {
            return ;
        }
        let current = self.selected_index;
        let next = if current >= count - 1 {
            0
        } else {
            current + 1
        };
        self.selected_index = next;
    }

    /// Moves the selection one up, wrapping; a no-op on an empty list.
    pub fn select_previous(&mut self)
        requires
            old(self).inv(),
        ensures
            final(self).inv(),
            final(self).items@ == old(self).items@,
            final(self).loading == old(self).loading,
            old(self).items@.len() == 0 ==> *final(self) == *old(self),
            old(self).items@.len() > 0 ==> final(self).selected_index as int == prev_index(
                old(self).selected_index as int,
                old(self).items@.len() as int,
            ),
    {
        let count = self.items.len();
        if count == 0 {
            return ;
        }
        let current = self.selected_index;
        let prev = if current == 0 {
            count - 1
        } else {
            current - 1
        };
        self.selected_index = prev;
    }
}

impl<W> SharedListState<W> {
    /// Sets the staged-for-deletion flag of the item at `index`. Refused — a
    /// no-op returning `false` — when the index is out of bounds or the item
    /// wraps the checked-out branch, which may never be staged.
    pub fn stage_item_for_deletion<T: ManagedItem>(&mut self, index: usize, stage: bool) -> (r:
        bool) where W: ListItemWrapper<T>
        ensures
            final(self).selected_index == old(self).selected_index,
            final(self).loading == old(self).loading,
            r == (index < old(self).items@.len() && !old(self).items@[index as int].protected_spec()),
            r ==> final(self).items@ == old(self).items@.update(
                index as int,
                old(self).items@[index as int].staged_as(stage),
            ),
            !r ==> *final(self) == *old(self),
    {
        if index < self.items.len() {
            let w = vstd::std_specs::vec::vec_index(&self.items, index);
            if w.is_protected() {
                return false;
            }
            let item = vstd::std_specs::vec::vec_index_mut(&mut self.items, index);
            item.stage_for_deletion(stage);
            true
        } else {
            false
        }
    }

    /// Whether any item is staged for deletion.
    pub fn has_staged_items<T: ManagedItem>(&self) -> (r: bool) where W: ListItemWrapper<T>
        ensures
            r == exists|i: int|
                0 <= i < self.items@.len() && #[trigger] self.items@[i].staged_spec(),
    {
        let n = self.items.len();
        let mut i: usize = 0;
        while i < n
            invariant
                n == self.items@.len(),
                0 <= i <= n,
                forall|j: int| 0 <= j < i ==> !(#[trigger] self.items@[j].staged_spec()),
            decreases n - i,
        {
            if vstd::std_specs::vec::vec_index(&self.items, i).is_staged_for_deletion() {
                return true;
            }
            i = i + 1;
        }
        false
    }

    /// Applies the result of a completed load: on success the fetched items
    /// replace the list (freshly wrapped, nothing staged) and the selection
    /// is forced back into bounds; on failure the state is untouched. The
    /// returned actions report the completion: `ItemsLoaded`, or the error
    /// followed by `LoadingComplete` — so processing them always ends the
    /// loading display.
    pub fn apply_fetch_result<T: ManagedItem>(&mut self, result: Result<Vec<T>, Error>) -> (actions:
        Vec<Action>) where W: ListItemWrapper<T>
        requires
            old(self).inv(),
        ensures
            final(self).inv(),
            final(self).loading == old(self).loading,
            match result {
                Ok(list) => {
                    &&& final(self).items@.len() == list@.len()
                    &&& forall|i: int|
                        0 <= i < list@.len() ==> #[trigger] final(self).items@[i].inner_view()
                            == list@[i]@
                    &&& forall|i: int|
                        0 <= i < list@.len() ==> !(#[trigger] final(self).items@[i].staged_spec())
                    &&& final(self).selected_index as int == clamp_index(
                        old(self).selected_index as int,
                        list@.len() as int,
                    )
                    &&& actions@.len() == 1
                    &&& actions@[0] == Action::ItemsLoaded
                },
                Err(e) => {
                    &&& *final(self) == *old(self)
                    &&& actions@.len() == 2
                    &&& actions@[0] matches Action::Error(m) && m@ == error_text(e)
                    &&& actions@[1] == Action::LoadingComplete
                },
            },
    {
        match result {
            Ok(list) => {
                let wrapped: Vec<W> = wrap_items(list);
                self.update_items(wrapped);
                let mut actions: Vec<Action> = Vec::new();
                actions.push(Action::ItemsLoaded);
                actions
            },
            Err(e) => {
                let mut actions: Vec<Action> = Vec::new();
                actions.push(Action::Error(e.message()));
                actions.push(Action::LoadingComplete);
                actions
            },
        }
    }

    /// Applies the outcome of a completed bulk delete. `succeeded[i]` says
    /// that the delete of item `i` — staged when the operation was launched —
    /// succeeded; exactly those items leave the list, everything else keeps
    /// its order and state, so failed items remain present and still staged.
    /// The selection moves to the position of the first deleted item, forced
    /// into bounds; with no success at all the state is untouched.
    pub fn complete_bulk_delete<T: ManagedItem>(&mut self, succeeded: &Vec<bool>) where W:
        ListItemWrapper<T>
        requires
            old(self).inv(),
            succeeded@.len() == old(self).items@.len(),
            forall|i: int|
                0 <= i < succeeded@.len() && succeeded@[i] ==> #[trigger] old(self).items@[
                    i].staged_spec(),
        ensures
            final(self).inv(),
            final(self).loading == old(self).loading,
            (exists|i: int| 0 <= i < succeeded@.len() && succeeded@[i]) ==> {
                &&& final(self).items@ == drop_marked(old(self).items@, succeeded@)
                &&& final(self).selected_index as int == clamp_index(
                    first_marked(succeeded@),
                    drop_marked(old(self).items@, succeeded@).len() as int,
                )
            },
            !(exists|i: int| 0 <= i < succeeded@.len() && succeeded@[i]) ==> *final(self) == *old(self),
    {
        let n = self.items.len();
        let mut first: usize = 0;
        while first < n && !succeeded[first]
            invariant
                n == self.items@.len(),
                succeeded@.len() == n,
                0 <= first <= n,
                forall|j: int| 0 <= j < first ==> !succeeded@[j],
            decreases n - first,
        {
            first = first + 1;
        }
        if first == n {
            proof {
                lemma_first_marked_none(succeeded@);
            }
            return ;
        }
        proof {
            lemma_first_marked_at(succeeded@, first as int);
        }
        let ghost orig = self.items@;
        let mut source: Vec<W> = Vec::new();
        core::mem::swap(&mut source, &mut self.items);
        let mut kept: Vec<W> = Vec::new();
        let mut i: usize = 0;
        proof {
            assert(orig.skip(0) =~= orig);
            assert(succeeded@.skip(0) =~= succeeded@);
        }
        while i < n
            invariant
                n == orig.len(),
                succeeded@.len() == n,
                0 <= i <= n,
                source@ == orig.skip(i as int),
                drop_marked(orig, succeeded@) == kept@ + drop_marked(
                    orig.skip(i as int),
                    succeeded@.skip(i as int),
                ),
            decreases n - i,
        {
            let w = source.remove(0);
            proof {
                lemma_drop_marked_skip(orig, succeeded@, i as int);
                assert(orig.skip(i as int)[0] == orig[i as int]);
                assert(orig.skip(i as int).remove(0) =~= orig.skip(i + 1));
                assert(succeeded@.skip(i as int).drop_first() =~= succeeded@.skip(i + 1));
            }
            if !succeeded[i] {
                kept.push(w);
                proof {
                    assert(kept@ + drop_marked(orig.skip(i + 1), succeeded@.skip(i + 1))
                        =~= kept@.drop_last() + (seq![orig[i as int]] + drop_marked(
                        orig.skip(i + 1),
                        succeeded@.skip(i + 1),
                    )));
                }
            }
            i = i + 1;
        }
        proof {
            assert(orig.skip(n as int) =~= Seq::<W>::empty());
            assert(drop_marked(orig.skip(n as int), succeeded@.skip(n as int)) =~= Seq::<
                W,
            >::empty());
            assert(kept@ + Seq::<W>::empty() =~= kept@);
        }
        let kept_len = kept.len();
        self.items = kept;
        if kept_len == 0 {
            self.selected_index = 0;
        } else if first >= kept_len {
            self.selected_index = kept_len - 1;
        } else {
            self.selected_index = first;
        }
    }
}

/// One list view: the shared state, the mode, the domain's action handler and
/// the input sub-component. `update` turns one action into state mutations,
/// bus messages and at most one deferred repository operation, which the
/// caller runs in the background.
pub struct GenericListComponent<W, T, AH, IH> {
    pub mode: Mode,
    pub state: SharedListState<W>,
    pub action_handler: AH,
    pub input_component: GenericInputComponent<IH, T>,
}

impl<W, T, AH, IH> GenericListComponent<W, T, AH, IH> where
    W: ListItemWrapper<T>,
    T: ManagedItem,
    AH: ListActionHandler<W, T>,
 {
    pub open spec fn inv(&self) -> bool {
        self.state.inv()
    }

    pub fn new(action_handler: AH, input_handler: IH) -> (r: Self)
        ensures
            r.mode is Selection,
            r.state.items@.len() == 0,
            r.state.selected_index == 0,
            r.state.loading is Idle,
            r.action_handler == action_handler,
            r.inv(),
    {
        GenericListComponent {
            mode: Mode::Selection,
            state: SharedListState::new(),
            action_handler,
            input_component: GenericInputComponent::new(input_handler, Vec::new()),
        }
    }

    /// Routes one key event. In input mode the input sub-component handles
    /// it; in selection mode Up/Down navigate and everything else goes to the
    /// domain's key map. Key handling never mutates the list state — it only
    /// produces the action to dispatch.
    pub fn handle_key_events<R: GitRepo>(&mut self, key: KeyEvent, repo: &R) -> (r: Option<
        Action,
    >) where IH: InputHandler<T, R>
        ensures
            final(self).state == old(self).state,
            final(self).action_handler == old(self).action_handler,
            final(self).mode == old(self).mode,
            old(self).mode is Input ==> {
                &&& final(self).input_component.current_items@ == old(self).input_component.current_items@
                &&& final(self).input_component.handler == old(self).input_component.handler
                &&& (key.code is Esc ==> {
                    &&& r == Some(Action::EndInputMod)
                    &&& final(self).input_component.buffer@.len() == 0
                    &&& final(self).input_component.input_state.value is None
                    &&& final(self).input_component.input_state.is_valid is None
                })
                &&& (key.code is Enter && old(self).input_component.input_state.is_valid == Some(
                    true,
                ) && crate::strutil::trimmed(old(self).input_component.buffer@).len() > 0 ==> (
                r matches Some(a) && old(self).input_component.handler.submit_matches(
                    crate::strutil::trimmed(old(self).input_component.buffer@),
                    a,
                )))
                &&& (!(key.code is Esc) && !(key.code is Enter) ==> {
                    let edited = crate::text_input::edited_buffer(
                        old(self).input_component.buffer@,
                        key,
                    );
                    &&& r is None
                    &&& final(self).input_component.buffer@ == edited
                    &&& (!crate::text_input::key_edits(old(self).input_component.buffer@, key)
                        ==> final(self).input_component == old(self).input_component)
                    &&& (crate::text_input::key_edits(old(self).input_component.buffer@, key)
                        && crate::strutil::trimmed(edited).len() > 0 ==> {
                        &&& (final(self).input_component.input_state.is_valid matches Some(b) && (
                        b ==> old(self).input_component.handler.valid_requirement(
                            crate::list_traits::views_of(old(self).input_component.current_items@),
                            crate::strutil::trimmed(edited),
                        )))
                        &&& (final(self).input_component.input_state.value matches Some(v) && v@
                            == crate::strutil::trimmed(edited))
                        &&& (old(self).input_component.handler.repo_independent() ==> final(self).input_component.input_state.is_valid == Some(
                            old(self).input_component.handler.pure_verdict(
                                crate::list_traits::views_of(
                                    old(self).input_component.current_items@,
                                ),
                                crate::strutil::trimmed(edited),
                            ),
                        ))
                    })
                    &&& (crate::text_input::key_edits(old(self).input_component.buffer@, key)
                        && crate::strutil::trimmed(edited).len() == 0 ==> {
                        &&& final(self).input_component.input_state.value is None
                        &&& final(self).input_component.input_state.is_valid == Some(false)
                    })
                })
            },
            old(self).mode is Selection ==> {
                &&& final(self).input_component == old(self).input_component
                &&& (key.code is Up ==> r == Some(Action::SelectPrevious))
                &&& (key.code is Down ==> r == Some(Action::SelectNext))
                &&& (!(key.code is Up) && !(key.code is Down) ==> r
                    == old(self).action_handler.key_action_spec(
                    key,
                    if old(self).state.selected_index < old(self).state.items@.len() {
                        Some(old(self).state.items@[old(self).state.selected_index as int])
                    } else {
                        None
                    },
                ))
            },
    {
        match self.mode {
            Mode::Input => self.input_component.handle_input_event(key, repo),
            Mode::Selection => {
                match key.code {
                    KeyCode::Up => Some(Action::SelectPrevious),
                    KeyCode::Down => Some(Action::SelectNext),
                    _ => {
                        let selected = self.state.get_selected_item();
                        self.action_handler.handle_key_event(key, selected)
                    },
                }
            },
        }
    }

    /// Applies one action: mutates the state, queues render messages on the
    /// bus, and returns a follow-up action together with the deferred
    /// repository operation the caller must run, if the action demands one.
    /// When an operation is handed out, the loading marker is already set, so
    /// no window exists in which the operation could complete before the
    /// marker appears; every completion clears it again.
    pub fn update(&mut self, action: Action, now_ms: u64, bus: &mut ActionBus) -> (r: (
        Option<Action>,
        Option<ListOperation<T>>,
    ))
        requires
            old(self).inv(),
        ensures
            final(self).inv(),
            final(self).action_handler == old(self).action_handler,
            ({
                let items = old(self).state.items@;
                let n = items.len() as int;
                let sel = old(self).state.selected_index as int;
                match action {
                    Action::Refresh => {
                        &&& final(self).state.loading == LoadingOperation::Loading(now_ms)
                        &&& final(self).state.items@ == items
                        &&& final(self).state.selected_index == old(self).state.selected_index
                        &&& final(self).mode == old(self).mode
                        &&& final(self).input_component == old(self).input_component
                        &&& final(bus)@ == old(bus)@.push(Action::Render)
                        &&& r.0 is None
                        &&& (r.1 matches Some(op) && op is Fetch)
                    },
                    Action::ItemsLoaded => {
                        &&& final(self).state.loading is Idle
                        &&& final(self).state.items@ == items
                        &&& final(self).state.selected_index == old(self).state.selected_index
                        &&& final(self).mode == old(self).mode
                        &&& final(self).input_component.current_items@.len() == n
                        &&& (forall|i: int|
                            0 <= i < n ==> (#[trigger] final(self).input_component.current_items@[i])@ == items[i].inner_view())
                        &&& final(self).input_component.buffer@ == old(self).input_component.buffer@
                        &&& final(self).input_component.input_state == old(self).input_component.input_state
                        &&& final(self).input_component.handler == old(self).input_component.handler
                        &&& final(bus)@ == old(bus)@.push(Action::Render)
                        &&& r.0 == Some(Action::Render)
                        &&& r.1 is None
                    },
                    Action::LoadingComplete => {
                        &&& final(self).state.loading is Idle
                        &&& final(self).state.items@ == items
                        &&& final(self).state.selected_index == old(self).state.selected_index
                        &&& final(self).mode == old(self).mode
                        &&& final(self).input_component == old(self).input_component
                        &&& final(bus)@ == old(bus)@.push(Action::Render)
                        &&& r.0 == Some(Action::Render)
                        &&& r.1 is None
                    },
                    Action::SetLoading(loading) => {
                        &&& final(self).state.loading == if loading {
                            LoadingOperation::Processing(now_ms)
                        } else {
                            LoadingOperation::Idle
                        }
                        &&& final(self).state.items@ == items
                        &&& final(self).state.selected_index == old(self).state.selected_index
                        &&& final(self).mode == old(self).mode
                        &&& final(self).input_component == old(self).input_component
                        &&& final(bus)@ == old(bus)@.push(Action::Render)
                        &&& r.0 is None
                        &&& r.1 is None
                    },
                    Action::InitNewBranch | Action::InitNewStash => {
                        &&& final(self).mode is Input
                        &&& final(self).state == old(self).state
                        &&& final(self).input_component.buffer@.len() == 0
                        &&& final(self).input_component.input_state.value is None
                        &&& final(self).input_component.input_state.is_valid is None
                        &&& final(self).input_component.current_items@ == old(self).input_component.current_items@
                        &&& final(bus)@ == old(bus)@
                        &&& r.0 == Some(Action::StartInputMode)
                        &&& r.1 is None
                    },
                    Action::EndInputMod => {
                        &&& final(self).mode is Selection
                        &&& final(self).state == old(self).state
                        &&& final(self).input_component == old(self).input_component
                        &&& final(bus)@ == old(bus)@
                        &&& r.0 == Some(Action::Render)
                        &&& r.1 is None
                    },
                    Action::SelectNext => {
                        &&& final(self).state.items@ == items
                        &&& final(self).state.loading == old(self).state.loading
                        &&& (n == 0 ==> final(self).state.selected_index == sel)
                        &&& (n > 0 ==> final(self).state.selected_index as int == next_index(
                            sel,
                            n,
                        ))
                        &&& final(self).mode == old(self).mode
                        &&& final(self).input_component == old(self).input_component
                        &&& final(bus)@ == old(bus)@
                        &&& r.0 == Some(Action::Render)
                        &&& r.1 is None
                    },
                    Action::SelectPrevious => {
                        &&& final(self).state.items@ == items
                        &&& final(self).state.loading == old(self).state.loading
                        &&& (n == 0 ==> final(self).state.selected_index == sel)
                        &&& (n > 0 ==> final(self).state.selected_index as int == prev_index(
                            sel,
                            n,
                        ))
                        &&& final(self).mode == old(self).mode
                        &&& final(self).input_component == old(self).input_component
                        &&& final(bus)@ == old(bus)@
                        &&& r.0 == Some(Action::Render)
                        &&& r.1 is None
                    },
                    Action::CheckoutSelectedBranch | Action::ApplySelectedStash => {
                        &&& final(self).state.items@ == items
                        &&& final(self).state.selected_index == old(self).state.selected_index
                        &&& final(self).mode == old(self).mode
                        &&& final(self).input_component == old(self).input_component
                        &&& r.0 is None
                        &&& (n == 0 ==> r.1 is None)
                        &&& (n > 0 ==> old(self).action_handler.primary_op_matches(
                            items[sel],
                            r.1,
                        ))
                        &&& (r.1 is Some ==> final(self).state.loading
                            == LoadingOperation::Processing(now_ms) && final(bus)@ == old(bus)@.push(Action::Render))
                        &&& (r.1 is None ==> final(self).state.loading == old(self).state.loading
                            && final(bus)@ == old(bus)@)
                    },
                    Action::PopSelectedStash => {
                        &&& final(self).state.items@ == items
                        &&& final(self).state.selected_index == old(self).state.selected_index
                        &&& final(self).mode == old(self).mode
                        &&& final(self).input_component == old(self).input_component
                        &&& r.0 is None
                        &&& (n == 0 ==> r.1 is None)
                        &&& (n > 0 ==> old(self).action_handler.pop_op_matches(items[sel], r.1))
                        &&& (r.1 is Some ==> final(self).state.loading
                            == LoadingOperation::Processing(now_ms) && final(bus)@ == old(bus)@.push(Action::Render))
                        &&& (r.1 is None ==> final(self).state.loading == old(self).state.loading
                            && final(bus)@ == old(bus)@)
                    },
                    Action::DeleteBranch | Action::DropSelectedStash => {
                        &&& final(self).state.items@ == items
                        &&& final(self).state.selected_index == old(self).state.selected_index
                        &&& final(self).mode == old(self).mode
                        &&& final(self).input_component == old(self).input_component
                        &&& r.0 is None
                        &&& (n == 0 ==> r.1 is None)
                        &&& (n > 0 ==> old(self).action_handler.delete_op_matches(
                            items[sel],
                            r.1,
                        ))
                        &&& (r.1 is Some ==> final(self).state.loading
                            == LoadingOperation::Processing(now_ms) && final(bus)@ == old(bus)@.push(Action::Render))
                        &&& (r.1 is None ==> final(self).state.loading == old(self).state.loading
                            && final(bus)@ == old(bus)@)
                    },
                    Action::DeleteStagedBranches | Action::DeleteStagedStashes => {
                        &&& final(self).state.items@ == items
                        &&& final(self).state.selected_index == old(self).state.selected_index
                        &&& final(self).mode == old(self).mode
                        &&& final(self).input_component == old(self).input_component
                        &&& r.0 is None
                        &&& old(self).action_handler.bulk_op_matches(items, r.1)
                        &&& (r.1 is Some ==> final(self).state.loading
                            == LoadingOperation::Processing(now_ms) && final(bus)@ == old(bus)@.push(Action::Render))
                        &&& (r.1 is None ==> final(self).state.loading == old(self).state.loading
                            && final(bus)@ == old(bus)@)
                    },
                    Action::StageBranchForDeletion | Action::StageStashForDeletion => {
                        &&& final(self).mode == old(self).mode
                        &&& final(self).input_component == old(self).input_component
                        &&& final(self).state.loading == old(self).state.loading
                        &&& final(self).state.selected_index == old(self).state.selected_index
                        &&& (sel < n && !items[sel].protected_spec() ==> final(self).state.items@
                            == items.update(sel, items[sel].staged_as(true)))
                        &&& (!(sel < n && !items[sel].protected_spec()) ==> final(self).state
                            == old(self).state)
                        &&& final(bus)@ == old(bus)@
                        &&& r.0 == Some(Action::Render)
                        &&& r.1 is None
                    },
                    Action::UnstageBranchForDeletion | Action::UnstageStashForDeletion => {
                        &&& final(self).mode == old(self).mode
                        &&& final(self).input_component == old(self).input_component
                        &&& final(self).state.loading == old(self).state.loading
                        &&& final(self).state.selected_index == old(self).state.selected_index
                        &&& (sel < n && !items[sel].protected_spec() ==> final(self).state.items@
                            == items.update(sel, items[sel].staged_as(false)))
                        &&& (!(sel < n && !items[sel].protected_spec()) ==> final(self).state
                            == old(self).state)
                        &&& final(bus)@ == old(bus)@
                        &&& r.0 == Some(Action::Render)
                        &&& r.1 is None
                    },
                    Action::CreateBranch(name) => {
                        &&& final(self).mode is Selection
                        &&& final(self).state == old(self).state
                        &&& final(self).input_component == old(self).input_component
                        &&& final(bus)@ == old(bus)@
                        &&& r.0 == Some(Action::EndInputMod)
                        &&& (r.1 matches Some(op) && op matches ListOperation::Create(s) && s@
                            == name@)
                    },
                    Action::CreateStash(name) => {
                        &&& final(self).mode is Selection
                        &&& final(self).state == old(self).state
                        &&& final(self).input_component == old(self).input_component
                        &&& final(bus)@ == old(bus)@
                        &&& r.0 == Some(Action::EndInputMod)
                        &&& (r.1 matches Some(op) && op matches ListOperation::Create(s) && s@
                            == name@)
                    },
                    _ => {
                        &&& *final(self) == *old(self)
                        &&& final(bus)@ == old(bus)@
                        &&& r.0 is None
                        &&& r.1 is None
                    },
                }
            }),
    {
        match action {
            Action::Refresh => {
                self.state.set_loading(LoadingOperation::Loading(now_ms));
                bus.send(Action::Render);
                (None, Some(ListOperation::Fetch))
            },
            Action::ItemsLoaded => {
                self.state.set_loading(LoadingOperation::Idle);
                bus.send(Action::Render);
                let items_ref = self.state.get_items();
                let n = items_ref.len();
                let mut items_t: Vec<T> = Vec::new();
                let mut i: usize = 0;
                while i < n
                    invariant
                        n == items_ref@.len(),
                        0 <= i <= n,
                        items_t@.len() == i,
                        forall|k: int|
                            0 <= k < i ==> (#[trigger] items_t@[k])@ == items_ref@[k].inner_view(),
                    decreases n - i,
                {
                    let w = vstd::std_specs::vec::vec_index(items_ref, i);
                    items_t.push(w.inner_cloned());
                    i = i + 1;
                }
                self.input_component.update_current_items(items_t);
                (Some(Action::Render), None)
            },
            Action::LoadingComplete => {
                self.state.set_loading(LoadingOperation::Idle);
                bus.send(Action::Render);
                (Some(Action::Render), None)
            },
            Action::SetLoading(loading) => {
                if loading {
                    self.state.set_loading(LoadingOperation::Processing(now_ms));
                } else {
                    self.state.set_loading(LoadingOperation::Idle);
                }
                bus.send(Action::Render);
                (None, None)
            },
            Action::InitNewBranch | Action::InitNewStash => {
                self.mode = Mode::Input;
                self.input_component.reset();
                (Some(Action::StartInputMode), None)
            },
            Action::EndInputMod => {
                self.mode = Mode::Selection;
                (Some(Action::Render), None)
            },
            Action::SelectNext => {
                self.state.select_next();
                (Some(Action::Render), None)
            },
            Action::SelectPrevious => {
                self.state.select_previous();
                (Some(Action::Render), None)
            },
            Action::CheckoutSelectedBranch | Action::ApplySelectedStash => {
                let op = match self.state.get_selected_item() {
                    Some(w) => self.action_handler.handle_primary_action(w),
                    None => None,
                };
                if op.is_some() {
                    self.state.set_loading(LoadingOperation::Processing(now_ms));
                    bus.send(Action::Render);
                }
                (None, op)
            },
            Action::PopSelectedStash => {
                let op = match self.state.get_selected_item() {
                    Some(w) => self.action_handler.handle_pop_action(w),
                    None => None,
                };
                if op.is_some() {
                    self.state.set_loading(LoadingOperation::Processing(now_ms));
                    bus.send(Action::Render);
                }
                (None, op)
            },
            Action::DeleteBranch | Action::DropSelectedStash => {
                let op = match self.state.get_selected_item() {
                    Some(w) => self.action_handler.handle_delete_action(w),
                    None => None,
                };
                if op.is_some() {
                    self.state.set_loading(LoadingOperation::Processing(now_ms));
                    bus.send(Action::Render);
                }
                (None, op)
            },
            Action::DeleteStagedBranches | Action::DeleteStagedStashes => {
                let op = self.action_handler.handle_bulk_delete_action(self.state.get_items());
                if op.is_some() {
                    self.state.set_loading(LoadingOperation::Processing(now_ms));
                    bus.send(Action::Render);
                }
                (None, op)
            },
            Action::StageBranchForDeletion | Action::StageStashForDeletion => {
                let index = self.state.get_selected_index();
                let _ = self.state.stage_item_for_deletion(index, true);
                (Some(Action::Render), None)
            },
            Action::UnstageBranchForDeletion | Action::UnstageStashForDeletion => {
                let index = self.state.get_selected_index();
                let _ = self.state.stage_item_for_deletion(index, false);
                (Some(Action::Render), None)
            },
            Action::CreateBranch(name) => {
                self.mode = Mode::Selection;
                (Some(Action::EndInputMod), Some(ListOperation::Create(name)))
            },
            Action::CreateStash(name) => {
                self.mode = Mode::Selection;
                (Some(Action::EndInputMod), Some(ListOperation::Create(name)))
            },
            _ => (None, None),
        }
    }
}

} // verus!
