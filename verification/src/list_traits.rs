//! The interfaces the generic list engine is parameterized over: the managed
//! item, its display wrapper, the data source, the per-domain action handler,
//! and the input handler. Each exec method's behaviour is pinned by spec
//! functions that the implementations define.

use vstd::prelude::*;

use crate::action::Action;
use crate::error::Error;
use crate::git_types::GitRepo;
use crate::keys::KeyEvent;

verus! {

/// The abstract values of a sequence of viewable values.
pub open spec fn views_of<A: View>(s: Seq<A>) -> Seq<A::V> {
    s.map_values(|a: A| a@)
}

/// The texts behind a sequence of string slices.
pub open spec fn texts_of(s: Seq<&'static str>) -> Seq<Seq<char>> {
    s.map_values(|t: &'static str| t@)
}

/// The value behind an optional reference.
pub open spec fn opt_value<A>(o: Option<&A>) -> Option<A> {
    match o {
        Some(x) => Some(*x),
        None => None,
    }
}

/// An item the generic list engine can manage (a branch or a stash).
pub trait ManagedItem: Sized + View {
    /// A copy with the same abstract value.
    fn duplicate(&self) -> (t: Self)
        ensures
            t@ == self@,
    ;
}

/// A deferred repository operation that a list component asks its caller to
/// run in the background; the payloads are the items to operate on.
pub enum ListOperation<T> {
    /// Fetch the item list anew.
    Fetch,
    /// The domain's primary action on one item (checkout a branch, apply a stash).
    Primary(T),
    /// Pop one item (stashes only).
    Pop(T),
    /// Delete one item.
    Delete(T),
    /// Delete every given item, best-effort.
    BulkDelete(Vec<T>),
    /// Create an item from the submitted input text.
    Create(String),
}

/// A `ManagedItem` decorated with the display-only flags of the list.
pub trait ListItemWrapper<T: ManagedItem>: Sized + View {
    /// The abstract value of the wrapped item.
    spec fn inner_view(&self) -> T::V;

    /// Whether the wrapper is staged for deletion.
    spec fn staged_spec(&self) -> bool;

    /// Whether the wrapper may never be staged for deletion (it wraps the
    /// checked-out branch).
    spec fn protected_spec(&self) -> bool;

    /// The same wrapper with the staged flag set to `stage`.
    spec fn staged_as(&self, stage: bool) -> Self;

    /// Wraps a freshly fetched item; nothing is staged at first.
    fn new(item: T) -> (w: Self)
        ensures
            w.inner_view() == item@,
            !w.staged_spec(),
    ;

    /// Sets the staged-for-deletion flag and changes nothing else.
    fn stage_for_deletion(&mut self, stage: bool)
        ensures
            *final(self) == old(self).staged_as(stage),
            final(self).staged_spec() == stage,
            final(self).inner_view() == old(self).inner_view(),
            final(self).protected_spec() == old(self).protected_spec(),
    ;

    fn is_staged_for_deletion(&self) -> (b: bool)
        ensures
            b == self.staged_spec(),
    ;

    fn is_protected(&self) -> (b: bool)
        ensures
            b == self.protected_spec(),
    ;

    fn inner_item(&self) -> (t: &T)
        ensures
            t@ == self.inner_view(),
    ;

    /// A copy of the wrapped item with the same abstract value.
    fn inner_cloned(&self) -> (t: T)
        ensures
            t@ == self.inner_view(),
    ;
}

/// Fetches the items of one domain from the repository. The result depends on
/// the repository, so nothing more is promised.
pub trait ListDataSource<T: ManagedItem, R: GitRepo>: Sized {
    fn fetch_items(&self, repo: &R) -> Result<Vec<T>, Error>;
}

/// Translates key events and engine requests into domain actions and deferred
/// operations.
pub trait ListActionHandler<W: ListItemWrapper<T>, T: ManagedItem>: Sized {
    /// The action that opens the creation input.
    spec fn create_action_spec(&self) -> Action;

    /// What `handle_primary_action` returns for a given item.
    spec fn primary_op_matches(&self, item: W, op: Option<ListOperation<T>>) -> bool;

    /// What `handle_pop_action` returns for a given item.
    spec fn pop_op_matches(&self, item: W, op: Option<ListOperation<T>>) -> bool;

    /// What `handle_delete_action` returns for a given item.
    spec fn delete_op_matches(&self, item: W, op: Option<ListOperation<T>>) -> bool;

    /// What `handle_bulk_delete_action` returns for a given item list.
    spec fn bulk_op_matches(&self, items: Seq<W>, op: Option<ListOperation<T>>) -> bool;

    /// The action a key maps to, given the selected wrapper.
    spec fn key_action_spec(&self, key: KeyEvent, selected: Option<W>) -> Option<Action>;

    /// What `get_post_create_action` returns for a given input text.
    spec fn post_create_matches(&self, name: Seq<char>, a: Action) -> bool;

    /// The texts of the footer instructions, given the selected wrapper and
    /// whether anything is staged.
    spec fn instructions_spec(&self, selected: Option<W>, has_staged: bool) -> Seq<Seq<char>>;

    /// The deferred primary operation for the selected item, or `None` when
    /// the action does not apply to it.
    fn handle_primary_action(&self, item: &W) -> (op: Option<ListOperation<T>>)
        ensures
            self.primary_op_matches(*item, op),
    ;

    /// The deferred pop operation for the selected item, or `None` where the
    /// domain has no such action.
    fn handle_pop_action(&self, item: &W) -> (op: Option<ListOperation<T>>)
        ensures
            self.pop_op_matches(*item, op),
    ;

    /// The deferred deletion of the selected item, or `None` when deleting it
    /// is refused (the checked-out branch).
    fn handle_delete_action(&self, item: &W) -> (op: Option<ListOperation<T>>)
        ensures
            self.delete_op_matches(*item, op),
    ;

    /// The deferred best-effort deletion of every staged item, or `None` when
    /// nothing is staged.
    fn handle_bulk_delete_action(&self, items: &Vec<W>) -> (op: Option<ListOperation<T>>)
        ensures
            self.bulk_op_matches(items@, op),
    ;

    fn get_create_action(&self) -> (a: Action)
        ensures
            a == self.create_action_spec(),
    ;

    fn get_post_create_action(&self, name: String) -> (a: Action)
        ensures
            self.post_create_matches(name@, a),
    ;

    /// Maps a key event to a domain action, given the selected wrapper.
    fn handle_key_event(&self, key: KeyEvent, selected_item: Option<&W>) -> (r: Option<Action>)
        ensures
            r == self.key_action_spec(key, opt_value(selected_item)),
    ;

    /// The keybinding instructions for the footer.
    fn get_instructions(&self, selected_item: Option<&W>, has_staged_items: bool) -> (r: Vec<
        &'static str,
    >)
        ensures
            texts_of(r@) == self.instructions_spec(opt_value(selected_item), has_staged_items),
    ;
}

/// Validates input text and turns a submission into an action.
pub trait InputHandler<T: ManagedItem, R: GitRepo>: Sized {
    /// A condition that every accepted input meets. Acceptance may further
    /// depend on the repository, so only this direction is promised in
    /// general.
    spec fn valid_requirement(&self, items: Seq<T::V>, input: Seq<char>) -> bool;

    /// Whether the handler's verdict is independent of the repository. When
    /// it is, the verdict equals `pure_verdict` exactly.
    spec fn repo_independent(&self) -> bool;

    /// The full verdict of a repository-independent handler.
    spec fn pure_verdict(&self, items: Seq<T::V>, input: Seq<char>) -> bool;

    /// What `create_submit_action` returns for a given input text.
    spec fn submit_matches(&self, input: Seq<char>, a: Action) -> bool;

    fn validate_input(&self, repo: &R, current_items: &Vec<T>, input: &String) -> (b: bool)
        ensures
            b ==> self.valid_requirement(views_of(current_items@), input@),
            self.repo_independent() ==> b == self.pure_verdict(
                views_of(current_items@),
                input@,
            ),
    ;

    fn create_submit_action(&self, input: String) -> (a: Action)
        ensures
            self.submit_matches(input@, a),
    ;

    /// The prompt of the input field, if the domain has one.
    fn get_input_prompt(&self) -> Option<String>;
}

} // verus!
