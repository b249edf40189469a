//! The stack of open dialogs; the top one receives input.
use crate::auth::{AdminContext, AuthState};
use crate::dialog::Dialog;
use crate::key::Key;
use crate::message::{result_wf, DialogOpenMode, DialogResult};
use crate::request::ApiResult;
use vstd::prelude::*;

verus! {

/// An open dialog, and whether it follows the administrator state.
#[derive(Debug)]
pub enum DialogEntry {
    Normal(Dialog),
    Admin(Dialog),
}

impl DialogEntry {
    pub open spec fn dialog(self) -> Dialog {
        match self {
            DialogEntry::Normal(d) => d,
            DialogEntry::Admin(d) => d,
        }
    }

    /// An administrator entry holding the administrator menu.
    pub open spec fn is_admin_menu(self) -> bool {
        self is Admin && self.dialog().is_admin_menu_spec()
    }

    /// `next` holds `d` in an entry of the same kind.
    pub open spec fn same_kind(self, next: DialogEntry, d: Dialog) -> bool {
        match self {
            DialogEntry::Normal(_) => next == DialogEntry::Normal(d),
            DialogEntry::Admin(_) => next == DialogEntry::Admin(d),
        }
    }
}

/// The stack with every entry above the topmost administrator menu removed;
/// empty when there is no administrator menu.
pub open spec fn popped_to_admin_menu(s: Seq<DialogEntry>) -> Seq<DialogEntry>
    decreases s.len(),
{
    if s.len() == 0 {
        s
    } else if s.last().is_admin_menu() {
        s
    } else {
        popped_to_admin_menu(s.drop_last())
    }
}

/// The entries after opening `entry` with the given mode.
pub open spec fn opened(s: Seq<DialogEntry>, entry: DialogEntry, mode: DialogOpenMode) -> Seq<DialogEntry> {
    match mode {
        DialogOpenMode::Push => s.push(entry),
        DialogOpenMode::ReplaceTop => if s.len() == 0 {
            s.push(entry)
        } else {
            s.drop_last().push(entry)
        },
        DialogOpenMode::Reset => seq![entry],
    }
}

/// The entries after closing the top dialog, if any.
pub open spec fn closed(s: Seq<DialogEntry>) -> Seq<DialogEntry> {
    if s.len() == 0 {
        s
    } else {
        s.drop_last()
    }
}

/// The entries after the top dialog, when it follows the administrator
/// state, is told that the state is `state`; the others stay.
pub open spec fn told_auth(before: Seq<DialogEntry>, state: AuthState, after: Seq<DialogEntry>) -> bool {
    if before.len() > 0 && before.last() is Admin {
        &&& after.len() == before.len()
        &&& after.drop_last() == before.drop_last()
        &&& after.last() is Admin
        &&& before.last().dialog().auth_state_step(state, after.last().dialog())
    } else {
        after == before
    }
}

/// The open dialogs, bottom first.
#[derive(Debug)]
pub struct DialogStack {
    stack: Vec<DialogEntry>,
}

impl DialogStack {
    pub closed spec fn entries(&self) -> Seq<DialogEntry> {
        self.stack@
    }

    /// Every open dialog is well formed.
    pub open spec fn wf(&self) -> bool {
        forall|i: int| 0 <= i < self.entries().len() ==> (#[trigger] self.entries()[i]).dialog().wf()
    }

    pub fn new() -> (r: DialogStack)
        ensures
            r.entries() == Seq::<DialogEntry>::empty(),
            r.wf(),
    {
        DialogStack { stack: Vec::new() }
    }

    fn open_entry(&mut self, entry: DialogEntry, mode: DialogOpenMode)
        requires
            old(self).wf(),
            entry.dialog().wf(),
        ensures
            final(self).entries() == opened(old(self).entries(), entry, mode),
            final(self).wf(),
    {
        match mode {
            DialogOpenMode::Push => {
                self.stack.push(entry);
            },
            DialogOpenMode::ReplaceTop => {
                let _ = self.stack.pop();
                self.stack.push(entry);
            },
            DialogOpenMode::Reset => {
                self.stack.clear();
                self.stack.push(entry);
            },
        }
        assert(self.stack@ =~= opened(old(self).entries(), entry, mode));
    }

    /// Opens a dialog.
    pub fn open(&mut self, dialog: Dialog, mode: DialogOpenMode)
        requires
            old(self).wf(),
            dialog.wf(),
        ensures
            final(self).entries() == opened(old(self).entries(), DialogEntry::Normal(dialog), mode),
            final(self).wf(),
    {
        self.open_entry(DialogEntry::Normal(dialog), mode);
    }

    /// Opens a dialog that follows the administrator state, after telling
    /// it the current state and administrator.
    pub fn open_admin(
        &mut self,
        dialog: Dialog,
        mode: DialogOpenMode,
        state: &AuthState,
        context: Option<AdminContext>,
    )
        requires
            old(self).wf(),
            dialog.wf(),
        ensures
            final(self).wf(),
            exists|mid: Dialog, d: Dialog|
                #![trigger mid.admin_context_step(context, d)]
                dialog.auth_state_step(*state, mid) && mid.admin_context_step(context, d)
                    && final(self).entries() == opened(old(self).entries(), DialogEntry::Admin(d), mode)
                    && d.is_admin_menu_spec() == dialog.is_admin_menu_spec(),
    {
        let ghost original = dialog;
        let mut dialog = dialog;
        dialog.set_auth_state(state);
        let ghost mid = dialog;
        dialog.set_admin_context(context);
        let ghost d = dialog;
        self.open_entry(DialogEntry::Admin(dialog), mode);
        assert(original.auth_state_step(*state, mid) && mid.admin_context_step(context, d));
        assert(final(self).entries() == opened(old(self).entries(), DialogEntry::Admin(d), mode));
    }

    /// Tells the top dialog the administrator state, if it follows it.
    pub fn set_auth_state(&mut self, state: &AuthState)
        requires
            old(self).wf(),
        ensures
            final(self).wf(),
            final(self).entries().len() == old(self).entries().len(),
            forall|i: int|
                0 <= i < old(self).entries().len() ==> #[trigger] final(self).entries()[i].is_admin_menu()
                    == old(self).entries()[i].is_admin_menu(),
            told_auth(old(self).entries(), *state, final(self).entries()),
    {
        let top = self.stack.pop();
        match top {
            None => {},
            Some(DialogEntry::Admin(d)) => {
                let mut d = d;
                assert(old(self).entries().last() == DialogEntry::Admin(d));
                d.set_auth_state(state);
                self.stack.push(DialogEntry::Admin(d));
            },
            Some(entry) => {
                self.stack.push(entry);
            },
        }
        assert(self.stack@.drop_last() =~= old(self).entries().drop_last());
        assert forall|i: int|
            0 <= i < old(self).entries().len() implies #[trigger] self.stack@[i].is_admin_menu()
                == old(self).entries()[i].is_admin_menu() by {
            if i < old(self).entries().len() - 1 {
                assert(self.stack@[i] == self.stack@.drop_last()[i]);
                assert(old(self).entries()[i] == old(self).entries().drop_last()[i]);
            }
        }
        proof {
            if old(self).entries().len() == 0 {
                assert(self.stack@ =~= old(self).entries());
            } else if !(old(self).entries().last() is Admin) {
                assert(self.stack@ =~= old(self).entries());
            }
        }
    }

    /// Closes the top dialog.
    pub fn close(&mut self)
        requires
            old(self).wf(),
        ensures
            final(self).wf(),
            final(self).entries() == (if old(self).entries().len() == 0 {
                old(self).entries()
            } else {
                old(self).entries().drop_last()
            }),
    {
        let _ = self.stack.pop();
        assert(old(self).entries().len() == 0 ==> self.stack@ =~= old(self).entries());
    }

    /// Closes dialogs until the administrator menu is on top, or all of
    /// them when there is none.
    pub fn close_to_admin_menu(&mut self)
        requires
            old(self).wf(),
        ensures
            final(self).wf(),
            final(self).entries() == popped_to_admin_menu(old(self).entries()),
    {
        loop
            invariant
                self.wf(),
                popped_to_admin_menu(self.entries()) == popped_to_admin_menu(old(self).entries()),
            ensures
                self.wf(),
                self.entries() == popped_to_admin_menu(old(self).entries()),
            decreases self.entries().len(),
        {
            if self.is_admin_menu_active() {
                break;
            }
            let ghost before = self.entries();
            match self.stack.pop() {
                None => {
                    break;
                },
                Some(_) => {
                    assert(self.entries() == before.drop_last());
                },
            }
        }
    }

    pub open spec fn admin_menu_on_top(&self) -> bool {
        self.entries().len() > 0 && self.entries().last().is_admin_menu()
    }

    /// Whether the administrator menu is the top dialog.
    pub fn is_admin_menu_active(&self) -> (r: bool)
        ensures
            r == self.admin_menu_on_top(),
    {
        let n = self.stack.len();
        if n == 0 {
            return false;
        }
        match &self.stack[n - 1] {
            DialogEntry::Admin(d) => d.is_admin_menu(),
            DialogEntry::Normal(_) => false,
        }
    }

    /// Closes every dialog.
    pub fn clear(&mut self)
        ensures
            final(self).entries() == Seq::<DialogEntry>::empty(),
            final(self).wf(),
    {
        self.stack.clear();
    }

    /// The top dialog.
    pub fn active(&self) -> (r: Option<&Dialog>)
        ensures
            self.entries().len() == 0 ==> r is None,
            self.entries().len() > 0 ==> r == Some(&self.entries().last().dialog()),
    {
        let n = self.stack.len();
        if n == 0 {
            return None;
        }
        match &self.stack[n - 1] {
            DialogEntry::Normal(d) => Some(d),
            DialogEntry::Admin(d) => Some(d),
        }
    }

    pub fn is_empty(&self) -> (r: bool)
        ensures
            r == (self.entries().len() == 0),
    {
        self.stack.len() == 0
    }

    /// Hands a key to the top dialog; `None` when no dialog is open.
    pub fn handle_key(&mut self, key: Key) -> (r: DialogResult<Key>)
        requires
            old(self).wf(),
        ensures
            final(self).wf(),
            result_wf(r),
            old(self).entries().len() == 0 ==> final(self).entries() == old(self).entries()
                && r == DialogResult::Unhandled(key),
            old(self).entries().len() > 0 ==> {
                &&& final(self).entries().len() == old(self).entries().len()
                &&& final(self).entries().drop_last() == old(self).entries().drop_last()
                &&& old(self).entries().last().same_kind(
                    final(self).entries().last(),
                    final(self).entries().last().dialog(),
                )
                &&& old(self).entries().last().dialog().key_step(
                    key,
                    final(self).entries().last().dialog(),
                    r,
                )
            },
    {
        match self.stack.pop() {
            None => DialogResult::Unhandled(key),
            Some(entry) => {
                assert(old(self).entries().last() == entry);
                let (next, r) = match entry {
                    DialogEntry::Normal(d) => {
                        let mut d = d;
                        let r = d.handle_key(key);
                        (DialogEntry::Normal(d), r)
                    },
                    DialogEntry::Admin(d) => {
                        let mut d = d;
                        let r = d.handle_key(key);
                        (DialogEntry::Admin(d), r)
                    },
                };
                self.stack.push(next);
                assert(self.stack@.drop_last() =~= old(self).entries().drop_last());
                r
            },
        }
    }

    /// Hands a card scan to the top dialog; `None` when no dialog is open.
    pub fn handle_scan(&mut self, card: String) -> (r: DialogResult<String>)
        requires
            old(self).wf(),
        ensures
            final(self).wf(),
            result_wf(r),
            old(self).entries().len() == 0 ==> final(self).entries() == old(self).entries()
                && r == DialogResult::Unhandled(card),
            old(self).entries().len() > 0 ==> {
                &&& final(self).entries().len() == old(self).entries().len()
                &&& final(self).entries().drop_last() == old(self).entries().drop_last()
                &&& old(self).entries().last().same_kind(
                    final(self).entries().last(),
                    final(self).entries().last().dialog(),
                )
                &&& old(self).entries().last().dialog().scan_step(
                    card,
                    final(self).entries().last().dialog(),
                    r,
                )
            },
    {
        match self.stack.pop() {
            None => DialogResult::Unhandled(card),
            Some(entry) => {
                assert(old(self).entries().last() == entry);
                let (next, r) = match entry {
                    DialogEntry::Normal(d) => {
                        let mut d = d;
                        let r = d.handle_scan(card);
                        (DialogEntry::Normal(d), r)
                    },
                    DialogEntry::Admin(d) => {
                        let mut d = d;
                        let r = d.handle_scan(card);
                        (DialogEntry::Admin(d), r)
                    },
                };
                self.stack.push(next);
                assert(self.stack@.drop_last() =~= old(self).entries().drop_last());
                r
            },
        }
    }

    /// Hands a finished request to the top dialog; `None` when no dialog is open.
    pub fn handle_api_result(&mut self, result: ApiResult) -> (r: DialogResult<ApiResult>)
        requires
            old(self).wf(),
        ensures
            final(self).wf(),
            result_wf(r),
            old(self).entries().len() == 0 ==> final(self).entries() == old(self).entries()
                && r == DialogResult::Unhandled(result),
            old(self).entries().len() > 0 ==> {
                &&& final(self).entries().len() == old(self).entries().len()
                &&& final(self).entries().drop_last() == old(self).entries().drop_last()
                &&& old(self).entries().last().same_kind(
                    final(self).entries().last(),
                    final(self).entries().last().dialog(),
                )
                &&& old(self).entries().last().dialog().result_step(
                    result,
                    final(self).entries().last().dialog(),
                    r,
                )
            },
    {
        match self.stack.pop() {
            None => DialogResult::Unhandled(result),
            Some(entry) => {
                assert(old(self).entries().last() == entry);
                let (next, r) = match entry {
                    DialogEntry::Normal(d) => {
                        let mut d = d;
                        let r = d.handle_api_result(result);
                        (DialogEntry::Normal(d), r)
                    },
                    DialogEntry::Admin(d) => {
                        let mut d = d;
                        let r = d.handle_api_result(result);
                        (DialogEntry::Admin(d), r)
                    },
                };
                self.stack.push(next);
                assert(self.stack@.drop_last() =~= old(self).entries().drop_last());
                r
            },
        }
    }
}

} // verus!
