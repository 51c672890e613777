//! The main-menu model: an ordered list of selectable actions, the index of
//! the highlighted one, and the decoration of the selected label.
//!
//! Items store only their base label; the decorated display label is derived
//! on read from the base label and the selection flag, so decorating twice
//! can never double the marker.

use vstd::prelude::*;
use vstd::string::StrSliceExecFns;
use vstd::string::StringExecFns;

use crate::AppError;

verus! {

/// Whether a menu item is the highlighted one.
#[derive(Debug, PartialEq, Eq, Structural)]
pub enum MainMenuItemStatus {
    Selected,
    Unselected,
}

/// The action a menu item stands for.
#[derive(Debug, PartialEq, Eq, Structural)]
pub enum MainMenuItemCode {
    SyncDB,
    Credentials,
    Exit,
}

/// One selectable menu entry: base label, action code, selection flag.
pub struct MainMenuItem {
    pub text: String,
    pub code: MainMenuItemCode,
    pub status: MainMenuItemStatus,
}

/// The ordered menu with the index of the selected entry.
pub struct MainMenu {
    pub items: Vec<MainMenuItem>,
    pub selected_index: usize,
}

/// The marker prefix that decorates the selected label.
pub open spec fn marker_seq() -> Seq<char> {
    seq!['✨', ' ']
}

/// Whether a label already starts with the selection marker.
pub open spec fn spec_has_marker(s: Seq<char>) -> bool {
    s.len() >= 2 && s[0] == '✨' && s[1] == ' '
}

/// Decoration: prefix the marker, unless the label already carries it.
pub open spec fn spec_decorate(s: Seq<char>) -> Seq<char> {
    if spec_has_marker(s) {
        s
    } else {
        marker_seq() + s
    }
}

/// Stripping: remove the marker prefix exactly once, if present.
pub open spec fn spec_strip(s: Seq<char>) -> Seq<char> {
    if spec_has_marker(s) {
        s.subrange(2, s.len() as int)
    } else {
        s
    }
}

/// The display label of an item: decorated when selected, bare otherwise.
pub open spec fn spec_display(it: MainMenuItem) -> Seq<char> {
    if it.status is Selected {
        spec_decorate(it.text@)
    } else {
        it.text@
    }
}

fn has_marker(l: &str) -> (b: bool)
    ensures
        b == spec_has_marker(l@),
{
    let n = l.unicode_len();
    if n < 2 {
        false
    } else {
        l.get_char(0) == '✨' && l.get_char(1) == ' '
    }
}

/// Apply the selection marker to a label; idempotent on decorated labels.
pub fn decorate_label(l: &str) -> (r: String)
    ensures
        r@ == spec_decorate(l@),
{
    if has_marker(l) {
        l.to_owned()
    } else {
        let mut s = String::from_str("✨ ");
        s.append(l);
        proof {
            reveal_strlit("✨ ");
            assert(s@ =~= marker_seq() + l@);
        }
        s
    }
}

/// Remove the selection marker from a label, by exact prefix match, once.
pub fn strip_label(l: &str) -> (r: String)
    ensures
        r@ == spec_strip(l@),
{
    if has_marker(l) {
        let n = l.unicode_len();
        l.substring_char(2, n).to_owned()
    } else {
        l.to_owned()
    }
}

/// Law: decoration is idempotent. Decorating an already decorated label
/// leaves it unchanged, so stripping once after decorating twice gives the
/// same label as stripping once after decorating once.
pub proof fn lemma_decoration_idempotent(l: Seq<char>)
    ensures
        spec_decorate(spec_decorate(l)) == spec_decorate(l),
        spec_strip(spec_decorate(spec_decorate(l))) == spec_strip(spec_decorate(l)),
{
    if !spec_has_marker(l) {
        assert((marker_seq() + l)[0] == '✨');
        assert((marker_seq() + l)[1] == ' ');
    }
}

/// Law: stripping recovers the base label from a decorated one, for any
/// base label that does not itself start with the marker.
pub proof fn lemma_strip_recovers(l: Seq<char>)
    requires
        !spec_has_marker(l),
    ensures
        spec_strip(spec_decorate(l)) == l,
{
    assert((marker_seq() + l)[0] == '✨');
    assert((marker_seq() + l)[1] == ' ');
    assert((marker_seq() + l).subrange(2, (marker_seq() + l).len() as int) =~= l);
}

/// The mathematical view of a menu: the base labels, the action codes, the
/// selection flags, and the selected index.
#[verifier::ext_equal]
pub ghost struct MenuView {
    pub labels: Seq<Seq<char>>,
    pub codes: Seq<MainMenuItemCode>,
    pub flags: Seq<bool>,
    pub sel: int,
}

impl MenuView {
    /// Well-formed view: the three sequences describe the same items, the
    /// selected index is in range, exactly the selected item is flagged,
    /// and no base label starts with the marker — so the base label is
    /// always recoverable by stripping the display label once.
    pub open spec fn wf(self) -> bool {
        &&& self.codes.len() == self.labels.len()
        &&& self.flags.len() == self.labels.len()
        &&& (self.labels.len() > 0 ==> 0 <= self.sel < self.labels.len())
        &&& forall|i: int|
            0 <= i < self.flags.len() ==> ((#[trigger] self.flags[i]) <==> i == self.sel)
        &&& forall|i: int| 0 <= i < self.labels.len() ==> !spec_has_marker(#[trigger] self.labels[i])
    }
}

/// The index after one forward step, wrapping to the front past the end.
pub open spec fn next_sel(s: int, n: int) -> int {
    if s + 1 < n {
        s + 1
    } else {
        0
    }
}

/// The index after one backward step, wrapping to the back at the front.
pub open spec fn prev_sel(s: int, n: int) -> int {
    if s == 0 {
        n - 1
    } else {
        s - 1
    }
}

/// One forward navigation step on the view: the old selected item loses its
/// flag, the next one gains it, and the selected index follows.
pub open spec fn menu_next(v: MenuView) -> MenuView {
    let j = next_sel(v.sel, v.flags.len() as int);
    MenuView { flags: v.flags.update(v.sel, false).update(j, true), sel: j, ..v }
}

/// One backward navigation step on the view, symmetric to `menu_next`.
pub open spec fn menu_prev(v: MenuView) -> MenuView {
    let j = prev_sel(v.sel, v.flags.len() as int);
    MenuView { flags: v.flags.update(v.sel, false).update(j, true), sel: j, ..v }
}

/// `k` forward navigation steps in a row.
pub open spec fn menu_next_iter(v: MenuView, k: nat) -> MenuView
    decreases k,
{
    if k == 0 {
        v
    } else {
        menu_next(menu_next_iter(v, (k - 1) as nat))
    }
}

/// The flag sequence with exactly position `j` set.
pub open spec fn one_hot(n: int, j: int) -> Seq<bool> {
    Seq::new(n as nat, |i: int| i == j)
}

proof fn lemma_cycle_shape(v: MenuView, k: nat)
    requires
        v.wf(),
        v.flags.len() > 0,
        k <= v.flags.len(),
    ensures
        ({
            let n = v.flags.len() as int;
            let w = menu_next_iter(v, k);
            &&& w.labels == v.labels
            &&& w.codes == v.codes
            &&& w.flags.len() == n
            &&& w.sel == if v.sel + k < n {
                v.sel + k
            } else {
                v.sel + k - n
            }
            &&& w.flags =~= one_hot(n, w.sel)
            &&& w.wf()
        }),
    decreases k,
{
    let n = v.flags.len() as int;
    if k == 0 {
        assert(v.flags =~= one_hot(n, v.sel));
    } else {
        lemma_cycle_shape(v, (k - 1) as nat);
        let w0 = menu_next_iter(v, (k - 1) as nat);
        let w = menu_next(w0);
        assert(w.flags =~= one_hot(n, w.sel));
    }
}

/// Law: a full cycle of forward navigation — one step per menu item —
/// returns the menu to its original view: the same selected index and the
/// same selection flag on every item.
pub proof fn lemma_full_cycle(v: MenuView)
    requires
        v.wf(),
        v.flags.len() > 0,
    ensures
        menu_next_iter(v, v.flags.len()) == v,
{
    lemma_cycle_shape(v, v.flags.len());
    let w = menu_next_iter(v, v.flags.len());
    assert(w.flags =~= v.flags);
    assert(w =~~= v);
}

/// Law: in a well-formed menu the base label of every item is recovered by
/// stripping its display label once, selected or not.
pub proof fn lemma_base_label_recoverable(m: MainMenu, i: int)
    requires
        m.wf(),
        0 <= i < m.items@.len(),
    ensures
        spec_strip(spec_display(m.items@[i])) == m.items@[i].text@,
{
    assert(m@.labels[i] == m.items@[i].text@);
    if m.items@[i].status is Selected {
        lemma_strip_recovers(m.items@[i].text@);
    }
}

impl View for MainMenu {
    type V = MenuView;

    open spec fn view(&self) -> MenuView {
        MenuView {
            labels: Seq::new(self.items@.len(), |i: int| self.items@[i].text@),
            codes: Seq::new(self.items@.len(), |i: int| self.items@[i].code),
            flags: Seq::new(self.items@.len(), |i: int| self.items@[i].status is Selected),
            sel: self.selected_index as int,
        }
    }
}

impl MainMenu {
    /// The menu invariant: its view is well formed.
    pub open spec fn wf(&self) -> bool {
        self@.wf()
    }

    /// The fixed menu of this tool: synchronize, credentials, exit; the
    /// first entry selected.
    pub fn new() -> (r: MainMenu)
        ensures
            r.wf(),
            r.items@.len() == 3,
            r.selected_index == 0,
            r.items@[0].text@ == "Synchronise Databases"@,
            r.items@[1].text@ == "Credentials"@,
            r.items@[2].text@ == "Exit"@,
            r.items@[0].code is SyncDB,
            r.items@[1].code is Credentials,
            r.items@[2].code is Exit,
            r.items@[0].status is Selected,
            r.items@[1].status is Unselected,
            r.items@[2].status is Unselected,
    {
        let mut items: Vec<MainMenuItem> = Vec::new();
        items.push(
            MainMenuItem::new(
                "Synchronise Databases",
                MainMenuItemCode::SyncDB,
                MainMenuItemStatus::Selected,
            ),
        );
        items.push(
            MainMenuItem::new(
                "Credentials",
                MainMenuItemCode::Credentials,
                MainMenuItemStatus::Unselected,
            ),
        );
        items.push(
            MainMenuItem::new("Exit", MainMenuItemCode::Exit, MainMenuItemStatus::Unselected),
        );
        let m = MainMenu { items, selected_index: 0 };
        proof {
            reveal_strlit("Synchronise Databases");
            reveal_strlit("Credentials");
            reveal_strlit("Exit");
            assert(!spec_has_marker(m@.labels[0]));
            assert(!spec_has_marker(m@.labels[1]));
            assert(!spec_has_marker(m@.labels[2]));
        }
        m
    }

    fn set_status(&mut self, i: usize, st: MainMenuItemStatus)
        requires
            i < old(self).items@.len(),
        ensures
            final(self).items@.len() == old(self).items@.len(),
            final(self).items@[i as int].text == old(self).items@[i as int].text,
            final(self).items@[i as int].code == old(self).items@[i as int].code,
            final(self).items@[i as int].status == st,
            forall|j: int|
                0 <= j < old(self).items@.len() && j != i ==> final(self).items@[j] == old(
                    self,
                ).items@[j],
            final(self).selected_index == old(self).selected_index,
    {
        let text = self.items[i].text.clone();
        let code = self.items[i].code.clone();
        self.items.set(i, MainMenuItem { text, code, status: st });
    }

    /// Advance the selection by one item, wrapping to the front past the
    /// last item; exactly the two involved selection flags change.
    pub fn next(&mut self)
        requires
            old(self).wf(),
            old(self).items@.len() > 0,
        ensures
            final(self)@ == menu_next(old(self)@),
            final(self).wf(),
            final(self).items@.len() == old(self).items@.len(),
    {
        let cur = self.selected_index;
        let n = self.items.len();
        let nxt = if cur + 1 < n {
            cur + 1
        } else {
            0
        };
        self.set_status(cur, MainMenuItemStatus::Unselected);
        self.set_status(nxt, MainMenuItemStatus::Selected);
        self.selected_index = nxt;
        proof {
            assert(self@ =~~= menu_next(old(self)@));
        }
    }

    /// Move the selection back by one item, wrapping to the last item at
    /// the front; exactly the two involved selection flags change.
    pub fn previous(&mut self)
        requires
            old(self).wf(),
            old(self).items@.len() > 0,
        ensures
            final(self)@ == menu_prev(old(self)@),
            final(self).wf(),
            final(self).items@.len() == old(self).items@.len(),
    {
        let cur = self.selected_index;
        let n = self.items.len();
        let prv = if cur == 0 {
            n - 1
        } else {
            cur - 1
        };
        self.set_status(cur, MainMenuItemStatus::Unselected);
        self.set_status(prv, MainMenuItemStatus::Selected);
        self.selected_index = prv;
        proof {
            assert(self@ =~~= menu_prev(old(self)@));
        }
    }

    /// The selected item; an `InvariantViolation` error on an empty menu,
    /// which only a zero-item construction could produce.
    pub fn selected(&self) -> (r: Result<&MainMenuItem, AppError>)
        requires
            self.wf(),
        ensures
            self.items@.len() > 0 ==> (r matches Ok(it) && *it == self.items@[self.selected_index as int]),
            self.items@.len() == 0 ==> (r matches Err(e) && e is InvariantViolation),
    {
        if self.items.len() == 0 {
            Err(AppError::InvariantViolation)
        } else {
            Ok(&self.items[self.selected_index])
        }
    }
}

impl MainMenuItem {
    /// Build an item from a base label, an action code and a flag.
    pub fn new(text: &str, code: MainMenuItemCode, status: MainMenuItemStatus) -> (r:
        MainMenuItem)
        ensures
            r.text@ == text@,
            r.code == code,
            r.status == status,
    {
        MainMenuItem { text: text.to_owned(), code, status }
    }

    /// An exact copy of the item.
    pub fn clone(&self) -> (r: MainMenuItem)
        ensures
            r == *self,
    {
        MainMenuItem { text: self.text.clone(), code: self.code.clone(), status: self.status.clone() }
    }

    /// The label to render: the base label, with the selection marker in
    /// front while the item is selected.
    pub fn display_label(&self) -> (r: String)
        ensures
            r@ == spec_display(*self),
    {
        match self.status {
            MainMenuItemStatus::Selected => decorate_label(self.text.as_str()),
            MainMenuItemStatus::Unselected => self.text.clone(),
        }
    }
}

impl MainMenuItemCode {
    /// An exact copy of the code.
    pub fn clone(&self) -> (r: MainMenuItemCode)
        ensures
            r == *self,
    {
        match self {
            MainMenuItemCode::SyncDB => MainMenuItemCode::SyncDB,
            MainMenuItemCode::Credentials => MainMenuItemCode::Credentials,
            MainMenuItemCode::Exit => MainMenuItemCode::Exit,
        }
    }
}

impl MainMenuItemStatus {
    /// An exact copy of the flag.
    pub fn clone(&self) -> (r: MainMenuItemStatus)
        ensures
            r == *self,
    {
        match self {
            MainMenuItemStatus::Selected => MainMenuItemStatus::Selected,
            MainMenuItemStatus::Unselected => MainMenuItemStatus::Unselected,
        }
    }
}

} // verus!
