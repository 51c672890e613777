//! The top-level interaction state machine: the current screen, the edit
//! buffer for the pair being composed, the menu, and the pair collection.
//!
//! One event is processed at a time; every transition is total over the
//! event set, and an event with no meaning on the current screen leaves the
//! state unchanged.

use vstd::prelude::*;

use crate::menu::MainMenu;
use crate::menu::MainMenuItemCode;
use crate::menu::menu_next;
use crate::menu::menu_prev;
use crate::pairs::Pairs;
use crate::AppError;

verus! {

/// The interaction mode the user is in.
#[derive(Debug, PartialEq, Eq, Structural, Clone, Copy)]
pub enum CurrentScreen {
    Main,
    Editing,
    Exiting,
}

/// Which edit field has input focus while a pair is being composed.
#[derive(Debug, PartialEq, Eq, Structural, Clone, Copy)]
pub enum CurrentlyEditing {
    Key,
    Value,
}

/// One discrete interaction event, as delivered by the input source.
#[derive(Debug, PartialEq, Eq, Structural, Clone, Copy)]
pub enum AppEvent {
    NavigateUp,
    NavigateDown,
    Confirm,
    Cancel,
    SwitchField,
    TextChar(char),
    Backspace,
    QuitKey,
    AcceptWithOutput,
    AcceptWithoutOutput,
    NewPairKey,
}

/// What the caller of the event loop has to do after a transition.
#[derive(Debug, PartialEq, Eq, Structural, Clone, Copy)]
pub enum AppOutcome {
    Continue,
    ExitWithOutput,
    ExitSilent,
}

/// The main screen: it holds the menu.
pub struct MainScreen {
    pub menu: MainMenu,
}

impl MainScreen {
    /// The fixed main screen of this tool.
    pub fn new() -> (r: MainScreen)
        ensures
            r.menu.wf(),
            r.menu.items@.len() == 3,
            r.menu.selected_index == 0,
            r.menu.items@[0].text@ == "Synchronise Databases"@,
            r.menu.items@[1].text@ == "Credentials"@,
            r.menu.items@[2].text@ == "Exit"@,
            r.menu.items@[0].code is SyncDB,
            r.menu.items@[1].code is Credentials,
            r.menu.items@[2].code is Exit,
            r.menu.items@[0].status is Selected,
            r.menu.items@[1].status is Unselected,
            r.menu.items@[2].status is Unselected,
    {
        MainScreen { menu: MainMenu::new() }
    }
}

/// Relies on `String::push`: it appends the given character at the end of
/// the string.
#[verifier::external_body]
fn string_push(s: &mut String, c: char)
    ensures
        final(s)@ == old(s)@.push(c),
{
    s.push(c);
}

/// Relies on `String::pop`: it removes and returns the last character, and
/// returns `None` on an empty string.
#[verifier::external_body]
fn string_pop(s: &mut String) -> (r: Option<char>)
    ensures
        old(s)@.len() == 0 ==> r is None && final(s)@ == old(s)@,
        old(s)@.len() > 0 ==> r == Some(old(s)@.last()) && final(s)@ == old(s)@.drop_last(),
{
    s.pop()
}

/// The whole interaction state.
pub struct App {
    pub key_input: String,
    pub value_input: String,
    pub pairs: Pairs,
    pub current_screen: CurrentScreen,
    pub currently_editing: Option<CurrentlyEditing>,
    pub main_screen: MainScreen,
}

/// The menu is the same before and after.
pub open spec fn same_menu(pre: App, post: App) -> bool {
    post.main_screen == pre.main_screen
}

/// The pair collection is the same before and after.
pub open spec fn same_pairs(pre: App, post: App) -> bool {
    post.pairs == pre.pairs
}

/// The edit buffer — both fields and the focus — is the same before and
/// after.
pub open spec fn same_buffer(pre: App, post: App) -> bool {
    &&& post.key_input == pre.key_input
    &&& post.value_input == pre.value_input
    &&& post.currently_editing == pre.currently_editing
}

/// Both edit fields are empty.
pub open spec fn buffer_empty(a: App) -> bool {
    a.key_input@ == Seq::<char>::empty() && a.value_input@ == Seq::<char>::empty()
}

/// The transition entered the editing screen: focus on the key field, both
/// fields empty, menu and pairs untouched.
pub open spec fn entered_editing(pre: App, post: App) -> bool {
    &&& post.current_screen is Editing
    &&& post.currently_editing == Some(CurrentlyEditing::Key)
    &&& buffer_empty(post)
    &&& same_menu(pre, post)
    &&& same_pairs(pre, post)
}

/// The focus after a switch-field event: key and value swap; without a
/// focus there is nothing to swap.
pub open spec fn toggled(o: Option<CurrentlyEditing>) -> Option<CurrentlyEditing> {
    match o {
        Some(CurrentlyEditing::Key) => Some(CurrentlyEditing::Value),
        Some(CurrentlyEditing::Value) => Some(CurrentlyEditing::Key),
        None => None,
    }
}

/// The transition relation of the state machine: how the state after an
/// event and the reported outcome relate to the state before, one clause
/// per row of the transition table; an unmapped event is an identity
/// transition.
pub open spec fn step_ok(pre: App, e: AppEvent, post: App, r: AppOutcome) -> bool {
    match pre.current_screen {
        CurrentScreen::Main => match e {
            AppEvent::NavigateDown => {
                &&& r is Continue
                &&& post.current_screen is Main
                &&& same_buffer(pre, post)
                &&& same_pairs(pre, post)
                &&& post.main_screen.menu@ == menu_next(pre.main_screen.menu@)
                &&& post.main_screen.menu.wf()
            },
            AppEvent::NavigateUp => {
                &&& r is Continue
                &&& post.current_screen is Main
                &&& same_buffer(pre, post)
                &&& same_pairs(pre, post)
                &&& post.main_screen.menu@ == menu_prev(pre.main_screen.menu@)
                &&& post.main_screen.menu.wf()
            },
            AppEvent::Confirm => {
                &&& r is Continue
                &&& same_buffer(pre, post)
                &&& same_pairs(pre, post)
                &&& same_menu(pre, post)
                &&& post.current_screen == if pre.main_screen.menu@.codes[pre.main_screen.menu@.sel] is Exit {
                    CurrentScreen::Exiting
                } else {
                    CurrentScreen::Main
                }
            },
            AppEvent::QuitKey => {
                &&& r is Continue
                &&& same_buffer(pre, post)
                &&& same_pairs(pre, post)
                &&& same_menu(pre, post)
                &&& post.current_screen is Exiting
            },
            AppEvent::NewPairKey => r is Continue && entered_editing(pre, post),
            _ => r is Continue && post == pre,
        },
        CurrentScreen::Editing => match e {
            AppEvent::SwitchField => {
                &&& r is Continue
                &&& post.current_screen is Editing
                &&& same_pairs(pre, post)
                &&& same_menu(pre, post)
                &&& post.key_input == pre.key_input
                &&& post.value_input == pre.value_input
                &&& post.currently_editing == toggled(pre.currently_editing)
            },
            AppEvent::TextChar(c) => {
                &&& r is Continue
                &&& post.current_screen is Editing
                &&& same_pairs(pre, post)
                &&& same_menu(pre, post)
                &&& post.currently_editing == pre.currently_editing
                &&& (pre.currently_editing == Some(CurrentlyEditing::Key) ==> post.key_input@
                    == pre.key_input@.push(c) && post.value_input == pre.value_input)
                &&& (pre.currently_editing == Some(CurrentlyEditing::Value) ==> post.value_input@
                    == pre.value_input@.push(c) && post.key_input == pre.key_input)
            },
            AppEvent::Backspace => {
                &&& r is Continue
                &&& post.current_screen is Editing
                &&& same_pairs(pre, post)
                &&& same_menu(pre, post)
                &&& post.currently_editing == pre.currently_editing
                &&& (pre.currently_editing == Some(CurrentlyEditing::Key) ==> post.key_input@
                    == dropped(pre.key_input@) && post.value_input == pre.value_input)
                &&& (pre.currently_editing == Some(CurrentlyEditing::Value) ==> post.value_input@
                    == dropped(pre.value_input@) && post.key_input == pre.key_input)
            },
            AppEvent::Confirm => {
                &&& r is Continue
                &&& post.current_screen is Main
                &&& post.currently_editing is None
                &&& buffer_empty(post)
                &&& same_menu(pre, post)
                &&& post.pairs@ == pre.pairs@.insert(pre.key_input@, pre.value_input@)
                &&& post.pairs.wf()
            },
            AppEvent::Cancel => {
                &&& r is Continue
                &&& post.current_screen is Main
                &&& post.currently_editing is None
                &&& buffer_empty(post)
                &&& same_menu(pre, post)
                &&& same_pairs(pre, post)
            },
            _ => r is Continue && post == pre,
        },
        CurrentScreen::Exiting => match e {
            AppEvent::AcceptWithOutput => r is ExitWithOutput && post == pre,
            AppEvent::AcceptWithoutOutput => r is ExitSilent && post == pre,
            AppEvent::NewPairKey => r is Continue && entered_editing(pre, post),
            _ => r is Continue && post == pre,
        },
    }
}

/// The focused field with its last character removed; an empty field stays
/// empty.
pub open spec fn dropped(s: Seq<char>) -> Seq<char> {
    if s.len() == 0 {
        s
    } else {
        s.drop_last()
    }
}

impl App {
    /// The state invariant: the menu is well formed and non-empty, keys in
    /// the collection are unique, and a field has focus exactly while the
    /// editing screen is active.
    pub open spec fn wf(&self) -> bool {
        &&& self.main_screen.menu.wf()
        &&& self.main_screen.menu.items@.len() > 0
        &&& self.pairs.wf()
        &&& (self.currently_editing is Some <==> self.current_screen is Editing)
    }

    /// The initial state: empty buffer and collection, main screen, no
    /// focus, the fixed menu.
    pub fn new() -> (r: App)
        ensures
            r.wf(),
            r.current_screen is Main,
            r.currently_editing is None,
            buffer_empty(r),
            r.pairs@ == Map::<Seq<char>, Seq<char>>::empty(),
            r.main_screen.menu.items@.len() == 3,
            r.main_screen.menu.selected_index == 0,
            r.main_screen.menu.items@[0].text@ == "Synchronise Databases"@,
            r.main_screen.menu.items@[1].text@ == "Credentials"@,
            r.main_screen.menu.items@[2].text@ == "Exit"@,
            r.main_screen.menu.items@[0].code is SyncDB,
            r.main_screen.menu.items@[1].code is Credentials,
            r.main_screen.menu.items@[2].code is Exit,
            r.main_screen.menu.items@[0].status is Selected,
            r.main_screen.menu.items@[1].status is Unselected,
            r.main_screen.menu.items@[2].status is Unselected,
    {
        App {
            key_input: String::new(),
            value_input: String::new(),
            pairs: Pairs::new(),
            current_screen: CurrentScreen::Main,
            currently_editing: None,
            main_screen: MainScreen::new(),
        }
    }

    /// Clear both edit fields and put the focus on the key field.
    pub fn begin_edit(&mut self)
        ensures
            final(self).key_input@ == Seq::<char>::empty(),
            final(self).value_input@ == Seq::<char>::empty(),
            final(self).currently_editing == Some(CurrentlyEditing::Key),
            final(self).current_screen == old(self).current_screen,
            final(self).pairs == old(self).pairs,
            final(self).main_screen == old(self).main_screen,
    {
        self.key_input = String::new();
        self.value_input = String::new();
        self.currently_editing = Some(CurrentlyEditing::Key);
    }

    /// Swap the focus between the key and the value field; an
    /// `InvariantViolation` error, and no change, when nothing has focus.
    pub fn toggle_editing(&mut self) -> (r: Result<(), AppError>)
        ensures
            old(self).currently_editing is None ==> (r matches Err(e) && e is InvariantViolation
                && *final(self) == *old(self)),
            old(self).currently_editing is Some ==> r is Ok && final(self).currently_editing
                == toggled(old(self).currently_editing),
            final(self).key_input == old(self).key_input,
            final(self).value_input == old(self).value_input,
            final(self).current_screen == old(self).current_screen,
            final(self).pairs == old(self).pairs,
            final(self).main_screen == old(self).main_screen,
    {
        match self.currently_editing {
            Some(CurrentlyEditing::Key) => {
                self.currently_editing = Some(CurrentlyEditing::Value);
                Ok(())
            },
            Some(CurrentlyEditing::Value) => {
                self.currently_editing = Some(CurrentlyEditing::Key);
                Ok(())
            },
            None => Err(AppError::InvariantViolation),
        }
    }

    /// Append a character to whichever field has focus.
    pub fn push_char(&mut self, c: char)
        requires
            old(self).currently_editing is Some,
        ensures
            old(self).currently_editing == Some(CurrentlyEditing::Key)
                ==> final(self).key_input@ == old(self).key_input@.push(c)
                && final(self).value_input == old(self).value_input,
            old(self).currently_editing == Some(CurrentlyEditing::Value)
                ==> final(self).value_input@ == old(self).value_input@.push(c)
                && final(self).key_input == old(self).key_input,
            final(self).currently_editing == old(self).currently_editing,
            final(self).current_screen == old(self).current_screen,
            final(self).pairs == old(self).pairs,
            final(self).main_screen == old(self).main_screen,
    {
        match self.currently_editing {
            Some(CurrentlyEditing::Key) => string_push(&mut self.key_input, c),
            Some(CurrentlyEditing::Value) => string_push(&mut self.value_input, c),
            None => (),
        }
    }

    /// Remove the last character of whichever field has focus; a no-op on
    /// an empty field.
    pub fn pop_char(&mut self)
        requires
            old(self).currently_editing is Some,
        ensures
            old(self).currently_editing == Some(CurrentlyEditing::Key)
                ==> final(self).key_input@ == dropped(old(self).key_input@)
                && final(self).value_input == old(self).value_input,
            old(self).currently_editing == Some(CurrentlyEditing::Value)
                ==> final(self).value_input@ == dropped(old(self).value_input@)
                && final(self).key_input == old(self).key_input,
            final(self).currently_editing == old(self).currently_editing,
            final(self).current_screen == old(self).current_screen,
            final(self).pairs == old(self).pairs,
            final(self).main_screen == old(self).main_screen,
    {
        match self.currently_editing {
            Some(CurrentlyEditing::Key) => {
                let _ = string_pop(&mut self.key_input);
            },
            Some(CurrentlyEditing::Value) => {
                let _ = string_pop(&mut self.value_input);
            },
            None => (),
        }
    }

    /// Hand the composed pair out and drain both fields: a consuming read.
    pub fn take_pair(&mut self) -> (r: (String, String))
        ensures
            take_rel(*old(self), *final(self), r),
            final(self).currently_editing == old(self).currently_editing,
            final(self).current_screen == old(self).current_screen,
            final(self).pairs == old(self).pairs,
            final(self).main_screen == old(self).main_screen,
    {
        let k = self.key_input.clone();
        let v = self.value_input.clone();
        self.key_input = String::new();
        self.value_input = String::new();
        (k, v)
    }

    /// Move the composed pair into the collection, clear the buffer and
    /// drop the focus; an existing key is overwritten.
    pub fn save_key_value(&mut self)
        requires
            old(self).pairs.wf(),
        ensures
            final(self).pairs@ == old(self).pairs@.insert(
                old(self).key_input@,
                old(self).value_input@,
            ),
            final(self).pairs.wf(),
            buffer_empty(*final(self)),
            final(self).currently_editing is None,
            final(self).current_screen == old(self).current_screen,
            final(self).main_screen == old(self).main_screen,
    {
        let (k, v) = self.take_pair();
        self.pairs.insert(k, v);
        self.currently_editing = None;
    }

    /// Route one event according to the current screen, mutate the state as
    /// the transition table says, and report what the caller has to do.
    pub fn handle_event(&mut self, e: AppEvent) -> (r: AppOutcome)
        requires
            old(self).wf(),
        ensures
            final(self).wf(),
            step_ok(*old(self), e, *final(self), r),
    {
        match self.current_screen {
            CurrentScreen::Main => match e {
                AppEvent::NavigateDown => {
                    self.main_screen.menu.next();
                    AppOutcome::Continue
                },
                AppEvent::NavigateUp => {
                    self.main_screen.menu.previous();
                    AppOutcome::Continue
                },
                AppEvent::Confirm => {
                    let exit = match self.main_screen.menu.selected() {
                        Ok(it) => matches!(it.code, MainMenuItemCode::Exit),
                        Err(_) => false,
                    };
                    if exit {
                        self.current_screen = CurrentScreen::Exiting;
                    }
                    AppOutcome::Continue
                },
                AppEvent::QuitKey => {
                    self.current_screen = CurrentScreen::Exiting;
                    AppOutcome::Continue
                },
                AppEvent::NewPairKey => {
                    self.begin_edit();
                    self.current_screen = CurrentScreen::Editing;
                    AppOutcome::Continue
                },
                _ => AppOutcome::Continue,
            },
            CurrentScreen::Editing => match e {
                AppEvent::SwitchField => {
                    let _ = self.toggle_editing();
                    AppOutcome::Continue
                },
                AppEvent::TextChar(c) => {
                    self.push_char(c);
                    AppOutcome::Continue
                },
                AppEvent::Backspace => {
                    self.pop_char();
                    AppOutcome::Continue
                },
                AppEvent::Confirm => {
                    self.save_key_value();
                    self.current_screen = CurrentScreen::Main;
                    AppOutcome::Continue
                },
                AppEvent::Cancel => {
                    self.key_input = String::new();
                    self.value_input = String::new();
                    self.currently_editing = None;
                    self.current_screen = CurrentScreen::Main;
                    AppOutcome::Continue
                },
                _ => AppOutcome::Continue,
            },
            CurrentScreen::Exiting => match e {
                AppEvent::AcceptWithOutput => AppOutcome::ExitWithOutput,
                AppEvent::AcceptWithoutOutput => AppOutcome::ExitSilent,
                AppEvent::NewPairKey => {
                    self.begin_edit();
                    self.current_screen = CurrentScreen::Editing;
                    AppOutcome::Continue
                },
                _ => AppOutcome::Continue,
            },
        }
    }
}

/// What one `take_pair` call does: the result is what the fields held, and
/// both fields are empty afterwards.
pub open spec fn take_rel(pre: App, post: App, r: (String, String)) -> bool {
    &&& r.0 == pre.key_input
    &&& r.1 == pre.value_input
    &&& buffer_empty(post)
}

/// Law: the edit buffer is drained, not peeked. When one `take_pair` call
/// is followed at once by another, the second yields the empty pair.
pub proof fn lemma_take_pair_drains(
    a1: App,
    a2: App,
    a3: App,
    r1: (String, String),
    r2: (String, String),
)
    requires
        take_rel(a1, a2, r1),
        take_rel(a2, a3, r2),
    ensures
        r2.0@ == Seq::<char>::empty(),
        r2.1@ == Seq::<char>::empty(),
{
}

/// Law: every transition that enters the editing screen puts the focus on
/// the key field and leaves both edit fields empty, whatever they held
/// before.
pub proof fn lemma_entering_editing_resets(pre: App, e: AppEvent, post: App, r: AppOutcome)
    requires
        step_ok(pre, e, post, r),
        !(pre.current_screen is Editing),
        post.current_screen is Editing,
    ensures
        post.currently_editing == Some(CurrentlyEditing::Key),
        buffer_empty(post),
{
}

} // verus!
