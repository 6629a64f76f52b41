//! What holds of the navigation, whatever the screens.

use crate::app::state::{ListState, ScreenView, VISIBLE_LINES};
use crate::app::AppView;
use crate::ui::event::{KeyCode, KeyEvent};
use vstd::prelude::*;

verus! {

/// One step of navigation.
pub ghost enum Navigation {
    Push(ScreenView),
    Pop,
    Replace(ScreenView),
}

impl AppView {
    /// The application after the step `step`.
    pub open spec fn step(self, step: Navigation) -> AppView {
        match step {
            Navigation::Push(screen) => self.push_screen(screen),
            Navigation::Pop => self.pop_screen(),
            Navigation::Replace(screen) => self.replace_screen(screen),
        }
    }

    /// The application after the steps `steps`, taken in order.
    pub open spec fn steps(self, steps: Seq<Navigation>) -> AppView
        decreases steps.len(),
    {
        if steps.len() == 0 {
            self
        } else {
            self.steps(steps.drop_last()).step(steps.last())
        }
    }

    /// The application after the keys `keys`, pressed in order, where the
    /// event loop takes no notice of what a key leaves for it to do.
    pub open spec fn keys(self, keys: Seq<KeyEvent>) -> AppView
        decreases keys.len(),
    {
        if keys.len() == 0 {
            self
        } else {
            self.keys(keys.drop_last()).handle_input(keys.last()).0
        }
    }
}

/// Whatever steps of navigation are taken, in whatever order, there is
/// always a screen in use: the stack never gets empty.
pub proof fn pile_jamais_vide(app: AppView, steps: Seq<Navigation>)
    requires
        app.bien_forme(),
    ensures
        app.steps(steps).screen_stack.len() >= 1,
    decreases steps.len(),
{
    if steps.len() > 0 {
        pile_jamais_vide(app, steps.drop_last());
    }
}

/// A step back from the only screen changes nothing.
pub proof fn retour_sur_ecran_unique(app: AppView)
    requires
        app.screen_stack.len() == 1,
    ensures
        app.pop_screen() == app,
{
}

/// A step back from any other screen removes the top screen, and only it.
pub proof fn retour_sur_pile(app: AppView)
    requires
        app.screen_stack.len() > 1,
    ensures
        app.pop_screen().screen_stack == app.screen_stack.drop_last(),
        app.pop_screen().biblio == app.biblio,
        app.pop_screen().should_quit == app.should_quit,
{
}

/// Replacing the top screen keeps the height of the stack, and the screens
/// below the top.
pub proof fn remplacer_garde_la_hauteur(app: AppView, screen: ScreenView)
    requires
        app.bien_forme(),
    ensures
        app.replace_screen(screen).screen_stack.len() == app.screen_stack.len(),
        app.replace_screen(screen).current_screen() == screen,
        app.replace_screen(screen).screen_stack.drop_last() == app.screen_stack.drop_last(),
{
}

/// A key press leaves a screen in use.
pub proof fn touche_garde_un_ecran(app: AppView, key: KeyEvent)
    requires
        app.bien_forme(),
    ensures
        app.handle_input(key).0.bien_forme(),
{
}

/// Whatever keys are pressed, in whatever order, there is always a screen in
/// use.
pub proof fn touches_gardent_un_ecran(app: AppView, keys: Seq<KeyEvent>)
    requires
        app.bien_forme(),
    ensures
        app.keys(keys).bien_forme(),
    decreases keys.len(),
{
    if keys.len() > 0 {
        touches_gardent_un_ecran(app, keys.drop_last());
        touche_garde_un_ecran(app.keys(keys.drop_last()), keys.last());
    }
}

/// Only the quit chord, the escape key and the menu's last item raise the
/// quit flag: a key that is neither the quit chord, nor the escape key, nor
/// the enter key leaves the flag as it is.
pub proof fn quitter_sur_demande(app: AppView, key: KeyEvent)
    requires
        app.bien_forme(),
        !key.is_quit_chord(),
        key.code != KeyCode::Esc,
        key.code != KeyCode::Enter,
    ensures
        app.handle_input(key).0.should_quit == app.should_quit,
{
}

/// A selection on one of the rows of a list stays on one of them, whatever
/// key is pressed.
pub proof fn selection_reste_dans_la_liste(state: ListState, key: KeyEvent, count: nat)
    requires
        state.selected < count,
    ensures
        state.navigated(key, count).selected < count,
{
}

/// After a key on a list that has rows, the window shows the selection.
pub proof fn fenetre_montre_la_selection(state: ListState, key: KeyEvent, count: nat)
    requires
        count > 0,
    ensures
        ({
            let apres = state.navigated(key, count);
            apres.scroll_offset <= apres.selected < apres.scroll_offset + VISIBLE_LINES
        }),
{
}

/// The selection moves in a circle: down from the last row is the first
/// row, up from the first row is the last, and in between a step down and a
/// step up undo each other.
pub proof fn selection_circulaire(state: ListState, count: nat)
    requires
        state.selected < count,
        count <= usize::MAX,
    ensures
        state.selected == count - 1 ==> state.next(count).selected == 0,
        state.selected < count - 1 ==> state.next(count).selected == state.selected + 1,
        state.selected == 0 ==> state.prev(count).selected == count - 1,
        state.next(count).prev(count) == state,
        state.prev(count).next(count) == state,
{
    if state.selected + 1 == count {
        vstd::arithmetic::div_mod::lemma_mod_self_0(count as int);
    } else {
        vstd::arithmetic::div_mod::lemma_small_mod((state.selected + 1) as nat, count);
    }
    if state.selected == 0 {
        vstd::arithmetic::div_mod::lemma_mod_self_0(count as int);
    } else {
        vstd::arithmetic::div_mod::lemma_small_mod(state.selected as nat, count);
    }
}

} // verus!
