//! The main menu: Play starts the game, Quit ends it.
use vstd::prelude::*;
use crate::states::GameState;

verus! {

/// What the pointer is doing to a button this frame.
#[derive(Clone, Copy, Debug, PartialEq, Eq, Structural)]
pub enum ButtonInteraction {
    Pressed,
    Hovered,
    Idle,
}

/// What a main-menu button does.
#[derive(Clone, Copy, Debug, PartialEq, Eq, Structural)]
pub enum MenuButtonAction {
    Play,
    Quit,
}

/// Some button in the list is pressed.
pub open spec fn any_pressed(buttons: Seq<ButtonInteraction>) -> bool {
    exists|j: int| 0 <= j < buttons.len() && buttons[j] == ButtonInteraction::Pressed
}

/// How many of the buttons are pressed and do `action`.
pub open spec fn count_pressed(buttons: Seq<(ButtonInteraction, MenuButtonAction)>, action: MenuButtonAction) -> nat
    decreases buttons.len(),
{
    if buttons.len() == 0 {
        0
    } else {
        count_pressed(buttons.drop_last(), action) + (if buttons.last() == (ButtonInteraction::Pressed, action) {
            1nat
        } else {
            0nat
        })
    }
}

/// What the menu's buttons ask for this frame: the state to move to, and how
/// many requests to exit the application were made.
#[derive(Clone, Copy, Debug, PartialEq, Eq, Structural)]
pub struct MenuOutcome {
    pub next_state: Option<GameState>,
    pub exit_requests: usize,
}

/// Each pressed Play button starts the game; each pressed Quit button asks the
/// application to exit.
pub fn button_action(buttons: &[(ButtonInteraction, MenuButtonAction)]) -> (out: MenuOutcome)
    ensures
        out.next_state is Some <==> exists|i: int|
            0 <= i < buttons@.len() && #[trigger] buttons@[i] == (ButtonInteraction::Pressed, MenuButtonAction::Play),
        out.next_state is Some ==> out.next_state == Some(GameState::Playing),
        out.exit_requests > 0 <==> exists|i: int|
            0 <= i < buttons@.len() && #[trigger] buttons@[i] == (ButtonInteraction::Pressed, MenuButtonAction::Quit),
        out.exit_requests <= buttons@.len(),
        out.next_state == (if count_pressed(buttons@, MenuButtonAction::Play) > 0 {
            Some(GameState::Playing)
        } else {
            None::<GameState>
        }),
        out.exit_requests == count_pressed(buttons@, MenuButtonAction::Quit),
{
    let mut plays: usize = 0;
    let mut exits: usize = 0;
    let mut k: usize = 0;
    while k < buttons.len()
        invariant
            k <= buttons@.len(),
            plays == count_pressed(buttons@.take(k as int), MenuButtonAction::Play),
            exits == count_pressed(buttons@.take(k as int), MenuButtonAction::Quit),
            plays + exits <= k,
        decreases buttons@.len() - k,
    {
        proof {
            assert(buttons@.take(k + 1).drop_last() =~= buttons@.take(k as int));
            assert(buttons@.take(k + 1).last() == buttons@[k as int]);
            lemma_counts_bounded(buttons@.take(k as int));
        }
        let (interaction, action) = buttons[k];
        if interaction == ButtonInteraction::Pressed {
            match action {
                MenuButtonAction::Play => {
                    plays = plays + 1;
                },
                MenuButtonAction::Quit => {
                    exits = exits + 1;
                },
            }
        }
        k = k + 1;
    }
    proof {
        assert(buttons@.take(buttons@.len() as int) =~= buttons@);
        lemma_count_pressed_finds(buttons@, MenuButtonAction::Play);
        lemma_count_pressed_finds(buttons@, MenuButtonAction::Quit);
        lemma_count_pressed_bounded(buttons@, MenuButtonAction::Quit);
    }
    MenuOutcome { next_state: if plays > 0 { Some(GameState::Playing) } else { None }, exit_requests: exits }
}

/// Only pressed buttons act: a button counts for `action` exactly when it is
/// pressed and does `action`, so the count is positive exactly when such a
/// button is in the list, and a list in which no button is pressed counts
/// nothing.
pub proof fn lemma_count_pressed_finds(buttons: Seq<(ButtonInteraction, MenuButtonAction)>, action: MenuButtonAction)
    ensures
        count_pressed(buttons, action) > 0 <==> exists|i: int|
            0 <= i < buttons.len() && #[trigger] buttons[i] == (ButtonInteraction::Pressed, action),
        (forall|i: int| 0 <= i < buttons.len() ==> (#[trigger] buttons[i]).0 != ButtonInteraction::Pressed)
            ==> count_pressed(buttons, action) == 0,
    decreases buttons.len(),
{
    if buttons.len() > 0 {
        let front = buttons.drop_last();
        lemma_count_pressed_finds(front, action);
        if exists|i: int| 0 <= i < front.len() && #[trigger] front[i] == (ButtonInteraction::Pressed, action) {
            let i = choose|i: int| 0 <= i < front.len() && #[trigger] front[i] == (ButtonInteraction::Pressed, action);
            assert(buttons[i] == front[i]);
        }
        if exists|i: int| 0 <= i < buttons.len() && #[trigger] buttons[i] == (ButtonInteraction::Pressed, action) {
            let i = choose|i: int| 0 <= i < buttons.len() && #[trigger] buttons[i] == (ButtonInteraction::Pressed, action);
            if i < buttons.len() - 1 {
                assert(front[i] == buttons[i]);
            }
        }
        if forall|i: int| 0 <= i < buttons.len() ==> (#[trigger] buttons[i]).0 != ButtonInteraction::Pressed {
            assert forall|i: int| 0 <= i < front.len() implies (#[trigger] front[i]).0 != ButtonInteraction::Pressed by {
                assert(front[i] == buttons[i]);
            }
            assert(buttons[buttons.len() - 1] == buttons.last());
        }
    }
}

/// No more buttons count for an action than there are buttons.
proof fn lemma_count_pressed_bounded(buttons: Seq<(ButtonInteraction, MenuButtonAction)>, action: MenuButtonAction)
    ensures
        count_pressed(buttons, action) <= buttons.len(),
    decreases buttons.len(),
{
    if buttons.len() > 0 {
        lemma_count_pressed_bounded(buttons.drop_last(), action);
    }
}

/// Play and Quit presses together are no more than the buttons.
proof fn lemma_counts_bounded(buttons: Seq<(ButtonInteraction, MenuButtonAction)>)
    ensures
        count_pressed(buttons, MenuButtonAction::Play) + count_pressed(buttons, MenuButtonAction::Quit) <= buttons.len(),
    decreases buttons.len(),
{
    if buttons.len() > 0 {
        lemma_counts_bounded(buttons.drop_last());
    }
}

} // verus!
