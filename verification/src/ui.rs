//! State of the control panel: selected game mode, running and defeat flags,
//! how button presses change them, and what the panel shows for each state.

use vstd::prelude::*;

verus! {

/// The game modes that the control panel offers.
#[derive(Debug, Clone, Copy, PartialEq, Eq, Structural)]
pub enum GameMode {
    Arcade,
    SideScrolling,
}

impl GameMode {
    /// The text of the mode's button.
    pub fn label(self) -> (text: &'static str)
        ensures
            self == GameMode::Arcade ==> text@ == "2D Arcade"@,
            self == GameMode::SideScrolling ==> text@ == "2D Side-Scrolling"@,
    {
        match self {
            GameMode::Arcade => "2D Arcade",
            GameMode::SideScrolling => "2D Side-Scrolling",
        }
    }
}

/// What the control panel knows about the current session.
#[derive(Debug, Clone, Copy, PartialEq, Eq, Structural)]
pub struct UiGameState {
    pub selected_mode: GameMode,
    pub is_running: bool,
    pub is_defeated: bool,
}

/// The buttons of the control panel.
#[derive(Debug, Clone, Copy, PartialEq, Eq, Structural)]
pub enum UiButtonAction {
    SelectMode(GameMode),
    NewGame,
    ToggleRunning,
    ExitGame,
}

/// The pointer's relation to a button in the current frame.
#[derive(Debug, Clone, Copy, PartialEq, Eq, Structural)]
pub enum Interaction {
    Pressed,
    Hovered,
    Idle,
}

/// The fill colours a panel button can take.
#[derive(Debug, Clone, Copy, PartialEq, Eq, Structural)]
pub enum ButtonBackground {
    /// The start/pause button while the player is defeated.
    Disabled,
    ModeIdle,
    ModeHovered,
    ModePressed,
    ModeActive,
    ActionIdle,
    ActionHovered,
    ActionPressed,
    Start,
    StartHovered,
    Pause,
    PauseHovered,
    CloseIdle,
    CloseHovered,
    ClosePressed,
}

/// The border colours a panel button can take.
#[derive(Debug, Clone, Copy, PartialEq, Eq, Structural)]
pub enum ButtonBorder {
    /// The start/pause button while the player is defeated.
    Disabled,
    /// Hovered or pressed buttons.
    Highlighted,
    /// The button of the selected mode.
    Selected,
    Plain,
}

/// A session is consistent when a defeated player is never running.
pub open spec fn consistent(s: UiGameState) -> bool {
    s.is_defeated ==> !s.is_running
}

/// The state after one press of `action`.
pub open spec fn after_press(s: UiGameState, action: UiButtonAction) -> UiGameState {
    match action {
        UiButtonAction::SelectMode(mode) => UiGameState {
            selected_mode: mode,
            is_running: false,
            is_defeated: false,
        },
        UiButtonAction::NewGame => UiGameState { is_running: false, is_defeated: false, ..s },
        UiButtonAction::ToggleRunning => if s.is_defeated {
            s
        } else {
            UiGameState { is_running: !s.is_running, ..s }
        },
        UiButtonAction::ExitGame => s,
    }
}

/// The state after one interaction event: only presses change anything.
pub open spec fn after_event(s: UiGameState, event: (Interaction, UiButtonAction)) -> UiGameState {
    if event.0 == Interaction::Pressed {
        after_press(s, event.1)
    } else {
        s
    }
}

/// The state after a sequence of interaction events, taken in order.
pub open spec fn after_events(s: UiGameState, events: Seq<(Interaction, UiButtonAction)>) -> UiGameState
    decreases events.len(),
{
    if events.len() == 0 {
        s
    } else {
        after_event(after_events(s, events.drop_last()), events.last())
    }
}

/// Whether an interaction event asks the application to quit.
pub open spec fn requests_exit(event: (Interaction, UiButtonAction)) -> bool {
    event.0 == Interaction::Pressed && event.1 == UiButtonAction::ExitGame
}

/// How many events of a sequence ask the application to quit.
pub open spec fn exit_requests(events: Seq<(Interaction, UiButtonAction)>) -> nat
    decreases events.len(),
{
    if events.len() == 0 {
        0
    } else {
        exit_requests(events.drop_last()) + if requests_exit(events.last()) { 1nat } else { 0nat }
    }
}

/// Whether a press writes the session, even when the values stay the same:
/// mode selection and New Game always do, Start/Pause unless the player is
/// defeated, Exit never.
pub open spec fn edits(s: UiGameState, action: UiButtonAction) -> bool {
    match action {
        UiButtonAction::SelectMode(_) => true,
        UiButtonAction::NewGame => true,
        UiButtonAction::ToggleRunning => !s.is_defeated,
        UiButtonAction::ExitGame => false,
    }
}

/// Whether some event of a sequence writes the session.
pub open spec fn any_edit(s: UiGameState, events: Seq<(Interaction, UiButtonAction)>) -> bool
    decreases events.len(),
{
    if events.len() == 0 {
        false
    } else {
        let before = after_events(s, events.drop_last());
        any_edit(s, events.drop_last())
            || (events.last().0 == Interaction::Pressed && edits(before, events.last().1))
    }
}

/// What a frame of button interactions did.
#[derive(Debug, Clone, Copy, PartialEq, Eq, Structural)]
pub struct PanelUpdate {
    /// How many presses asked the application to quit.
    pub exits: usize,
    /// Whether some press wrote the session.
    pub edited: bool,
}

/// The state after a frame in which the player's health was read.
pub open spec fn after_health_check(s: UiGameState, player_depleted: bool) -> UiGameState {
    if s.selected_mode == GameMode::Arcade && !s.is_defeated && player_depleted {
        UiGameState { is_running: false, is_defeated: true, ..s }
    } else {
        s
    }
}

/// Whether gameplay advances: the arcade mode is selected and running.
pub open spec fn gameplay_active_spec(s: UiGameState) -> bool {
    s.selected_mode == GameMode::Arcade && s.is_running
}

/// The text of the start/pause button: "Pause" exactly while the game runs.
pub open spec fn start_pause_text(s: UiGameState) -> Seq<char> {
    if s.is_running && !s.is_defeated {
        "Pause"@
    } else {
        "Start"@
    }
}

/// The fill colour of a button.
pub open spec fn background_of(action: UiButtonAction, interaction: Interaction, s: UiGameState) -> ButtonBackground {
    if action == UiButtonAction::ToggleRunning && s.is_defeated {
        ButtonBackground::Disabled
    } else if interaction == Interaction::Pressed {
        match action {
            UiButtonAction::NewGame => ButtonBackground::ActionPressed,
            UiButtonAction::ExitGame => ButtonBackground::ClosePressed,
            UiButtonAction::ToggleRunning => if s.is_running {
                ButtonBackground::PauseHovered
            } else {
                ButtonBackground::StartHovered
            },
            UiButtonAction::SelectMode(_) => ButtonBackground::ModePressed,
        }
    } else {
        let hovered = interaction == Interaction::Hovered;
        match action {
            UiButtonAction::SelectMode(mode) => if s.selected_mode == mode {
                ButtonBackground::ModeActive
            } else if hovered {
                ButtonBackground::ModeHovered
            } else {
                ButtonBackground::ModeIdle
            },
            UiButtonAction::NewGame => if hovered {
                ButtonBackground::ActionHovered
            } else {
                ButtonBackground::ActionIdle
            },
            UiButtonAction::ExitGame => if hovered {
                ButtonBackground::CloseHovered
            } else {
                ButtonBackground::CloseIdle
            },
            UiButtonAction::ToggleRunning => if s.is_running {
                if hovered { ButtonBackground::PauseHovered } else { ButtonBackground::Pause }
            } else {
                if hovered { ButtonBackground::StartHovered } else { ButtonBackground::Start }
            },
        }
    }
}

/// The border colour of a button.
pub open spec fn border_of(action: UiButtonAction, interaction: Interaction, s: UiGameState) -> ButtonBorder {
    if action == UiButtonAction::ToggleRunning && s.is_defeated {
        ButtonBorder::Disabled
    } else if interaction == Interaction::Hovered || interaction == Interaction::Pressed {
        ButtonBorder::Highlighted
    } else if action == UiButtonAction::SelectMode(s.selected_mode) {
        ButtonBorder::Selected
    } else {
        ButtonBorder::Plain
    }
}

impl Default for UiGameState {
    /// A new session: arcade mode, paused, not defeated.
    fn default() -> (s: Self)
        ensures
            s == (UiGameState { selected_mode: GameMode::Arcade, is_running: false, is_defeated: false }),
            consistent(s),
    {
        UiGameState { selected_mode: GameMode::Arcade, is_running: false, is_defeated: false }
    }
}

impl UiGameState {
    /// Applies one press of a panel button; returns whether the press asks
    /// the application to quit.
    pub fn press(&mut self, action: UiButtonAction) -> (exit: bool)
        ensures
            *final(self) == after_press(*old(self), action),
            exit == (action == UiButtonAction::ExitGame),
    {
        match action {
            UiButtonAction::SelectMode(mode) => {
                self.selected_mode = mode;
                self.is_running = false;
                self.is_defeated = false;
                false
            },
            UiButtonAction::NewGame => {
                self.is_running = false;
                self.is_defeated = false;
                false
            },
            UiButtonAction::ToggleRunning => {
                if !self.is_defeated {
                    self.is_running = !self.is_running;
                }
                false
            },
            UiButtonAction::ExitGame => true,
        }
    }

    /// Whether pressing `action` now writes the session.
    pub fn press_edits(&self, action: UiButtonAction) -> (edit: bool)
        ensures
            edit == edits(*self, action),
    {
        match action {
            UiButtonAction::SelectMode(_) => true,
            UiButtonAction::NewGame => true,
            UiButtonAction::ToggleRunning => !self.is_defeated,
            UiButtonAction::ExitGame => false,
        }
    }

    /// Applies the interaction events of a frame in order; reports how many
    /// of them ask the application to quit and whether any wrote the session.
    pub fn handle_button_interactions(&mut self, events: &Vec<(Interaction, UiButtonAction)>) -> (update: PanelUpdate)
        ensures
            *final(self) == after_events(*old(self), events@),
            update.exits == exit_requests(events@),
            update.edited == any_edit(*old(self), events@),
    {
        let mut exits: usize = 0;
        let mut edited = false;
        let mut i: usize = 0;
        while i < events.len()
            invariant
                0 <= i <= events.len(),
                *self == after_events(*old(self), events@.take(i as int)),
                exits == exit_requests(events@.take(i as int)),
                edited == any_edit(*old(self), events@.take(i as int)),
                exits <= i,
            decreases events.len() - i,
        {
            let (interaction, action) = events[i];
            proof {
                assert(events@.take(i + 1).drop_last() =~= events@.take(i as int));
                assert(events@.take(i + 1).last() == events@[i as int]);
            }
            if interaction == Interaction::Pressed {
                if self.press_edits(action) {
                    edited = true;
                }
                let exit = self.press(action);
                if exit {
                    exits = exits + 1;
                }
            }
            i = i + 1;
        }
        proof {
            assert(events@.take(events@.len() as int) =~= events@);
        }
        PanelUpdate { exits, edited }
    }

    /// Records a defeat when the arcade player's health is used up.
    pub fn detect_player_defeat(&mut self, player_depleted: bool)
        ensures
            *final(self) == after_health_check(*old(self), player_depleted),
    {
        if self.selected_mode != GameMode::Arcade || self.is_defeated {
            return;
        }
        if player_depleted {
            self.is_running = false;
            self.is_defeated = true;
        }
    }

    /// Whether gameplay advances in this frame.
    pub fn gameplay_active(&self) -> (active: bool)
        ensures
            active == gameplay_active_spec(*self),
    {
        self.selected_mode == GameMode::Arcade && self.is_running
    }

    /// Whether the arcade heads-up panels (minimap, health) are shown.
    pub fn arcade_hud_visible(&self) -> (visible: bool)
        ensures
            visible == (self.selected_mode == GameMode::Arcade),
    {
        self.selected_mode == GameMode::Arcade
    }

    /// Whether the defeat overlay is shown.
    pub fn shows_defeat_overlay(&self) -> (shown: bool)
        ensures
            shown == (self.selected_mode == GameMode::Arcade && self.is_defeated),
    {
        self.selected_mode == GameMode::Arcade && self.is_defeated
    }

    /// The text of the defeat overlay.
    pub fn defeat_overlay_text(&self) -> (text: String)
        ensures
            self.selected_mode == GameMode::Arcade && self.is_defeated
                ==> text@ == "Press New Game, then Start to play again."@,
            !(self.selected_mode == GameMode::Arcade && self.is_defeated) ==> text@ == Seq::<char>::empty(),
    {
        if self.shows_defeat_overlay() {
            String::from_str("Press New Game, then Start to play again.")
        } else {
            String::new()
        }
    }

    /// The text of the start/pause button.
    pub fn start_pause_label(&self) -> (text: &'static str)
        ensures
            text@ == start_pause_text(*self),
    {
        if self.is_defeated {
            "Start"
        } else if self.is_running {
            "Pause"
        } else {
            "Start"
        }
    }

    /// The text of the mode status label.
    pub fn mode_status_text(&self) -> (text: String)
        ensures
            self.selected_mode == GameMode::Arcade ==> text@ == "Mode: "@ + "2D Arcade"@,
            self.selected_mode == GameMode::SideScrolling ==> text@ == "Mode: "@ + "2D Side-Scrolling"@,
    {
        let prefix = String::from_str("Mode: ");
        prefix.concat(self.selected_mode.label())
    }
}

/// The fill colour of a panel button for the given interaction and session.
pub fn button_background(action: UiButtonAction, interaction: Interaction, state: &UiGameState) -> (color: ButtonBackground)
    ensures
        color == background_of(action, interaction, *state),
{
    if action == UiButtonAction::ToggleRunning && state.is_defeated {
        return ButtonBackground::Disabled;
    }
    if interaction == Interaction::Pressed {
        return match action {
            UiButtonAction::NewGame => ButtonBackground::ActionPressed,
            UiButtonAction::ExitGame => ButtonBackground::ClosePressed,
            UiButtonAction::ToggleRunning => if state.is_running {
                ButtonBackground::PauseHovered
            } else {
                ButtonBackground::StartHovered
            },
            UiButtonAction::SelectMode(_) => ButtonBackground::ModePressed,
        };
    }
    let hovered = interaction == Interaction::Hovered;
    match action {
        UiButtonAction::SelectMode(mode) => if state.selected_mode == mode {
            ButtonBackground::ModeActive
        } else if hovered {
            ButtonBackground::ModeHovered
        } else {
            ButtonBackground::ModeIdle
        },
        UiButtonAction::NewGame => if hovered {
            ButtonBackground::ActionHovered
        } else {
            ButtonBackground::ActionIdle
        },
        UiButtonAction::ExitGame => if hovered {
            ButtonBackground::CloseHovered
        } else {
            ButtonBackground::CloseIdle
        },
        UiButtonAction::ToggleRunning => if state.is_running && hovered {
            ButtonBackground::PauseHovered
        } else if state.is_running {
            ButtonBackground::Pause
        } else if hovered {
            ButtonBackground::StartHovered
        } else {
            ButtonBackground::Start
        },
    }
}

/// The border colour of a panel button for the given interaction and session.
pub fn button_border(action: UiButtonAction, interaction: Interaction, state: &UiGameState) -> (color: ButtonBorder)
    ensures
        color == border_of(action, interaction, *state),
{
    if action == UiButtonAction::ToggleRunning && state.is_defeated {
        return ButtonBorder::Disabled;
    }
    if interaction == Interaction::Hovered || interaction == Interaction::Pressed {
        return ButtonBorder::Highlighted;
    }
    match action {
        UiButtonAction::SelectMode(mode) => if state.selected_mode == mode {
            ButtonBorder::Selected
        } else {
            ButtonBorder::Plain
        },
        _ => ButtonBorder::Plain,
    }
}

/// The looks of the panel buttons.
#[derive(Debug, Clone, Copy, PartialEq, Eq, Structural)]
pub enum ButtonKind {
    Mode,
    Action,
    Start,
    Close,
}

/// A button's minimum width: in pixels or as a share of its row.
#[derive(Debug, Clone, Copy, PartialEq, Eq, Structural)]
pub enum ButtonWidth {
    Pixels(u32),
    Percent(u32),
}

/// Size and text style of a panel button.
#[derive(Debug, Clone, Copy, PartialEq, Eq, Structural)]
pub struct ButtonLayout {
    pub min_width: ButtonWidth,
    pub height_px: u32,
    pub font_size: u32,
    /// Dark text, for the light action button; light text otherwise.
    pub dark_text: bool,
}

/// The size and text style of a button of the given kind.
pub fn button_layout(kind: ButtonKind) -> (layout: ButtonLayout)
    ensures
        layout.min_width == (match kind {
            ButtonKind::Mode => ButtonWidth::Pixels(84),
            ButtonKind::Action | ButtonKind::Start => ButtonWidth::Percent(100),
            ButtonKind::Close => ButtonWidth::Pixels(36),
        }),
        layout.height_px == (if kind == ButtonKind::Close { 36u32 } else { 28u32 }),
        layout.font_size == (if kind == ButtonKind::Close { 14u32 } else { 10u32 }),
        layout.dark_text == (kind == ButtonKind::Action),
{
    let min_width = match kind {
        ButtonKind::Mode => ButtonWidth::Pixels(84),
        ButtonKind::Action | ButtonKind::Start => ButtonWidth::Percent(100),
        ButtonKind::Close => ButtonWidth::Pixels(36),
    };
    let height_px: u32 = match kind {
        ButtonKind::Close => 36,
        _ => 28,
    };
    let font_size: u32 = if kind == ButtonKind::Close { 14 } else { 10 };
    ButtonLayout { min_width, height_px, font_size, dark_text: kind == ButtonKind::Action }
}

/// Whether a button's text follows the start/pause state.
pub fn shows_start_pause_label(action: UiButtonAction) -> (follows: bool)
    ensures
        follows == (action == UiButtonAction::ToggleRunning),
{
    action == UiButtonAction::ToggleRunning
}

/// Pressing Start/Pause twice leaves the session as it was.
pub proof fn lemma_toggle_twice_restores(s: UiGameState)
    ensures
        after_press(after_press(s, UiButtonAction::ToggleRunning), UiButtonAction::ToggleRunning) == s,
{
}

/// From any session, New Game followed by Start leaves the game running,
/// undefeated, in the mode that was selected.
pub proof fn lemma_new_game_then_start_runs(s: UiGameState)
    ensures
        ({
            let t = after_press(after_press(s, UiButtonAction::NewGame), UiButtonAction::ToggleRunning);
            &&& t.is_running
            &&& !t.is_defeated
            &&& t.selected_mode == s.selected_mode
            &&& start_pause_text(t) == "Pause"@
        }),
{
}

/// Selecting a mode always switches to it, paused and undefeated.
pub proof fn lemma_select_mode_pauses(s: UiGameState, mode: GameMode)
    ensures
        after_press(s, UiButtonAction::SelectMode(mode))
            == (UiGameState { selected_mode: mode, is_running: false, is_defeated: false }),
{
}

/// While the player is defeated, Start/Pause does nothing.
pub proof fn lemma_defeat_blocks_start(s: UiGameState)
    requires
        s.is_defeated,
    ensures
        after_press(s, UiButtonAction::ToggleRunning) == s,
{
}

/// The exit button leaves the session unchanged.
pub proof fn lemma_exit_keeps_state(s: UiGameState)
    ensures
        after_press(s, UiButtonAction::ExitGame) == s,
{
}

/// A defeat detected in the arcade mode stops gameplay and is kept until
/// New Game or a mode is selected.
pub proof fn lemma_defeat_stops_gameplay(s: UiGameState, depleted_later: bool)
    requires
        s.selected_mode == GameMode::Arcade,
        !s.is_defeated,
    ensures
        ({
            let t = after_health_check(s, true);
            &&& t.is_defeated
            &&& !gameplay_active_spec(t)
            &&& after_health_check(t, depleted_later) == t
            &&& after_press(t, UiButtonAction::ToggleRunning) == t
            &&& start_pause_text(t) == "Start"@
        }),
{
}

/// A frame whose presses write nothing leaves the session as it was.
pub proof fn lemma_no_edit_no_change(s: UiGameState, events: Seq<(Interaction, UiButtonAction)>)
    requires
        !any_edit(s, events),
    ensures
        after_events(s, events) == s,
    decreases events.len(),
{
    if events.len() > 0 {
        lemma_no_edit_no_change(s, events.drop_last());
    }
}

/// Only presses of the exit button ask to quit: the number of exit
/// requests of a frame is the number of its events that press Exit.
pub proof fn lemma_exit_requests_count_pressed_exits(events: Seq<(Interaction, UiButtonAction)>)
    ensures
        exit_requests(events) == events.filter(
            |e: (Interaction, UiButtonAction)| e.0 == Interaction::Pressed && e.1 == UiButtonAction::ExitGame,
        ).len(),
    decreases events.len(),
{
    reveal_with_fuel(Seq::filter, 1);
    if events.len() > 0 {
        lemma_exit_requests_count_pressed_exits(events.drop_last());
    }
}

/// A frame without presses neither quits nor changes the session.
pub proof fn lemma_unpressed_events_do_nothing(s: UiGameState, events: Seq<(Interaction, UiButtonAction)>)
    requires
        forall|i: int| 0 <= i < events.len() ==> #[trigger] events[i].0 != Interaction::Pressed,
    ensures
        exit_requests(events) == 0,
        after_events(s, events) == s,
        !any_edit(s, events),
    decreases events.len(),
{
    if events.len() > 0 {
        let prefix = events.drop_last();
        assert forall|i: int| 0 <= i < prefix.len() implies #[trigger] prefix[i].0 != Interaction::Pressed by {
            assert(prefix[i] == events[i]);
        }
        lemma_unpressed_events_do_nothing(s, prefix);
        assert(events.last() == events[events.len() - 1]);
    }
}

/// A health check never starts the game and never changes the mode; with a
/// player who is not used up it changes nothing, and it only ever records a
/// defeat of an arcade player who is used up.
pub proof fn lemma_health_check_only_records_defeat(s: UiGameState, depleted: bool)
    ensures
        after_health_check(s, false) == s,
        after_health_check(s, depleted).selected_mode == s.selected_mode,
        after_health_check(s, depleted).is_running ==> s.is_running,
        after_health_check(s, depleted) != s ==> {
            &&& depleted
            &&& s.selected_mode == GameMode::Arcade
            &&& !s.is_defeated
            &&& after_health_check(s, depleted).is_defeated
            &&& !after_health_check(s, depleted).is_running
        },
        (depleted && s.selected_mode == GameMode::Arcade) ==> after_health_check(s, depleted).is_defeated,
        (depleted && s.selected_mode == GameMode::Arcade && consistent(s))
            ==> !after_health_check(s, depleted).is_running,
{
}

/// While the player is defeated the Start/Pause button is drawn disabled
/// whatever the pointer does, and no other button or state is ever drawn
/// disabled.
pub proof fn lemma_defeated_start_is_disabled(action: UiButtonAction, interaction: Interaction, s: UiGameState)
    ensures
        s.is_defeated ==> background_of(UiButtonAction::ToggleRunning, interaction, s) == ButtonBackground::Disabled,
        s.is_defeated ==> border_of(UiButtonAction::ToggleRunning, interaction, s) == ButtonBorder::Disabled,
        background_of(action, interaction, s) == ButtonBackground::Disabled
            <==> (action == UiButtonAction::ToggleRunning && s.is_defeated),
        border_of(action, interaction, s) == ButtonBorder::Disabled
            <==> (action == UiButtonAction::ToggleRunning && s.is_defeated),
        interaction == Interaction::Pressed && !(action == UiButtonAction::ToggleRunning && s.is_defeated)
            ==> border_of(action, interaction, s) == ButtonBorder::Highlighted,
{
}

/// Every operation keeps a consistent session consistent: a defeated
/// player is never running.
pub proof fn lemma_operations_keep_consistency(
    s: UiGameState,
    action: UiButtonAction,
    depleted: bool,
    events: Seq<(Interaction, UiButtonAction)>,
)
    requires
        consistent(s),
    ensures
        consistent(after_press(s, action)),
        consistent(after_health_check(s, depleted)),
        consistent(after_events(s, events)),
    decreases events.len(),
{
    if events.len() > 0 {
        lemma_operations_keep_consistency(s, action, depleted, events.drop_last());
        let mid = after_events(s, events.drop_last());
        lemma_operations_keep_consistency(mid, events.last().1, depleted, Seq::empty());
    }
}

} // verus!
