use background_game::ui::{
    button_background, button_border, button_layout, shows_start_pause_label, ButtonBackground,
    ButtonBorder, ButtonKind, ButtonWidth, GameMode, Interaction, UiButtonAction, UiGameState,
};

fn state(mode: GameMode, running: bool, defeated: bool) -> UiGameState {
    UiGameState { selected_mode: mode, is_running: running, is_defeated: defeated }
}

#[test]
fn default_ui_state_starts_in_paused_arcade_mode() {
    let state = UiGameState::default();

    assert_eq!(state.selected_mode, GameMode::Arcade);
    assert!(!state.is_running);
    assert!(!state.is_defeated);
}

#[test]
fn game_mode_labels_match_button_text() {
    assert_eq!(GameMode::Arcade.label(), "2D Arcade");
    assert_eq!(GameMode::SideScrolling.label(), "2D Side-Scrolling");
}

#[test]
fn button_color_reflects_state_interaction_and_action() {
    let running = state(GameMode::Arcade, true, false);
    let defeated = state(GameMode::Arcade, false, true);

    assert_eq!(
        button_background(UiButtonAction::SelectMode(GameMode::Arcade), Interaction::Idle, &running),
        ButtonBackground::ModeActive
    );
    assert_eq!(
        button_background(UiButtonAction::ToggleRunning, Interaction::Idle, &running),
        ButtonBackground::Pause
    );
    assert_eq!(
        button_background(UiButtonAction::ToggleRunning, Interaction::Hovered, &defeated),
        ButtonBackground::Disabled
    );
}

#[test]
fn border_color_highlights_hovered_and_selected_buttons() {
    let state = UiGameState::default();

    assert_eq!(
        button_border(UiButtonAction::NewGame, Interaction::Hovered, &state),
        ButtonBorder::Highlighted
    );
    assert_eq!(
        button_border(UiButtonAction::SelectMode(GameMode::Arcade), Interaction::Idle, &state),
        ButtonBorder::Selected
    );
}

#[test]
fn button_background_covers_every_branch() {
    let paused = state(GameMode::Arcade, false, false);
    let running = state(GameMode::Arcade, true, false);
    let side = state(GameMode::SideScrolling, false, false);

    assert_eq!(button_background(UiButtonAction::NewGame, Interaction::Pressed, &paused), ButtonBackground::ActionPressed);
    assert_eq!(button_background(UiButtonAction::ExitGame, Interaction::Pressed, &paused), ButtonBackground::ClosePressed);
    assert_eq!(button_background(UiButtonAction::ToggleRunning, Interaction::Pressed, &running), ButtonBackground::PauseHovered);
    assert_eq!(button_background(UiButtonAction::ToggleRunning, Interaction::Pressed, &paused), ButtonBackground::StartHovered);
    assert_eq!(
        button_background(UiButtonAction::SelectMode(GameMode::Arcade), Interaction::Pressed, &paused),
        ButtonBackground::ModePressed
    );
    assert_eq!(
        button_background(UiButtonAction::SelectMode(GameMode::Arcade), Interaction::Hovered, &side),
        ButtonBackground::ModeHovered
    );
    assert_eq!(
        button_background(UiButtonAction::SelectMode(GameMode::Arcade), Interaction::Idle, &side),
        ButtonBackground::ModeIdle
    );
    assert_eq!(button_background(UiButtonAction::NewGame, Interaction::Hovered, &paused), ButtonBackground::ActionHovered);
    assert_eq!(button_background(UiButtonAction::NewGame, Interaction::Idle, &paused), ButtonBackground::ActionIdle);
    assert_eq!(button_background(UiButtonAction::ExitGame, Interaction::Hovered, &paused), ButtonBackground::CloseHovered);
    assert_eq!(button_background(UiButtonAction::ExitGame, Interaction::Idle, &paused), ButtonBackground::CloseIdle);
    assert_eq!(button_background(UiButtonAction::ToggleRunning, Interaction::Hovered, &running), ButtonBackground::PauseHovered);
    assert_eq!(button_background(UiButtonAction::ToggleRunning, Interaction::Hovered, &paused), ButtonBackground::StartHovered);
    assert_eq!(button_background(UiButtonAction::ToggleRunning, Interaction::Idle, &paused), ButtonBackground::Start);
}

#[test]
fn defeated_start_button_has_disabled_border() {
    let defeated = state(GameMode::Arcade, false, true);
    assert_eq!(
        button_border(UiButtonAction::ToggleRunning, Interaction::Pressed, &defeated),
        ButtonBorder::Disabled
    );
    assert_eq!(
        button_border(UiButtonAction::SelectMode(GameMode::SideScrolling), Interaction::Idle, &defeated),
        ButtonBorder::Plain
    );
    assert_eq!(
        button_border(UiButtonAction::ExitGame, Interaction::Pressed, &defeated),
        ButtonBorder::Highlighted
    );
}

#[test]
fn presses_follow_the_panel_rules() {
    let mut s = UiGameState::default();
    assert!(!s.press(UiButtonAction::ToggleRunning));
    assert_eq!(s, state(GameMode::Arcade, true, false));
    assert_eq!(s.start_pause_label(), "Pause");

    s.press(UiButtonAction::ToggleRunning);
    assert_eq!(s, state(GameMode::Arcade, false, false));
    assert_eq!(s.start_pause_label(), "Start");

    s.press(UiButtonAction::ToggleRunning);
    s.press(UiButtonAction::SelectMode(GameMode::SideScrolling));
    assert_eq!(s, state(GameMode::SideScrolling, false, false));
    assert_eq!(s.mode_status_text(), "Mode: 2D Side-Scrolling");

    assert!(s.press(UiButtonAction::ExitGame));
    assert_eq!(s, state(GameMode::SideScrolling, false, false));
}

#[test]
fn defeat_blocks_start_until_new_game() {
    let mut s = state(GameMode::Arcade, true, false);
    s.detect_player_defeat(true);
    assert_eq!(s, state(GameMode::Arcade, false, true));
    assert!(s.shows_defeat_overlay());
    assert_eq!(s.defeat_overlay_text(), "Press New Game, then Start to play again.");
    assert_eq!(s.start_pause_label(), "Start");

    s.press(UiButtonAction::ToggleRunning);
    assert_eq!(s, state(GameMode::Arcade, false, true));

    s.press(UiButtonAction::NewGame);
    s.press(UiButtonAction::ToggleRunning);
    assert_eq!(s, state(GameMode::Arcade, true, false));
    assert!(s.gameplay_active());
    assert_eq!(s.defeat_overlay_text(), "");
}

#[test]
fn defeat_is_only_detected_in_arcade_mode() {
    let mut side = state(GameMode::SideScrolling, true, false);
    side.detect_player_defeat(true);
    assert_eq!(side, state(GameMode::SideScrolling, true, false));
    assert!(!side.gameplay_active());
    assert!(!side.arcade_hud_visible());

    let mut healthy = state(GameMode::Arcade, true, false);
    healthy.detect_player_defeat(false);
    assert_eq!(healthy, state(GameMode::Arcade, true, false));
    assert!(healthy.arcade_hud_visible());
}

#[test]
fn interactions_of_a_frame_apply_in_order() {
    let mut s = UiGameState::default();
    let events = vec![
        (Interaction::Hovered, UiButtonAction::ExitGame),
        (Interaction::Pressed, UiButtonAction::ToggleRunning),
        (Interaction::Idle, UiButtonAction::NewGame),
        (Interaction::Pressed, UiButtonAction::ExitGame),
        (Interaction::Pressed, UiButtonAction::SelectMode(GameMode::SideScrolling)),
        (Interaction::Pressed, UiButtonAction::ExitGame),
    ];
    let update = s.handle_button_interactions(&events);
    assert_eq!(update.exits, 2);
    assert!(update.edited);
    assert_eq!(s, state(GameMode::SideScrolling, false, false));
    assert_eq!(s.mode_status_text(), "Mode: 2D Side-Scrolling");
}

#[test]
fn hovering_and_blocked_presses_do_not_edit() {
    let mut defeated = state(GameMode::Arcade, false, true);
    let events = vec![
        (Interaction::Hovered, UiButtonAction::NewGame),
        (Interaction::Pressed, UiButtonAction::ToggleRunning),
        (Interaction::Pressed, UiButtonAction::ExitGame),
    ];
    let update = defeated.handle_button_interactions(&events);
    assert_eq!(update.exits, 1);
    assert!(!update.edited);
    assert_eq!(defeated, state(GameMode::Arcade, false, true));

    let mut paused = UiGameState::default();
    let update = paused.handle_button_interactions(&vec![(Interaction::Pressed, UiButtonAction::NewGame)]);
    assert!(update.edited);
    assert_eq!(paused, UiGameState::default());
    assert!(paused.press_edits(UiButtonAction::ToggleRunning));
    assert!(!paused.press_edits(UiButtonAction::ExitGame));
}

#[test]
fn button_layouts_by_kind() {
    let mode = button_layout(ButtonKind::Mode);
    assert_eq!(mode.min_width, ButtonWidth::Pixels(84));
    assert_eq!((mode.height_px, mode.font_size, mode.dark_text), (28, 10, false));

    let action = button_layout(ButtonKind::Action);
    assert_eq!(action.min_width, ButtonWidth::Percent(100));
    assert!(action.dark_text);

    let start = button_layout(ButtonKind::Start);
    assert_eq!(start.min_width, ButtonWidth::Percent(100));
    assert!(!start.dark_text);

    let close = button_layout(ButtonKind::Close);
    assert_eq!(close.min_width, ButtonWidth::Pixels(36));
    assert_eq!((close.height_px, close.font_size), (36, 14));

    assert!(shows_start_pause_label(UiButtonAction::ToggleRunning));
    assert!(!shows_start_pause_label(UiButtonAction::NewGame));
}
