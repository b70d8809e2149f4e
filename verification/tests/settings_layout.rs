use hachimi::il2cpp::hook::umamusume::DialogOptionHome::{
    apply_settings_toggles, apply_text_debug_toggles, AnisoLevel, BgSeason, FullScreenMode,
    GraphicsQuality, Language, MsaaQuality, ResolutionScaling, SettingsToggles, ShadowResolution,
    TextDebugFlags,
};
use hachimi::il2cpp::hook::umamusume::settings_layout::{
    read_settings_toggles, read_text_debug_toggles, settings_dialog_items, DialogCategory,
    DialogChoice, DialogGroup, DialogItem, DialogSettings, DialogSlider, DialogToggle,
};

fn settings(windows: bool) -> DialogSettings {
    let mut toggles = SettingsToggles::default();
    toggles.translator_mode = true;
    toggles.discord_rpc = true;
    let mut text_debug = TextDebugFlags::default();
    text_debug.text_debug = true;
    text_debug.text_log = true;
    DialogSettings {
        toggles,
        text_debug,
        language: Language::Spanish,
        msaa: MsaaQuality::_4x,
        aniso_level: AnisoLevel::Default,
        shadow_resolution: ShadowResolution::_1024,
        graphics_quality: GraphicsQuality::Max,
        physics_update_mode: None,
        bg_season: BgSeason::Winter,
        vsync_count: 1,
        full_screen_mode: FullScreenMode::FullScreenWindow,
        resolution_scaling: ResolutionScaling::ScaleToWindowSize,
        windows,
    }
}

#[test]
fn dialog_items_in_order() {
    let items = settings_dialog_items(&settings(false));
    assert_eq!(items.len(), 45);
    assert_eq!(items[0], DialogItem::Title(DialogCategory::General));
    assert_eq!(items[1], DialogItem::Choice { choice: DialogChoice::Language, selected: 5 });
    assert_eq!(items[5], DialogItem::Toggle { toggle: DialogToggle::TranslatorMode, on: true });
    assert_eq!(
        items[12],
        DialogItem::Slider { slider: DialogSlider::GuiScale, min: 25, max: 200, whole_numbers: true }
    );
    assert_eq!(items[13], DialogItem::Title(DialogCategory::Graphics));
    assert!(!items.iter().any(|i| matches!(i, DialogItem::Toggle { toggle: DialogToggle::DiscordRpc, .. })));
    assert_eq!(items[33], DialogItem::Title(DialogCategory::Advanced));
    assert_eq!(items[35], DialogItem::Toggle { toggle: DialogToggle::TextDebug, on: true });
}

#[test]
fn windows_items_shown_on_windows() {
    let items = settings_dialog_items(&settings(true));
    assert_eq!(items.len(), 53);
    assert_eq!(items[13], DialogItem::Toggle { toggle: DialogToggle::DiscordRpc, on: true });
    assert!(items.contains(&DialogItem::Group { group: DialogGroup::FullScreenMode, selected: 1 }));
    assert!(items.contains(&DialogItem::Group { group: DialogGroup::ResolutionScaling, selected: 2 }));
    assert!(items.contains(&DialogItem::Choice { choice: DialogChoice::VsyncCount, selected: 2 }));
    assert_eq!(DialogGroup::ResolutionScaling.option_keys().len(), 3);
}

#[test]
fn untouched_dialog_saves_nothing() {
    let c = settings(false);
    let items = settings_dialog_items(&c);
    let read = |t: DialogToggle| {
        items.iter().find_map(|i| match i {
            DialogItem::Toggle { toggle, on } if *toggle == t => Some(*on),
            _ => None,
        })
    };
    let readings = read_settings_toggles(read);
    assert_eq!(readings.discord_rpc, None);
    assert_eq!(readings.translator_mode, Some(true));
    assert_eq!(apply_settings_toggles(c.toggles, &readings), c.toggles);
    let mut flags = c.text_debug;
    apply_text_debug_toggles(&mut flags, &read_text_debug_toggles(read));
    assert_eq!(flags, c.text_debug);
}

#[test]
fn toggles_read_under_their_names() {
    assert_eq!(DialogToggle::DisableGui.game_object_name(), "hachimi_disable_gui");
    assert_eq!(DialogToggle::DisableGui.label_key(), "config_editor.disable_overlay");
    let readings = read_settings_toggles(|t: DialogToggle| Some(t.game_object_name() == "hachimi_ipv4_only"));
    assert_eq!(readings.ipv4_only, Some(true));
    assert_eq!(readings.enable_ipc, Some(false));
    assert_eq!(DialogSlider::VirtualResMult.label_key(), "config_editor.virtual_resolution_multiplier");
}
